//! Human-readable rendering of decoded events: one deterministic line per
//! event, with literal fallback tokens for absent fields.  Rendering never
//! fails.

use vstd::prelude::*;

use crate::decode::EventV;
use crate::event::{
    BarConfigEventInfo, BarConfigEventInfoV, BindingChange, BindingEventInfo, BindingEventInfoV,
    Event, ModeEventInfo, ModeEventInfoV, OutputChange, OutputEventInfo, OutputEventInfoV,
    ShutdownChange, ShutdownEventInfo, ShutdownEventInfoV, WindowChange, WindowEventInfo,
    WindowEventInfoV, WorkspaceChange, WorkspaceEventInfo, WorkspaceEventInfoV,
};
use crate::reply::{Node, NodeV};
use vstd::string::StringExecFns;
use vstd::string::StrSliceExecFns;

verus! {

// ---------------------------------------------------------------------------
// Decimal numbers
// ---------------------------------------------------------------------------

pub open spec fn digit_char(d: int) -> char {
    if d == 0 {
        '0'
    } else if d == 1 {
        '1'
    } else if d == 2 {
        '2'
    } else if d == 3 {
        '3'
    } else if d == 4 {
        '4'
    } else if d == 5 {
        '5'
    } else if d == 6 {
        '6'
    } else if d == 7 {
        '7'
    } else if d == 8 {
        '8'
    } else {
        '9'
    }
}

/// The decimal digits of a non-negative number, most significant first.
pub open spec fn dec_digits(n: int) -> Seq<char>
    decreases n,
{
    if n < 10 {
        seq![digit_char(n)]
    } else {
        dec_digits(n / 10).push(digit_char(n % 10))
    }
}

/// The decimal rendering of an integer: a minus sign for negative values,
/// then the digits, no leading zeros.
pub open spec fn dec_str(x: int) -> Seq<char> {
    if x < 0 {
        seq!['-'] + dec_digits(-x)
    } else {
        dec_digits(x)
    }
}

fn digit_char_exec(d: u64) -> (c: char)
    requires
        d < 10,
    ensures
        c == digit_char(d as int),
{
    if d == 0 {
        '0'
    } else if d == 1 {
        '1'
    } else if d == 2 {
        '2'
    } else if d == 3 {
        '3'
    } else if d == 4 {
        '4'
    } else if d == 5 {
        '5'
    } else if d == 6 {
        '6'
    } else if d == 7 {
        '7'
    } else if d == 8 {
        '8'
    } else {
        '9'
    }
}

fn push_digits(out: &mut String, n: u64)
    ensures
        final (out)@ == old(out)@ + dec_digits(n as int),
    decreases n,
{
    if n < 10 {
        push_char(out, digit_char_exec(n));
    } else {
        push_digits(out, n / 10);
        push_char(out, digit_char_exec(n % 10));
    }
}

/// The decimal rendering of an integer.
fn i64_dec(x: i64) -> (s: String)
    ensures
        s@ == dec_str(x as int),
{
    let mut out = String::new();
    if x >= 0 {
        push_digits(&mut out, x as u64);
    } else {
        push_char(&mut out, '-');
        let m: u64 = ((-(x + 1)) as u64) + 1;
        assert(m == -(x as int));
        push_digits(&mut out, m);
    }
    proof {
        assert(out@ =~= dec_str(x as int));
    }
    out
}

// ---------------------------------------------------------------------------
// Name escaping
// ---------------------------------------------------------------------------

/// How one character appears inside a quoted name: quotes and backslashes
/// get a backslash before them, everything else stands as it is.
pub open spec fn esc_char(c: char) -> Seq<char> {
    if c == '"' || c == '\\' {
        seq!['\\', c]
    } else {
        seq![c]
    }
}

/// A text with its quotes and backslashes escaped.
pub open spec fn escape(s: Seq<char>) -> Seq<char>
    decreases s.len(),
{
    if s.len() == 0 {
        Seq::empty()
    } else {
        escape(s.drop_last()) + esc_char(s.last())
    }
}

/// Relies on `String::push`: appends one character.
#[verifier::external_body]
fn push_char(out: &mut String, c: char)
    ensures
        final (out)@ == old(out)@ + seq![c],
{
    out.push(c);
}

proof fn lemma_escape_step(s: Seq<char>, i: int)
    requires
        0 <= i < s.len(),
    ensures
        escape(s.take(i + 1)) == escape(s.take(i)) + esc_char(s[i]),
{
    assert(s.take(i + 1).drop_last() =~= s.take(i));
    assert(s.take(i + 1).last() == s[i]);
}

fn append_escaped(out: &mut String, s: &str)
    ensures
        final (out)@ == old(out)@ + escape(s@),
{
    let ghost base = out@;
    let n = s.unicode_len();
    assert(s@.take(0) =~= Seq::<char>::empty());
    for i in 0..n
        invariant
            n == s@.len(),
            out@ == base + escape(s@.take(i as int)),
    {
        let c = s.get_char(i);
        let ghost before = out@;
        if c == '"' || c == '\\' {
            push_char(out, '\\');
        }
        push_char(out, c);
        proof {
            lemma_escape_step(s@, i as int);
            assert(out@ =~= base + escape(s@.take(i + 1)));
        }
    }
    proof {
        assert(s@.take(n as int) =~= s@);
    }
}

// ---------------------------------------------------------------------------
// Node snapshots
// ---------------------------------------------------------------------------

/// How an optional node name appears in a workspace line.
pub open spec fn opt_name_text(name: Option<Seq<char>>) -> Seq<char> {
    match name {
        None => "None"@,
        Some(s) => "Some(\""@ + escape(s) + "\")"@,
    }
}

/// How a node appears in a workspace line: its name and its identifier.
pub open spec fn node_text(n: NodeV) -> Seq<char> {
    opt_name_text(n.name) + " ("@ + dec_str(n.id) + ")"@
}

/// How an optional workspace snapshot appears: the literal token `unknown`
/// stands in for name and identifier jointly when the snapshot is absent.
pub open spec fn opt_node_text(n: Option<NodeV>) -> Seq<char> {
    match n {
        None => "unknown"@,
        Some(node) => node_text(node),
    }
}

fn append_opt_name(out: &mut String, name: &Option<String>)
    ensures
        final (out)@ == old(out)@ + opt_name_text(
            match *name {
                Some(s) => Some(s@),
                None => None,
            },
        ),
{
    match name {
        None => {
            out.append("None");
        },
        Some(s) => {
            out.append("Some(\"");
            append_escaped(out, s.as_str());
            out.append("\")");
            proof {
                assert(out@ =~= old(out)@ + ("Some(\""@ + escape(s@) + "\")"@));
            }
        },
    }
}

fn append_opt_node(out: &mut String, n: &Option<Node>)
    ensures
        final (out)@ == old(out)@ + opt_node_text(
            match *n {
                Some(node) => Some(node@),
                None => None,
            },
        ),
{
    match n {
        None => {
            out.append("unknown");
        },
        Some(node) => {
            append_opt_name(out, &node.name);
            out.append(" (");
            let d = i64_dec(node.id);
            out.append(d.as_str());
            out.append(")");
            proof {
                assert(out@ =~= old(out)@ + node_text(node@));
            }
        },
    }
}

// ---------------------------------------------------------------------------
// Discriminator labels
// ---------------------------------------------------------------------------

/// The capitalized label of a workspace change.
pub open spec fn workspace_change_label(c: WorkspaceChange) -> Seq<char> {
    match c {
        WorkspaceChange::Focus => "Focus"@,
        WorkspaceChange::Init => "Init"@,
        WorkspaceChange::Empty => "Empty"@,
        WorkspaceChange::Urgent => "Urgent"@,
        WorkspaceChange::Rename => "Rename"@,
        WorkspaceChange::Reload => "Reload"@,
        WorkspaceChange::Restored => "Restored"@,
        WorkspaceChange::Move => "Move"@,
        WorkspaceChange::Unknown => "Unknown"@,
    }
}

fn workspace_change_label_str(c: &WorkspaceChange) -> (r: &'static str)
    ensures
        r@ == workspace_change_label(*c),
{
    match c {
        WorkspaceChange::Focus => "Focus",
        WorkspaceChange::Init => "Init",
        WorkspaceChange::Empty => "Empty",
        WorkspaceChange::Urgent => "Urgent",
        WorkspaceChange::Rename => "Rename",
        WorkspaceChange::Reload => "Reload",
        WorkspaceChange::Restored => "Restored",
        WorkspaceChange::Move => "Move",
        WorkspaceChange::Unknown => "Unknown",
    }
}

/// The capitalized label of a window change.
pub open spec fn window_change_label(c: WindowChange) -> Seq<char> {
    match c {
        WindowChange::New => "New"@,
        WindowChange::Close => "Close"@,
        WindowChange::Focus => "Focus"@,
        WindowChange::Title => "Title"@,
        WindowChange::FullscreenMode => "FullscreenMode"@,
        WindowChange::Move => "Move"@,
        WindowChange::Floating => "Floating"@,
        WindowChange::Urgent => "Urgent"@,
        WindowChange::Mark => "Mark"@,
        WindowChange::Unknown => "Unknown"@,
    }
}

fn window_change_label_str(c: &WindowChange) -> (r: &'static str)
    ensures
        r@ == window_change_label(*c),
{
    match c {
        WindowChange::New => "New",
        WindowChange::Close => "Close",
        WindowChange::Focus => "Focus",
        WindowChange::Title => "Title",
        WindowChange::FullscreenMode => "FullscreenMode",
        WindowChange::Move => "Move",
        WindowChange::Floating => "Floating",
        WindowChange::Urgent => "Urgent",
        WindowChange::Mark => "Mark",
        WindowChange::Unknown => "Unknown",
    }
}

/// The capitalized label of a binding change.
pub open spec fn binding_change_label(c: BindingChange) -> Seq<char> {
    match c {
        BindingChange::Run => "Run"@,
        BindingChange::Unknown => "Unknown"@,
    }
}

fn binding_change_label_str(c: &BindingChange) -> (r: &'static str)
    ensures
        r@ == binding_change_label(*c),
{
    match c {
        BindingChange::Run => "Run",
        BindingChange::Unknown => "Unknown",
    }
}

/// The lower-case text of an output change.
pub open spec fn output_change_text(c: OutputChange) -> Seq<char> {
    match c {
        OutputChange::Unspecified => "unspecified"@,
        OutputChange::Unknown => "unknown"@,
    }
}

/// The lower-case text of a binding change.
pub open spec fn binding_change_text(c: BindingChange) -> Seq<char> {
    match c {
        BindingChange::Run => "run"@,
        BindingChange::Unknown => "unknown"@,
    }
}

/// The lower-case text of a shutdown change.
pub open spec fn shutdown_change_text(c: ShutdownChange) -> Seq<char> {
    match c {
        ShutdownChange::Restart => "restart"@,
        ShutdownChange::Exit => "exit"@,
        ShutdownChange::Unknown => "unknown"@,
    }
}

impl OutputChange {
    /// The lower-case text of this change.
    pub fn render(&self) -> (r: String)
        ensures
            r@ == output_change_text(*self),
    {
        let t: &'static str = match self {
            OutputChange::Unspecified => "unspecified",
            OutputChange::Unknown => "unknown",
        };
        String::from_str(t)
    }
}

impl BindingChange {
    /// The lower-case text of this change.
    pub fn render(&self) -> (r: String)
        ensures
            r@ == binding_change_text(*self),
    {
        let t: &'static str = match self {
            BindingChange::Run => "run",
            BindingChange::Unknown => "unknown",
        };
        String::from_str(t)
    }
}

impl ShutdownChange {
    /// The lower-case text of this change.
    pub fn render(&self) -> (r: String)
        ensures
            r@ == shutdown_change_text(*self),
    {
        let t: &'static str = match self {
            ShutdownChange::Restart => "restart",
            ShutdownChange::Exit => "exit",
            ShutdownChange::Unknown => "unknown",
        };
        String::from_str(t)
    }
}

// ---------------------------------------------------------------------------
// Modifier joins
// ---------------------------------------------------------------------------

/// Texts joined by `+`, with nothing around a single element and nothing at
/// all for none.
pub open spec fn join_plus(parts: Seq<Seq<char>>) -> Seq<char>
    decreases parts.len(),
{
    if parts.len() == 0 {
        Seq::empty()
    } else if parts.len() == 1 {
        parts.last()
    } else {
        join_plus(parts.drop_last()) + "+"@ + parts.last()
    }
}

proof fn lemma_join_plus_step(parts: Seq<Seq<char>>, i: int)
    requires
        1 <= i < parts.len(),
    ensures
        join_plus(parts.take(i + 1)) == join_plus(parts.take(i)) + "+"@ + parts[i],
{
    assert(parts.take(i + 1).drop_last() =~= parts.take(i));
    assert(parts.take(i + 1).last() == parts[i]);
}

fn append_join_plus(out: &mut String, parts: &Vec<String>)
    ensures
        final (out)@ == old(out)@ + join_plus(parts.deep_view()),
{
    let ghost base = out@;
    let ghost t = parts.deep_view();
    let n = parts.len();
    assert(t.take(0) =~= Seq::<Seq<char>>::empty());
    for i in 0..n
        invariant
            n == parts.len(),
            t == parts.deep_view(),
            t.len() == parts@.len(),
            forall|k: int| 0 <= k < parts@.len() ==> t[k] == parts@[k]@,
            out@ == base + join_plus(t.take(i as int)),
    {
        if i > 0 {
            out.append("+");
        }
        out.append(parts[i].as_str());
        proof {
            if i > 0 {
                lemma_join_plus_step(t, i as int);
            } else {
                assert(t.take(1).last() == t[0]);
            }
            assert(out@ =~= base + join_plus(t.take(i + 1)));
        }
    }
    proof {
        assert(t.take(n as int) =~= t);
    }
}

// ---------------------------------------------------------------------------
// Event lines
// ---------------------------------------------------------------------------

pub open spec fn spec_render_workspace(e: WorkspaceEventInfoV) -> Seq<char> {
    workspace_change_label(e.change) + " change from "@ + opt_node_text(e.old) + " to "@
        + opt_node_text(e.current)
}

pub open spec fn spec_render_output(e: OutputEventInfoV) -> Seq<char> {
    output_change_text(e.change) + " output event"@
}

pub open spec fn spec_render_mode(e: ModeEventInfoV) -> Seq<char> {
    e.change + " mode"@
}

pub open spec fn spec_render_window(e: WindowEventInfoV) -> Seq<char> {
    window_change_label(e.change) + " event for window "@ + (match e.container.name {
        Some(s) => s,
        None => "untitled"@,
    }) + "; id: "@ + dec_str(e.container.id)
}

pub open spec fn spec_render_bar_config(e: BarConfigEventInfoV) -> Seq<char> {
    "bar id: "@ + e.bar_config.id + "; mode: "@ + e.bar_config.mode + "; position: "@
        + e.bar_config.position + "; status command: "@ + e.bar_config.status_command
}

pub open spec fn spec_render_binding(e: BindingEventInfoV) -> Seq<char> {
    binding_change_label(e.change) + " '"@ + e.binding.command + "' "@ + join_plus(
        e.binding.event_state_mask,
    ) + "+"@ + (match e.binding.symbol {
        Some(s) => s,
        None => Seq::empty(),
    })
}

pub open spec fn spec_render_shutdown(e: ShutdownEventInfoV) -> Seq<char> {
    shutdown_change_text(e.change) + " event"@
}

pub open spec fn spec_render_event(e: EventV) -> Seq<char> {
    match e {
        EventV::WorkspaceEvent(i) => spec_render_workspace(i),
        EventV::OutputEvent(i) => spec_render_output(i),
        EventV::ModeEvent(i) => spec_render_mode(i),
        EventV::WindowEvent(i) => spec_render_window(i),
        EventV::BarConfigEvent(i) => spec_render_bar_config(i),
        EventV::BindingEvent(i) => spec_render_binding(i),
        EventV::ShutdownEvent(i) => spec_render_shutdown(i),
    }
}

// ---------------------------------------------------------------------------
// Rendering laws
// ---------------------------------------------------------------------------

/// A workspace event whose snapshots are both absent renders with the
/// literal token `unknown` standing in for each of them jointly.
pub proof fn lemma_workspace_render_unknown(e: WorkspaceEventInfoV)
    requires
        e.current is None,
        e.old is None,
    ensures
        spec_render_workspace(e) == workspace_change_label(e.change)
            + " change from unknown to unknown"@,
{
    reveal_strlit(" change from ");
    reveal_strlit("unknown");
    reveal_strlit(" to ");
    reveal_strlit(" change from unknown to unknown");
    assert(spec_render_workspace(e) =~= workspace_change_label(e.change)
        + " change from unknown to unknown"@);
}

/// A binding event without a symbol still renders the separator after the
/// modifier join: its line ends with a trailing `+` and an empty symbol.
pub proof fn lemma_binding_render_trailing_separator(e: BindingEventInfoV)
    requires
        e.binding.symbol is None,
    ensures
        spec_render_binding(e).len() > 0,
        spec_render_binding(e).last() == '+',
{
    reveal_strlit("+");
    let s = spec_render_binding(e);
    let prefix = binding_change_label(e.change) + " '"@ + e.binding.command + "' "@ + join_plus(
        e.binding.event_state_mask,
    );
    assert(s =~= prefix + "+"@);
    assert(s.last() == '+');
}

impl WorkspaceEventInfo {
    /// The one-line description of this event.
    pub fn render(&self) -> (r: String)
        ensures
            r@ == spec_render_workspace(self@),
    {
        let mut out = String::new();
        out.append(workspace_change_label_str(&self.change));
        out.append(" change from ");
        append_opt_node(&mut out, &self.old);
        out.append(" to ");
        append_opt_node(&mut out, &self.current);
        proof {
            assert(out@ =~= spec_render_workspace(self@));
        }
        out
    }
}

impl OutputEventInfo {
    /// The one-line description of this event.
    pub fn render(&self) -> (r: String)
        ensures
            r@ == spec_render_output(self@),
    {
        let mut out = self.change.render();
        out.append(" output event");
        out
    }
}

impl ModeEventInfo {
    /// The one-line description of this event.
    pub fn render(&self) -> (r: String)
        ensures
            r@ == spec_render_mode(self@),
    {
        let mut out = self.change.clone();
        out.append(" mode");
        out
    }
}

impl WindowEventInfo {
    /// The one-line description of this event.
    pub fn render(&self) -> (r: String)
        ensures
            r@ == spec_render_window(self@),
    {
        let mut out = String::new();
        out.append(window_change_label_str(&self.change));
        out.append(" event for window ");
        match &self.container.name {
            Some(s) => out.append(s.as_str()),
            None => out.append("untitled"),
        }
        out.append("; id: ");
        let d = i64_dec(self.container.id);
        out.append(d.as_str());
        proof {
            assert(out@ =~= spec_render_window(self@));
        }
        out
    }
}

impl BarConfigEventInfo {
    /// The one-line description of this event.
    pub fn render(&self) -> (r: String)
        ensures
            r@ == spec_render_bar_config(self@),
    {
        let mut out = String::new();
        out.append("bar id: ");
        out.append(self.bar_config.id.as_str());
        out.append("; mode: ");
        out.append(self.bar_config.mode.as_str());
        out.append("; position: ");
        out.append(self.bar_config.position.as_str());
        out.append("; status command: ");
        out.append(self.bar_config.status_command.as_str());
        proof {
            assert(out@ =~= spec_render_bar_config(self@));
        }
        out
    }
}

impl BindingEventInfo {
    /// The one-line description of this event.  The modifier join always
    /// ends with a separator before the symbol, even when the symbol is
    /// absent and renders as nothing.
    pub fn render(&self) -> (r: String)
        ensures
            r@ == spec_render_binding(self@),
    {
        let mut out = String::new();
        out.append(binding_change_label_str(&self.change));
        out.append(" '");
        out.append(self.binding.command.as_str());
        out.append("' ");
        append_join_plus(&mut out, &self.binding.event_state_mask);
        out.append("+");
        match &self.binding.symbol {
            Some(s) => out.append(s.as_str()),
            None => {},
        }
        proof {
            assert(out@ =~= spec_render_binding(self@));
        }
        out
    }
}

impl ShutdownEventInfo {
    /// The one-line description of this event.
    pub fn render(&self) -> (r: String)
        ensures
            r@ == spec_render_shutdown(self@),
    {
        let mut out = self.change.render();
        out.append(" event");
        out
    }
}

impl Event {
    /// The one-line description of this event, fit for a log.
    pub fn render(&self) -> (r: String)
        ensures
            r@ == spec_render_event(self@),
    {
        match self {
            Event::WorkspaceEvent(i) => i.render(),
            Event::OutputEvent(i) => i.render(),
            Event::ModeEvent(i) => i.render(),
            Event::WindowEvent(i) => i.render(),
            Event::BarConfigEvent(i) => i.render(),
            Event::BindingEvent(i) => i.render(),
            Event::ShutdownEvent(i) => i.render(),
        }
    }
}

} // verus!
