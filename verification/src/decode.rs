//! Category-specific decoding of raw payloads.
//!
//! Each category's decoder takes a parsed document and yields the typed
//! payload structure, or says exactly which mandatory field the document
//! lacks.  Discriminator strings outside a category's known-tag table decode
//! to the `Unknown` member and never fail.

use vstd::prelude::*;

use crate::event::{
    BarConfigEventInfo, BarConfigEventInfoV, Binding, BindingChange, BindingEventInfo,
    BindingEventInfoV, BindingV, Capabilities, DecodeError, Event, EventCategory, FieldName,
    InputType, ModeEventInfo, ModeEventInfoV, OutputChange, OutputEventInfo, OutputEventInfoV,
    ShutdownChange, ShutdownEventInfo, ShutdownEventInfoV, WindowChange, WindowEventInfo,
    WindowEventInfoV, WorkspaceChange, WorkspaceEventInfo, WorkspaceEventInfoV,
};
use crate::json::{self, obj_get, parsed_doc, JVal, Json};
use crate::reply::{BarConfigV, Node, NodeV};

verus! {

/// A decode outcome, seen at the model level.
pub open spec fn result_view<T: View>(r: Result<T, DecodeError>) -> Result<T::V, DecodeError> {
    match r {
        Ok(t) => Ok(t@),
        Err(e) => Err(e),
    }
}

// ---------------------------------------------------------------------------
// Discriminator tag tables
// ---------------------------------------------------------------------------

/// The tags of the known workspace changes.
pub open spec fn workspace_known_tag(tag: Seq<char>) -> bool {
    ||| tag == "focus"@
    ||| tag == "init"@
    ||| tag == "empty"@
    ||| tag == "urgent"@
    ||| tag == "rename"@
    ||| tag == "reload"@
    ||| tag == "move"@
    ||| tag == "restored"@
}

pub open spec fn workspace_change_of_tag(tag: Seq<char>) -> WorkspaceChange {
    if tag == "focus"@ {
        WorkspaceChange::Focus
    } else if tag == "init"@ {
        WorkspaceChange::Init
    } else if tag == "empty"@ {
        WorkspaceChange::Empty
    } else if tag == "urgent"@ {
        WorkspaceChange::Urgent
    } else if tag == "rename"@ {
        WorkspaceChange::Rename
    } else if tag == "reload"@ {
        WorkspaceChange::Reload
    } else if tag == "move"@ {
        WorkspaceChange::Move
    } else if tag == "restored"@ {
        WorkspaceChange::Restored
    } else {
        WorkspaceChange::Unknown
    }
}

/// The tags of the known output changes.
pub open spec fn output_known_tag(tag: Seq<char>) -> bool {
    tag == "unspecified"@
}

pub open spec fn output_change_of_tag(tag: Seq<char>) -> OutputChange {
    if tag == "unspecified"@ {
        OutputChange::Unspecified
    } else {
        OutputChange::Unknown
    }
}

/// The tags of the window changes recognized under the given capability.
pub open spec fn window_known_tag(tag: Seq<char>, mark_cap: bool) -> bool {
    ||| tag == "new"@
    ||| tag == "close"@
    ||| tag == "focus"@
    ||| tag == "title"@
    ||| tag == "fullscreen_mode"@
    ||| tag == "move"@
    ||| tag == "floating"@
    ||| tag == "urgent"@
    ||| (mark_cap && tag == "mark"@)
}

pub open spec fn window_change_of_tag(tag: Seq<char>, mark_cap: bool) -> WindowChange {
    if tag == "new"@ {
        WindowChange::New
    } else if tag == "close"@ {
        WindowChange::Close
    } else if tag == "focus"@ {
        WindowChange::Focus
    } else if tag == "title"@ {
        WindowChange::Title
    } else if tag == "fullscreen_mode"@ {
        WindowChange::FullscreenMode
    } else if tag == "move"@ {
        WindowChange::Move
    } else if tag == "floating"@ {
        WindowChange::Floating
    } else if tag == "urgent"@ {
        WindowChange::Urgent
    } else if tag == "mark"@ && mark_cap {
        WindowChange::Mark
    } else {
        WindowChange::Unknown
    }
}

/// The tags of the known binding changes.
pub open spec fn binding_known_tag(tag: Seq<char>) -> bool {
    tag == "run"@
}

pub open spec fn binding_change_of_tag(tag: Seq<char>) -> BindingChange {
    if tag == "run"@ {
        BindingChange::Run
    } else {
        BindingChange::Unknown
    }
}

/// The tags of the known input types.
pub open spec fn input_type_known_tag(tag: Seq<char>) -> bool {
    tag == "keyboard"@ || tag == "mouse"@
}

pub open spec fn input_type_of_tag(tag: Seq<char>) -> InputType {
    if tag == "keyboard"@ {
        InputType::Keyboard
    } else if tag == "mouse"@ {
        InputType::Mouse
    } else {
        InputType::Unknown
    }
}

/// The tags of the known shutdown changes.
pub open spec fn shutdown_known_tag(tag: Seq<char>) -> bool {
    tag == "restart"@ || tag == "exit"@
}

pub open spec fn shutdown_change_of_tag(tag: Seq<char>) -> ShutdownChange {
    if tag == "restart"@ {
        ShutdownChange::Restart
    } else if tag == "exit"@ {
        ShutdownChange::Exit
    } else {
        ShutdownChange::Unknown
    }
}

impl WorkspaceChange {
    /// Maps a discriminator string to the workspace change it names;
    /// anything outside the known-tag table degrades to `Unknown`.
    pub fn from_tag(tag: &str) -> (r: Self)
        ensures
            r == workspace_change_of_tag(tag@),
    {
        if json::str_eq(tag, "focus") {
            WorkspaceChange::Focus
        } else if json::str_eq(tag, "init") {
            WorkspaceChange::Init
        } else if json::str_eq(tag, "empty") {
            WorkspaceChange::Empty
        } else if json::str_eq(tag, "urgent") {
            WorkspaceChange::Urgent
        } else if json::str_eq(tag, "rename") {
            WorkspaceChange::Rename
        } else if json::str_eq(tag, "reload") {
            WorkspaceChange::Reload
        } else if json::str_eq(tag, "move") {
            WorkspaceChange::Move
        } else if json::str_eq(tag, "restored") {
            WorkspaceChange::Restored
        } else {
            WorkspaceChange::Unknown
        }
    }
}

impl OutputChange {
    /// Maps a discriminator string to the output change it names.
    pub fn from_tag(tag: &str) -> (r: Self)
        ensures
            r == output_change_of_tag(tag@),
    {
        if json::str_eq(tag, "unspecified") {
            OutputChange::Unspecified
        } else {
            OutputChange::Unknown
        }
    }
}

impl WindowChange {
    /// Maps a discriminator string to the window change it names.  The
    /// `mark` tag is recognized only when the capability that introduces it
    /// is enabled; otherwise it degrades to `Unknown` like any other tag
    /// outside the table.
    pub fn from_tag(tag: &str, mark_cap: bool) -> (r: Self)
        ensures
            r == window_change_of_tag(tag@, mark_cap),
    {
        if json::str_eq(tag, "new") {
            WindowChange::New
        } else if json::str_eq(tag, "close") {
            WindowChange::Close
        } else if json::str_eq(tag, "focus") {
            WindowChange::Focus
        } else if json::str_eq(tag, "title") {
            WindowChange::Title
        } else if json::str_eq(tag, "fullscreen_mode") {
            WindowChange::FullscreenMode
        } else if json::str_eq(tag, "move") {
            WindowChange::Move
        } else if json::str_eq(tag, "floating") {
            WindowChange::Floating
        } else if json::str_eq(tag, "urgent") {
            WindowChange::Urgent
        } else if json::str_eq(tag, "mark") && mark_cap {
            WindowChange::Mark
        } else {
            WindowChange::Unknown
        }
    }
}

impl BindingChange {
    /// Maps a discriminator string to the binding change it names.
    pub fn from_tag(tag: &str) -> (r: Self)
        ensures
            r == binding_change_of_tag(tag@),
    {
        if json::str_eq(tag, "run") {
            BindingChange::Run
        } else {
            BindingChange::Unknown
        }
    }
}

impl InputType {
    /// Maps a discriminator string to the input type it names.
    pub fn from_tag(tag: &str) -> (r: Self)
        ensures
            r == input_type_of_tag(tag@),
    {
        if json::str_eq(tag, "keyboard") {
            InputType::Keyboard
        } else if json::str_eq(tag, "mouse") {
            InputType::Mouse
        } else {
            InputType::Unknown
        }
    }
}

impl ShutdownChange {
    /// Maps a discriminator string to the shutdown change it names.
    pub fn from_tag(tag: &str) -> (r: Self)
        ensures
            r == shutdown_change_of_tag(tag@),
    {
        if json::str_eq(tag, "restart") {
            ShutdownChange::Restart
        } else if json::str_eq(tag, "exit") {
            ShutdownChange::Exit
        } else {
            ShutdownChange::Unknown
        }
    }
}

// ---------------------------------------------------------------------------
// Simple categories: output, mode, shutdown
// ---------------------------------------------------------------------------

pub open spec fn spec_decode_output(doc: JVal) -> Result<OutputEventInfoV, DecodeError> {
    match doc {
        JVal::Obj(es) => match obj_get(es, "change"@) {
            Some(JVal::Str(tag)) => Ok(OutputEventInfoV { change: output_change_of_tag(tag) }),
            _ => Err(DecodeError::MissingRequiredField(FieldName::Change)),
        },
        _ => Err(DecodeError::MissingRequiredField(FieldName::Change)),
    }
}

pub open spec fn spec_decode_mode(doc: JVal) -> Result<ModeEventInfoV, DecodeError> {
    match doc {
        JVal::Obj(es) => match obj_get(es, "change"@) {
            Some(JVal::Str(tag)) => Ok(ModeEventInfoV { change: tag }),
            _ => Err(DecodeError::MissingRequiredField(FieldName::Change)),
        },
        _ => Err(DecodeError::MissingRequiredField(FieldName::Change)),
    }
}

pub open spec fn spec_decode_shutdown(doc: JVal) -> Result<ShutdownEventInfoV, DecodeError> {
    match doc {
        JVal::Obj(es) => match obj_get(es, "change"@) {
            Some(JVal::Str(tag)) => Ok(ShutdownEventInfoV { change: shutdown_change_of_tag(tag) }),
            _ => Err(DecodeError::MissingRequiredField(FieldName::Change)),
        },
        _ => Err(DecodeError::MissingRequiredField(FieldName::Change)),
    }
}

impl OutputEventInfo {
    /// Decodes an already-parsed document delivered under the output
    /// category.
    pub fn from_doc(doc: &Json) -> (r: Result<Self, DecodeError>)
        ensures
            result_view(r) == spec_decode_output(doc@),
    {
        match doc {
            Json::Obj(entries) => match json::get(entries, "change") {
                Some(Json::Str(tag)) => Ok(
                    OutputEventInfo { change: OutputChange::from_tag(tag.as_str()) },
                ),
                _ => Err(DecodeError::MissingRequiredField(FieldName::Change)),
            },
            _ => Err(DecodeError::MissingRequiredField(FieldName::Change)),
        }
    }

    /// Decodes a raw payload delivered under the output category.
    pub fn from_str(s: &str) -> (r: Result<Self, DecodeError>)
        ensures
            match parsed_doc(s@) {
                None => r == Err::<OutputEventInfo, DecodeError>(DecodeError::Malformed),
                Some(doc) => result_view(r) == spec_decode_output(doc),
            },
    {
        match json::parse_document(s) {
            None => Err(DecodeError::Malformed),
            Some(doc) => Self::from_doc(&doc),
        }
    }
}

impl ModeEventInfo {
    /// Decodes an already-parsed document delivered under the mode
    /// category.
    pub fn from_doc(doc: &Json) -> (r: Result<Self, DecodeError>)
        ensures
            result_view(r) == spec_decode_mode(doc@),
    {
        match doc {
            Json::Obj(entries) => match json::get(entries, "change") {
                Some(Json::Str(tag)) => Ok(ModeEventInfo { change: tag.clone() }),
                _ => Err(DecodeError::MissingRequiredField(FieldName::Change)),
            },
            _ => Err(DecodeError::MissingRequiredField(FieldName::Change)),
        }
    }

    /// Decodes a raw payload delivered under the mode category.
    pub fn from_str(s: &str) -> (r: Result<Self, DecodeError>)
        ensures
            match parsed_doc(s@) {
                None => r == Err::<ModeEventInfo, DecodeError>(DecodeError::Malformed),
                Some(doc) => result_view(r) == spec_decode_mode(doc),
            },
    {
        match json::parse_document(s) {
            None => Err(DecodeError::Malformed),
            Some(doc) => Self::from_doc(&doc),
        }
    }
}

impl ShutdownEventInfo {
    /// Decodes an already-parsed document delivered under the shutdown
    /// category.  The category exists only on servers whose capabilities
    /// include it, so callers must have negotiated it.
    pub fn from_doc(doc: &Json, caps: &Capabilities) -> (r: Result<Self, DecodeError>)
        requires
            caps.shutdown,
        ensures
            result_view(r) == spec_decode_shutdown(doc@),
    {
        match doc {
            Json::Obj(entries) => match json::get(entries, "change") {
                Some(Json::Str(tag)) => Ok(
                    ShutdownEventInfo { change: ShutdownChange::from_tag(tag.as_str()) },
                ),
                _ => Err(DecodeError::MissingRequiredField(FieldName::Change)),
            },
            _ => Err(DecodeError::MissingRequiredField(FieldName::Change)),
        }
    }

    /// Decodes a raw payload delivered under the shutdown category.
    pub fn from_str(s: &str, caps: &Capabilities) -> (r: Result<Self, DecodeError>)
        requires
            caps.shutdown,
        ensures
            match parsed_doc(s@) {
                None => r == Err::<ShutdownEventInfo, DecodeError>(DecodeError::Malformed),
                Some(doc) => result_view(r) == spec_decode_shutdown(doc),
            },
    {
        match json::parse_document(s) {
            None => Err(DecodeError::Malformed),
            Some(doc) => Self::from_doc(&doc, caps),
        }
    }
}

// ---------------------------------------------------------------------------
// Tree-node snapshots: workspace and window categories
// ---------------------------------------------------------------------------

/// The string elements of an array of document values, in order; elements
/// of any other shape are passed over.
pub open spec fn str_elems(items: Seq<JVal>) -> Seq<Seq<char>>
    decreases items.len(),
{
    if items.len() == 0 {
        Seq::empty()
    } else {
        str_elems(items.drop_last()) + (match items.last() {
            JVal::Str(s) => seq![s],
            _ => Seq::empty(),
        })
    }
}

/// How a tree-node snapshot is built from a sub-document: the node must be
/// an object carrying an integer `id`; `name` is kept when it is a string;
/// `marks` is offered only under the marks capability and collects the
/// string elements of the `marks` array, when there is one.
pub open spec fn spec_build_node(v: JVal, node_marks: bool) -> Result<NodeV, DecodeError> {
    match v {
        JVal::Obj(es) => match obj_get(es, "id"@) {
            Some(JVal::Int(id)) => Ok(
                NodeV {
                    id: id,
                    name: match obj_get(es, "name"@) {
                        Some(JVal::Str(s)) => Some(s),
                        _ => None,
                    },
                    marks: if node_marks {
                        Some(
                            match obj_get(es, "marks"@) {
                                Some(JVal::Arr(items)) => str_elems(items),
                                _ => Seq::empty(),
                            },
                        )
                    } else {
                        None
                    },
                },
            ),
            _ => Err(DecodeError::MissingRequiredField(FieldName::Id)),
        },
        _ => Err(DecodeError::MissingRequiredField(FieldName::Id)),
    }
}

proof fn lemma_str_elems_step(items: Seq<JVal>, i: int)
    requires
        0 <= i < items.len(),
    ensures
        str_elems(items.take(i + 1)) == str_elems(items.take(i)) + (match items[i] {
            JVal::Str(s) => seq![s],
            _ => Seq::<Seq<char>>::empty(),
        }),
{
    assert(items.take(i + 1).drop_last() =~= items.take(i));
    assert(items.take(i + 1).last() == items[i]);
}

impl Node {
    /// Builds a tree-node snapshot from a sub-document.
    pub fn from_doc(v: &Json, node_marks: bool) -> (r: Result<Self, DecodeError>)
        ensures
            result_view(r) == spec_build_node(v@, node_marks),
    {
        let entries = match v {
            Json::Obj(es) => es,
            _ => {
                return Err(DecodeError::MissingRequiredField(FieldName::Id));
            },
        };
        let id: i64 = match json::get(entries, "id") {
            Some(Json::Int(i)) => *i,
            _ => {
                return Err(DecodeError::MissingRequiredField(FieldName::Id));
            },
        };
        let name: Option<String> = match json::get(entries, "name") {
            Some(Json::Str(s)) => Some(s.clone()),
            _ => None,
        };
        let marks: Option<Vec<String>> = if node_marks {
            let mut ms: Vec<String> = Vec::new();
            assert(ms.deep_view() =~= Seq::<Seq<char>>::empty());
            match json::get(entries, "marks") {
                Some(Json::Arr(items)) => {
                    ms = collect_strings(items);
                },
                _ => {},
            }
            Some(ms)
        } else {
            None
        };
        let node = Node { id, name, marks };
        proof {
            let nv = spec_build_node(v@, node_marks).unwrap();
            assert(node@.id == nv.id);
            assert(node@.name == nv.name);
            assert(node@.marks == nv.marks);
        }
        Ok(node)
    }
}

/// Collects the string elements of an array of document values, in order.
fn collect_strings(items: &Vec<Json>) -> (r: Vec<String>)
    ensures
        r.deep_view() == str_elems(crate::json::jvals_of(items@)),
{
    let ghost t = crate::json::jvals_of(items@);
    proof {
        crate::json::lemma_jvals_of_index(items@);
        assert(Seq::<String>::empty().map_values(|s: String| s.deep_view()) =~= Seq::<
            Seq<char>,
        >::empty());
    }
    let mut out: Vec<String> = Vec::new();
    assert(out.deep_view() =~= str_elems(t.take(0)));
    let n = items.len();
    for i in 0..n
        invariant
            n == items.len(),
            t == crate::json::jvals_of(items@),
            t.len() == items@.len(),
            forall|k: int| 0 <= k < items@.len() ==> t[k] == crate::json::jval_of(items@[k]),
            out.deep_view() == str_elems(t.take(i as int)),
    {
        let ghost prev = out.deep_view();
        match &items[i] {
            Json::Str(s) => {
                out.push(s.clone());
                proof {
                    assert(out.deep_view() =~= prev.push(s@));
                }
            },
            _ => {},
        }
        proof {
            lemma_str_elems_step(t, i as int);
            assert(out.deep_view() =~= str_elems(t.take(i + 1)));
        }
    }
    proof {
        assert(t.take(n as int) =~= t);
    }
    out
}

/// An optional tree-node field: a present-but-null value decodes to absent;
/// anything else goes through the node builder.
pub open spec fn spec_opt_node(v: JVal, node_marks: bool) -> Result<Option<NodeV>, DecodeError> {
    if v is Null {
        Ok(None)
    } else {
        match spec_build_node(v, node_marks) {
            Ok(n) => Ok(Some(n)),
            Err(e) => Err(e),
        }
    }
}

/// A decode outcome for an optional node, seen at the model level.
pub open spec fn opt_node_result_view(r: Result<Option<Node>, DecodeError>) -> Result<
    Option<NodeV>,
    DecodeError,
> {
    match r {
        Ok(Some(n)) => Ok(Some(n@)),
        Ok(None) => Ok(None),
        Err(e) => Err(e),
    }
}

fn opt_node(v: &Json, node_marks: bool) -> (r: Result<Option<Node>, DecodeError>)
    ensures
        opt_node_result_view(r) == spec_opt_node(v@, node_marks),
{
    match v {
        Json::Null => Ok(None),
        _ => match Node::from_doc(v, node_marks) {
            Ok(n) => Ok(Some(n)),
            Err(e) => Err(e),
        },
    }
}

pub open spec fn spec_decode_workspace(doc: JVal, node_marks: bool) -> Result<
    WorkspaceEventInfoV,
    DecodeError,
> {
    match doc {
        JVal::Obj(es) => match obj_get(es, "change"@) {
            Some(JVal::Str(tag)) => match obj_get(es, "current"@) {
                None => Err(DecodeError::MissingRequiredField(FieldName::Current)),
                Some(cur) => match spec_opt_node(cur, node_marks) {
                    Err(e) => Err(e),
                    Ok(current) => match obj_get(es, "old"@) {
                        None => Ok(
                            WorkspaceEventInfoV {
                                change: workspace_change_of_tag(tag),
                                current,
                                old: None,
                            },
                        ),
                        Some(o) => match spec_opt_node(o, node_marks) {
                            Err(e) => Err(e),
                            Ok(old) => Ok(
                                WorkspaceEventInfoV {
                                    change: workspace_change_of_tag(tag),
                                    current,
                                    old,
                                },
                            ),
                        },
                    },
                },
            },
            _ => Err(DecodeError::MissingRequiredField(FieldName::Change)),
        },
        _ => Err(DecodeError::MissingRequiredField(FieldName::Change)),
    }
}

pub open spec fn spec_decode_window(doc: JVal, mark_cap: bool, node_marks: bool) -> Result<
    WindowEventInfoV,
    DecodeError,
> {
    match doc {
        JVal::Obj(es) => match obj_get(es, "change"@) {
            Some(JVal::Str(tag)) => match obj_get(es, "container"@) {
                None => Err(DecodeError::MissingRequiredField(FieldName::Container)),
                Some(c) => match spec_build_node(c, node_marks) {
                    Ok(n) => Ok(
                        WindowEventInfoV {
                            change: window_change_of_tag(tag, mark_cap),
                            container: n,
                        },
                    ),
                    Err(e) => Err(e),
                },
            },
            _ => Err(DecodeError::MissingRequiredField(FieldName::Change)),
        },
        _ => Err(DecodeError::MissingRequiredField(FieldName::Change)),
    }
}

impl WorkspaceEventInfo {
    /// Decodes an already-parsed document delivered under the workspace
    /// category.
    pub fn from_doc(doc: &Json, caps: &Capabilities) -> (r: Result<Self, DecodeError>)
        ensures
            result_view(r) == spec_decode_workspace(doc@, caps.node_marks),
    {
        let entries = match doc {
            Json::Obj(es) => es,
            _ => {
                return Err(DecodeError::MissingRequiredField(FieldName::Change));
            },
        };
        let tag = match json::get(entries, "change") {
            Some(Json::Str(s)) => s,
            _ => {
                return Err(DecodeError::MissingRequiredField(FieldName::Change));
            },
        };
        let change = WorkspaceChange::from_tag(tag.as_str());
        let current = match json::get(entries, "current") {
            None => {
                return Err(DecodeError::MissingRequiredField(FieldName::Current));
            },
            Some(cur) => match opt_node(cur, caps.node_marks) {
                Ok(c) => c,
                Err(e) => {
                    return Err(e);
                },
            },
        };
        let old = match json::get(entries, "old") {
            None => None,
            Some(o) => match opt_node(o, caps.node_marks) {
                Ok(c) => c,
                Err(e) => {
                    return Err(e);
                },
            },
        };
        Ok(WorkspaceEventInfo { change, current, old })
    }

    /// Decodes a raw payload delivered under the workspace category.
    pub fn from_str(s: &str, caps: &Capabilities) -> (r: Result<Self, DecodeError>)
        ensures
            match parsed_doc(s@) {
                None => r == Err::<WorkspaceEventInfo, DecodeError>(DecodeError::Malformed),
                Some(doc) => result_view(r) == spec_decode_workspace(doc, caps.node_marks),
            },
    {
        match json::parse_document(s) {
            None => Err(DecodeError::Malformed),
            Some(doc) => Self::from_doc(&doc, caps),
        }
    }
}

impl WindowEventInfo {
    /// Decodes an already-parsed document delivered under the window
    /// category.
    pub fn from_doc(doc: &Json, caps: &Capabilities) -> (r: Result<Self, DecodeError>)
        ensures
            result_view(r) == spec_decode_window(doc@, caps.window_mark, caps.node_marks),
    {
        let entries = match doc {
            Json::Obj(es) => es,
            _ => {
                return Err(DecodeError::MissingRequiredField(FieldName::Change));
            },
        };
        let tag = match json::get(entries, "change") {
            Some(Json::Str(s)) => s,
            _ => {
                return Err(DecodeError::MissingRequiredField(FieldName::Change));
            },
        };
        let change = WindowChange::from_tag(tag.as_str(), caps.window_mark);
        let container = match json::get(entries, "container") {
            None => {
                return Err(DecodeError::MissingRequiredField(FieldName::Container));
            },
            Some(c) => match Node::from_doc(c, caps.node_marks) {
                Ok(n) => n,
                Err(e) => {
                    return Err(e);
                },
            },
        };
        Ok(WindowEventInfo { change, container })
    }

    /// Decodes a raw payload delivered under the window category.
    pub fn from_str(s: &str, caps: &Capabilities) -> (r: Result<Self, DecodeError>)
        ensures
            match parsed_doc(s@) {
                None => r == Err::<WindowEventInfo, DecodeError>(DecodeError::Malformed),
                Some(doc) => result_view(r) == spec_decode_window(
                    doc,
                    caps.window_mark,
                    caps.node_marks,
                ),
            },
    {
        match json::parse_document(s) {
            None => Err(DecodeError::Malformed),
            Some(doc) => Self::from_doc(&doc, caps),
        }
    }
}

// ---------------------------------------------------------------------------
// Binding category
// ---------------------------------------------------------------------------

/// The modifier-key list of a binding: every element of the array must be a
/// string, else the whole list is rejected.
pub open spec fn mask_of(items: Seq<JVal>) -> Option<Seq<Seq<char>>>
    decreases items.len(),
{
    if items.len() == 0 {
        Some(Seq::empty())
    } else {
        match mask_of(items.drop_last()) {
            None => None,
            Some(pre) => match items.last() {
                JVal::Str(s) => Some(pre.push(s)),
                _ => None,
            },
        }
    }
}

proof fn lemma_mask_of_step(items: Seq<JVal>, i: int)
    requires
        0 <= i < items.len(),
    ensures
        mask_of(items.take(i + 1)) == (match mask_of(items.take(i)) {
            None => None,
            Some(pre) => match items[i] {
                JVal::Str(s) => Some(pre.push(s)),
                _ => None::<Seq<Seq<char>>>,
            },
        }),
{
    assert(items.take(i + 1).drop_last() =~= items.take(i));
    assert(items.take(i + 1).last() == items[i]);
}

proof fn lemma_mask_of_prefix_none(items: Seq<JVal>, i: int)
    requires
        0 <= i <= items.len(),
        mask_of(items.take(i)) is None,
    ensures
        mask_of(items) is None,
    decreases items.len() - i,
{
    if i == items.len() {
        assert(items.take(i) =~= items);
    } else {
        lemma_mask_of_step(items, i);
        lemma_mask_of_prefix_none(items, i + 1);
    }
}

/// Collects the modifier-key list of a binding, or says that some element
/// is not a string.
fn collect_mask(items: &Vec<Json>) -> (r: Option<Vec<String>>)
    ensures
        match r {
            Some(ms) => mask_of(crate::json::jvals_of(items@)) == Some(ms.deep_view()),
            None => mask_of(crate::json::jvals_of(items@)) is None,
        },
{
    let ghost t = crate::json::jvals_of(items@);
    proof {
        crate::json::lemma_jvals_of_index(items@);
    }
    let mut out: Vec<String> = Vec::new();
    assert(out.deep_view() =~= Seq::<Seq<char>>::empty());
    assert(t.take(0) =~= Seq::<JVal>::empty());
    let n = items.len();
    for i in 0..n
        invariant
            n == items.len(),
            t == crate::json::jvals_of(items@),
            t.len() == items@.len(),
            forall|k: int| 0 <= k < items@.len() ==> t[k] == crate::json::jval_of(items@[k]),
            mask_of(t.take(i as int)) == Some(out.deep_view()),
    {
        let ghost prev = out.deep_view();
        proof {
            lemma_mask_of_step(t, i as int);
        }
        match &items[i] {
            Json::Str(s) => {
                out.push(s.clone());
                proof {
                    assert(out.deep_view() =~= prev.push(s@));
                }
            },
            _ => {
                proof {
                    lemma_mask_of_prefix_none(t, i + 1);
                }
                return None;
            },
        }
    }
    proof {
        assert(t.take(n as int) =~= t);
    }
    Some(out)
}

pub open spec fn spec_decode_binding(doc: JVal) -> Result<BindingEventInfoV, DecodeError> {
    match doc {
        JVal::Obj(es) => match obj_get(es, "change"@) {
            Some(JVal::Str(tag)) => match obj_get(es, "binding"@) {
                Some(JVal::Obj(bs)) => match obj_get(bs, "command"@) {
                    Some(JVal::Str(cmd)) => match obj_get(bs, "event_state_mask"@) {
                        Some(JVal::Arr(items)) => match mask_of(items) {
                            Some(mask) => match obj_get(bs, "input_code"@) {
                                Some(JVal::Int(code)) => if -0x8000_0000 <= code
                                    && code <= 0x7fff_ffff {
                                    match obj_get(bs, "symbol"@) {
                                        Some(JVal::Str(sym)) => spec_finish_binding(
                                            tag,
                                            cmd,
                                            mask,
                                            code,
                                            Some(sym),
                                            obj_get(bs, "input_type"@),
                                        ),
                                        Some(JVal::Null) => spec_finish_binding(
                                            tag,
                                            cmd,
                                            mask,
                                            code,
                                            None,
                                            obj_get(bs, "input_type"@),
                                        ),
                                        _ => Err(
                                            DecodeError::MissingRequiredField(FieldName::Symbol),
                                        ),
                                    }
                                } else {
                                    Err(DecodeError::MissingRequiredField(FieldName::InputCode))
                                },
                                _ => Err(DecodeError::MissingRequiredField(FieldName::InputCode)),
                            },
                            None => Err(
                                DecodeError::MissingRequiredField(FieldName::EventStateMask),
                            ),
                        },
                        _ => Err(DecodeError::MissingRequiredField(FieldName::EventStateMask)),
                    },
                    _ => Err(DecodeError::MissingRequiredField(FieldName::Command)),
                },
                _ => Err(DecodeError::MissingRequiredField(FieldName::Binding)),
            },
            _ => Err(DecodeError::MissingRequiredField(FieldName::Change)),
        },
        _ => Err(DecodeError::MissingRequiredField(FieldName::Change)),
    }
}

/// The last step of binding decoding: the `input_type` discriminator.
pub open spec fn spec_finish_binding(
    tag: Seq<char>,
    cmd: Seq<char>,
    mask: Seq<Seq<char>>,
    code: int,
    sym: Option<Seq<char>>,
    input_type_field: Option<JVal>,
) -> Result<BindingEventInfoV, DecodeError> {
    match input_type_field {
        Some(JVal::Str(it)) => Ok(
            BindingEventInfoV {
                change: binding_change_of_tag(tag),
                binding: BindingV {
                    command: cmd,
                    event_state_mask: mask,
                    input_code: code,
                    symbol: sym,
                    input_type: input_type_of_tag(it),
                },
            },
        ),
        _ => Err(DecodeError::MissingRequiredField(FieldName::InputType)),
    }
}

impl BindingEventInfo {
    /// Decodes an already-parsed document delivered under the binding
    /// category.
    pub fn from_doc(doc: &Json) -> (r: Result<Self, DecodeError>)
        ensures
            result_view(r) == spec_decode_binding(doc@),
    {
        let entries = match doc {
            Json::Obj(es) => es,
            _ => {
                return Err(DecodeError::MissingRequiredField(FieldName::Change));
            },
        };
        let tag = match json::get(entries, "change") {
            Some(Json::Str(s)) => s,
            _ => {
                return Err(DecodeError::MissingRequiredField(FieldName::Change));
            },
        };
        let bind = match json::get(entries, "binding") {
            Some(Json::Obj(bs)) => bs,
            _ => {
                return Err(DecodeError::MissingRequiredField(FieldName::Binding));
            },
        };
        let command = match json::get(bind, "command") {
            Some(Json::Str(s)) => s.clone(),
            _ => {
                return Err(DecodeError::MissingRequiredField(FieldName::Command));
            },
        };
        let event_state_mask = match json::get(bind, "event_state_mask") {
            Some(Json::Arr(items)) => match collect_mask(items) {
                Some(ms) => ms,
                None => {
                    return Err(DecodeError::MissingRequiredField(FieldName::EventStateMask));
                },
            },
            _ => {
                return Err(DecodeError::MissingRequiredField(FieldName::EventStateMask));
            },
        };
        let input_code: i32 = match json::get(bind, "input_code") {
            Some(Json::Int(i)) => {
                if -0x8000_0000i64 <= *i && *i <= 0x7fff_ffffi64 {
                    *i as i32
                } else {
                    return Err(DecodeError::MissingRequiredField(FieldName::InputCode));
                }
            },
            _ => {
                return Err(DecodeError::MissingRequiredField(FieldName::InputCode));
            },
        };
        let symbol: Option<String> = match json::get(bind, "symbol") {
            Some(Json::Str(s)) => Some(s.clone()),
            Some(Json::Null) => None,
            _ => {
                return Err(DecodeError::MissingRequiredField(FieldName::Symbol));
            },
        };
        let input_type = match json::get(bind, "input_type") {
            Some(Json::Str(s)) => InputType::from_tag(s.as_str()),
            _ => {
                return Err(DecodeError::MissingRequiredField(FieldName::InputType));
            },
        };
        Ok(
            BindingEventInfo {
                change: BindingChange::from_tag(tag.as_str()),
                binding: Binding { command, event_state_mask, input_code, symbol, input_type },
            },
        )
    }

    /// Decodes a raw payload delivered under the binding category.
    pub fn from_str(s: &str) -> (r: Result<Self, DecodeError>)
        ensures
            match parsed_doc(s@) {
                None => r == Err::<BindingEventInfo, DecodeError>(DecodeError::Malformed),
                Some(doc) => result_view(r) == spec_decode_binding(doc),
            },
    {
        match json::parse_document(s) {
            None => Err(DecodeError::Malformed),
            Some(doc) => Self::from_doc(&doc),
        }
    }
}

// ---------------------------------------------------------------------------
// Bar-config category
// ---------------------------------------------------------------------------

/// The color mapping of a bar configuration: every value of the colors
/// object must be a string, else the whole mapping is rejected.
pub open spec fn colors_of(entries: Seq<(Seq<char>, JVal)>) -> Option<Seq<(Seq<char>, Seq<char>)>>
    decreases entries.len(),
{
    if entries.len() == 0 {
        Some(Seq::empty())
    } else {
        match colors_of(entries.drop_last()) {
            None => None,
            Some(pre) => match entries.last().1 {
                JVal::Str(s) => Some(pre.push((entries.last().0, s))),
                _ => None,
            },
        }
    }
}

proof fn lemma_colors_of_step(entries: Seq<(Seq<char>, JVal)>, i: int)
    requires
        0 <= i < entries.len(),
    ensures
        colors_of(entries.take(i + 1)) == (match colors_of(entries.take(i)) {
            None => None,
            Some(pre) => match entries[i].1 {
                JVal::Str(s) => Some(pre.push((entries[i].0, s))),
                _ => None::<Seq<(Seq<char>, Seq<char>)>>,
            },
        }),
{
    assert(entries.take(i + 1).drop_last() =~= entries.take(i));
    assert(entries.take(i + 1).last() == entries[i]);
}

proof fn lemma_colors_of_prefix_none(entries: Seq<(Seq<char>, JVal)>, i: int)
    requires
        0 <= i <= entries.len(),
        colors_of(entries.take(i)) is None,
    ensures
        colors_of(entries) is None,
    decreases entries.len() - i,
{
    if i == entries.len() {
        assert(entries.take(i) =~= entries);
    } else {
        lemma_colors_of_step(entries, i);
        lemma_colors_of_prefix_none(entries, i + 1);
    }
}

/// The model of a collected color vector.
pub open spec fn color_pairs_view(cs: Seq<(String, String)>) -> Seq<(Seq<char>, Seq<char>)> {
    Seq::new(cs.len(), |i: int| (cs[i].0@, cs[i].1@))
}

/// Collects the color mapping of a bar configuration, or says that some
/// value is not a string.
fn collect_colors(entries: &Vec<(String, Json)>) -> (r: Option<Vec<(String, String)>>)
    ensures
        match r {
            Some(cs) => colors_of(crate::json::jentries_of(entries@)) == Some(
                color_pairs_view(cs@),
            ),
            None => colors_of(crate::json::jentries_of(entries@)) is None,
        },
{
    let ghost t = crate::json::jentries_of(entries@);
    proof {
        crate::json::lemma_jentries_of_index(entries@);
    }
    let mut out: Vec<(String, String)> = Vec::new();
    assert(color_pairs_view(out@) =~= Seq::<(Seq<char>, Seq<char>)>::empty());
    assert(t.take(0) =~= Seq::<(Seq<char>, JVal)>::empty());
    let n = entries.len();
    for i in 0..n
        invariant
            n == entries.len(),
            t == crate::json::jentries_of(entries@),
            t.len() == entries@.len(),
            forall|k: int| 0 <= k < entries@.len()
                ==> t[k] == (entries@[k].0@, crate::json::jval_of(entries@[k].1)),
            colors_of(t.take(i as int)) == Some(color_pairs_view(out@)),
    {
        let ghost prev = color_pairs_view(out@);
        proof {
            lemma_colors_of_step(t, i as int);
        }
        match &entries[i].1 {
            Json::Str(s) => {
                out.push((entries[i].0.clone(), s.clone()));
                proof {
                    assert(color_pairs_view(out@) =~= prev.push((entries@[i as int].0@, s@)));
                }
            },
            _ => {
                proof {
                    lemma_colors_of_prefix_none(t, i + 1);
                }
                return None;
            },
        }
    }
    proof {
        assert(t.take(n as int) =~= t);
    }
    Some(out)
}

/// How a bar configuration is built from its document: every field of the
/// snapshot is mandatory.
pub open spec fn spec_build_bar_config(doc: JVal) -> Result<BarConfigV, DecodeError> {
    match doc {
        JVal::Obj(es) => match obj_get(es, "id"@) {
            Some(JVal::Str(id)) => match obj_get(es, "mode"@) {
                Some(JVal::Str(mode)) => match obj_get(es, "position"@) {
                    Some(JVal::Str(position)) => match obj_get(es, "status_command"@) {
                        Some(JVal::Str(status_command)) => match obj_get(es, "font"@) {
                            Some(JVal::Str(font)) => match obj_get(es, "workspace_buttons"@) {
                                Some(JVal::Bool(workspace_buttons)) => match obj_get(
                                    es,
                                    "binding_mode_indicator"@,
                                ) {
                                    Some(JVal::Bool(binding_mode_indicator)) => match obj_get(
                                        es,
                                        "verbose"@,
                                    ) {
                                        Some(JVal::Bool(verbose)) => match obj_get(es, "colors"@) {
                                            Some(JVal::Obj(ce)) => match colors_of(ce) {
                                                Some(colors) => Ok(
                                                    BarConfigV {
                                                        id,
                                                        mode,
                                                        position,
                                                        status_command,
                                                        font,
                                                        workspace_buttons,
                                                        binding_mode_indicator,
                                                        verbose,
                                                        colors,
                                                    },
                                                ),
                                                None => Err(
                                                    DecodeError::MissingRequiredField(
                                                        FieldName::Colors,
                                                    ),
                                                ),
                                            },
                                            _ => Err(
                                                DecodeError::MissingRequiredField(
                                                    FieldName::Colors,
                                                ),
                                            ),
                                        },
                                        _ => Err(
                                            DecodeError::MissingRequiredField(FieldName::Verbose),
                                        ),
                                    },
                                    _ => Err(
                                        DecodeError::MissingRequiredField(
                                            FieldName::BindingModeIndicator,
                                        ),
                                    ),
                                },
                                _ => Err(
                                    DecodeError::MissingRequiredField(FieldName::WorkspaceButtons),
                                ),
                            },
                            _ => Err(DecodeError::MissingRequiredField(FieldName::Font)),
                        },
                        _ => Err(DecodeError::MissingRequiredField(FieldName::StatusCommand)),
                    },
                    _ => Err(DecodeError::MissingRequiredField(FieldName::Position)),
                },
                _ => Err(DecodeError::MissingRequiredField(FieldName::Mode)),
            },
            _ => Err(DecodeError::MissingRequiredField(FieldName::Id)),
        },
        _ => Err(DecodeError::MissingRequiredField(FieldName::Id)),
    }
}

pub open spec fn spec_decode_bar_config(doc: JVal) -> Result<BarConfigEventInfoV, DecodeError> {
    match spec_build_bar_config(doc) {
        Ok(bc) => Ok(BarConfigEventInfoV { bar_config: bc }),
        Err(e) => Err(e),
    }
}

impl crate::reply::BarConfig {
    /// Builds a bar-configuration snapshot from its document.
    pub fn from_doc(doc: &Json) -> (r: Result<Self, DecodeError>)
        ensures
            result_view(r) == spec_build_bar_config(doc@),
    {
        let entries = match doc {
            Json::Obj(es) => es,
            _ => {
                return Err(DecodeError::MissingRequiredField(FieldName::Id));
            },
        };
        let id = match json::get(entries, "id") {
            Some(Json::Str(s)) => s.clone(),
            _ => {
                return Err(DecodeError::MissingRequiredField(FieldName::Id));
            },
        };
        let mode = match json::get(entries, "mode") {
            Some(Json::Str(s)) => s.clone(),
            _ => {
                return Err(DecodeError::MissingRequiredField(FieldName::Mode));
            },
        };
        let position = match json::get(entries, "position") {
            Some(Json::Str(s)) => s.clone(),
            _ => {
                return Err(DecodeError::MissingRequiredField(FieldName::Position));
            },
        };
        let status_command = match json::get(entries, "status_command") {
            Some(Json::Str(s)) => s.clone(),
            _ => {
                return Err(DecodeError::MissingRequiredField(FieldName::StatusCommand));
            },
        };
        let font = match json::get(entries, "font") {
            Some(Json::Str(s)) => s.clone(),
            _ => {
                return Err(DecodeError::MissingRequiredField(FieldName::Font));
            },
        };
        let workspace_buttons = match json::get(entries, "workspace_buttons") {
            Some(Json::Bool(b)) => *b,
            _ => {
                return Err(DecodeError::MissingRequiredField(FieldName::WorkspaceButtons));
            },
        };
        let binding_mode_indicator = match json::get(entries, "binding_mode_indicator") {
            Some(Json::Bool(b)) => *b,
            _ => {
                return Err(DecodeError::MissingRequiredField(FieldName::BindingModeIndicator));
            },
        };
        let verbose = match json::get(entries, "verbose") {
            Some(Json::Bool(b)) => *b,
            _ => {
                return Err(DecodeError::MissingRequiredField(FieldName::Verbose));
            },
        };
        let colors = match json::get(entries, "colors") {
            Some(Json::Obj(ce)) => match collect_colors(ce) {
                Some(cs) => cs,
                None => {
                    return Err(DecodeError::MissingRequiredField(FieldName::Colors));
                },
            },
            _ => {
                return Err(DecodeError::MissingRequiredField(FieldName::Colors));
            },
        };
        let bc = crate::reply::BarConfig {
            id,
            mode,
            position,
            status_command,
            font,
            workspace_buttons,
            binding_mode_indicator,
            verbose,
            colors,
        };
        proof {
            let bv = spec_build_bar_config(doc@).unwrap();
            assert(bc@.colors =~= bv.colors);
        }
        Ok(bc)
    }
}

impl BarConfigEventInfo {
    /// Decodes an already-parsed document delivered under the bar-config
    /// category.
    pub fn from_doc(doc: &Json) -> (r: Result<Self, DecodeError>)
        ensures
            result_view(r) == spec_decode_bar_config(doc@),
    {
        match crate::reply::BarConfig::from_doc(doc) {
            Ok(bc) => Ok(BarConfigEventInfo { bar_config: bc }),
            Err(e) => Err(e),
        }
    }

    /// Decodes a raw payload delivered under the bar-config category.
    pub fn from_str(s: &str) -> (r: Result<Self, DecodeError>)
        ensures
            match parsed_doc(s@) {
                None => r == Err::<BarConfigEventInfo, DecodeError>(DecodeError::Malformed),
                Some(doc) => result_view(r) == spec_decode_bar_config(doc),
            },
    {
        match json::parse_document(s) {
            None => Err(DecodeError::Malformed),
            Some(doc) => Self::from_doc(&doc),
        }
    }
}

// ---------------------------------------------------------------------------
// Category resolver
// ---------------------------------------------------------------------------

/// The mathematical model of an [`Event`].
pub ghost enum EventV {
    WorkspaceEvent(WorkspaceEventInfoV),
    OutputEvent(OutputEventInfoV),
    ModeEvent(ModeEventInfoV),
    WindowEvent(WindowEventInfoV),
    BarConfigEvent(BarConfigEventInfoV),
    BindingEvent(BindingEventInfoV),
    ShutdownEvent(ShutdownEventInfoV),
}

impl View for Event {
    type V = EventV;

    open spec fn view(&self) -> EventV {
        match self {
            Event::WorkspaceEvent(i) => EventV::WorkspaceEvent(i@),
            Event::OutputEvent(i) => EventV::OutputEvent(i@),
            Event::ModeEvent(i) => EventV::ModeEvent(i@),
            Event::WindowEvent(i) => EventV::WindowEvent(i@),
            Event::BarConfigEvent(i) => EventV::BarConfigEvent(i@),
            Event::BindingEvent(i) => EventV::BindingEvent(i@),
            Event::ShutdownEvent(i) => EventV::ShutdownEvent(i@),
        }
    }
}

/// What decoding a parsed document under a category yields.
pub open spec fn spec_decode_event(cat: EventCategory, caps: Capabilities, doc: JVal) -> Result<
    EventV,
    DecodeError,
> {
    match cat {
        EventCategory::Workspace => match spec_decode_workspace(doc, caps.node_marks) {
            Ok(i) => Ok(EventV::WorkspaceEvent(i)),
            Err(e) => Err(e),
        },
        EventCategory::Output => match spec_decode_output(doc) {
            Ok(i) => Ok(EventV::OutputEvent(i)),
            Err(e) => Err(e),
        },
        EventCategory::Mode => match spec_decode_mode(doc) {
            Ok(i) => Ok(EventV::ModeEvent(i)),
            Err(e) => Err(e),
        },
        EventCategory::Window => match spec_decode_window(doc, caps.window_mark, caps.node_marks) {
            Ok(i) => Ok(EventV::WindowEvent(i)),
            Err(e) => Err(e),
        },
        EventCategory::BarConfig => match spec_decode_bar_config(doc) {
            Ok(i) => Ok(EventV::BarConfigEvent(i)),
            Err(e) => Err(e),
        },
        EventCategory::Binding => match spec_decode_binding(doc) {
            Ok(i) => Ok(EventV::BindingEvent(i)),
            Err(e) => Err(e),
        },
        EventCategory::Shutdown => match spec_decode_shutdown(doc) {
            Ok(i) => Ok(EventV::ShutdownEvent(i)),
            Err(e) => Err(e),
        },
    }
}

/// Dispatches a raw payload to the decoder of the category it was delivered
/// under.  Category identifiers are fixed at subscription time, and the
/// shutdown category exists only on sessions whose capabilities include it.
pub fn decode_event(cat: EventCategory, caps: &Capabilities, payload: &str) -> (r: Result<
    Event,
    DecodeError,
>)
    requires
        cat is Shutdown ==> caps.shutdown,
    ensures
        match parsed_doc(payload@) {
            None => r == Err::<Event, DecodeError>(DecodeError::Malformed),
            Some(doc) => result_view(r) == spec_decode_event(cat, *caps, doc),
        },
{
    let doc = match json::parse_document(payload) {
        None => {
            return Err(DecodeError::Malformed);
        },
        Some(doc) => doc,
    };
    match cat {
        EventCategory::Workspace => match WorkspaceEventInfo::from_doc(&doc, caps) {
            Ok(i) => Ok(Event::WorkspaceEvent(i)),
            Err(e) => Err(e),
        },
        EventCategory::Output => match OutputEventInfo::from_doc(&doc) {
            Ok(i) => Ok(Event::OutputEvent(i)),
            Err(e) => Err(e),
        },
        EventCategory::Mode => match ModeEventInfo::from_doc(&doc) {
            Ok(i) => Ok(Event::ModeEvent(i)),
            Err(e) => Err(e),
        },
        EventCategory::Window => match WindowEventInfo::from_doc(&doc, caps) {
            Ok(i) => Ok(Event::WindowEvent(i)),
            Err(e) => Err(e),
        },
        EventCategory::BarConfig => match BarConfigEventInfo::from_doc(&doc) {
            Ok(i) => Ok(Event::BarConfigEvent(i)),
            Err(e) => Err(e),
        },
        EventCategory::Binding => match BindingEventInfo::from_doc(&doc) {
            Ok(i) => Ok(Event::BindingEvent(i)),
            Err(e) => Err(e),
        },
        EventCategory::Shutdown => match ShutdownEventInfo::from_doc(&doc, caps) {
            Ok(i) => Ok(Event::ShutdownEvent(i)),
            Err(e) => Err(e),
        },
    }
}

// ---------------------------------------------------------------------------
// Decoding laws
// ---------------------------------------------------------------------------

/// A discriminator string outside the workspace table decodes to `Unknown`.
pub proof fn lemma_unknown_workspace_tag(tag: Seq<char>)
    requires
        !workspace_known_tag(tag),
    ensures
        workspace_change_of_tag(tag) == WorkspaceChange::Unknown,
{
}

/// A discriminator string outside the output table decodes to `Unknown`.
pub proof fn lemma_unknown_output_tag(tag: Seq<char>)
    requires
        !output_known_tag(tag),
    ensures
        output_change_of_tag(tag) == OutputChange::Unknown,
{
}

/// A discriminator string outside the window table decodes to `Unknown`;
/// in particular, the `mark` tag does so when the capability that
/// introduces it is off.
pub proof fn lemma_unknown_window_tag(tag: Seq<char>, mark_cap: bool)
    requires
        !window_known_tag(tag, mark_cap),
    ensures
        window_change_of_tag(tag, mark_cap) == WindowChange::Unknown,
{
}

/// A discriminator string outside the binding table decodes to `Unknown`.
pub proof fn lemma_unknown_binding_tag(tag: Seq<char>)
    requires
        !binding_known_tag(tag),
    ensures
        binding_change_of_tag(tag) == BindingChange::Unknown,
{
}

/// A discriminator string outside the input-type table decodes to
/// `Unknown`.
pub proof fn lemma_unknown_input_type_tag(tag: Seq<char>)
    requires
        !input_type_known_tag(tag),
    ensures
        input_type_of_tag(tag) == InputType::Unknown,
{
}

/// A discriminator string outside the shutdown table decodes to `Unknown`.
pub proof fn lemma_unknown_shutdown_tag(tag: Seq<char>)
    requires
        !shutdown_known_tag(tag),
    ensures
        shutdown_change_of_tag(tag) == ShutdownChange::Unknown,
{
}

/// A window payload without a `container` field never decodes: its absence
/// is a missing-required-field failure, and when the discriminator is in
/// order it is the `container` field the failure names.
pub proof fn lemma_window_container_mandatory(doc: JVal, mark_cap: bool, node_marks: bool)
    requires
        doc is Obj,
        obj_get(doc->Obj_0, "container"@) is None,
    ensures
        spec_decode_window(doc, mark_cap, node_marks) is Err,
        (obj_get(doc->Obj_0, "change"@) matches Some(JVal::Str(_)))
            ==> spec_decode_window(doc, mark_cap, node_marks) == Err::<WindowEventInfoV, DecodeError>(
            DecodeError::MissingRequiredField(FieldName::Container),
        ),
{
}

/// The workspace document built from a discriminator string and two
/// optional-node fields that are in order decodes to exactly those parts —
/// whatever the discriminator string is, so a tag outside the table never
/// makes decoding fail.
pub proof fn lemma_decode_built_workspace(
    tag: Seq<char>,
    cur: JVal,
    old: JVal,
    node_marks: bool,
)
    requires
        spec_opt_node(cur, node_marks) is Ok,
        spec_opt_node(old, node_marks) is Ok,
    ensures
        spec_decode_workspace(
            JVal::Obj(
                seq![("change"@, JVal::Str(tag)), ("current"@, cur), ("old"@, old)],
            ),
            node_marks,
        ) == Ok::<WorkspaceEventInfoV, DecodeError>(
            WorkspaceEventInfoV {
                change: workspace_change_of_tag(tag),
                current: spec_opt_node(cur, node_marks).unwrap(),
                old: spec_opt_node(old, node_marks).unwrap(),
            },
        ),
{
    let es = seq![("change"@, JVal::Str(tag)), ("current"@, cur), ("old"@, old)];
    reveal_strlit("change");
    reveal_strlit("current");
    reveal_strlit("old");
    assert(es[0].0 == "change"@);
    assert(es[1].0 == "current"@);
    assert(es[2].0 == "old"@);
    assert("change"@ != "current"@);
    assert("change"@ != "old"@);
    assert("current"@ != "old"@);
    crate::json::lemma_obj_get_at(es, "change"@, 0);
    crate::json::lemma_obj_get_at(es, "current"@, 1);
    crate::json::lemma_obj_get_at(es, "old"@, 2);
}

/// The output document built from a discriminator string decodes to
/// exactly that discriminator, whatever the string is.
pub proof fn lemma_decode_built_output(tag: Seq<char>)
    ensures
        spec_decode_output(JVal::Obj(seq![("change"@, JVal::Str(tag))])) == Ok::<
            OutputEventInfoV,
            DecodeError,
        >(OutputEventInfoV { change: output_change_of_tag(tag) }),
{
    crate::json::lemma_obj_get_at(seq![("change"@, JVal::Str(tag))], "change"@, 0);
}

/// The mode document built from a mode name decodes to exactly that name.
pub proof fn lemma_decode_built_mode(name: Seq<char>)
    ensures
        spec_decode_mode(JVal::Obj(seq![("change"@, JVal::Str(name))])) == Ok::<
            ModeEventInfoV,
            DecodeError,
        >(ModeEventInfoV { change: name }),
{
    crate::json::lemma_obj_get_at(seq![("change"@, JVal::Str(name))], "change"@, 0);
}

/// The shutdown document built from a discriminator string decodes to
/// exactly that discriminator, whatever the string is.
pub proof fn lemma_decode_built_shutdown(tag: Seq<char>)
    ensures
        spec_decode_shutdown(JVal::Obj(seq![("change"@, JVal::Str(tag))])) == Ok::<
            ShutdownEventInfoV,
            DecodeError,
        >(ShutdownEventInfoV { change: shutdown_change_of_tag(tag) }),
{
    crate::json::lemma_obj_get_at(seq![("change"@, JVal::Str(tag))], "change"@, 0);
}

/// The node document built from an identifier and a name builds a node
/// holding exactly them; marks are offered, empty, only under the marks
/// capability.
pub proof fn lemma_build_built_node(id: int, name: Seq<char>, node_marks: bool)
    ensures
        spec_build_node(
            JVal::Obj(seq![("id"@, JVal::Int(id)), ("name"@, JVal::Str(name))]),
            node_marks,
        ) == Ok::<NodeV, DecodeError>(
            NodeV {
                id: id,
                name: Some(name),
                marks: if node_marks {
                    Some(Seq::empty())
                } else {
                    None
                },
            },
        ),
{
    let es = seq![("id"@, JVal::Int(id)), ("name"@, JVal::Str(name))];
    reveal_strlit("id");
    reveal_strlit("name");
    reveal_strlit("marks");
    assert(es[0].0 == "id"@);
    assert(es[1].0 == "name"@);
    assert("id"@ != "name"@);
    assert("id"@ != "marks"@);
    assert("name"@ != "marks"@);
    crate::json::lemma_obj_get_at(es, "id"@, 0);
    crate::json::lemma_obj_get_at(es, "name"@, 1);
    crate::json::lemma_obj_get_none(es, "marks"@);
}

/// The window document built from a discriminator string and a container
/// sub-document that is in order decodes to exactly those parts — whatever
/// the discriminator string is.
pub proof fn lemma_decode_built_window(
    tag: Seq<char>,
    container: JVal,
    mark_cap: bool,
    node_marks: bool,
)
    requires
        spec_build_node(container, node_marks) is Ok,
    ensures
        spec_decode_window(
            JVal::Obj(seq![("change"@, JVal::Str(tag)), ("container"@, container)]),
            mark_cap,
            node_marks,
        ) == Ok::<WindowEventInfoV, DecodeError>(
            WindowEventInfoV {
                change: window_change_of_tag(tag, mark_cap),
                container: spec_build_node(container, node_marks).unwrap(),
            },
        ),
{
    let es = seq![("change"@, JVal::Str(tag)), ("container"@, container)];
    reveal_strlit("change");
    reveal_strlit("container");
    assert(es[0].0 == "change"@);
    assert(es[1].0 == "container"@);
    assert("change"@ != "container"@);
    crate::json::lemma_obj_get_at(es, "change"@, 0);
    crate::json::lemma_obj_get_at(es, "container"@, 1);
}

/// The binding document built from its parts — any discriminator string,
/// any command, any all-string modifier list, any input code the field
/// admits, any symbol or none, any input-type string — decodes to exactly
/// those parts.
pub proof fn lemma_decode_built_binding(
    tag: Seq<char>,
    cmd: Seq<char>,
    mask_items: Seq<JVal>,
    code: int,
    sym: Option<Seq<char>>,
    input_type_tag: Seq<char>,
)
    requires
        mask_of(mask_items) is Some,
        -0x8000_0000 <= code <= 0x7fff_ffff,
    ensures
        spec_decode_binding(
            JVal::Obj(
                seq![
                    ("change"@, JVal::Str(tag)),
                    (
                        "binding"@,
                        JVal::Obj(
                            seq![
                                ("command"@, JVal::Str(cmd)),
                                ("event_state_mask"@, JVal::Arr(mask_items)),
                                ("input_code"@, JVal::Int(code)),
                                (
                                    "symbol"@,
                                    match sym {
                                        Some(s) => JVal::Str(s),
                                        None => JVal::Null,
                                    },
                                ),
                                ("input_type"@, JVal::Str(input_type_tag)),
                            ],
                        ),
                    ),
                ],
            ),
        ) == Ok::<BindingEventInfoV, DecodeError>(
            BindingEventInfoV {
                change: binding_change_of_tag(tag),
                binding: BindingV {
                    command: cmd,
                    event_state_mask: mask_of(mask_items).unwrap(),
                    input_code: code,
                    symbol: sym,
                    input_type: input_type_of_tag(input_type_tag),
                },
            },
        ),
{
    let bs = seq![
        ("command"@, JVal::Str(cmd)),
        ("event_state_mask"@, JVal::Arr(mask_items)),
        ("input_code"@, JVal::Int(code)),
        (
            "symbol"@,
            match sym {
                Some(s) => JVal::Str(s),
                None => JVal::Null,
            },
        ),
        ("input_type"@, JVal::Str(input_type_tag)),
    ];
    let es = seq![("change"@, JVal::Str(tag)), ("binding"@, JVal::Obj(bs))];
    reveal_strlit("change");
    reveal_strlit("binding");
    reveal_strlit("command");
    reveal_strlit("event_state_mask");
    reveal_strlit("input_code");
    reveal_strlit("symbol");
    reveal_strlit("input_type");
    assert(es[0].0 == "change"@);
    assert(es[1].0 == "binding"@);
    assert("change"@ != "binding"@);
    assert(bs[0].0 == "command"@);
    assert(bs[1].0 == "event_state_mask"@);
    assert(bs[2].0 == "input_code"@);
    assert(bs[3].0 == "symbol"@);
    assert(bs[4].0 == "input_type"@);
    assert("input_code"@[6] != "input_type"@[6]);
    assert("command"@ != "event_state_mask"@);
    assert("command"@ != "input_code"@);
    assert("event_state_mask"@ != "input_code"@);
    assert("command"@ != "symbol"@);
    assert("event_state_mask"@ != "symbol"@);
    assert("input_code"@ != "symbol"@);
    assert("command"@ != "input_type"@);
    assert("event_state_mask"@ != "input_type"@);
    assert("input_code"@ != "input_type"@);
    assert("symbol"@ != "input_type"@);
    crate::json::lemma_obj_get_at(es, "change"@, 0);
    crate::json::lemma_obj_get_at(es, "binding"@, 1);
    crate::json::lemma_obj_get_at(bs, "command"@, 0);
    crate::json::lemma_obj_get_at(bs, "event_state_mask"@, 1);
    crate::json::lemma_obj_get_at(bs, "input_code"@, 2);
    crate::json::lemma_obj_get_at(bs, "symbol"@, 3);
    crate::json::lemma_obj_get_at(bs, "input_type"@, 4);
}

/// The bar-config document built from its parts — the five texts, the
/// three toggles and an all-string color mapping — decodes to exactly
/// those parts.
pub proof fn lemma_decode_built_bar_config(
    id: Seq<char>,
    mode: Seq<char>,
    position: Seq<char>,
    status_command: Seq<char>,
    font: Seq<char>,
    workspace_buttons: bool,
    binding_mode_indicator: bool,
    verbose: bool,
    color_entries: Seq<(Seq<char>, JVal)>,
)
    requires
        colors_of(color_entries) is Some,
    ensures
        spec_decode_bar_config(
            JVal::Obj(
                seq![
                    ("id"@, JVal::Str(id)),
                    ("mode"@, JVal::Str(mode)),
                    ("position"@, JVal::Str(position)),
                    ("status_command"@, JVal::Str(status_command)),
                    ("font"@, JVal::Str(font)),
                    ("workspace_buttons"@, JVal::Bool(workspace_buttons)),
                    ("binding_mode_indicator"@, JVal::Bool(binding_mode_indicator)),
                    ("verbose"@, JVal::Bool(verbose)),
                    ("colors"@, JVal::Obj(color_entries)),
                ],
            ),
        ) == Ok::<BarConfigEventInfoV, DecodeError>(
            BarConfigEventInfoV {
                bar_config: BarConfigV {
                    id,
                    mode,
                    position,
                    status_command,
                    font,
                    workspace_buttons,
                    binding_mode_indicator,
                    verbose,
                    colors: colors_of(color_entries).unwrap(),
                },
            },
        ),
{
    let es = seq![
        ("id"@, JVal::Str(id)),
        ("mode"@, JVal::Str(mode)),
        ("position"@, JVal::Str(position)),
        ("status_command"@, JVal::Str(status_command)),
        ("font"@, JVal::Str(font)),
        ("workspace_buttons"@, JVal::Bool(workspace_buttons)),
        ("binding_mode_indicator"@, JVal::Bool(binding_mode_indicator)),
        ("verbose"@, JVal::Bool(verbose)),
        ("colors"@, JVal::Obj(color_entries)),
    ];
    reveal_strlit("id");
    reveal_strlit("mode");
    reveal_strlit("position");
    reveal_strlit("status_command");
    reveal_strlit("font");
    reveal_strlit("workspace_buttons");
    reveal_strlit("binding_mode_indicator");
    reveal_strlit("verbose");
    reveal_strlit("colors");
    assert(es[0].0 == "id"@);
    assert(es[1].0 == "mode"@);
    assert(es[2].0 == "position"@);
    assert(es[3].0 == "status_command"@);
    assert(es[4].0 == "font"@);
    assert(es[5].0 == "workspace_buttons"@);
    assert(es[6].0 == "binding_mode_indicator"@);
    assert(es[7].0 == "verbose"@);
    assert(es[8].0 == "colors"@);
    assert("font"@[0] != "mode"@[0]);
    assert("id"@ != "mode"@);
    assert("id"@ != "position"@);
    assert("mode"@ != "position"@);
    assert("id"@ != "status_command"@);
    assert("mode"@ != "status_command"@);
    assert("position"@ != "status_command"@);
    assert("id"@ != "font"@);
    assert("mode"@ != "font"@);
    assert("position"@ != "font"@);
    assert("status_command"@ != "font"@);
    assert("id"@ != "workspace_buttons"@);
    assert("mode"@ != "workspace_buttons"@);
    assert("position"@ != "workspace_buttons"@);
    assert("status_command"@ != "workspace_buttons"@);
    assert("font"@ != "workspace_buttons"@);
    assert("id"@ != "binding_mode_indicator"@);
    assert("mode"@ != "binding_mode_indicator"@);
    assert("position"@ != "binding_mode_indicator"@);
    assert("status_command"@ != "binding_mode_indicator"@);
    assert("font"@ != "binding_mode_indicator"@);
    assert("workspace_buttons"@ != "binding_mode_indicator"@);
    assert("id"@ != "verbose"@);
    assert("mode"@ != "verbose"@);
    assert("position"@ != "verbose"@);
    assert("status_command"@ != "verbose"@);
    assert("font"@ != "verbose"@);
    assert("workspace_buttons"@ != "verbose"@);
    assert("binding_mode_indicator"@ != "verbose"@);
    assert("id"@ != "colors"@);
    assert("mode"@ != "colors"@);
    assert("position"@ != "colors"@);
    assert("status_command"@ != "colors"@);
    assert("font"@ != "colors"@);
    assert("workspace_buttons"@ != "colors"@);
    assert("binding_mode_indicator"@ != "colors"@);
    assert("verbose"@ != "colors"@);
    crate::json::lemma_obj_get_at(es, "id"@, 0);
    crate::json::lemma_obj_get_at(es, "mode"@, 1);
    crate::json::lemma_obj_get_at(es, "position"@, 2);
    crate::json::lemma_obj_get_at(es, "status_command"@, 3);
    crate::json::lemma_obj_get_at(es, "font"@, 4);
    crate::json::lemma_obj_get_at(es, "workspace_buttons"@, 5);
    crate::json::lemma_obj_get_at(es, "binding_mode_indicator"@, 6);
    crate::json::lemma_obj_get_at(es, "verbose"@, 7);
    crate::json::lemma_obj_get_at(es, "colors"@, 8);
}

} // verus!
