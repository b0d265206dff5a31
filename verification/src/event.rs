//! The closed union of decoded events and its member types.
//!
//! Every discriminator is a closed set of known string tags plus a catch-all
//! `Unknown` member, so that a server introducing a new tag value never
//! breaks decoding.

use vstd::prelude::*;

use crate::reply::{BarConfig, BarConfigV, Node, NodeV};

verus! {

/// The protocol capabilities the target server was negotiated with.  Fixed
/// for the lifetime of a decoding session.
#[derive(Debug, Clone, Copy, PartialEq, Eq, Structural)]
pub struct Capabilities {
    /// The server supports the `Mark` window-change tag.
    pub window_mark: bool,
    /// The server supports shutdown notifications.
    pub shutdown: bool,
    /// The server reports marks on layout-tree nodes.
    pub node_marks: bool,
}

/// A document field a category defines as mandatory.
#[derive(Debug, Clone, Copy, PartialEq, Eq, Structural)]
pub enum FieldName {
    Change,
    Current,
    Container,
    Binding,
    Command,
    EventStateMask,
    InputCode,
    Symbol,
    InputType,
    Id,
    Mode,
    Position,
    StatusCommand,
    Font,
    WorkspaceButtons,
    BindingModeIndicator,
    Verbose,
    Colors,
}

/// Why a payload could not be decoded.
#[derive(Debug, Clone, Copy, PartialEq, Eq, Structural)]
pub enum DecodeError {
    /// The payload text is not valid structured data.
    Malformed,
    /// A field the category defines as mandatory is absent, or does not
    /// have the shape the category requires of it.
    MissingRequiredField(FieldName),
}

/// The kind of workspace change.
#[derive(Debug, Clone, Copy, PartialEq, Eq, Structural)]
pub enum WorkspaceChange {
    Focus,
    Init,
    Empty,
    Urgent,
    Rename,
    Reload,
    Restored,
    Move,
    /// A workspace change this crate does not know yet.
    Unknown,
}

/// The kind of output change.
#[derive(Debug, Clone, Copy, PartialEq, Eq, Structural)]
pub enum OutputChange {
    Unspecified,
    /// An output change this crate does not know yet.
    Unknown,
}

/// The kind of window change.
#[derive(Debug, Clone, Copy, PartialEq, Eq, Structural)]
pub enum WindowChange {
    /// The window has become managed.
    New,
    /// The window has closed.
    Close,
    /// The window has received input focus.
    Focus,
    /// The window's title has changed.
    Title,
    /// The window has entered or exited fullscreen mode.
    FullscreenMode,
    /// The window has changed its position in the tree.
    Move,
    /// The window has transitioned to or from floating.
    Floating,
    /// The window has become urgent or lost its urgent status.
    Urgent,
    /// A mark has been added to or removed from the window.  Recognized
    /// only when the session's capabilities include it.
    Mark,
    /// A window change this crate does not know yet.
    Unknown,
}

/// Either keyboard or mouse.
#[derive(Debug, Clone, Copy, PartialEq, Eq, Structural)]
pub enum InputType {
    Keyboard,
    Mouse,
    /// An input type this crate does not know yet.
    Unknown,
}

/// The kind of binding change.
#[derive(Debug, Clone, Copy, PartialEq, Eq, Structural)]
pub enum BindingChange {
    Run,
    /// A binding change this crate does not know yet.
    Unknown,
}

/// The kind of shutdown change.
#[derive(Debug, Clone, Copy, PartialEq, Eq, Structural)]
pub enum ShutdownChange {
    Restart,
    Exit,
    /// A shutdown change this crate does not know yet.
    Unknown,
}

/// Data for `WorkspaceEvent`.
#[derive(Debug, PartialEq)]
pub struct WorkspaceEventInfo {
    /// The type of change.
    pub change: WorkspaceChange,
    /// `Some` if the change affects a workspace.
    pub current: Option<Node>,
    /// `Some` only when the change is a focus change that had a previous
    /// workspace.  That workspace still appears here even if it was empty
    /// and got destroyed by the switch.
    pub old: Option<Node>,
}

/// The mathematical model of a [`WorkspaceEventInfo`].
pub ghost struct WorkspaceEventInfoV {
    pub change: WorkspaceChange,
    pub current: Option<NodeV>,
    pub old: Option<NodeV>,
}

impl View for WorkspaceEventInfo {
    type V = WorkspaceEventInfoV;

    open spec fn view(&self) -> WorkspaceEventInfoV {
        WorkspaceEventInfoV {
            change: self.change,
            current: match self.current {
                Some(n) => Some(n@),
                None => None,
            },
            old: match self.old {
                Some(n) => Some(n@),
                None => None,
            },
        }
    }
}

/// Data for `OutputEvent`.
#[derive(Debug, PartialEq)]
pub struct OutputEventInfo {
    /// The type of change.
    pub change: OutputChange,
}

/// The mathematical model of an [`OutputEventInfo`].
pub ghost struct OutputEventInfoV {
    pub change: OutputChange,
}

impl View for OutputEventInfo {
    type V = OutputEventInfoV;

    open spec fn view(&self) -> OutputEventInfoV {
        OutputEventInfoV { change: self.change }
    }
}

/// Data for `ModeEvent`.
#[derive(Debug, PartialEq)]
pub struct ModeEventInfo {
    /// The name of the mode now in use.  Mode names are configuration
    /// defined and open ended; the default mode is named `default`.
    pub change: String,
}

/// The mathematical model of a [`ModeEventInfo`].
pub ghost struct ModeEventInfoV {
    pub change: Seq<char>,
}

impl View for ModeEventInfo {
    type V = ModeEventInfoV;

    open spec fn view(&self) -> ModeEventInfoV {
        ModeEventInfoV { change: self.change@ }
    }
}

/// Data for `WindowEvent`.
#[derive(Debug, PartialEq)]
pub struct WindowEventInfo {
    /// The type of change.
    pub change: WindowChange,
    /// The window's parent container.  Never absent.
    pub container: Node,
}

/// The mathematical model of a [`WindowEventInfo`].
pub ghost struct WindowEventInfoV {
    pub change: WindowChange,
    pub container: NodeV,
}

impl View for WindowEventInfo {
    type V = WindowEventInfoV;

    open spec fn view(&self) -> WindowEventInfoV {
        WindowEventInfoV { change: self.change, container: self.container@ }
    }
}

/// Data for `BarConfigEvent`.
#[derive(Debug, PartialEq)]
pub struct BarConfigEventInfo {
    /// The new bar configuration.
    pub bar_config: BarConfig,
}

/// The mathematical model of a [`BarConfigEventInfo`].
pub ghost struct BarConfigEventInfoV {
    pub bar_config: BarConfigV,
}

impl View for BarConfigEventInfo {
    type V = BarConfigEventInfoV;

    open spec fn view(&self) -> BarConfigEventInfoV {
        BarConfigEventInfoV { bar_config: self.bar_config@ }
    }
}

/// Details about the binding that was run.
#[derive(Debug, PartialEq)]
pub struct Binding {
    /// The command configured to run for this binding.
    pub command: String,
    /// The group and modifier keys configured with this binding.
    pub event_state_mask: Vec<String>,
    /// The key code given for a binding configured by code, or the number
    /// of times a mouse button was pressed; otherwise 0.
    pub input_code: i32,
    /// The symbol of a keyboard binding configured by symbol, otherwise
    /// `None`.
    pub symbol: Option<String>,
    /// Whether this was a keyboard or a mouse binding.
    pub input_type: InputType,
}

/// The mathematical model of a [`Binding`].
pub ghost struct BindingV {
    pub command: Seq<char>,
    pub event_state_mask: Seq<Seq<char>>,
    pub input_code: int,
    pub symbol: Option<Seq<char>>,
    pub input_type: InputType,
}

impl View for Binding {
    type V = BindingV;

    open spec fn view(&self) -> BindingV {
        BindingV {
            command: self.command@,
            event_state_mask: self.event_state_mask.deep_view(),
            input_code: self.input_code as int,
            symbol: match self.symbol {
                Some(s) => Some(s@),
                None => None,
            },
            input_type: self.input_type,
        }
    }
}

/// Data for `BindingEvent`: the details of a binding that ran a command
/// because of user input.
#[derive(Debug, PartialEq)]
pub struct BindingEventInfo {
    /// What sort of binding event was triggered.
    pub change: BindingChange,
    pub binding: Binding,
}

/// The mathematical model of a [`BindingEventInfo`].
pub ghost struct BindingEventInfoV {
    pub change: BindingChange,
    pub binding: BindingV,
}

impl View for BindingEventInfo {
    type V = BindingEventInfoV;

    open spec fn view(&self) -> BindingEventInfoV {
        BindingEventInfoV { change: self.change, binding: self.binding@ }
    }
}

/// Data for `ShutdownEvent`.  Only decodable when the session's
/// capabilities include shutdown notifications.
#[derive(Debug, PartialEq)]
pub struct ShutdownEventInfo {
    pub change: ShutdownChange,
}

/// The mathematical model of a [`ShutdownEventInfo`].
pub ghost struct ShutdownEventInfoV {
    pub change: ShutdownChange,
}

impl View for ShutdownEventInfo {
    type V = ShutdownEventInfoV;

    open spec fn view(&self) -> ShutdownEventInfoV {
        ShutdownEventInfoV { change: self.change }
    }
}

/// An event passed back from the window manager.
#[derive(Debug, PartialEq)]
pub enum Event {
    WorkspaceEvent(WorkspaceEventInfo),
    OutputEvent(OutputEventInfo),
    ModeEvent(ModeEventInfo),
    WindowEvent(WindowEventInfo),
    BarConfigEvent(BarConfigEventInfo),
    BindingEvent(BindingEventInfo),
    /// Only ever constructed when the session's capabilities include
    /// shutdown notifications.
    ShutdownEvent(ShutdownEventInfo),
}

/// The subscription category a payload was delivered under.  Established
/// once per subscription, not per message.
#[derive(Debug, Clone, Copy, PartialEq, Eq, Structural)]
pub enum EventCategory {
    Workspace,
    Output,
    Mode,
    Window,
    BarConfig,
    Binding,
    Shutdown,
}

} // verus!
