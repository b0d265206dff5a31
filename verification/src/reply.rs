//! Snapshots of window-manager state carried inside events: a layout-tree
//! node and a bar configuration.  Each holds exactly the plain values the
//! event subsystem reads, together with a mathematical view.

use vstd::prelude::*;

verus! {

/// One node of the window layout tree, as captured at the moment an event
/// was emitted.  Built once from a sub-document and never mutated.
#[derive(Debug, PartialEq)]
pub struct Node {
    /// The internal node identifier.
    pub id: i64,
    /// The node's name (a window title, a workspace name), when it has one.
    pub name: Option<String>,
    /// Marks attached to the node.  Offered only when the session declares
    /// the protocol capability that introduces marks; `None` otherwise.
    pub marks: Option<Vec<String>>,
}

/// The mathematical model of a [`Node`].
pub ghost struct NodeV {
    pub id: int,
    pub name: Option<Seq<char>>,
    pub marks: Option<Seq<Seq<char>>>,
}

impl View for Node {
    type V = NodeV;

    open spec fn view(&self) -> NodeV {
        NodeV {
            id: self.id as int,
            name: match self.name {
                Some(s) => Some(s@),
                None => None,
            },
            marks: match self.marks {
                Some(ms) => Some(ms.deep_view()),
                None => None,
            },
        }
    }
}

/// A full bar configuration snapshot.
#[derive(Debug, PartialEq)]
pub struct BarConfig {
    /// The bar's identifier.
    pub id: String,
    /// The bar's display mode.
    pub mode: String,
    /// Where the bar sits on the screen.
    pub position: String,
    /// The command that produces the bar's status line.
    pub status_command: String,
    /// The font the bar is drawn with.
    pub font: String,
    /// Whether workspace buttons are shown.
    pub workspace_buttons: bool,
    /// Whether the binding-mode indicator is shown.
    pub binding_mode_indicator: bool,
    /// Whether the bar runs in verbose mode.
    pub verbose: bool,
    /// The bar's color mapping, in document order.
    pub colors: Vec<(String, String)>,
}

/// The mathematical model of a [`BarConfig`].
pub ghost struct BarConfigV {
    pub id: Seq<char>,
    pub mode: Seq<char>,
    pub position: Seq<char>,
    pub status_command: Seq<char>,
    pub font: Seq<char>,
    pub workspace_buttons: bool,
    pub binding_mode_indicator: bool,
    pub verbose: bool,
    pub colors: Seq<(Seq<char>, Seq<char>)>,
}

impl View for BarConfig {
    type V = BarConfigV;

    open spec fn view(&self) -> BarConfigV {
        BarConfigV {
            id: self.id@,
            mode: self.mode@,
            position: self.position@,
            status_command: self.status_command@,
            font: self.font@,
            workspace_buttons: self.workspace_buttons,
            binding_mode_indicator: self.binding_mode_indicator,
            verbose: self.verbose,
            colors: Seq::new(self.colors@.len(), |i: int| (self.colors@[i].0@, self.colors@[i].1@)),
        }
    }
}

} // verus!
