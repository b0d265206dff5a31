use i3ipc_events::event::{
    Binding, BindingChange, BindingEventInfo, Event, InputType, ModeEventInfo, OutputChange,
    OutputEventInfo, ShutdownChange, ShutdownEventInfo, WindowChange, WindowEventInfo,
    WorkspaceChange, WorkspaceEventInfo,
};
use i3ipc_events::event::BarConfigEventInfo;
use i3ipc_events::reply::{BarConfig, Node};

fn make_node() -> Node {
    Node {
        id: 1234,
        name: Some("Firefox".to_string()),
        marks: None,
    }
}

#[test]
fn test_event_workspace_display() {
    let event = Event::WorkspaceEvent(WorkspaceEventInfo {
        change: WorkspaceChange::Empty,
        current: None,
        old: None,
    });
    assert_eq!(event.render(), "Empty change from unknown to unknown");
}

#[test]
fn test_event_output_display() {
    let event = Event::OutputEvent(OutputEventInfo {
        change: OutputChange::Unspecified,
    });
    assert_eq!(event.render(), "unspecified output event");
}

#[test]
fn test_event_mode_display() {
    let event = Event::ModeEvent(ModeEventInfo {
        change: "default".to_string(),
    });
    assert_eq!(event.render(), "default mode");
}

#[test]
fn test_event_window_display() {
    let event = Event::WindowEvent(WindowEventInfo {
        change: WindowChange::Focus,
        container: make_node(),
    });
    assert_eq!(event.render(), "Focus event for window Firefox; id: 1234");
}

#[test]
fn test_event_bar_config_display() {
    let event = Event::BarConfigEvent(BarConfigEventInfo {
        bar_config: BarConfig {
            id: "mybar".to_string(),
            mode: "dock".to_string(),
            position: "top".to_string(),
            status_command: "i3blocks".to_string(),
            font: "Helvetica".to_string(),
            workspace_buttons: true,
            binding_mode_indicator: true,
            verbose: false,
            colors: Vec::new(),
        },
    });
    assert_eq!(
        event.render(),
        "bar id: mybar; mode: dock; position: top; status command: i3blocks"
    );
}

#[test]
fn test_event_binding_display() {
    let event = Event::BindingEvent(BindingEventInfo {
        change: BindingChange::Run,
        binding: Binding {
            command: r#"[con_mark="F1"] focus"#.to_string(),
            event_state_mask: vec!["Mod4".to_string()],
            input_code: 0,
            symbol: Some("F1".to_string()),
            input_type: InputType::Keyboard,
        },
    });
    assert_eq!(event.render(), r#"Run '[con_mark="F1"] focus' Mod4+F1"#);
}

#[test]
fn test_event_shutdown_display() {
    let event = Event::ShutdownEvent(ShutdownEventInfo {
        change: ShutdownChange::Restart,
    });
    assert_eq!(event.render(), "restart event");
}

#[test]
fn workspace_display_with_nodes() {
    let event = WorkspaceEventInfo {
        change: WorkspaceChange::Focus,
        current: Some(Node {
            id: 5,
            name: Some("ws".to_string()),
            marks: None,
        }),
        old: Some(Node {
            id: -7,
            name: None,
            marks: None,
        }),
    };
    assert_eq!(
        event.render(),
        "Focus change from None (-7) to Some(\"ws\") (5)"
    );
}

#[test]
fn workspace_display_escapes_name() {
    let event = WorkspaceEventInfo {
        change: WorkspaceChange::Rename,
        current: Some(Node {
            id: 2,
            name: Some(r#"a"b\c"#.to_string()),
            marks: None,
        }),
        old: None,
    };
    assert_eq!(
        event.render(),
        r#"Rename change from unknown to Some("a\"b\\c") (2)"#
    );
}

#[test]
fn window_display_untitled() {
    let event = WindowEventInfo {
        change: WindowChange::New,
        container: Node {
            id: 9,
            name: None,
            marks: None,
        },
    };
    assert_eq!(event.render(), "New event for window untitled; id: 9");
}

#[test]
fn binding_display_without_symbol_has_trailing_separator() {
    let event = BindingEventInfo {
        change: BindingChange::Run,
        binding: Binding {
            command: "exec firefox".to_string(),
            event_state_mask: vec!["Mod1".to_string(), "Shift".to_string()],
            input_code: 0,
            symbol: None,
            input_type: InputType::Keyboard,
        },
    };
    assert_eq!(event.render(), "Run 'exec firefox' Mod1+Shift+");
}

#[test]
fn binding_display_empty_mask() {
    let event = BindingEventInfo {
        change: BindingChange::Unknown,
        binding: Binding {
            command: "nop".to_string(),
            event_state_mask: Vec::new(),
            input_code: 0,
            symbol: None,
            input_type: InputType::Mouse,
        },
    };
    assert_eq!(event.render(), "Unknown 'nop' +");
}

#[test]
fn change_render_texts() {
    assert_eq!(OutputChange::Unknown.render(), "unknown");
    assert_eq!(BindingChange::Run.render(), "run");
    assert_eq!(BindingChange::Unknown.render(), "unknown");
    assert_eq!(ShutdownChange::Exit.render(), "exit");
    assert_eq!(ShutdownChange::Unknown.render(), "unknown");
}
