use i3ipc_events::event::{
    BindingChange, BindingEventInfo, Capabilities, DecodeError, Event, EventCategory, FieldName,
    InputType, ModeEventInfo, OutputChange, OutputEventInfo, ShutdownChange, ShutdownEventInfo,
    WindowChange, WindowEventInfo, WorkspaceChange, WorkspaceEventInfo,
};
use i3ipc_events::event::BarConfigEventInfo;

fn caps_off() -> Capabilities {
    Capabilities {
        window_mark: false,
        shutdown: false,
        node_marks: false,
    }
}

fn caps_all() -> Capabilities {
    Capabilities {
        window_mark: true,
        shutdown: true,
        node_marks: true,
    }
}

#[test]
fn decode_workspace_empty_nulls() {
    let info =
        WorkspaceEventInfo::from_str(r#"{"change":"empty","current":null,"old":null}"#, &caps_off())
            .unwrap();
    assert_eq!(info.change, WorkspaceChange::Empty);
    assert!(info.current.is_none());
    assert!(info.old.is_none());
    assert_eq!(info.render(), "Empty change from unknown to unknown");
}

#[test]
fn decode_workspace_absent_old() {
    let info = WorkspaceEventInfo::from_str(
        r#"{"change":"focus","current":{"id":3,"name":"web"}}"#,
        &caps_off(),
    )
    .unwrap();
    assert_eq!(info.change, WorkspaceChange::Focus);
    let cur = info.current.unwrap();
    assert_eq!(cur.id, 3);
    assert_eq!(cur.name.as_deref(), Some("web"));
    assert!(info.old.is_none());
}

#[test]
fn decode_workspace_missing_current_fails() {
    let r = WorkspaceEventInfo::from_str(r#"{"change":"init"}"#, &caps_off());
    assert_eq!(
        r.unwrap_err(),
        DecodeError::MissingRequiredField(FieldName::Current)
    );
}

#[test]
fn decode_workspace_unknown_tag_does_not_fail() {
    let info = WorkspaceEventInfo::from_str(
        r#"{"change":"frobnicate","current":null,"old":null}"#,
        &caps_off(),
    )
    .unwrap();
    assert_eq!(info.change, WorkspaceChange::Unknown);
}

#[test]
fn decode_output_unspecified() {
    let info = OutputEventInfo::from_str(r#"{"change":"unspecified"}"#).unwrap();
    assert_eq!(info.change, OutputChange::Unspecified);
    assert_eq!(info.render(), "unspecified output event");
}

#[test]
fn decode_output_unknown_tag() {
    let info = OutputEventInfo::from_str(r#"{"change":"resized"}"#).unwrap();
    assert_eq!(info.change, OutputChange::Unknown);
}

#[test]
fn decode_mode_default() {
    let info = ModeEventInfo::from_str(r#"{"change":"default"}"#).unwrap();
    assert_eq!(info.change, "default");
    assert_eq!(info.render(), "default mode");
}

#[test]
fn decode_window_focus() {
    let info = WindowEventInfo::from_str(
        r#"{"change":"focus","container":{"name":"Firefox","id":1234,"focused":true}}"#,
        &caps_off(),
    )
    .unwrap();
    assert_eq!(info.change, WindowChange::Focus);
    assert_eq!(info.container.id, 1234);
    assert_eq!(info.render(), "Focus event for window Firefox; id: 1234");
}

#[test]
fn decode_window_missing_container_fails() {
    let r = WindowEventInfo::from_str(r#"{"change":"focus"}"#, &caps_off());
    assert_eq!(
        r.unwrap_err(),
        DecodeError::MissingRequiredField(FieldName::Container)
    );
}

#[test]
fn decode_window_mark_needs_capability() {
    let payload = r#"{"change":"mark","container":{"id":1}}"#;
    let without = WindowEventInfo::from_str(payload, &caps_off()).unwrap();
    assert_eq!(without.change, WindowChange::Unknown);
    let with = WindowEventInfo::from_str(payload, &caps_all()).unwrap();
    assert_eq!(with.change, WindowChange::Mark);
}

#[test]
fn decode_node_marks_gated() {
    let payload = r#"{"change":"new","container":{"id":1,"marks":["a","b"]}}"#;
    let without = WindowEventInfo::from_str(payload, &caps_off()).unwrap();
    assert!(without.container.marks.is_none());
    let with = WindowEventInfo::from_str(payload, &caps_all()).unwrap();
    assert_eq!(
        with.container.marks,
        Some(vec!["a".to_string(), "b".to_string()])
    );
}

#[test]
fn decode_binding_run() {
    let info = BindingEventInfo::from_str(
        r#"{"change":"run","binding":{"command":"[con_mark=\"F1\"] focus","event_state_mask":["Mod4"],"input_code":0,"symbol":"F1","input_type":"keyboard"}}"#,
    )
    .unwrap();
    assert_eq!(info.change, BindingChange::Run);
    assert_eq!(info.binding.command, r#"[con_mark="F1"] focus"#);
    assert_eq!(info.binding.event_state_mask, vec!["Mod4".to_string()]);
    assert_eq!(info.binding.input_code, 0);
    assert_eq!(info.binding.symbol.as_deref(), Some("F1"));
    assert_eq!(info.binding.input_type, InputType::Keyboard);
    assert_eq!(info.render(), r#"Run '[con_mark="F1"] focus' Mod4+F1"#);
}

#[test]
fn decode_binding_null_symbol() {
    let info = BindingEventInfo::from_str(
        r#"{"change":"run","binding":{"command":"exec x","event_state_mask":[],"input_code":44,"symbol":null,"input_type":"mouse"}}"#,
    )
    .unwrap();
    assert!(info.binding.symbol.is_none());
    assert_eq!(info.binding.input_code, 44);
    assert_eq!(info.binding.input_type, InputType::Mouse);
}

#[test]
fn decode_binding_missing_symbol_fails() {
    let r = BindingEventInfo::from_str(
        r#"{"change":"run","binding":{"command":"exec x","event_state_mask":[],"input_code":0,"input_type":"keyboard"}}"#,
    );
    assert_eq!(
        r.unwrap_err(),
        DecodeError::MissingRequiredField(FieldName::Symbol)
    );
}

#[test]
fn decode_binding_non_string_mask_fails() {
    let r = BindingEventInfo::from_str(
        r#"{"change":"run","binding":{"command":"exec x","event_state_mask":["Mod1",4],"input_code":0,"symbol":null,"input_type":"keyboard"}}"#,
    );
    assert_eq!(
        r.unwrap_err(),
        DecodeError::MissingRequiredField(FieldName::EventStateMask)
    );
}

#[test]
fn decode_binding_huge_input_code_fails() {
    let r = BindingEventInfo::from_str(
        r#"{"change":"run","binding":{"command":"exec x","event_state_mask":[],"input_code":4294967296,"symbol":null,"input_type":"keyboard"}}"#,
    );
    assert_eq!(
        r.unwrap_err(),
        DecodeError::MissingRequiredField(FieldName::InputCode)
    );
}

#[test]
fn decode_bar_config() {
    let info = BarConfigEventInfo::from_str(
        r##"{"id":"mybar","mode":"dock","position":"top","status_command":"i3blocks","font":"Helvetica","workspace_buttons":true,"binding_mode_indicator":true,"verbose":false,"colors":{"background":"#000000","statusline":"#ffffff"}}"##,
    )
    .unwrap();
    assert_eq!(info.bar_config.id, "mybar");
    assert_eq!(info.bar_config.font, "Helvetica");
    assert!(info.bar_config.workspace_buttons);
    assert!(!info.bar_config.verbose);
    assert_eq!(info.bar_config.colors.len(), 2);
    assert_eq!(
        info.render(),
        "bar id: mybar; mode: dock; position: top; status command: i3blocks"
    );
}

#[test]
fn decode_bar_config_missing_font_fails() {
    let r = BarConfigEventInfo::from_str(
        r#"{"id":"b","mode":"dock","position":"top","status_command":"st","workspace_buttons":true,"binding_mode_indicator":true,"verbose":false,"colors":{}}"#,
    );
    assert_eq!(
        r.unwrap_err(),
        DecodeError::MissingRequiredField(FieldName::Font)
    );
}

#[test]
fn decode_shutdown_restart() {
    let info = ShutdownEventInfo::from_str(r#"{"change":"restart"}"#, &caps_all()).unwrap();
    assert_eq!(info.change, ShutdownChange::Restart);
    assert_eq!(info.render(), "restart event");
}

#[test]
fn decode_malformed_payload_fails() {
    let r = OutputEventInfo::from_str("{nope");
    assert_eq!(r.unwrap_err(), DecodeError::Malformed);
    let r = WorkspaceEventInfo::from_str("", &caps_off());
    assert_eq!(r.unwrap_err(), DecodeError::Malformed);
}

#[test]
fn decode_missing_change_fails() {
    let r = OutputEventInfo::from_str(r#"{"other":1}"#);
    assert_eq!(
        r.unwrap_err(),
        DecodeError::MissingRequiredField(FieldName::Change)
    );
    let r = ModeEventInfo::from_str(r#"{"change":7}"#);
    assert_eq!(
        r.unwrap_err(),
        DecodeError::MissingRequiredField(FieldName::Change)
    );
}

#[test]
fn decode_float_node_rejected() {
    let r = WorkspaceEventInfo::from_str(
        r#"{"change":"empty","current":1.5,"old":null}"#,
        &caps_off(),
    );
    assert_eq!(
        r.unwrap_err(),
        DecodeError::MissingRequiredField(FieldName::Id)
    );
}

#[test]
fn resolver_dispatches_by_category() {
    let caps = caps_all();
    let e = i3ipc_events::decode::decode_event(
        EventCategory::Workspace,
        &caps,
        r#"{"change":"init","current":{"id":8},"old":null}"#,
    )
    .unwrap();
    assert!(matches!(e, Event::WorkspaceEvent(_)));
    let e = i3ipc_events::decode::decode_event(
        EventCategory::Output,
        &caps,
        r#"{"change":"unspecified"}"#,
    )
    .unwrap();
    assert!(matches!(e, Event::OutputEvent(_)));
    let e =
        i3ipc_events::decode::decode_event(EventCategory::Mode, &caps, r#"{"change":"resize"}"#)
            .unwrap();
    assert_eq!(e.render(), "resize mode");
    let e = i3ipc_events::decode::decode_event(
        EventCategory::Window,
        &caps,
        r#"{"change":"title","container":{"id":2,"name":"vim"}}"#,
    )
    .unwrap();
    assert_eq!(e.render(), "Title event for window vim; id: 2");
    let e = i3ipc_events::decode::decode_event(
        EventCategory::Shutdown,
        &caps,
        r#"{"change":"exit"}"#,
    )
    .unwrap();
    assert_eq!(e.render(), "exit event");
}
