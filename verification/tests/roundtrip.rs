use i3ipc_events::event::{
    BindingChange, BindingEventInfo, Capabilities, InputType, ModeEventInfo, OutputChange,
    OutputEventInfo, WindowChange, WindowEventInfo, WorkspaceChange, WorkspaceEventInfo,
};
use i3ipc_events::json::Json;

/// Writes a document back out as structured text.
fn serialize(j: &Json) -> String {
    match j {
        Json::Null => "null".to_string(),
        Json::Bool(b) => b.to_string(),
        Json::Int(i) => i.to_string(),
        Json::BadNum => "0.5".to_string(),
        Json::Str(s) => serialize_str(s),
        Json::Arr(items) => {
            let parts: Vec<String> = items.iter().map(serialize).collect();
            format!("[{}]", parts.join(","))
        }
        Json::Obj(entries) => {
            let parts: Vec<String> = entries
                .iter()
                .map(|(k, v)| format!("{}:{}", serialize_str(k), serialize(v)))
                .collect();
            format!("{{{}}}", parts.join(","))
        }
    }
}

fn serialize_str(s: &str) -> String {
    let mut out = String::from("\"");
    for c in s.chars() {
        match c {
            '"' => out.push_str("\\\""),
            '\\' => out.push_str("\\\\"),
            '\n' => out.push_str("\\n"),
            _ => out.push(c),
        }
    }
    out.push('"');
    out
}

fn obj(entries: Vec<(&str, Json)>) -> Json {
    Json::Obj(
        entries
            .into_iter()
            .map(|(k, v)| (k.to_string(), v))
            .collect(),
    )
}

fn s(text: &str) -> Json {
    Json::Str(text.to_string())
}

fn caps_off() -> Capabilities {
    Capabilities {
        window_mark: false,
        shutdown: false,
        node_marks: false,
    }
}

#[test]
fn workspace_round_trip() {
    let doc = obj(vec![
        ("change", s("urgent")),
        ("current", obj(vec![("id", Json::Int(42)), ("name", s("mail"))])),
        ("old", Json::Null),
    ]);
    let info = WorkspaceEventInfo::from_str(&serialize(&doc), &caps_off()).unwrap();
    assert_eq!(info.change, WorkspaceChange::Urgent);
    let cur = info.current.unwrap();
    assert_eq!(cur.id, 42);
    assert_eq!(cur.name.as_deref(), Some("mail"));
    assert!(info.old.is_none());
}

#[test]
fn output_round_trip() {
    let doc = obj(vec![("change", s("unspecified"))]);
    let info = OutputEventInfo::from_str(&serialize(&doc)).unwrap();
    assert_eq!(info.change, OutputChange::Unspecified);
}

#[test]
fn mode_round_trip() {
    let doc = obj(vec![("change", s("resize \"odd\" mode"))]);
    let info = ModeEventInfo::from_str(&serialize(&doc)).unwrap();
    assert_eq!(info.change, "resize \"odd\" mode");
}

#[test]
fn window_round_trip() {
    let doc = obj(vec![
        ("change", s("close")),
        ("container", obj(vec![("id", Json::Int(-3)), ("name", Json::Null)])),
    ]);
    let info = WindowEventInfo::from_str(&serialize(&doc), &caps_off()).unwrap();
    assert_eq!(info.change, WindowChange::Close);
    assert_eq!(info.container.id, -3);
    assert!(info.container.name.is_none());
}

#[test]
fn binding_round_trip() {
    let doc = obj(vec![
        ("change", s("run")),
        (
            "binding",
            obj(vec![
                ("command", s(r#"exec --no-startup-id "x y""#)),
                (
                    "event_state_mask",
                    Json::Arr(vec![s("Mod4"), s("Shift")]),
                ),
                ("input_code", Json::Int(-9)),
                ("symbol", Json::Null),
                ("input_type", s("keyboard")),
            ]),
        ),
    ]);
    let info = BindingEventInfo::from_str(&serialize(&doc)).unwrap();
    assert_eq!(info.change, BindingChange::Run);
    assert_eq!(info.binding.command, r#"exec --no-startup-id "x y""#);
    assert_eq!(
        info.binding.event_state_mask,
        vec!["Mod4".to_string(), "Shift".to_string()]
    );
    assert_eq!(info.binding.input_code, -9);
    assert!(info.binding.symbol.is_none());
    assert_eq!(info.binding.input_type, InputType::Keyboard);
}

#[test]
fn doc_level_decode_matches_text_decode() {
    let doc = obj(vec![
        ("change", s("rename")),
        ("current", obj(vec![("id", Json::Int(6)), ("name", s("6: web"))])),
        ("old", Json::Null),
    ]);
    let from_doc = WorkspaceEventInfo::from_doc(&doc, &caps_off()).unwrap();
    let from_text = WorkspaceEventInfo::from_str(&serialize(&doc), &caps_off()).unwrap();
    assert_eq!(from_doc, from_text);
}
