use i3ipc::error::DecodeError;
use i3ipc::event;
use i3ipc::event::{
    build_event, event_number_of, BindingChange, Event, InputType, OutputChange, ShutdownChange,
    WindowChange, WorkspaceChange,
};
use i3ipc::reply::{ColorableBarPart, NodeBorder, NodeLayout, NodeType, WindowProperty};

#[test]
fn from_str_workspace() {
    let json_str = r##"
    {
        "change": "focus",
        "current": {
            "id": 28489712,
            "name": "something",
            "type": "workspace",
            "border": "normal",
            "current_border_width": 2,
            "layout": "splith",
            "orientation": "none",
            "percent": 30.0,
            "rect": { "x": 1600, "y": 0, "width": 1600, "height": 1200 },
            "window_rect": { "x": 2, "y": 0, "width": 632, "height": 366 },
            "deco_rect": { "x": 1, "y": 1, "width": 631, "height": 365 },
            "geometry": { "x": 6, "y": 6, "width": 10, "height": 10 },
            "window": 1,
            "urgent": false,
            "focused": true
        },
        "old": null
    }"##;
    event::WorkspaceEventInfo::from_str(json_str).unwrap();
}

#[test]
fn from_str_output() {
    let json_str = r##"{ "change": "unspecified" }"##;
    event::OutputEventInfo::from_str(json_str).unwrap();
}

#[test]
fn from_str_mode() {
    let json_str = r##"{ "change": "default" }"##;
    event::ModeEventInfo::from_str(json_str).unwrap();
}

#[test]
fn from_str_window() {
    let json_str = r##"
    {
        "change": "new",
        "container": {
            "id": 28489712,
            "name": "something",
            "type": "workspace",
            "border": "normal",
            "current_border_width": 2,
            "layout": "splith",
            "orientation": "none",
            "percent": 30.0,
            "rect": { "x": 1600, "y": 0, "width": 1600, "height": 1200 },
            "window_rect": { "x": 2, "y": 0, "width": 632, "height": 366 },
            "deco_rect": { "x": 1, "y": 1, "width": 631, "height": 365 },
            "geometry": { "x": 6, "y": 6, "width": 10, "height": 10 },
            "window": 1,
            "urgent": false,
            "focused": true
        }
    }"##;
    event::WindowEventInfo::from_str(json_str).unwrap();
}

#[test]
fn from_str_barconfig() {
    let json_str = r##"
    {
        "id": "bar-bxuqzf",
        "mode": "dock",
        "position": "bottom",
        "status_command": "i3status",
        "font": "-misc-fixed-medium-r-normal--13-120-75-75-C-70-iso10646-1",
        "workspace_buttons": true,
        "binding_mode_indicator": true,
        "verbose": false,
        "colors": {
                "background": "#c0c0c0",
                "statusline": "#00ff00",
                "focused_workspace_text": "#ffffff",
                "focused_workspace_bg": "#000000"
        }
    }"##;
    event::BarConfigEventInfo::from_str(json_str).unwrap();
}

#[test]
fn from_str_binding_event() {
    let json_str = r##"
    {
        "change": "run",
        "binding": {
            "command": "nop",
            "event_state_mask": [
                "shift",
                "ctrl"
            ],
            "input_code": 0,
            "symbol": "t",
            "input_type": "keyboard"
        }
    }"##;
    event::BindingEventInfo::from_str(json_str).unwrap();
}

const CONTAINER: &str = r##"{
    "id": 28489712,
    "name": "something",
    "type": "workspace",
    "border": "normal",
    "current_border_width": 2,
    "layout": "splith",
    "orientation": "none",
    "percent": 30.0,
    "rect": { "x": 1600, "y": 0, "width": 1600, "height": 1200 },
    "window_rect": { "x": 2, "y": 0, "width": 632, "height": 366 },
    "deco_rect": { "x": 1, "y": 1, "width": 631, "height": 365 },
    "geometry": { "x": 6, "y": 6, "width": 10, "height": 10 },
    "window": 1,
    "urgent": false,
    "focused": true
}"##;

#[test]
fn workspace_event_holds_what_it_says() {
    let text = format!(r#"{{ "change": "focus", "current": {}, "old": null }}"#, CONTAINER);
    let info = event::WorkspaceEventInfo::from_str(&text).unwrap();
    assert_eq!(info.change, WorkspaceChange::Focus);
    assert!(info.old.is_none());
    let node = info.current.unwrap();
    assert_eq!(node.id, 28489712);
    assert_eq!(node.name.as_deref(), Some("something"));
    assert_eq!(node.nodetype, NodeType::Workspace);
    assert_eq!(node.border, NodeBorder::Normal);
    assert_eq!(node.current_border_width, 2);
    assert_eq!(node.layout, NodeLayout::SplitH);
    let percent = node.percent.unwrap();
    assert_eq!(percent.integer, None);
    assert_eq!(percent.text.parse::<f64>().unwrap(), 30.0);
    assert_eq!(node.rect, (1600, 0, 1600, 1200));
    assert_eq!(node.window_rect, (2, 0, 632, 366));
    assert_eq!(node.deco_rect, (1, 1, 631, 365));
    assert_eq!(node.geometry, (6, 6, 10, 10));
    assert_eq!(node.window, Some(1));
    assert!(node.window_properties.is_none());
    assert!(!node.urgent);
    assert!(node.focused);
    assert!(node.focus.is_empty() && node.nodes.is_empty() && node.floating_nodes.is_empty());
}

#[test]
fn window_event_holds_what_it_says() {
    let properties = r#""window": 1, "window_properties": {
        "class": "XTerm", "transient_for": null, "title": "a shell", "machine": "box"
    }"#;
    let container = CONTAINER.replace(r#""window": 1"#, properties);
    let text = format!(r#"{{ "change": "mark", "container": {} }}"#, container);
    let info = event::WindowEventInfo::from_str(&text).unwrap();
    assert_eq!(info.change, WindowChange::Mark);
    let found = info.container.window_properties.unwrap();
    assert_eq!(
        found,
        vec![
            (WindowProperty::Class, "XTerm".to_string()),
            (WindowProperty::Title, "a shell".to_string()),
        ]
    );
}

#[test]
fn bar_config_event_holds_what_it_says() {
    let text = r##"{
        "id": "bar-bxuqzf", "mode": "dock", "position": "bottom",
        "status_command": "i3status", "font": "fixed",
        "workspace_buttons": true, "binding_mode_indicator": true, "verbose": false,
        "colors": { "background": "#c0c0c0", "urgent_workspace_bg": "#ff0000", "glow": "#010203" }
    }"##;
    let config = event::BarConfigEventInfo::from_str(text).unwrap().bar_config;
    assert_eq!(config.id, "bar-bxuqzf");
    assert_eq!(config.mode, "dock");
    assert_eq!(config.position, "bottom");
    assert_eq!(config.status_command, "i3status");
    assert_eq!(config.font, "fixed");
    assert!(config.workspace_buttons);
    assert!(config.binding_mode_indicator);
    assert!(!config.verbose);
    assert_eq!(config.colors.len(), 3);
    assert!(config.colors.contains(&(ColorableBarPart::Background, "#c0c0c0".to_string())));
    assert!(config.colors.contains(&(ColorableBarPart::UrgentWorkspaceBg, "#ff0000".to_string())));
    assert!(config.colors.contains(&(ColorableBarPart::Undocumented, "#010203".to_string())));
}

#[test]
fn binding_event_holds_what_it_says() {
    let text = r#"{ "change": "run", "binding": { "command": "nop",
        "event_state_mask": ["shift", "ctrl"], "input_code": 0, "symbol": "t",
        "input_type": "keyboard" } }"#;
    let info = event::BindingEventInfo::from_str(text).unwrap();
    assert_eq!(info.change, BindingChange::Run);
    assert_eq!(info.binding.command, "nop");
    assert_eq!(info.binding.event_state_mask, vec!["shift".to_string(), "ctrl".to_string()]);
    assert_eq!(info.binding.input_code, 0);
    assert_eq!(info.binding.symbol.as_deref(), Some("t"));
    assert_eq!(info.binding.input_type, InputType::Keyboard);
}

#[test]
fn output_and_mode_events_hold_what_they_say() {
    let output = event::OutputEventInfo::from_str(r#"{ "change": "unspecified" }"#).unwrap();
    assert_eq!(output.change, OutputChange::Unspecified);
    let output = event::OutputEventInfo::from_str(r#"{ "change": "melted" }"#).unwrap();
    assert_eq!(output.change, OutputChange::Unknown);
    let mode = event::ModeEventInfo::from_str(r#"{ "change": "resize" }"#).unwrap();
    assert_eq!(mode.change, "resize");
}

#[test]
fn every_event_number_builds_its_event() {
    let workspace = r#"{ "change": "init", "current": null }"#;
    let change = r#"{ "change": "exit" }"#;
    let window = format!(r#"{{ "change": "new", "container": {} }}"#, CONTAINER);
    let bar = r#"{ "id": "b", "mode": "hide", "position": "top", "status_command": "s",
        "font": "f", "workspace_buttons": false, "binding_mode_indicator": false,
        "verbose": true, "colors": {} }"#;
    let binding = r#"{ "change": "run", "binding": { "command": "nop", "event_state_mask": [],
        "input_code": 3, "symbol": null, "input_type": "mouse" } }"#;
    assert!(matches!(build_event(0, workspace).unwrap(), Event::WorkspaceEvent(_)));
    assert!(matches!(build_event(1, change).unwrap(), Event::OutputEvent(_)));
    assert!(matches!(build_event(2, change).unwrap(), Event::ModeEvent(_)));
    assert!(matches!(build_event(3, &window).unwrap(), Event::WindowEvent(_)));
    assert!(matches!(build_event(4, bar).unwrap(), Event::BarConfigEvent(_)));
    assert!(matches!(build_event(5, binding).unwrap(), Event::BindingEvent(_)));
    match build_event(6, change).unwrap() {
        Event::ShutdownEvent(info) => assert_eq!(info.change, ShutdownChange::Exit),
        other => panic!("{:?}", other),
    }
    assert!(matches!(build_event(7, change), Err(DecodeError::UnknownEvent(7))));
    assert!(matches!(build_event(7, "no json"), Err(DecodeError::UnknownEvent(7))));
    assert!(matches!(build_event(1, "no json"), Err(DecodeError::JsonCouldntParse(_))));
    assert!(matches!(build_event(1, "{}"), Err(DecodeError::Unexpected)));
}

#[test]
fn the_event_bit_is_stripped() {
    assert_eq!(event_number_of(0x8000_0003), 3);
    assert_eq!(event_number_of(3), 3);
    assert_eq!(event_number_of(0xffff_ffff), 0x7fff_ffff);
}
