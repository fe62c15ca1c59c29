//! Whole conversations with an i3 whose answers are written down here.

use std::io;

use i3ipc::connect::{self, Connector};
use i3ipc::decode::{decode, Reply};
use i3ipc::error::{Cause, DecodeError};
use i3ipc::exchange::{self, Exchange};
use i3ipc::frame::encode_message;
use i3ipc::json::Json;
use i3ipc::listener::{self, Listener};
use i3ipc::reply;
use i3ipc::request::Request;
use i3ipc::{event, EstablishError, MessageError, Subscription};

/// What an exchange ends with if i3 is sent `request` and then sends `answer`.
fn talk<T: Reply>(request: &Request<T>, answer: &[u8]) -> exchange::Task<T> {
    let (mut exchange, sent) = Exchange::start(request);
    assert_eq!(sent, encode_message(request.message_type, &request.payload));
    let mut rest = answer;
    let mut report = exchange::Report::Sent;
    loop {
        let (next, task) = exchange.step(report);
        exchange = next;
        report = match task {
            exchange::Task::Read(n) if n <= rest.len() => {
                let data = rest[..n].to_vec();
                rest = &rest[n..];
                exchange::Report::Read(data)
            }
            exchange::Task::Read(_) => {
                exchange::Report::Failed(io::Error::new(io::ErrorKind::UnexpectedEof, "end"))
            }
            end => return end,
        };
    }
}

/// What the exchange ends with if i3 answers `request` with `text`.
fn answer<T: Reply>(request: &Request<T>, text: &str) -> exchange::Task<T> {
    talk(request, &encode_message(request.message_type, text))
}

/// The reply if i3 answers `request` with `text`.
fn ask<T: Reply + std::fmt::Debug>(request: &Request<T>, text: &str) -> T {
    match answer(request, text) {
        exchange::Task::Answer(reply) => reply,
        other => panic!("{:?}", other),
    }
}

#[test]
fn connect() {
    let report = connect::Report::Environment(Some("/run/i3.sock".to_string()));
    let (connector, task) = Connector::Environment.step(report);
    match task {
        connect::Task::Open(path) => assert_eq!(path, "/run/i3.sock"),
        other => panic!("{:?}", other),
    }
    let (connector, task) = connector.step(connect::Report::Opened);
    assert!(matches!(connector, Connector::Finished));
    assert!(matches!(task, connect::Task::Done));
}

#[test]
fn run_command_nothing() {
    let result: reply::Command = ask(&Request::run_command(""), "[]");
    assert_eq!(result.outcomes.len(), 0);
}

#[test]
fn run_command_single_sucess() {
    let a: reply::Command = ask(&Request::run_command("exec /bin/true"), r#"[{"success":true}]"#);
    assert_eq!(a.outcomes.len(), 1);
    assert!(a.outcomes[0].success);
}

#[test]
fn run_command_multiple_success() {
    let request = Request::run_command("exec /bin/true; exec /bin/true");
    let result: reply::Command = ask(&request, r#"[{"success":true},{"success":true}]"#);
    assert_eq!(result.outcomes.len(), 2);
    assert!(result.outcomes[0].success);
    assert!(result.outcomes[1].success);
}

#[test]
fn run_command_fail() {
    let request = Request::run_command("ThisIsClearlyNotACommand");
    let answer = r#"[{"success":false,"parse_error":true,"error":"Expected one of these tokens"}]"#;
    let result: reply::Command = ask(&request, answer);
    assert_eq!(result.outcomes.len(), 1);
    assert!(!result.outcomes[0].success);
    assert_eq!(result.outcomes[0].error.as_deref(), Some("Expected one of these tokens"));
}

const WORKSPACES: &str = r#"[
    { "num": 0, "name": "1", "visible": true, "focused": true, "urgent": false,
      "rect": { "x": 0, "y": 0, "width": 1280, "height": 800 }, "output": "LVDS1" },
    { "num": 4294967295, "name": "2: mail", "visible": false, "focused": false, "urgent": true,
      "rect": { "x": 1280, "y": -5, "width": 1024, "height": 768 }, "output": "VGA1" }
]"#;

#[test]
fn get_workspaces() {
    let reply: reply::Workspaces = ask(&Request::get_workspaces(), WORKSPACES);
    assert_eq!(reply.workspaces.len(), 2);
    let first = &reply.workspaces[0];
    assert_eq!((first.num, first.name.as_str(), first.output.as_str()), (0, "1", "LVDS1"));
    assert_eq!((first.visible, first.focused, first.urgent), (true, true, false));
    assert_eq!(first.rect, (0, 0, 1280, 800));
    let second = &reply.workspaces[1];
    assert_eq!(second.num, -1);
    assert_eq!(second.name, "2: mail");
    assert_eq!((second.visible, second.focused, second.urgent), (false, false, true));
    assert_eq!(second.rect, (1280, -5, 1024, 768));
    assert_eq!(second.output, "VGA1");
}

#[test]
fn get_outputs() {
    let answer = r#"[
        { "name": "LVDS1", "active": true, "primary": true, "current_workspace": "4",
          "rect": { "x": 0, "y": 0, "width": 1280, "height": 800 } },
        { "name": "VGA1", "active": false, "primary": false, "current_workspace": null,
          "rect": { "x": 0, "y": 0, "width": 0, "height": 0 } }
    ]"#;
    let reply: reply::Outputs = ask(&Request::get_outputs(), answer);
    assert_eq!(reply.outputs.len(), 2);
    assert_eq!(reply.outputs[0].name, "LVDS1");
    assert!(reply.outputs[0].active && reply.outputs[0].primary);
    assert_eq!(reply.outputs[0].current_workspace.as_deref(), Some("4"));
    assert_eq!(reply.outputs[0].rect, (0, 0, 1280, 800));
    assert!(!reply.outputs[1].active && !reply.outputs[1].primary);
    assert_eq!(reply.outputs[1].current_workspace, None);
    let odd = answer.replace("null", "7");
    assert!(matches!(decode::<reply::Outputs>(&odd), Err(DecodeError::Unexpected)));
}

/// A container with these children.
fn container(id: u32, nodes: &[String], floating_nodes: &[String]) -> String {
    format!(
        r#"{{ "id": {}, "name": null, "type": "con", "border": "none",
        "current_border_width": -1, "layout": "tabbed", "percent": null,
        "rect": {{ "x": 0, "y": 0, "width": 1, "height": 2 }},
        "window_rect": {{ "x": 0, "y": 0, "width": 3, "height": 4 }},
        "deco_rect": {{ "x": 0, "y": 0, "width": 5, "height": 6 }},
        "geometry": {{ "x": 0, "y": 0, "width": 7, "height": 8 }},
        "window": null, "urgent": false, "focused": false,
        "focus": [3, 2], "nodes": [{}], "floating_nodes": [{}] }}"#,
        id,
        nodes.join(","),
        floating_nodes.join(",")
    )
}

fn count(node: &reply::Node) -> usize {
    let inner = node.nodes.iter().chain(node.floating_nodes.iter());
    1 + inner.map(count).sum::<usize>()
}

#[test]
fn get_tree() {
    let leaf = container(4, &[], &[]);
    let inner = container(2, &[leaf.clone(), leaf.clone()], &[]);
    let text = container(1, &[inner], &[container(3, &[], &[])]);
    let root: reply::Node = ask(&Request::get_tree(), &text);
    assert_eq!(count(&root), 5);
    assert_eq!(root.id, 1);
    assert_eq!(root.name, None);
    assert_eq!(root.focus, vec![3, 2]);
    assert_eq!(root.border, reply::NodeBorder::Absent);
    assert_eq!(root.layout, reply::NodeLayout::Tabbed);
    assert!(root.percent.is_none());
    assert_eq!(root.window, None);
    assert_eq!(root.nodes[0].id, 2);
    assert_eq!(root.nodes[0].nodes[1].id, 4);
    assert_eq!(root.floating_nodes[0].id, 3);
    let broken = text.replace(r#""id": 4"#, r#""id": "4""#);
    assert!(matches!(decode::<reply::Node>(&broken), Err(DecodeError::Unexpected)));
}

#[test]
fn get_marks() {
    let marks = ask(&Request::get_marks(), "[\"a\", \"b\u{e9}\"]").marks;
    assert_eq!(marks, vec!["a".to_string(), "b\u{e9}".to_string()]);
    assert!(matches!(
        answer(&Request::get_marks(), "[1]"),
        exchange::Task::GiveUp(MessageError::JsonCouldntParse(_))
    ));
}

#[test]
fn get_bar_ids() {
    let ids = ask(&Request::get_bar_ids(), r#"["bar-bxuqzf"]"#).ids;
    assert_eq!(ids, vec!["bar-bxuqzf".to_string()]);
}

#[test]
fn get_bar_ids_and_one_config() {
    let ids = ask(&Request::get_bar_ids(), r#"["bar-bxuqzf"]"#).ids;
    let request = Request::get_bar_config(&ids[0]);
    assert_eq!(request.payload, "bar-bxuqzf");
    let answer = r##"{ "id": "bar-bxuqzf", "mode": "dock", "position": "bottom",
        "status_command": "i3status", "font": "fixed", "workspace_buttons": true,
        "binding_mode_indicator": true, "verbose": false,
        "colors": { "background": "#c0c0c0" } }"##;
    let config: reply::BarConfig = ask(&request, answer);
    assert_eq!(config.id, ids[0]);
}

#[test]
fn get_version() {
    let answer = r#"{ "major": 4, "minor": 14, "patch": 1, "human_readable": "4.14.1 (2017-09-24)",
        "loaded_config_file_name": "/home/user/.i3/config" }"#;
    let version: reply::Version = ask(&Request::get_version(), answer);
    assert_eq!((version.major, version.minor, version.patch), (4, 14, 1));
    assert_eq!(version.human_readable, "4.14.1 (2017-09-24)");
    assert_eq!(version.loaded_config_file_name, "/home/user/.i3/config");
}

#[test]
fn get_binding_modes() {
    let modes = ask(&Request::get_binding_modes(), r#"["default", "resize"]"#).modes;
    assert_eq!(modes, vec!["default".to_string(), "resize".to_string()]);
}

#[test]
fn get_config() {
    let config: reply::Config = ask(&Request::get_config(), r#"{ "config": "font fixed\n" }"#);
    assert_eq!(config.config, "font fixed\n");
}

#[test]
fn event_subscribe() {
    let request = Request::subscribe(&[Subscription::Workspace]);
    assert_eq!(request.payload, r#"[ "workspace" ]"#);
    let s: reply::Subscribe = ask(&request, r#"{"success":true}"#);
    assert_eq!(s.success, true);
}

/// Whether `request` has this type and this payload.
fn asks<T>(request: Request<T>, message_type: u32, payload: &str) -> bool {
    request.message_type == message_type && request.payload == payload
}

#[test]
fn requests_have_their_types_and_payloads() {
    assert!(asks(Request::run_command("kill"), 0, "kill"));
    assert!(asks(Request::command("kill"), 0, "kill"));
    assert!(asks(Request::get_workspaces(), 1, ""));
    assert!(asks(Request::subscribe(&[]), 2, "[  ]"));
    assert!(asks(Request::get_outputs(), 3, ""));
    assert!(asks(Request::get_tree(), 4, ""));
    assert!(asks(Request::get_marks(), 5, ""));
    assert!(asks(Request::get_bar_ids(), 6, ""));
    assert!(asks(Request::get_bar_config("bar-0"), 6, "bar-0"));
    assert!(asks(Request::get_version(), 7, ""));
    assert!(asks(Request::get_binding_modes(), 8, ""));
    assert!(asks(Request::get_config(), 9, ""));
}

#[test]
fn subscriptions_are_listed_in_their_order() {
    let request = Request::subscribe(&[
        Subscription::Output,
        Subscription::Mode,
        Subscription::Window,
        Subscription::BarConfig,
        Subscription::Binding,
        Subscription::Shutdown,
        Subscription::Workspace,
    ]);
    assert_eq!(
        request.payload,
        r#"[ "output", "mode", "window", "barconfig_update", "binding", "shutdown", "workspace" ]"#
    );
    let json = Json::parse(&request.payload).unwrap();
    let names: Vec<&str> = json.as_array().unwrap().iter().map(|n| n.as_str().unwrap()).collect();
    assert_eq!(
        names,
        vec!["output", "mode", "window", "barconfig_update", "binding", "shutdown", "workspace"]
    );
}

#[test]
fn an_answer_of_another_type_is_a_mismatch() {
    let answer = encode_message(4, "[]");
    assert!(matches!(talk(&Request::get_marks(), &answer), exchange::Task::Mismatch(4)));
}

#[test]
fn a_cut_answer_is_a_receive_error() {
    let request = Request::get_marks();
    let answer = encode_message(5, r#"["a"]"#);
    for n in 0..answer.len() {
        match talk(&request, &answer[..n]) {
            exchange::Task::GiveUp(MessageError::Receive(e)) => {
                assert_eq!(e.kind(), io::ErrorKind::UnexpectedEof)
            }
            other => panic!("{:?}", other),
        }
    }
}

#[test]
fn a_wrong_magic_string_is_a_receive_error() {
    match talk(&Request::get_marks(), b"i3-IPC........") {
        exchange::Task::GiveUp(MessageError::Receive(e)) => {
            assert_eq!(e.kind(), io::ErrorKind::Other);
            assert_eq!(
                e.to_string(),
                "unexpected magic string: expected 'i3-ipc' but got i3-IPC"
            );
        }
        other => panic!("{:?}", other),
    }
}

#[test]
fn a_request_that_is_not_sent_is_a_send_error() {
    let (exchange, _) = Exchange::start(&Request::get_tree());
    let broken = io::Error::new(io::ErrorKind::BrokenPipe, "gone");
    let (_, task) = exchange.step(exchange::Report::Failed(broken));
    match task {
        exchange::Task::GiveUp(e) => {
            assert_eq!(e.description(), "Network error while sending message to i3");
            assert!(matches!(e.cause(), Some(Cause::Io(_))));
            assert!(matches!(e, MessageError::Send(_)));
        }
        other => panic!("{:?}", other),
    }
}

#[test]
fn what_is_not_json_is_a_json_error() {
    match answer(&Request::get_version(), "{ version }") {
        exchange::Task::GiveUp(e) => {
            assert_eq!(e.description(), "Got a response from i3 but couldn't parse the JSON");
            assert_eq!(e.to_string(), e.description());
            assert!(matches!(e.cause(), Some(Cause::Json(_))));
            assert!(matches!(e, MessageError::JsonCouldntParse(_)));
        }
        other => panic!("{:?}", other),
    }
}

#[test]
fn what_lacks_a_member_is_unexpected() {
    assert!(matches!(
        answer(&Request::get_version(), "{}"),
        exchange::Task::Broken(DecodeError::Unexpected)
    ));
    assert!(matches!(decode::<reply::Command>("{}"), Err(DecodeError::Unexpected)));
    assert!(matches!(
        decode::<reply::Command>(r#"[{"success":true,"error":1}]"#),
        Err(DecodeError::Unexpected)
    ));
    let missing = WORKSPACES.replace("\"output\": \"VGA1\"", "\"screen\": \"VGA1\"");
    assert!(matches!(decode::<reply::Workspaces>(&missing), Err(DecodeError::Unexpected)));
    let fractional = WORKSPACES.replace("\"num\": 0", "\"num\": 0.5");
    assert!(matches!(decode::<reply::Workspaces>(&fractional), Err(DecodeError::Unexpected)));
}

/// Asks i3 for the path of its socket, with this outcome.
fn ask_for_path(success: bool, stdout: &[u8], stderr: &[u8]) -> (Connector, connect::Task) {
    let (connector, task) = Connector::Environment.step(connect::Report::Environment(None));
    assert!(matches!(task, connect::Task::AskI3));
    connector.step(connect::Report::Answered {
        success,
        stdout: stdout.to_vec(),
        stderr: stderr.to_vec(),
    })
}

#[test]
fn the_path_is_what_i3_prints_without_its_newlines() {
    match ask_for_path(true, b"/run/user/1000/i3/ipc\nsocket.9\n\n", b"") {
        (Connector::Opening, connect::Task::Open(path)) => {
            assert_eq!(path, "/run/user/1000/i3/ipc\nsocket.9")
        }
        other => panic!("{:?}", other),
    }
    match ask_for_path(true, b"/tmp/\xff \n", b"ignored") {
        (_, connect::Task::Open(path)) => assert_eq!(path, "/tmp/\u{fffd} "),
        other => panic!("{:?}", other),
    }
}

/// What is said of an i3 that failed and printed `stderr`.
fn complaint(stderr: &[u8]) -> String {
    match ask_for_path(false, b"/run/i3.sock", stderr) {
        (Connector::Finished, connect::Task::GiveUp(e)) => {
            assert_eq!(e.description(), "Couldn't determine i3's socket path");
            assert_eq!(e.to_string(), e.description());
            assert_eq!(e.cause().unwrap().kind(), io::ErrorKind::Other);
            assert!(matches!(e, EstablishError::GetSocketPathError(_)));
            e.cause().unwrap().to_string()
        }
        other => panic!("{:?}", other),
    }
}

#[test]
fn an_i3_that_fails_leaves_no_path() {
    assert_eq!(complaint(b""), "i3 --getsocketpath didn't return 0");
    assert_eq!(complaint(b"no"), "i3 --getsocketpath didn't return 0. stderr: [110, 111]");
    let all: Vec<u8> = (0..=255).collect();
    let expected = format!("i3 --getsocketpath didn't return 0. stderr: {:?}", all);
    assert_eq!(complaint(&all), expected);
}

#[test]
fn an_i3_that_does_not_run_leaves_no_path() {
    let missing = io::Error::new(io::ErrorKind::NotFound, "no i3");
    match Connector::Asking.step(connect::Report::Failed(missing)) {
        (Connector::Finished, connect::Task::GiveUp(EstablishError::GetSocketPathError(e))) => {
            assert_eq!(e.kind(), io::ErrorKind::NotFound)
        }
        other => panic!("{:?}", other),
    }
}

#[test]
fn a_socket_that_does_not_open_is_a_socket_error() {
    let refused = io::Error::new(io::ErrorKind::ConnectionRefused, "refused");
    match Connector::Opening.step(connect::Report::Failed(refused)) {
        (Connector::Finished, connect::Task::GiveUp(e)) => {
            assert_eq!(e.description(), "Found i3's socket path but failed to connect");
            assert_eq!(e.cause().unwrap().kind(), io::ErrorKind::ConnectionRefused);
            assert!(matches!(e, EstablishError::SocketError(_)));
        }
        other => panic!("{:?}", other),
    }
}

/// What a listener hands out, one after the other, while `stream` lasts.
fn listen(stream: &[u8]) -> Vec<listener::Task> {
    let mut out = Vec::new();
    let mut rest = stream;
    let (mut listener, mut wanted) = Listener::start();
    while wanted <= rest.len() {
        let data = rest[..wanted].to_vec();
        rest = &rest[wanted..];
        let (next, task) = listener.step(listener::Report::Read(data));
        listener = next;
        wanted = match task {
            listener::Task::Read(n) => n,
            other => {
                out.push(other);
                listener.receiver.wanted()
            }
        };
    }
    out
}

#[test]
fn events_are_handed_out_in_their_order() {
    let mut stream = encode_message(0x8000_0002, r#"{ "change": "resize" }"#);
    stream.extend(encode_message(0x8000_0001, "no json"));
    stream.extend(encode_message(0x8000_0006, r#"{ "change": "restart" }"#));
    stream.extend(encode_message(0x8000_0007, "{}"));
    stream.extend(encode_message(0x8000_0002, "{}"));
    stream.extend(encode_message(0x8000_0002, r#"{ "change": "default" }"#));
    stream.extend(&encode_message(0x8000_0002, r#"{ "change": "resize" }"#)[..20]);
    let tasks = listen(&stream);
    assert_eq!(tasks.len(), 6);
    match &tasks[0] {
        listener::Task::Event(event::Event::ModeEvent(info)) => assert_eq!(info.change, "resize"),
        other => panic!("{:?}", other),
    }
    assert!(matches!(tasks[1], listener::Task::Error(MessageError::JsonCouldntParse(_))));
    match &tasks[2] {
        listener::Task::Event(event::Event::ShutdownEvent(info)) => {
            assert_eq!(info.change, event::ShutdownChange::Restart)
        }
        other => panic!("{:?}", other),
    }
    match &tasks[3] {
        listener::Task::Error(MessageError::Receive(e)) => {
            assert_eq!(e.kind(), io::ErrorKind::Other);
            assert_eq!(e.to_string(), "received an event we aren't subscribed to!");
        }
        other => panic!("{:?}", other),
    }
    match &tasks[4] {
        listener::Task::Error(MessageError::Receive(e)) => {
            assert_eq!(e.kind(), io::ErrorKind::Other);
            assert_eq!(e.to_string(), "received an event that lacks what i3 promises of it");
        }
        other => panic!("{:?}", other),
    }
    match &tasks[5] {
        listener::Task::Event(event::Event::ModeEvent(info)) => assert_eq!(info.change, "default"),
        other => panic!("{:?}", other),
    }
}

#[test]
fn a_listener_goes_on_after_an_error() {
    let (listener, wanted) = Listener::start();
    assert_eq!(wanted, 6);
    let (next, task) = listener.step(listener::Report::Read(b"zzzzzz".to_vec()));
    match task {
        listener::Task::Error(MessageError::Receive(e)) => {
            assert_eq!(e.kind(), io::ErrorKind::Other);
            assert_eq!(
                e.to_string(),
                "unexpected magic string: expected 'i3-ipc' but got zzzzzz"
            );
        }
        other => panic!("{:?}", other),
    }
    assert_eq!(next.receiver.wanted(), 6);
    let (next, task) = next.step(listener::Report::Read(b"i3-ipc".to_vec()));
    assert!(matches!(task, listener::Task::Read(4)));
    let lost = io::Error::new(io::ErrorKind::Other, "lost");
    let (next, task) = next.step(listener::Report::Failed(lost));
    assert!(matches!(task, listener::Task::Error(MessageError::Receive(_))));
    assert_eq!(next.receiver.wanted(), 6);
}
