use i3ipc::frame::{encode_message, Progress, Receiver};
use i3ipc::json::Json;
use i3ipc::text::str_eq;

/// What a receiver makes of `stream`, and what is left of it.
fn receive(stream: &[u8]) -> (Progress, &[u8]) {
    let mut receiver = Receiver::Magic;
    let mut rest = stream;
    loop {
        let n = receiver.wanted();
        if rest.len() < n {
            return (Progress::More(receiver), rest);
        }
        let (data, after) = rest.split_at(n);
        rest = after;
        match receiver.feed(data) {
            Progress::More(next) => receiver = next,
            end => return (end, rest),
        }
    }
}

#[test]
fn a_frame_is_magic_length_type_and_payload() {
    assert_eq!(encode_message(0, ""), b"i3-ipc\0\0\0\0\0\0\0\0".to_vec());
    let exit = b"i3-ipc\x04\0\0\0\x01\x02\x03\x04exit".to_vec();
    assert_eq!(encode_message(0x0403_0201, "exit"), exit);
    let long = "x".repeat(0x0001_0203);
    let bytes = encode_message(2, &long);
    assert_eq!(bytes.len(), 14 + 0x0001_0203);
    assert_eq!(&bytes[6..10], &[0x03, 0x02, 0x01, 0x00]);
}

#[test]
fn the_length_counts_bytes() {
    let bytes = encode_message(0, "\u{e9}");
    assert_eq!(&bytes[6..10], &[2, 0, 0, 0]);
    assert_eq!(&bytes[14..], "\u{e9}".as_bytes());
}

#[test]
fn what_is_sent_is_received() {
    for (message_type, text) in [(0, ""), (7, "nop"), (0xffff_ffff, "workspace \u{1f5d4} \u{e9}")] {
        let mut stream = encode_message(message_type, text);
        stream.extend(b"more");
        match receive(&stream) {
            (Progress::Message(received, payload), rest) => {
                assert_eq!(received, message_type);
                assert_eq!(payload, text);
                assert_eq!(rest, b"more");
            }
            other => panic!("{:?}", other),
        }
    }
}

#[test]
fn different_messages_have_different_frames() {
    assert_ne!(encode_message(0, "nop"), encode_message(1, "nop"));
    assert_ne!(encode_message(0, "nop"), encode_message(0, "nap"));
    assert_ne!(encode_message(0, ""), encode_message(0, "\0"));
}

#[test]
fn what_is_received_was_a_frame() {
    let stream = b"i3-ipc\x03\0\0\0\x09\0\0\0abcdef";
    match receive(stream) {
        (Progress::Message(message_type, payload), rest) => {
            assert_eq!((message_type, payload.as_str(), rest), (9, "abc", &b"def"[..]));
            assert_eq!(encode_message(message_type, &payload), stream[..17].to_vec());
        }
        other => panic!("{:?}", other),
    }
}

#[test]
fn a_cut_frame_is_no_message() {
    let bytes = encode_message(3, "abc");
    for n in 0..bytes.len() {
        assert!(matches!(receive(&bytes[..n]).0, Progress::More(_)));
    }
}

#[test]
fn a_payload_that_is_no_utf8_arrives_repaired() {
    let mut bytes = encode_message(3, "a?b");
    bytes[15] = 0xff;
    match receive(&bytes).0 {
        Progress::Message(3, payload) => assert_eq!(payload, "a\u{fffd}b"),
        other => panic!("{:?}", other),
    }
}

#[test]
fn another_magic_string_is_refused() {
    match receive(b"i3-ip\xff\0\0\0\0\0\0\0\0").0 {
        Progress::Refused(reason) => assert_eq!(
            reason,
            "unexpected magic string: expected 'i3-ipc' but got i3-ip\u{fffd}"
        ),
        other => panic!("{:?}", other),
    }
}

#[test]
fn strings_are_equal_if_their_characters_are() {
    assert!(str_eq("", ""));
    assert!(str_eq("gr\u{fc}n", "gr\u{fc}n"));
    assert!(!str_eq("a", "b"));
    assert!(!str_eq("a", "ab"));
}

#[test]
fn json_is_laid_open() {
    let text = r#"{ "b": [null, true, -3, 2.5, 18446744073709551615, "x"], "a": {} }"#;
    let json = Json::parse(text).unwrap();
    let items = json.get("b").unwrap().as_array().unwrap();
    assert_eq!(items.len(), 6);
    assert!(matches!(items[0], Json::Null));
    assert_eq!(items[1].as_bool(), Some(true));
    assert_eq!(items[2].as_i64(), Some(-3));
    assert_eq!(items[3].as_i64(), None);
    assert_eq!(items[4].as_i64(), None);
    assert_eq!(items[5].as_str(), Some("x"));
    match (&items[2], &items[3]) {
        (Json::Number(three), Json::Number(half)) => {
            assert_eq!(three.copied().text, "-3");
            assert_eq!(half.text.parse::<f64>().unwrap(), 2.5);
        }
        other => panic!("{:?}", other),
    }
    assert_eq!(json.get("a").unwrap().as_object().unwrap().len(), 0);
    assert!(json.get("c").is_none());
    assert!(items[5].get("a").is_none());
    assert!(json.as_bool().is_none() && json.as_str().is_none() && json.as_array().is_none());
    assert_eq!(json.as_i64(), None);
    assert!(items[0].as_object().is_none());
    assert!(Json::parse("{").is_err());
}

#[test]
fn of_two_members_with_one_name_the_last_counts() {
    let json = Json::parse(r#"{ "n": 1, "n": 2 }"#).unwrap();
    assert_eq!(json.as_object().unwrap().len(), 1);
    assert_eq!(json.i64_at("n"), Some(2));
    assert_eq!(json.i32_at("n"), Some(2));
    assert_eq!(json.bool_at("n"), None);
    assert_eq!(json.string_at("n"), None);
}
