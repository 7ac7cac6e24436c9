use discord_bridge::json::{
    find_obstacle, Obstacle, MAX_DOCUMENT_BYTES, MAX_EXPONENT_DIGITS, MAX_NESTING,
};
use discord_bridge::message::{DataType, InboundMessage, ProtocolError};
use discord_bridge::wire::{frame, has_terminator};

fn text(s: &str) -> Option<String> {
    Some(s.to_string())
}

#[test]
fn frame_stops_at_the_first_nul() {
    assert_eq!(frame(b"abc\0def\0"), b"abc");
    assert_eq!(frame(b"abc"), b"abc");
    assert_eq!(frame(b"\0abc"), b"");
    assert_eq!(frame(b""), b"");
    assert_eq!(frame(b"\0"), b"");
    assert_eq!(frame(b"a\0"), b"a");
    assert_eq!(frame(&[1, 2, 255, 0, 0, 3]), &[1, 2, 255]);
}

#[test]
fn a_nul_ends_the_reading() {
    assert!(!has_terminator(b""));
    assert!(!has_terminator(b"abc"));
    assert!(!has_terminator(&[1, 255, 48]));
    assert!(has_terminator(b"\0"));
    assert!(has_terminator(b"abc\0"));
    assert!(has_terminator(b"\0abc"));
    assert!(has_terminator(b"ab\0c\0"));
}

#[test]
fn from_fields_needs_all_three() {
    assert_eq!(
        InboundMessage::from_fields(text("c"), text("text"), text("s")),
        Ok(InboundMessage::new("c".to_string(), DataType::Text, "s".to_string()))
    );
    assert_eq!(
        InboundMessage::from_fields(text(""), text(""), text("")),
        Ok(InboundMessage::new(String::new(), DataType::Other, String::new()))
    );
    assert_eq!(
        InboundMessage::from_fields(None, text("text"), text("s")),
        Err(ProtocolError::MissingField)
    );
    assert_eq!(
        InboundMessage::from_fields(text("c"), None, text("s")),
        Err(ProtocolError::MissingField)
    );
    assert_eq!(
        InboundMessage::from_fields(text("c"), text("text"), None),
        Err(ProtocolError::MissingField)
    );
    assert_eq!(InboundMessage::from_fields(None, None, None), Err(ProtocolError::MissingField));
}

#[test]
fn only_the_name_text_means_text() {
    for name in ["Text", "TEXT", "text ", " text", "tex", "texts", "", "other"] {
        let message = InboundMessage::from_fields(text("c"), text(name), text("s")).unwrap();
        assert_eq!(message.datatype(), DataType::Other);
    }
    let message = InboundMessage::from_fields(text("c"), text("text"), text("s")).unwrap();
    assert_eq!(message.datatype(), DataType::Text);
}

#[test]
fn accessors_give_back_the_parts() {
    let message = InboundMessage::new("payload".to_string(), DataType::Text, "key".to_string());
    assert_eq!(message.content(), "payload");
    assert_eq!(message.secret(), "key");
    assert_eq!(message.datatype(), DataType::Text);
    assert_eq!(message.into_content(), "payload");
}

#[test]
fn from_json_reads_the_three_members() {
    assert_eq!(
        InboundMessage::from_json(r#"{"content":"hello","datatype":"text","secret":"abc"}"#),
        Ok(InboundMessage::new("hello".to_string(), DataType::Text, "abc".to_string()))
    );
    assert_eq!(
        InboundMessage::from_json(
            r#"{"author":"hub","client":"console","content":"a","datatype":"b","secret":"c"}"#
        ),
        Ok(InboundMessage::new("a".to_string(), DataType::Other, "c".to_string()))
    );
}

#[test]
fn from_json_does_not_hand_the_document_back() {
    let document = r#"{"content":"secret","datatype":"content","secret":"datatype"}"#;
    let message = InboundMessage::from_json(document).unwrap();
    assert_eq!(message.content(), "secret");
    assert_eq!(message.secret(), "datatype");
    assert_eq!(message.datatype(), DataType::Other);
}

#[test]
fn from_json_rejects_what_is_no_document() {
    for bad in ["", " ", "{", "}", "{\"content\":}", "hello", "{\"a\":1}}", "{'content':'x'}"] {
        assert_eq!(InboundMessage::from_json(bad), Err(ProtocolError::Malformed), "{:?}", bad);
    }
}

#[test]
fn from_json_rejects_missing_and_mistyped_members() {
    let cases = [
        r#"{}"#,
        r#"{"content":"hello","datatype":"text"}"#,
        r#"{"content":"hello","secret":"abc"}"#,
        r#"{"datatype":"text","secret":"abc"}"#,
        r#"{"content":1,"datatype":"text","secret":"abc"}"#,
        r#"{"content":"hello","datatype":null,"secret":"abc"}"#,
        r#"{"content":"hello","datatype":"text","secret":["abc"]}"#,
        r#"{"content":"hello","datatype":"text","secret":{"secret":"abc"}}"#,
        r#"{"Content":"hello","datatype":"text","secret":"abc"}"#,
        r#"["content","datatype","secret"]"#,
        r#""content""#,
        r#"42"#,
        r#"null"#,
    ];
    for case in cases {
        assert_eq!(InboundMessage::from_json(case), Err(ProtocolError::MissingField), "{}", case);
    }
}

#[test]
fn from_wire_rejects_bytes_that_are_not_utf8() {
    assert_eq!(InboundMessage::from_wire(&[0xff, 0xfe]), Err(ProtocolError::NotUtf8));
    assert_eq!(InboundMessage::from_wire(&[b'{', 0xc3, b'}']), Err(ProtocolError::NotUtf8));
    let mut bytes = br#"{"content":"a","datatype":"text","secret":"b"#.to_vec();
    bytes.push(0x80);
    bytes.extend_from_slice(b"\"}");
    assert_eq!(InboundMessage::from_wire(&bytes), Err(ProtocolError::NotUtf8));
}

#[test]
fn from_wire_reads_utf8() {
    let document = "{\"content\":\"gr\u{00fc}\u{00df}e \u{1f600}\",\"datatype\":\"text\",\"secret\":\"\u{00e9}\"}";
    let message = InboundMessage::from_wire(document.as_bytes()).unwrap();
    assert_eq!(message.content(), "gr\u{00fc}\u{00df}e \u{1f600}");
    assert_eq!(message.secret(), "\u{00e9}");
    assert_eq!(message.datatype(), DataType::Text);
}

fn nested(depth: usize) -> String {
    let mut document = String::from(r#"{"content":"c","datatype":"text","secret":"s","extra":"#);
    for _ in 0..depth {
        document.push('[');
    }
    for _ in 0..depth {
        document.push(']');
    }
    document.push('}');
    document
}

#[test]
fn nesting_is_limited() {
    assert_eq!(MAX_NESTING, 128);
    let deepest = nested(MAX_NESTING - 1);
    assert_eq!(find_obstacle(deepest.as_bytes()), None);
    assert_eq!(
        InboundMessage::from_json(&deepest),
        Ok(InboundMessage::new("c".to_string(), DataType::Text, "s".to_string()))
    );
    let too_deep = nested(MAX_NESTING);
    assert_eq!(find_obstacle(too_deep.as_bytes()), Some(Obstacle::TooDeep));
    assert_eq!(InboundMessage::from_json(&too_deep), Err(ProtocolError::TooDeep));
    let far_too_deep = "[".repeat(60_000);
    assert_eq!(InboundMessage::from_json(&far_too_deep), Err(ProtocolError::TooDeep));
    assert_eq!(InboundMessage::from_wire(far_too_deep.as_bytes()), Err(ProtocolError::TooDeep));
}

#[test]
fn brackets_inside_strings_do_not_nest() {
    let brackets = "[{".repeat(500);
    let document = format!(
        "{{\"content\":\"{}\",\"datatype\":\"text\",\"secret\":\"\\\"[\\\\\"}}",
        brackets
    );
    assert_eq!(find_obstacle(document.as_bytes()), None);
    let message = InboundMessage::from_json(&document).unwrap();
    assert_eq!(message.content(), &brackets);
    assert_eq!(message.secret(), "\"[\\");
}

#[test]
fn nesting_counts_open_brackets_at_their_deepest() {
    assert_eq!(find_obstacle(b""), None);
    let flat = "[]".repeat(1000);
    assert_eq!(find_obstacle(flat.as_bytes()), None);
    let mut steps = "[".repeat(128);
    steps.push_str(&"]".repeat(128));
    steps.push_str(&"{".repeat(128));
    assert_eq!(find_obstacle(steps.as_bytes()), None);
    steps.push('[');
    assert_eq!(find_obstacle(steps.as_bytes()), Some(Obstacle::TooDeep));
    let mut stray = "]".repeat(10);
    stray.push_str(&"[".repeat(128));
    assert_eq!(find_obstacle(stray.as_bytes()), None);
    stray.push('{');
    assert_eq!(find_obstacle(stray.as_bytes()), Some(Obstacle::TooDeep));
}

fn padded(length: usize) -> String {
    let frame = r#"{"content":"","datatype":"text","secret":"s"}"#;
    let filler = "x".repeat(length - frame.len());
    format!(r#"{{"content":"{}","datatype":"text","secret":"s"}}"#, filler)
}

#[test]
fn length_is_limited() {
    assert_eq!(MAX_DOCUMENT_BYTES, 65535);
    let longest = padded(MAX_DOCUMENT_BYTES);
    assert_eq!(longest.len(), MAX_DOCUMENT_BYTES);
    assert_eq!(find_obstacle(longest.as_bytes()), None);
    let message = InboundMessage::from_json(&longest).unwrap();
    assert_eq!(message.content().len(), MAX_DOCUMENT_BYTES - 45);
    let too_long = padded(MAX_DOCUMENT_BYTES + 1);
    assert_eq!(find_obstacle(too_long.as_bytes()), Some(Obstacle::TooLong));
    assert_eq!(InboundMessage::from_json(&too_long), Err(ProtocolError::TooLong));
    assert_eq!(InboundMessage::from_wire(too_long.as_bytes()), Err(ProtocolError::TooLong));
    let long_and_deep = "[".repeat(MAX_DOCUMENT_BYTES + 1);
    assert_eq!(InboundMessage::from_json(&long_and_deep), Err(ProtocolError::TooLong));
}

#[test]
fn a_long_key_is_read_whole() {
    let key = "k".repeat(60_000);
    let document =
        format!(r#"{{"{}":{{"content":"inner"}},"content":"c","datatype":"d","secret":"s"}}"#, key);
    assert_eq!(
        InboundMessage::from_json(&document),
        Ok(InboundMessage::new("c".to_string(), DataType::Other, "s".to_string()))
    );
}

#[test]
fn a_comma_before_a_closing_brace_is_turned_away() {
    let cases = [
        r#"[{"k":{"a":1,},2]"#,
        r#"{"k":{"a":1,}}"#,
        r#"{"content":"c","datatype":"text","secret":"s",}"#,
        "{\"content\":\"c\",\"datatype\":\"text\",\"secret\":\"s\", \t\r\n}",
        r#"{"content":"c","datatype":"text","secret":"s","more":{"a":[{"b":1,}],"c":2}}"#,
        r#"{"k":[{"a":1,},2]}"#,
        ",}",
    ];
    for case in cases {
        assert_eq!(find_obstacle(case.as_bytes()), Some(Obstacle::Hazard), "{}", case);
        assert_eq!(InboundMessage::from_json(case), Err(ProtocolError::Malformed), "{}", case);
    }
    let harmless = r#"{"content":",}","datatype":"text","secret":", }"}"#;
    assert_eq!(find_obstacle(harmless.as_bytes()), None);
    assert_eq!(
        InboundMessage::from_json(harmless),
        Ok(InboundMessage::new(",}".to_string(), DataType::Text, ", }".to_string()))
    );
    let array = r#"{"content":"c","datatype":"text","secret":"s","list":[1,2,{}]}"#;
    assert_eq!(find_obstacle(array.as_bytes()), None);
    assert!(InboundMessage::from_json(array).is_ok());
}

#[test]
fn a_long_exponent_is_turned_away() {
    assert_eq!(MAX_EXPONENT_DIGITS, 9);
    let cases = [
        "1e99999999999999999999999999",
        "1E0000000000",
        "1e+1234567890",
        "1e-1234567890",
        r#"{"content":"c","datatype":"text","secret":"s","n":2.5e1000000000}"#,
    ];
    for case in cases {
        assert_eq!(find_obstacle(case.as_bytes()), Some(Obstacle::Hazard), "{}", case);
        assert_eq!(InboundMessage::from_json(case), Err(ProtocolError::Malformed), "{}", case);
    }
    let fine = [
        r#"{"content":"c","datatype":"text","secret":"s","n":2.5e123456789}"#,
        r#"{"content":"c","datatype":"text","secret":"s","n":1E+000000001}"#,
        r#"{"content":"c","datatype":"text","secret":"s","n":1e-999999999}"#,
        r#"{"content":"c","datatype":"text","secret":"s","n":18446744073709551615}"#,
        r#"{"content":"c","datatype":"text","secret":"s","n":-9223372036854775808}"#,
        r#"{"content":"c","datatype":"text","secret":"s","n":123456789012.123456789012}"#,
        r#"{"content":"c","datatype":"text","secret":"s","n":true,"m":false,"z":null}"#,
    ];
    for case in fine {
        assert_eq!(find_obstacle(case.as_bytes()), None, "{}", case);
        assert_eq!(
            InboundMessage::from_json(case),
            Ok(InboundMessage::new("c".to_string(), DataType::Text, "s".to_string())),
            "{}",
            case
        );
    }
    let quoted = r#"{"content":"1e99999999999999999999","datatype":"text","secret":"s"}"#;
    assert_eq!(find_obstacle(quoted.as_bytes()), None);
    assert_eq!(InboundMessage::from_json(quoted).unwrap().content(), "1e99999999999999999999");
}

#[test]
fn numbers_beyond_the_parser_are_no_document() {
    let cases = [
        r#"{"content":"c","datatype":"text","secret":"s","n":18446744073709551616}"#,
        r#"{"content":"c","datatype":"text","secret":"s","n":-9223372036854775809}"#,
        r#"{"content":"c","datatype":"text","secret":"s","n":01}"#,
    ];
    for case in cases {
        assert_eq!(InboundMessage::from_json(case), Err(ProtocolError::Malformed), "{}", case);
    }
}

fn scramble(state: &mut u64) -> u64 {
    *state ^= *state << 13;
    *state ^= *state >> 7;
    *state ^= *state << 17;
    *state
}

#[test]
fn arbitrary_documents_never_take_the_parser_down() {
    let tokens: [&str; 24] = [
        "{", "}", "[", "]", ",", ":", "\"k\":", "\"k\":1", "1", "\"s\"", " ", "{\"a\":1", ",}",
        "[1", "e", "1e5", "0", "-", "true", "{}", "[]", "\\", "\"", "null",
    ];
    let mut state: u64 = 0x9e3779b97f4a7c15;
    let mut accepted = 0;
    let mut turned_away = 0;
    for round in 0..200_000u64 {
        let length = 1 + scramble(&mut state) % 24;
        let mut document = String::new();
        if round % 2 == 0 {
            document.push_str("{\"content\":\"c\",\"datatype\":\"text\",\"secret\":\"s\",\"x\":");
        }
        for _ in 0..length {
            document.push_str(tokens[(scramble(&mut state) % 24) as usize]);
        }
        if round % 4 == 0 {
            document.push('}');
        }
        if find_obstacle(document.as_bytes()).is_some() {
            turned_away += 1;
        }
        if let Ok(message) = InboundMessage::from_json(&document) {
            accepted += 1;
            assert_eq!(message.content(), "c");
            assert_eq!(message.secret(), "s");
            assert_eq!(message.datatype(), DataType::Text);
        }
    }
    assert!(accepted > 0);
    assert!(turned_away > 0);
}
