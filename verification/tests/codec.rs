use rust_chat::codec::{
    decode, encode, encode_line, event_from, parse_envelope, DecodeError, Field,
};
use rust_chat::protocol::{ChatEvent, WireContent, WireEnvelope};
use rust_chat::stamp::Timestamp;
use serde_json::Value;
use uuid::Uuid;

const ID: u128 = 0xa1a2a3a4_b1b2_c1c2_d1d2_d3d4d5d6d7d8;
const ID_TEXT: &str = "a1a2a3a4-b1b2-c1c2-d1d2-d3d4d5d6d7d8";
const TS_TEXT: &str = "2015-05-15T00:00:00Z";

fn noon() -> Timestamp {
    Timestamp::new(1431648000, 0).unwrap()
}

fn envelope(room: Option<&str>, content: WireContent) -> WireEnvelope {
    WireEnvelope {
        v: 2,
        id: ID,
        ts: noon(),
        from: "alice".to_string(),
        room: room.map(|r| r.to_string()),
        content,
    }
}

fn chat(body: &str) -> WireContent {
    WireContent::Chat { body: body.to_string() }
}

fn notice(text: &str) -> ChatEvent {
    ChatEvent::System(text.to_string())
}

fn malformed(why: &str, line: &str) -> ChatEvent {
    ChatEvent::System(format!("invalid JSON error: {} | message: {}", why, line))
}

// ------------------------------------------------------------ writing

#[test]
fn encode_writes_the_fields_in_order_without_spaces() {
    assert_eq!(
        encode(&envelope(Some("lounge"), chat("hi"))),
        "{\"v\":2,\"id\":\"a1a2a3a4-b1b2-c1c2-d1d2-d3d4d5d6d7d8\",\
         \"ts\":\"2015-05-15T00:00:00Z\",\"from\":\"alice\",\"room\":\"lounge\",\
         \"type\":\"chat\",\"body\":\"hi\"}"
    );
}

#[test]
fn encode_writes_each_content() {
    let head = "{\"v\":2,\"id\":\"a1a2a3a4-b1b2-c1c2-d1d2-d3d4d5d6d7d8\",\
                \"ts\":\"2015-05-15T00:00:00Z\",\"from\":\"alice\",\"room\":\"lounge\",";
    assert_eq!(
        encode(&envelope(Some("lounge"), WireContent::Join)),
        format!("{}\"type\":\"join\"}}", head)
    );
    assert_eq!(
        encode(&envelope(Some("lounge"), WireContent::Leave)),
        format!("{}\"type\":\"leave\"}}", head)
    );
    assert_eq!(
        encode(&envelope(Some("lounge"), WireContent::System { text: "up".to_string() })),
        format!("{}\"type\":\"system\",\"text\":\"up\"}}", head)
    );
}

#[test]
fn encode_writes_null_for_no_room() {
    assert_eq!(
        encode(&envelope(None, WireContent::System { text: "up".to_string() })),
        "{\"v\":2,\"id\":\"a1a2a3a4-b1b2-c1c2-d1d2-d3d4d5d6d7d8\",\
         \"ts\":\"2015-05-15T00:00:00Z\",\"from\":\"alice\",\"room\":null,\
         \"type\":\"system\",\"text\":\"up\"}"
    );
}

#[test]
fn encode_escapes_strings_as_json_asks() {
    let mut e = envelope(Some("the \"lounge\""), chat("one\ntwo\\three\u{1}\té"));
    e.from = "al/ice".to_string();
    assert_eq!(
        encode(&e),
        "{\"v\":2,\"id\":\"a1a2a3a4-b1b2-c1c2-d1d2-d3d4d5d6d7d8\",\
         \"ts\":\"2015-05-15T00:00:00Z\",\"from\":\"al/ice\",\
         \"room\":\"the \\\"lounge\\\"\",\
         \"type\":\"chat\",\"body\":\"one\\ntwo\\\\three\\u0001\\té\"}"
    );
}

#[test]
fn encode_writes_the_version_as_a_number() {
    let mut e = envelope(Some("lounge"), WireContent::Join);
    e.v = 255;
    assert!(encode(&e).starts_with("{\"v\":255,\"id\""));
    e.v = 300;
    assert!(encode(&e).starts_with("{\"v\":300,\"id\""));
    assert_eq!(parse_envelope(&encode(&e)), Ok(e.clone()));
    e.v = 0;
    assert!(encode(&e).starts_with("{\"v\":0,\"id\""));
}

#[test]
fn encode_writes_the_identifier_as_uuid_does() {
    for id in [0u128, 1, ID, u128::MAX, 0x0123456789abcdef_fedcba9876543210] {
        let mut e = envelope(Some("lounge"), WireContent::Join);
        e.id = id;
        let theirs = Uuid::from_u128(id);
        let object: Value = serde_json::from_str(&encode(&e)).unwrap();
        assert_eq!(object["id"], Value::String(theirs.to_string()));
        assert_eq!(
            serde_json::to_string(&object["id"]).unwrap(),
            serde_json::to_string(&theirs).unwrap()
        );
    }
    let mut e = envelope(Some("lounge"), WireContent::Join);
    e.id = 0x0123456789abcdef_fedcba9876543210;
    assert!(encode(&e).contains("\"id\":\"01234567-89ab-cdef-fedc-ba9876543210\""));
}

#[test]
fn encoded_envelope_is_one_json_object() {
    let text = encode(&envelope(Some("lounge"), chat("hi \"you\"\n")));
    let object: Value = serde_json::from_str(&text).unwrap();
    let fields = object.as_object().unwrap();
    assert_eq!(fields.len(), 7);
    assert_eq!(object["v"], Value::from(2));
    assert_eq!(object["id"], Value::from(ID_TEXT));
    assert_eq!(object["ts"], Value::from(TS_TEXT));
    assert_eq!(object["from"], Value::from("alice"));
    assert_eq!(object["room"], Value::from("lounge"));
    assert_eq!(object["type"], Value::from("chat"));
    assert_eq!(object["body"], Value::from("hi \"you\"\n"));
}

#[test]
fn encode_line_ends_with_one_line_feed() {
    let e = envelope(Some("lounge"), chat("one\ntwo"));
    let line = encode_line(&e);
    assert_eq!(line, format!("{}\n", encode(&e)));
    assert_eq!(line.matches('\n').count(), 1);
}

#[test]
fn encoded_envelope_holds_no_line_break() {
    let mut e = envelope(Some("a\r\nb"), chat("\n\n\r"));
    e.from = "\r".to_string();
    let text = encode(&e);
    assert!(!text.contains('\n'));
    assert!(!text.contains('\r'));
    assert_eq!(parse_envelope(&text), Ok(e));
    let notice = envelope(None, WireContent::System { text: "up\r\n".to_string() });
    let line = encode_line(&notice);
    assert_eq!(line.trim_end_matches(&['\r', '\n'][..]), encode(&notice));
}

// ------------------------------------------------------------ reading

fn line(fields: &str) -> String {
    format!(
        "{{\"v\":2,\"id\":\"{}\",\"ts\":\"{}\",\"from\":\"alice\"{}}}",
        ID_TEXT, TS_TEXT, fields
    )
}

#[test]
fn parse_reads_a_chat() {
    assert_eq!(
        parse_envelope(&line(",\"room\":\"lounge\",\"type\":\"chat\",\"body\":\"hi\"")),
        Ok(envelope(Some("lounge"), chat("hi")))
    );
}

#[test]
fn parse_reads_join_leave_and_system() {
    assert_eq!(
        parse_envelope(&line(",\"room\":\"lounge\",\"type\":\"join\"")),
        Ok(envelope(Some("lounge"), WireContent::Join))
    );
    assert_eq!(
        parse_envelope(&line(",\"room\":\"lounge\",\"type\":\"leave\"")),
        Ok(envelope(Some("lounge"), WireContent::Leave))
    );
    assert_eq!(
        parse_envelope(&line(",\"type\":\"system\",\"text\":\"up\"")),
        Ok(envelope(None, WireContent::System { text: "up".to_string() }))
    );
}

#[test]
fn parse_takes_fields_in_any_order_and_ignores_others() {
    let text = format!(
        " {{ \"body\": \"hi\", \"extra\": [1, {{}}], \"type\": \"chat\", \"room\": \"lounge\", \
         \"from\": \"alice\", \"ts\": \"{}\", \"id\": \"{}\", \"v\": 2 }} ",
        TS_TEXT, ID_TEXT
    );
    assert_eq!(parse_envelope(&text), Ok(envelope(Some("lounge"), chat("hi"))));
}

#[test]
fn parse_reads_the_last_of_two_equal_keys() {
    let text = line(
        ",\"room\":\"den\",\"room\":\"lounge\",\"type\":\"leave\",\"type\":\"join\"",
    );
    assert_eq!(parse_envelope(&text), Ok(envelope(Some("lounge"), WireContent::Join)));
}

#[test]
fn parse_takes_null_for_no_room() {
    assert_eq!(
        parse_envelope(&line(",\"room\":null,\"type\":\"join\"")),
        Ok(envelope(None, WireContent::Join))
    );
    assert_eq!(
        parse_envelope(&line(",\"type\":\"chat\",\"body\":\"hi\"")),
        Ok(envelope(None, chat("hi")))
    );
}

#[test]
fn parse_resolves_json_escapes() {
    assert_eq!(
        parse_envelope(&line(
            ",\"room\":\"l\\u006funge\",\"type\":\"chat\",\"body\":\"a\\n\\\"b\\\"\""
        )),
        Ok(envelope(Some("lounge"), chat("a\n\"b\"")))
    );
}

#[test]
fn parse_reads_other_versions() {
    let text = line(",\"room\":\"lounge\",\"type\":\"join\"").replace("\"v\":2", "\"v\":255");
    let mut expected = envelope(Some("lounge"), WireContent::Join);
    expected.v = 255;
    assert_eq!(parse_envelope(&text), Ok(expected));
}

#[test]
fn parse_reads_every_text_form_of_an_identifier() {
    for form in [
        "a1a2a3a4b1b2c1c2d1d2d3d4d5d6d7d8",
        "A1A2A3A4-B1B2-C1C2-D1D2-D3D4D5D6D7D8",
        "{a1a2a3a4-b1b2-c1c2-d1d2-d3d4d5d6d7d8}",
        "urn:uuid:a1a2a3a4-b1b2-c1c2-d1d2-d3d4d5d6d7d8",
    ] {
        let text = line(",\"room\":\"lounge\",\"type\":\"join\"").replace(ID_TEXT, form);
        assert_eq!(parse_envelope(&text), Ok(envelope(Some("lounge"), WireContent::Join)));
        assert_eq!(Uuid::parse_str(form).unwrap().as_u128(), ID);
    }
}

#[test]
fn parse_moves_the_time_to_utc() {
    let text = line(",\"room\":\"lounge\",\"type\":\"join\"")
        .replace(TS_TEXT, "2015-05-15T02:00:00+02:00");
    assert_eq!(parse_envelope(&text), Ok(envelope(Some("lounge"), WireContent::Join)));
}

#[test]
fn parse_refuses_what_is_not_a_json_object() {
    for text in ["", "hello", "{", "[1,2]", "\"text\"", "2", "null", "{\"v\":2} trailing"] {
        match parse_envelope(text) {
            Err(DecodeError::Syntax(why)) => {
                let theirs = serde_json::from_str::<serde_json::Map<String, Value>>(text);
                assert_eq!(why, theirs.unwrap_err().to_string());
            }
            other => panic!("{:?} gave {:?}", text, other),
        }
    }
}

#[test]
fn parse_names_the_first_missing_field() {
    assert_eq!(parse_envelope("{}"), Err(DecodeError::Missing(Field::Version)));
    assert_eq!(parse_envelope("{\"v\":2}"), Err(DecodeError::Missing(Field::Id)));
    assert_eq!(
        parse_envelope(&format!("{{\"v\":2,\"id\":\"{}\"}}", ID_TEXT)),
        Err(DecodeError::Missing(Field::Time))
    );
    assert_eq!(
        parse_envelope(&format!("{{\"v\":2,\"id\":\"{}\",\"ts\":\"{}\"}}", ID_TEXT, TS_TEXT)),
        Err(DecodeError::Missing(Field::From))
    );
    assert_eq!(parse_envelope(&line("")), Err(DecodeError::Missing(Field::Type)));
    assert_eq!(
        parse_envelope(&line(",\"room\":\"lounge\",\"type\":\"chat\"")),
        Err(DecodeError::Missing(Field::Body))
    );
    assert_eq!(
        parse_envelope(&line(",\"type\":\"system\"")),
        Err(DecodeError::Missing(Field::Text))
    );
}

#[test]
fn parse_reads_every_whole_number_as_the_version() {
    for v in [0u64, 1, 3, 255, 256, 300, 65_536, u64::MAX] {
        let text = line(",\"room\":\"lounge\",\"type\":\"join\"")
            .replace("\"v\":2", &format!("\"v\":{}", v));
        let mut expected = envelope(Some("lounge"), WireContent::Join);
        expected.v = v;
        assert_eq!(parse_envelope(&text), Ok(expected));
    }
}

#[test]
fn parse_refuses_a_version_that_is_no_whole_number() {
    let versions =
        ["-1", "2.0", "2.5", "\"2\"", "null", "true", "[2]", "1e2", "99999999999999999999"];
    for v in versions {
        let text = line(",\"room\":\"lounge\",\"type\":\"join\"")
            .replace("\"v\":2", &format!("\"v\":{}", v));
        assert_eq!(parse_envelope(&text), Err(DecodeError::Invalid(Field::Version)), "{}", v);
    }
}

#[test]
fn parse_refuses_fields_of_the_wrong_kind() {
    let good = line(",\"room\":\"lounge\",\"type\":\"chat\",\"body\":\"hi\"");
    let cases = [
        (format!("\"id\":\"{}\"", ID_TEXT), "\"id\":\"not-a-uuid\"".to_string(), Field::Id),
        (format!("\"id\":\"{}\"", ID_TEXT), "\"id\":7".to_string(), Field::Id),
        (format!("\"ts\":\"{}\"", TS_TEXT), "\"ts\":\"noon\"".to_string(), Field::Time),
        (format!("\"ts\":\"{}\"", TS_TEXT), "\"ts\":1431648000".to_string(), Field::Time),
        ("\"from\":\"alice\"".to_string(), "\"from\":null".to_string(), Field::From),
        ("\"room\":\"lounge\"".to_string(), "\"room\":3".to_string(), Field::Room),
        ("\"room\":\"lounge\"".to_string(), "\"room\":[\"lounge\"]".to_string(), Field::Room),
        ("\"type\":\"chat\"".to_string(), "\"type\":0".to_string(), Field::Type),
        ("\"body\":\"hi\"".to_string(), "\"body\":{\"text\":\"hi\"}".to_string(), Field::Body),
    ];
    for (from, to, field) in cases {
        assert!(good.contains(&from));
        assert_eq!(parse_envelope(&good.replace(&from, &to)), Err(DecodeError::Invalid(field)));
    }
    assert_eq!(
        parse_envelope(&line(",\"type\":\"system\",\"text\":false")),
        Err(DecodeError::Invalid(Field::Text))
    );
}

#[test]
fn parse_refuses_an_unknown_type() {
    assert_eq!(
        parse_envelope(&line(",\"room\":\"lounge\",\"type\":\"shout\",\"body\":\"hi\"")),
        Err(DecodeError::UnknownType("shout".to_string()))
    );
    assert_eq!(
        parse_envelope(&line(",\"room\":\"lounge\",\"type\":\"Chat\",\"body\":\"hi\"")),
        Err(DecodeError::UnknownType("Chat".to_string()))
    );
    assert_eq!(
        parse_envelope(&line(",\"type\":\"\"")),
        Err(DecodeError::UnknownType(String::new()))
    );
}

#[test]
fn error_messages_name_what_is_wrong() {
    assert_eq!(DecodeError::Syntax("EOF while parsing".to_string()).message(), "EOF while parsing");
    assert_eq!(DecodeError::Missing(Field::Version).message(), "missing field `v`");
    assert_eq!(DecodeError::Missing(Field::Id).message(), "missing field `id`");
    assert_eq!(DecodeError::Invalid(Field::Time).message(), "invalid value for field `ts`");
    assert_eq!(DecodeError::Invalid(Field::From).message(), "invalid value for field `from`");
    assert_eq!(DecodeError::Invalid(Field::Room).message(), "invalid value for field `room`");
    assert_eq!(DecodeError::Missing(Field::Type).message(), "missing field `type`");
    assert_eq!(DecodeError::Missing(Field::Body).message(), "missing field `body`");
    assert_eq!(DecodeError::Missing(Field::Text).message(), "missing field `text`");
    assert_eq!(
        DecodeError::UnknownType("shout".to_string()).message(),
        "unknown message type `shout`"
    );
}

#[test]
fn field_names_are_the_json_keys() {
    let names: Vec<&str> = [
        Field::Version,
        Field::Id,
        Field::Time,
        Field::From,
        Field::Room,
        Field::Type,
        Field::Body,
        Field::Text,
    ]
    .iter()
    .map(|f| f.name())
    .collect();
    assert_eq!(names, vec!["v", "id", "ts", "from", "room", "type", "body", "text"]);
}

// ------------------------------------------------------------ decoding

#[test]
fn decode_of_an_encoded_chat_is_the_message() {
    let e = WireEnvelope::chat("alice", "lounge", "hi \"there\"\n\u{1F600}");
    let ev = decode(&encode(&e));
    assert_eq!(
        ev,
        ChatEvent::Message {
            id: e.id,
            ts: e.ts,
            from: "alice".to_string(),
            room: "lounge".to_string(),
            body: "hi \"there\"\n\u{1F600}".to_string(),
        }
    );
}

#[test]
fn decode_of_an_encoded_join_or_leave_is_the_notice() {
    assert_eq!(
        decode(&encode(&WireEnvelope::join("alice", "lounge"))),
        notice("alice joined lounge")
    );
    assert_eq!(
        decode(&encode(&WireEnvelope::leave("alice", "the \"den\""))),
        notice("alice left the \"den\"")
    );
}

#[test]
fn parse_of_an_encoded_envelope_is_the_envelope() {
    let envelopes = [
        envelope(Some("lounge"), chat("hi")),
        envelope(Some(""), chat("")),
        envelope(None, WireContent::Join),
        envelope(Some("r\\oom\t"), WireContent::Leave),
        envelope(None, WireContent::System { text: "\u{0}\u{7f}\u{2028}".to_string() }),
        WireEnvelope::chat("bob", "den", "now"),
        WireEnvelope::stamped(
            u128::MAX,
            Timestamp::new(1483228799, 1_500_000_000).unwrap(),
            "",
            "x",
            WireContent::Join,
        ),
    ];
    for e in envelopes {
        assert_eq!(parse_envelope(&encode(&e)), Ok(e));
    }
}

#[test]
fn decode_of_version_300_is_a_mismatch() {
    let text = line(",\"room\":\"lounge\",\"type\":\"chat\",\"body\":\"hi\"")
        .replace("\"v\":2", "\"v\":300");
    assert_eq!(
        decode(&text),
        ChatEvent::System(format!("chat protocol version mismatch: 300 -> 2 | {}", text))
    );
    let huge = text.replace("\"v\":300", "\"v\":18446744073709551615");
    assert_eq!(
        decode(&huge),
        ChatEvent::System(format!(
            "chat protocol version mismatch: 18446744073709551615 -> 2 | {}",
            huge
        ))
    );
}

#[test]
fn decode_of_another_version_names_both_versions() {
    for v in [0u64, 1, 3, 255, 256, 1_000_000] {
        let mut e = envelope(Some("lounge"), chat("hi"));
        e.v = v;
        let text = encode(&e);
        assert_eq!(
            decode(&text),
            ChatEvent::System(format!("chat protocol version mismatch: {} -> 2 | {}", v, text))
        );
    }
}

#[test]
fn decode_of_another_version_does_not_look_at_the_room() {
    let mut e = envelope(None, chat("hi"));
    e.v = 3;
    let text = encode(&e);
    assert_eq!(
        decode(&text),
        ChatEvent::System(format!("chat protocol version mismatch: 3 -> 2 | {}", text))
    );
}

#[test]
fn decode_of_garbage_is_a_notice_with_error_and_line() {
    for text in ["hello", "{\"v\":", "\u{0}\u{1}", "[", "{\"v\":2}}", "💥"] {
        let theirs = serde_json::from_str::<serde_json::Map<String, Value>>(text).unwrap_err();
        assert_eq!(decode(text), malformed(&theirs.to_string(), text));
    }
    assert_eq!(
        decode("hello"),
        notice("invalid JSON error: expected value at line 1 column 1 | message: hello")
    );
}

#[test]
fn decode_of_a_broken_envelope_is_a_notice_with_error_and_line() {
    assert_eq!(decode("{}"), malformed("missing field `v`", "{}"));
    let text = line(",\"room\":\"lounge\",\"type\":\"shout\"");
    assert_eq!(decode(&text), malformed("unknown message type `shout`", &text));
    let text = line(",\"room\":7,\"type\":\"join\"");
    assert_eq!(decode(&text), malformed("invalid value for field `room`", &text));
}

#[test]
fn decode_without_a_room_names_the_content() {
    assert_eq!(
        decode(&line(",\"type\":\"chat\",\"body\":\"hi\"")),
        notice("missing <room> for Chat")
    );
    assert_eq!(decode(&line(",\"type\":\"join\"")), notice("missing <room> for Join"));
    assert_eq!(
        decode(&line(",\"room\":null,\"type\":\"leave\"")),
        notice("missing <room> for Leave")
    );
    assert_eq!(decode(&line(",\"type\":\"system\",\"text\":\"up\"")), notice("up"));
}

#[test]
fn event_from_takes_the_parse_as_given() {
    assert_eq!(
        event_from(Ok(envelope(Some("lounge"), WireContent::Join)), "raw"),
        notice("alice joined lounge")
    );
    let mut other = envelope(Some("lounge"), WireContent::Join);
    other.v = 1;
    assert_eq!(
        event_from(Ok(other), "raw"),
        notice("chat protocol version mismatch: 1 -> 2 | raw")
    );
    assert_eq!(
        event_from(Err(DecodeError::Syntax("boom".to_string())), "raw"),
        notice("invalid JSON error: boom | message: raw")
    );
    assert_eq!(
        event_from(Err(DecodeError::Missing(Field::From)), ""),
        notice("invalid JSON error: missing field `from` | message: ")
    );
}
