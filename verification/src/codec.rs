//! The envelope codec: one envelope is one line of JSON.
//!
//! An envelope is written as an object with the fields `v`, `id`, `ts`, `from`,
//! `room`, `type` and, after the type, `body` for a chat and `text` for a
//! system notice. A line is read back field by field; where a key stands twice
//! in the object, the value that stands last is the one that is read. Nothing
//! that arrives can stop a session: a line that is no envelope, or an envelope
//! of another protocol version, decodes to a notice for the operator.

use crate::json::{field, field_at, json_object, json_string, parse_object, quote};
use crate::json::{JsonField, JsonFieldView, JsonFields};
use crate::protocol::{envelope_event, stamped_envelope, ChatEvent, ChatEventView};
use crate::protocol::PROTOCOL_VERSION;
use crate::protocol::{WireContent, WireContentView, WireEnvelope, WireEnvelopeView};
use crate::stamp::{id_text, lemma_uuid_text_single_line, parse_id, rfc3339_text};
use crate::stamp::{uuid_text, uuid_value};
use crate::stamp::{Instant, Timestamp};
use crate::text::{decimal, decimal_text, lemma_decimal_single_line, lemma_framed};
use crate::text::{lemma_mentions_middle, lemma_single_line_add, mentions, single_line, str_eq};
use crate::text::without_line_end;
use vstd::prelude::*;
use vstd::string::*;

verus! {

/// A field of the envelope.
#[derive(Debug, Clone, Copy, PartialEq, Eq)]
pub enum Field {
    Version,
    Id,
    Time,
    From,
    Room,
    Type,
    Body,
    Text,
}

impl Field {
    /// The key of the field in the JSON object.
    pub open spec fn key(self) -> Seq<char> {
        match self {
            Field::Version => "v"@,
            Field::Id => "id"@,
            Field::Time => "ts"@,
            Field::From => "from"@,
            Field::Room => "room"@,
            Field::Type => "type"@,
            Field::Body => "body"@,
            Field::Text => "text"@,
        }
    }

    /// The key of the field in the JSON object.
    pub fn name(self) -> (r: &'static str)
        ensures
            r@ == self.key(),
    {
        match self {
            Field::Version => "v",
            Field::Id => "id",
            Field::Time => "ts",
            Field::From => "from",
            Field::Room => "room",
            Field::Type => "type",
            Field::Body => "body",
            Field::Text => "text",
        }
    }
}

/// Why a line is no envelope.
#[derive(Debug, Clone, PartialEq, Eq)]
pub enum DecodeError {
    /// The line is not one JSON object; the parser's words.
    Syntax(String),
    /// A required field is not there.
    Missing(Field),
    /// A field holds a value of the wrong kind, or one that cannot be read.
    Invalid(Field),
    /// The type tag is none of `chat`, `join`, `leave`, `system`.
    UnknownType(String),
}

/// The mathematical value of a [`DecodeError`].
pub enum DecodeErrorView {
    Syntax(Seq<char>),
    Missing(Field),
    Invalid(Field),
    UnknownType(Seq<char>),
}

impl View for DecodeError {
    type V = DecodeErrorView;

    open spec fn view(&self) -> DecodeErrorView {
        match *self {
            DecodeError::Syntax(why) => DecodeErrorView::Syntax(why@),
            DecodeError::Missing(f) => DecodeErrorView::Missing(f),
            DecodeError::Invalid(f) => DecodeErrorView::Invalid(f),
            DecodeError::UnknownType(tag) => DecodeErrorView::UnknownType(tag@),
        }
    }
}

/// What a parse gave, as mathematical values.
pub type Parsed = Result<WireEnvelopeView, DecodeErrorView>;

/// The value of the result of a parse.
pub open spec fn parsed_view(r: Result<WireEnvelope, DecodeError>) -> Parsed {
    match r {
        Ok(e) => Ok(e@),
        Err(why) => Err(why@),
    }
}

/// The words for a decode error.
pub open spec fn error_text(why: DecodeErrorView) -> Seq<char> {
    match why {
        DecodeErrorView::Syntax(words) => words,
        DecodeErrorView::Missing(f) => "missing field `"@ + f.key() + "`"@,
        DecodeErrorView::Invalid(f) => "invalid value for field `"@ + f.key() + "`"@,
        DecodeErrorView::UnknownType(tag) => "unknown message type `"@ + tag + "`"@,
    }
}

// ---------------------------------------------------------------- writing

/// The text of an instant on the wire.
pub open spec fn instant_text(ts: Instant) -> Seq<char> {
    rfc3339_text(ts.secs as i64, ts.nanos as u32)
}

/// The JSON of the room: a string, or `null` where there is none.
pub open spec fn room_text(room: Option<Seq<char>>) -> Seq<char> {
    match room {
        Some(name) => json_string(name),
        None => "null"@,
    }
}

/// The JSON fields of a content: the type tag, then what the type carries.
pub open spec fn content_text(content: WireContentView) -> Seq<char> {
    match content {
        WireContentView::Chat { body } => "\"type\":\"chat\",\"body\":"@ + json_string(body),
        WireContentView::Join => "\"type\":\"join\""@,
        WireContentView::Leave => "\"type\":\"leave\""@,
        WireContentView::System { text } => "\"type\":\"system\",\"text\":"@ + json_string(text),
    }
}

/// The JSON object of an envelope, without spaces and without a line break.
pub open spec fn envelope_text(e: WireEnvelopeView) -> Seq<char> {
    "{\"v\":"@ + decimal(e.v as nat) + ",\"id\":\""@ + uuid_text(e.id) + "\",\"ts\":\""@
        + instant_text(e.ts) + "\",\"from\":"@ + json_string(e.from) + ",\"room\":"@ + room_text(
        e.room,
    ) + ","@ + content_text(e.content) + "}"@
}

/// The line that carries an envelope: its JSON object and a line feed.
pub open spec fn envelope_line(e: WireEnvelopeView) -> Seq<char> {
    envelope_text(e) + "\n"@
}

/// Appends `piece` to a text that is kept on one line.
fn put(r: &mut String, piece: &str)
    requires
        single_line(old(r)@),
        single_line(piece@),
    ensures
        final(r)@ == old(r)@ + piece@,
        single_line(final(r)@),
{
    proof {
        lemma_single_line_add(r@, piece@);
    }
    r.append(piece);
}

/// Writes an envelope as a JSON object. The text holds no line break, whatever
/// the envelope's strings hold.
pub fn encode(e: &WireEnvelope) -> (r: String)
    ensures
        r@ == envelope_text(e@),
        single_line(r@),
{
    proof {
        reveal_strlit("{\"v\":");
        reveal_strlit(",\"id\":\"");
        reveal_strlit("\",\"ts\":\"");
        reveal_strlit("\",\"from\":");
        reveal_strlit(",\"room\":");
        reveal_strlit("null");
        reveal_strlit(",");
        reveal_strlit("\"type\":\"chat\",\"body\":");
        reveal_strlit("\"type\":\"join\"");
        reveal_strlit("\"type\":\"leave\"");
        reveal_strlit("\"type\":\"system\",\"text\":");
        reveal_strlit("}");
        lemma_decimal_single_line(e.v as nat);
        lemma_uuid_text_single_line(e.id);
    }
    let mut r = "{\"v\":".to_owned();
    put(&mut r, decimal_text(e.v).as_str());
    put(&mut r, ",\"id\":\"");
    put(&mut r, id_text(e.id).as_str());
    put(&mut r, "\",\"ts\":\"");
    put(&mut r, e.ts.to_wire().as_str());
    put(&mut r, "\",\"from\":");
    put(&mut r, quote(e.from.as_str()).as_str());
    put(&mut r, ",\"room\":");
    match &e.room {
        Some(name) => put(&mut r, quote(name.as_str()).as_str()),
        None => put(&mut r, "null"),
    }
    put(&mut r, ",");
    match &e.content {
        WireContent::Chat { body } => {
            put(&mut r, "\"type\":\"chat\",\"body\":");
            put(&mut r, quote(body.as_str()).as_str());
        },
        WireContent::Join => put(&mut r, "\"type\":\"join\""),
        WireContent::Leave => put(&mut r, "\"type\":\"leave\""),
        WireContent::System { text } => {
            put(&mut r, "\"type\":\"system\",\"text\":");
            put(&mut r, quote(text.as_str()).as_str());
        },
    }
    put(&mut r, "}");
    assert(r@ =~= envelope_text(e@));
    r
}

/// Writes an envelope as one line, ready to be sent: the JSON object and one
/// line feed, which is the only line break in it. Taking the line break off
/// again leaves the JSON object.
pub fn encode_line(e: &WireEnvelope) -> (r: String)
    ensures
        r@ == envelope_line(e@),
        single_line(envelope_text(e@)),
        without_line_end(r@) == envelope_text(e@),
{
    let mut r = encode(e);
    proof {
        reveal_strlit("\n");
        lemma_framed(r@);
        assert(r@ + "\n"@ =~= r@.push('\n'));
    }
    r.append("\n");
    r
}

// ---------------------------------------------------------------- reading

/// The text in `field`, which must be there and be a string.
pub open spec fn text_in(fields: JsonFields, f: Field) -> Result<Seq<char>, DecodeErrorView> {
    match field_at(fields, f.key()) {
        None => Err(DecodeErrorView::Missing(f)),
        Some(JsonFieldView::Text(text)) => Ok(text),
        Some(_) => Err(DecodeErrorView::Invalid(f)),
    }
}

/// The version: any whole number from 0 to 2^64 - 1. Which versions are
/// supported is not asked here.
pub open spec fn version_in(fields: JsonFields) -> Result<u64, DecodeErrorView> {
    match field_at(fields, Field::Version.key()) {
        None => Err(DecodeErrorView::Missing(Field::Version)),
        Some(JsonFieldView::Number(Some(n))) => Ok(n),
        Some(_) => Err(DecodeErrorView::Invalid(Field::Version)),
    }
}

/// The identifier: the text of a UUID.
pub open spec fn id_in(fields: JsonFields) -> Result<u128, DecodeErrorView> {
    match text_in(fields, Field::Id) {
        Err(why) => Err(why),
        Ok(text) => match uuid_value(text) {
            Some(id) => Ok(id),
            None => Err(DecodeErrorView::Invalid(Field::Id)),
        },
    }
}

/// The time: a text that `chrono` reads as a date and time with an offset. That
/// is RFC 3339 and a relaxed form of it, see [`crate::stamp::rfc3339_instant`].
pub open spec fn time_in(fields: JsonFields) -> Result<Instant, DecodeErrorView> {
    match text_in(fields, Field::Time) {
        Err(why) => Err(why),
        Ok(text) => match Timestamp::of_wire(text) {
            Some(at) => Ok(at),
            None => Err(DecodeErrorView::Invalid(Field::Time)),
        },
    }
}

/// The room: a string, or none where the field is `null` or not there.
pub open spec fn room_in(fields: JsonFields) -> Result<Option<Seq<char>>, DecodeErrorView> {
    match field_at(fields, Field::Room.key()) {
        None => Ok(None),
        Some(JsonFieldView::Null) => Ok(None),
        Some(JsonFieldView::Text(name)) => Ok(Some(name)),
        Some(_) => Err(DecodeErrorView::Invalid(Field::Room)),
    }
}

/// The content: what the type tag says, with the body of a chat or the text of
/// a system notice.
pub open spec fn content_in(fields: JsonFields) -> Result<WireContentView, DecodeErrorView> {
    match text_in(fields, Field::Type) {
        Err(why) => Err(why),
        Ok(tag) => if tag == "chat"@ {
            match text_in(fields, Field::Body) {
                Err(why) => Err(why),
                Ok(body) => Ok(WireContentView::Chat { body }),
            }
        } else if tag == "join"@ {
            Ok(WireContentView::Join)
        } else if tag == "leave"@ {
            Ok(WireContentView::Leave)
        } else if tag == "system"@ {
            match text_in(fields, Field::Text) {
                Err(why) => Err(why),
                Ok(text) => Ok(WireContentView::System { text }),
            }
        } else {
            Err(DecodeErrorView::UnknownType(tag))
        },
    }
}

/// The envelope that the fields of an object make up, or the first thing that
/// is wrong with them, looking at version, identifier, time, sender, room and
/// content in this order. Fields that the envelope does not know are ignored.
pub open spec fn envelope_in(fields: JsonFields) -> Parsed {
    match version_in(fields) {
        Err(why) => Err(why),
        Ok(v) => match id_in(fields) {
            Err(why) => Err(why),
            Ok(id) => match time_in(fields) {
                Err(why) => Err(why),
                Ok(ts) => match text_in(fields, Field::From) {
                    Err(why) => Err(why),
                    Ok(from) => match room_in(fields) {
                        Err(why) => Err(why),
                        Ok(room) => match content_in(fields) {
                            Err(why) => Err(why),
                            Ok(content) => Ok(
                                WireEnvelopeView { v, id, ts, from, room, content },
                            ),
                        },
                    },
                },
            },
        },
    }
}

/// The envelope that a line holds, or why it holds none.
pub open spec fn parsed_envelope(line: Seq<char>) -> Parsed {
    match json_object(line) {
        Err(words) => Err(DecodeErrorView::Syntax(words)),
        Ok(fields) => envelope_in(fields),
    }
}

/// The notice for a line that is no envelope: the error and the line itself.
pub open spec fn malformed_notice(why: DecodeErrorView, line: Seq<char>) -> Seq<char> {
    "invalid JSON error: "@ + error_text(why) + " | message: "@ + line
}

/// The notice for an envelope of version `v`, which is not the supported one:
/// both versions and the line itself.
pub open spec fn mismatch_notice(v: u64, line: Seq<char>) -> Seq<char> {
    "chat protocol version mismatch: "@ + decimal(v as nat) + " -> "@ + decimal(
        PROTOCOL_VERSION as nat,
    ) + " | "@ + line
}

/// The event for what a parse of `line` gave. An envelope of the supported
/// version is the event it stands for; one of another version is never looked
/// into; a failed parse is a notice.
pub open spec fn event_of(parsed: Parsed, line: Seq<char>) -> ChatEventView {
    match parsed {
        Ok(e) => if e.v == PROTOCOL_VERSION {
            envelope_event(e)
        } else {
            ChatEventView::System(mismatch_notice(e.v, line))
        },
        Err(why) => ChatEventView::System(malformed_notice(why, line)),
    }
}

/// The event that a line decodes to.
pub open spec fn decoded(line: Seq<char>) -> ChatEventView {
    event_of(parsed_envelope(line), line)
}

impl DecodeError {
    /// The words for the error.
    pub fn message(&self) -> (r: String)
        ensures
            r@ == error_text(self@),
    {
        match self {
            DecodeError::Syntax(words) => words.clone(),
            DecodeError::Missing(f) => {
                let mut r = "missing field `".to_owned();
                r.append(f.name());
                r.append("`");
                r
            },
            DecodeError::Invalid(f) => {
                let mut r = "invalid value for field `".to_owned();
                r.append(f.name());
                r.append("`");
                r
            },
            DecodeError::UnknownType(tag) => {
                let mut r = "unknown message type `".to_owned();
                r.append(tag.as_str());
                r.append("`");
                r
            },
        }
    }
}

fn read_text(object: &serde_json::Map<String, serde_json::Value>, f: Field) -> (r: Result<
    String,
    DecodeError,
>)
    ensures
        match r {
            Ok(text) => text_in(crate::json::fields_of(*object), f) == Ok::<
                Seq<char>,
                DecodeErrorView,
            >(text@),
            Err(why) => text_in(crate::json::fields_of(*object), f) == Err::<
                Seq<char>,
                DecodeErrorView,
            >(why@),
        },
{
    match field(object, f.name()) {
        None => Err(DecodeError::Missing(f)),
        Some(JsonField::Text(text)) => Ok(text),
        Some(_) => Err(DecodeError::Invalid(f)),
    }
}

fn read_content(object: &serde_json::Map<String, serde_json::Value>) -> (r: Result<
    WireContent,
    DecodeError,
>)
    ensures
        match r {
            Ok(content) => content_in(crate::json::fields_of(*object)) == Ok::<
                WireContentView,
                DecodeErrorView,
            >(content@),
            Err(why) => content_in(crate::json::fields_of(*object)) == Err::<
                WireContentView,
                DecodeErrorView,
            >(why@),
        },
{
    let tag = match read_text(object, Field::Type) {
        Ok(tag) => tag,
        Err(why) => {
            return Err(why);
        },
    };
    if str_eq(tag.as_str(), "chat") {
        match read_text(object, Field::Body) {
            Ok(body) => Ok(WireContent::Chat { body }),
            Err(why) => Err(why),
        }
    } else if str_eq(tag.as_str(), "join") {
        Ok(WireContent::Join)
    } else if str_eq(tag.as_str(), "leave") {
        Ok(WireContent::Leave)
    } else if str_eq(tag.as_str(), "system") {
        match read_text(object, Field::Text) {
            Ok(text) => Ok(WireContent::System { text }),
            Err(why) => Err(why),
        }
    } else {
        Err(DecodeError::UnknownType(tag))
    }
}

fn read_envelope(object: &serde_json::Map<String, serde_json::Value>) -> (r: Result<
    WireEnvelope,
    DecodeError,
>)
    ensures
        parsed_view(r) == envelope_in(crate::json::fields_of(*object)),
{
    let v: u64 = match field(object, Field::Version.name()) {
        None => {
            return Err(DecodeError::Missing(Field::Version));
        },
        Some(JsonField::Number(Some(n))) => n,
        Some(_) => {
            return Err(DecodeError::Invalid(Field::Version));
        },
    };
    let id: u128 = match read_text(object, Field::Id) {
        Err(why) => {
            return Err(why);
        },
        Ok(text) => match parse_id(text.as_str()) {
            Some(id) => id,
            None => {
                return Err(DecodeError::Invalid(Field::Id));
            },
        },
    };
    let ts = match read_text(object, Field::Time) {
        Err(why) => {
            return Err(why);
        },
        Ok(text) => match Timestamp::from_wire(text.as_str()) {
            Some(at) => at,
            None => {
                return Err(DecodeError::Invalid(Field::Time));
            },
        },
    };
    let from = match read_text(object, Field::From) {
        Err(why) => {
            return Err(why);
        },
        Ok(text) => text,
    };
    let room = match field(object, Field::Room.name()) {
        None => None,
        Some(JsonField::Null) => None,
        Some(JsonField::Text(name)) => Some(name),
        Some(_) => {
            return Err(DecodeError::Invalid(Field::Room));
        },
    };
    let content = match read_content(object) {
        Err(why) => {
            return Err(why);
        },
        Ok(content) => content,
    };
    Ok(WireEnvelope { v, id, ts, from, room, content })
}

/// Reads a line as an envelope.
pub fn parse_envelope(line: &str) -> (r: Result<WireEnvelope, DecodeError>)
    ensures
        parsed_view(r) == parsed_envelope(line@),
{
    match parse_object(line) {
        Err(words) => Err(DecodeError::Syntax(words)),
        Ok(object) => read_envelope(&object),
    }
}

/// The event for what a parse of `line` gave.
pub fn event_from(parsed: Result<WireEnvelope, DecodeError>, line: &str) -> (ev: ChatEvent)
    ensures
        ev@ == event_of(parsed_view(parsed), line@),
{
    match parsed {
        Ok(e) => {
            let v = e.version();
            if v == PROTOCOL_VERSION {
                e.into_chat_event()
            } else {
                let mut text = "chat protocol version mismatch: ".to_owned();
                text.append(decimal_text(v).as_str());
                text.append(" -> ");
                text.append(decimal_text(PROTOCOL_VERSION).as_str());
                text.append(" | ");
                text.append(line);
                ChatEvent::System(text)
            }
        },
        Err(why) => {
            let mut text = "invalid JSON error: ".to_owned();
            text.append(why.message().as_str());
            text.append(" | message: ");
            text.append(line);
            ChatEvent::System(text)
        },
    }
}

/// Decodes one line, without its line break, to the event it stands for. Every
/// line decodes to some event.
pub fn decode(line: &str) -> (ev: ChatEvent)
    ensures
        ev@ == decoded(line@),
{
    event_from(parse_envelope(line), line)
}

// ---------------------------------------------------------------- laws

/// Round trip. A line that reads as the envelope which the encoder stamped for
/// a chat decodes to the message that was sent: same identifier, time, sender,
/// room and body. One that reads as a stamped join or leave decodes to the
/// notice that names sender and room.
pub proof fn lemma_round_trip(
    line: Seq<char>,
    id: u128,
    ts: Instant,
    from: Seq<char>,
    room: Seq<char>,
    content: WireContentView,
)
    requires
        parsed_envelope(line) == Ok::<WireEnvelopeView, DecodeErrorView>(
            stamped_envelope(id, ts, from, room, content),
        ),
    ensures
        content matches WireContentView::Chat { body } ==> decoded(line) == (
        ChatEventView::Message { id, ts, from, room, body }),
        content is Join ==> decoded(line) == ChatEventView::System(from + " joined "@ + room),
        content is Leave ==> decoded(line) == ChatEventView::System(from + " left "@ + room),
        content matches WireContentView::System { text } ==> decoded(line)
            == ChatEventView::System(text),
{
}

/// Version gate. A line that reads as an envelope of another version than the
/// supported one decodes to a notice, never to a message, and the notice
/// mentions both versions.
pub proof fn lemma_version_gate(line: Seq<char>, e: WireEnvelopeView)
    requires
        parsed_envelope(line) == Ok::<WireEnvelopeView, DecodeErrorView>(e),
        e.v != PROTOCOL_VERSION,
    ensures
        decoded(line) == ChatEventView::System(mismatch_notice(e.v, line)),
        !(decoded(line) is Message),
        mentions(mismatch_notice(e.v, line), decimal(e.v as nat)),
        mentions(mismatch_notice(e.v, line), decimal(PROTOCOL_VERSION as nat)),
{
    let head = "chat protocol version mismatch: "@;
    let theirs = decimal(e.v as nat);
    let ours = decimal(PROTOCOL_VERSION as nat);
    let notice = mismatch_notice(e.v, line);
    lemma_mentions_middle(head, theirs, " -> "@ + ours + " | "@ + line);
    assert(head + theirs + (" -> "@ + ours + " | "@ + line) =~= notice);
    lemma_mentions_middle(head + theirs + " -> "@, ours, " | "@ + line);
    assert((head + theirs + " -> "@) + ours + (" | "@ + line) =~= notice);
}

/// The version is read in full. An object that holds a whole number other than
/// the supported version under `v`, and is an envelope otherwise, decodes to
/// the notice of a mismatch that names that number, however large it is.
pub proof fn lemma_version_read_in_full(line: Seq<char>, fields: JsonFields, v: u64)
    requires
        json_object(line) == Ok::<JsonFields, Seq<char>>(fields),
        field_at(fields, Field::Version.key()) == Some(JsonFieldView::Number(Some(v))),
        envelope_in(fields) is Ok,
        v != PROTOCOL_VERSION,
    ensures
        decoded(line) == ChatEventView::System(mismatch_notice(v, line)),
        mentions(mismatch_notice(v, line), decimal(v as nat)),
        mentions(mismatch_notice(v, line), decimal(PROTOCOL_VERSION as nat)),
{
    lemma_version_gate(line, envelope_in(fields)->Ok_0);
}

/// Malformed input. A line that is no envelope decodes to the notice that
/// quotes the error and the line.
pub proof fn lemma_malformed_line(line: Seq<char>)
    requires
        parsed_envelope(line) is Err,
    ensures
        decoded(line) == ChatEventView::System(
            malformed_notice(parsed_envelope(line)->Err_0, line),
        ),
{
}

/// Missing room. A JSON object without a room, or with `null` for it, decodes
/// to a notice whatever else it holds; where it is a chat, join or leave of
/// the supported version, the notice names the content that lacks its room.
pub proof fn lemma_missing_room(line: Seq<char>, fields: JsonFields)
    requires
        json_object(line) == Ok::<JsonFields, Seq<char>>(fields),
        field_at(fields, Field::Room.key()) is None || field_at(fields, Field::Room.key())
            == Some(JsonFieldView::Null),
    ensures
        decoded(line) is System,
        parsed_envelope(line) matches Ok(e) ==> e.room is None && (e.v == PROTOCOL_VERSION ==> {
            &&& e.content is Chat ==> decoded(line) == ChatEventView::System(
                "missing <room> for Chat"@,
            )
            &&& e.content is Join ==> decoded(line) == ChatEventView::System(
                "missing <room> for Join"@,
            )
            &&& e.content is Leave ==> decoded(line) == ChatEventView::System(
                "missing <room> for Leave"@,
            )
        }),
{
}

/// Only a chat makes a message. A line decodes to a message only where it reads
/// as a chat envelope of the supported version with a room, and the message
/// then carries the envelope's fields unchanged.
pub proof fn lemma_message_origin(line: Seq<char>)
    requires
        decoded(line) is Message,
    ensures
        parsed_envelope(line) matches Ok(e) && e.v == PROTOCOL_VERSION && e.room is Some && (
        e.content matches WireContentView::Chat { body } && decoded(line) == (
        ChatEventView::Message { id: e.id, ts: e.ts, from: e.from, room: e.room->0, body })),
{
}

} // verus!
