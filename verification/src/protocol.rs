//! The wire envelope, the events shown to the operator, and the mapping from
//! the one to the other.

use crate::stamp::{is_random_id, random_id, Instant, Timestamp};
use vstd::prelude::*;
use vstd::string::*;

verus! {

/// The protocol version that this build writes and accepts.
pub const PROTOCOL_VERSION: u64 = 2;

/// The name of a room.
pub type RoomId = String;

/// Something worth showing the operator.
#[derive(Debug, Clone, PartialEq, Eq)]
pub enum ChatEvent {
    /// A chat line, with the identifier and time that its sender gave it.
    Message { id: u128, ts: Timestamp, from: String, room: RoomId, body: String },
    /// An informational notice.
    System(String),
}

/// The mathematical value of a [`ChatEvent`].
pub enum ChatEventView {
    Message { id: u128, ts: Instant, from: Seq<char>, room: Seq<char>, body: Seq<char> },
    System(Seq<char>),
}

impl View for ChatEvent {
    type V = ChatEventView;

    open spec fn view(&self) -> ChatEventView {
        match *self {
            ChatEvent::Message { id, ts, from, room, body } => ChatEventView::Message {
                id,
                ts: ts@,
                from: from@,
                room: room@,
                body: body@,
            },
            ChatEvent::System(text) => ChatEventView::System(text@),
        }
    }
}

/// What an envelope carries besides its metadata.
#[derive(Debug, Clone, PartialEq, Eq)]
pub enum WireContent {
    Chat { body: String },
    Join,
    Leave,
    System { text: String },
}

/// The mathematical value of a [`WireContent`].
pub enum WireContentView {
    Chat { body: Seq<char> },
    Join,
    Leave,
    System { text: Seq<char> },
}

impl View for WireContent {
    type V = WireContentView;

    open spec fn view(&self) -> WireContentView {
        match *self {
            WireContent::Chat { body } => WireContentView::Chat { body: body@ },
            WireContent::Join => WireContentView::Join,
            WireContent::Leave => WireContentView::Leave,
            WireContent::System { text } => WireContentView::System { text: text@ },
        }
    }
}

/// One message as it travels: version, identifier, time, sender, room and content.
#[derive(Debug, Clone, PartialEq, Eq)]
pub struct WireEnvelope {
    pub v: u64,
    pub id: u128,
    pub ts: Timestamp,
    pub from: String,
    pub room: Option<RoomId>,
    pub content: WireContent,
}

/// The mathematical value of a [`WireEnvelope`].
pub struct WireEnvelopeView {
    pub v: u64,
    pub id: u128,
    pub ts: Instant,
    pub from: Seq<char>,
    pub room: Option<Seq<char>>,
    pub content: WireContentView,
}

impl View for WireEnvelope {
    type V = WireEnvelopeView;

    open spec fn view(&self) -> WireEnvelopeView {
        WireEnvelopeView {
            v: self.v,
            id: self.id,
            ts: self.ts@,
            from: self.from@,
            room: match self.room {
                Some(room) => Some(room@),
                None => None,
            },
            content: self.content@,
        }
    }
}

/// The event that an envelope of the supported version stands for.
///
/// A chat becomes a message with every field carried over; a join or a leave
/// becomes a notice that names sender and room; a system text stays as it is.
/// Where a chat, join or leave has no room, the event is a notice that says so.
pub open spec fn envelope_event(e: WireEnvelopeView) -> ChatEventView {
    match e.content {
        WireContentView::Chat { body } => match e.room {
            Some(room) => ChatEventView::Message { id: e.id, ts: e.ts, from: e.from, room, body },
            None => ChatEventView::System("missing <room> for Chat"@),
        },
        WireContentView::Join => match e.room {
            Some(room) => ChatEventView::System(e.from + " joined "@ + room),
            None => ChatEventView::System("missing <room> for Join"@),
        },
        WireContentView::Leave => match e.room {
            Some(room) => ChatEventView::System(e.from + " left "@ + room),
            None => ChatEventView::System("missing <room> for Leave"@),
        },
        WireContentView::System { text } => ChatEventView::System(text),
    }
}

/// The envelope that the sender `from` stamps for `room` with `content`.
pub open spec fn stamped_envelope(
    id: u128,
    ts: Instant,
    from: Seq<char>,
    room: Seq<char>,
    content: WireContentView,
) -> WireEnvelopeView {
    WireEnvelopeView { v: PROTOCOL_VERSION, id, ts, from, room: Some(room), content }
}

impl WireEnvelope {
    /// The protocol version that the envelope claims.
    pub fn version(&self) -> (v: u64)
        ensures
            v == self@.v,
    {
        self.v
    }

    /// Turns the envelope into the event it stands for. The version is not
    /// looked at: the caller has checked it.
    pub fn into_chat_event(self) -> (ev: ChatEvent)
        ensures
            ev@ == envelope_event(self@),
    {
        let WireEnvelope { id, ts, from, room, content, .. } = self;
        match content {
            WireContent::Chat { body } => match room {
                Some(room) => ChatEvent::Message { id, ts, from, room, body },
                None => ChatEvent::System("missing <room> for Chat".to_owned()),
            },
            WireContent::Join => match room {
                Some(room) => {
                    let mut text = from;
                    text.append(" joined ");
                    text.append(room.as_str());
                    ChatEvent::System(text)
                },
                None => ChatEvent::System("missing <room> for Join".to_owned()),
            },
            WireContent::Leave => match room {
                Some(room) => {
                    let mut text = from;
                    text.append(" left ");
                    text.append(room.as_str());
                    ChatEvent::System(text)
                },
                None => ChatEvent::System("missing <room> for Leave".to_owned()),
            },
            WireContent::System { text } => ChatEvent::System(text),
        }
    }

    /// An envelope of the supported version with the given identifier and time.
    pub fn stamped(id: u128, ts: Timestamp, from: &str, room: &str, content: WireContent) -> (e:
        Self)
        ensures
            e@ == stamped_envelope(id, ts@, from@, room@, content@),
    {
        WireEnvelope {
            v: PROTOCOL_VERSION,
            id,
            ts,
            from: from.to_owned(),
            room: Some(room.to_owned()),
            content,
        }
    }

    /// A chat line from `from` to `room`, with a fresh random identifier and the
    /// current time.
    pub fn chat(from: &str, room: &str, body: &str) -> (e: Self)
        ensures
            is_random_id(e@.id),
            e@ == stamped_envelope(
                e@.id,
                e@.ts,
                from@,
                room@,
                WireContentView::Chat { body: body@ },
            ),
    {
        Self::stamped(
            random_id(),
            Timestamp::now(),
            from,
            room,
            WireContent::Chat { body: body.to_owned() },
        )
    }

    /// The notice that `from` joins `room`, with a fresh random identifier and
    /// the current time.
    pub fn join(from: &str, room: &str) -> (e: Self)
        ensures
            is_random_id(e@.id),
            e@ == stamped_envelope(e@.id, e@.ts, from@, room@, WireContentView::Join),
    {
        Self::stamped(random_id(), Timestamp::now(), from, room, WireContent::Join)
    }

    /// The notice that `from` leaves `room`, with a fresh random identifier and
    /// the current time.
    pub fn leave(from: &str, room: &str) -> (e: Self)
        ensures
            is_random_id(e@.id),
            e@ == stamped_envelope(e@.id, e@.ts, from@, room@, WireContentView::Leave),
    {
        Self::stamped(random_id(), Timestamp::now(), from, room, WireContent::Leave)
    }
}

} // verus!
