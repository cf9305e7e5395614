//! One peer session: the lines it writes and the task that reads.
//!
//! The session owns a duplex byte stream. This library never touches the
//! stream: it says which line to write for each operation, and it decides,
//! step by step, what the reading task does with what the stream gave it.
//!
//! The task that reads starts with [`ReaderPhase::Opening`] and
//! [`ReaderEvent::Start`], and then goes round: it hands phase and event to
//! [`reader_step`], carries out the action it gets, and comes back with what
//! happened. Events reach the consumer through a [`BoundedQueue`]
//! of [`EVENT_QUEUE_CAPACITY`] places, which the consumer empties with
//! `drain`.

use crate::codec::{decode, decoded, encode_line, envelope_line, envelope_text};
use crate::protocol::{stamped_envelope, ChatEvent, ChatEventView, WireContentView, WireEnvelope};
use crate::protocol::WireEnvelopeView;
use crate::queue::Offer;
use crate::stamp::{is_random_id, Instant};
use crate::text::{lemma_framed, single_line, trim_line_end, without_line_end};
use vstd::prelude::*;
use vstd::string::*;

verus! {

/// Places in the queue of events between the reading task and its consumer.
pub const EVENT_QUEUE_CAPACITY: usize = 256;

/// Whether `line` carries the envelope `e`: it is the JSON object of `e` and
/// one line feed, and that line feed is the only line break in it.
pub open spec fn carries(line: Seq<char>, e: WireEnvelopeView) -> bool {
    line == envelope_line(e) && single_line(envelope_text(e))
}

/// Whether `line` carries an envelope of the supported version from `from` for
/// `room` with `content`, under some random identifier and some time.
pub open spec fn is_outbound_line(
    line: Seq<char>,
    from: Seq<char>,
    room: Seq<char>,
    content: WireContentView,
) -> bool {
    exists|id: u128, ts: Instant|
        is_random_id(id) && #[trigger] carries(line, stamped_envelope(id, ts, from, room, content))
}

/// The line that tells the peer that `username` joins `room`.
pub fn join_line(username: &str, room: &str) -> (line: String)
    ensures
        is_outbound_line(line@, username@, room@, WireContentView::Join),
{
    let e = WireEnvelope::join(username, room);
    let line = encode_line(&e);
    assert(carries(
        line@,
        stamped_envelope(e@.id, e@.ts, username@, room@, WireContentView::Join),
    ));
    line
}

/// The line that tells the peer that `username` leaves `room`.
pub fn leave_line(username: &str, room: &str) -> (line: String)
    ensures
        is_outbound_line(line@, username@, room@, WireContentView::Leave),
{
    let e = WireEnvelope::leave(username, room);
    let line = encode_line(&e);
    assert(carries(
        line@,
        stamped_envelope(e@.id, e@.ts, username@, room@, WireContentView::Leave),
    ));
    line
}

/// The line that carries the chat text `body` from `username` to `room`.
pub fn chat_line(username: &str, room: &str, body: &str) -> (line: String)
    ensures
        is_outbound_line(line@, username@, room@, WireContentView::Chat { body: body@ }),
{
    let e = WireEnvelope::chat(username, room, body);
    let line = encode_line(&e);
    assert(carries(
        line@,
        stamped_envelope(e@.id, e@.ts, username@, room@, WireContentView::Chat { body: body@ }),
    ));
    line
}

/// What reading one line from a stream gave.
#[derive(Debug, Clone, PartialEq, Eq)]
pub enum ReadOutcome {
    /// A line, with or without its line break.
    Line(String),
    /// The end of the stream: the other side has closed it.
    End,
    /// A read error.
    Failed,
}

/// What a line reader does with what it read.
#[derive(Debug, Clone, PartialEq, Eq)]
pub enum LineStep {
    /// Pass the line on, its line break removed.
    Forward(String),
    /// A line with nothing in it: go on reading.
    Skip,
    /// The stream is over.
    Stop,
}

/// What a line reader does with `outcome`: it stops at the end of the stream
/// and at an error, skips a line that is empty without its line break, and
/// passes every other line on.
pub open spec fn line_step(outcome: ReadOutcome) -> Option<Seq<char>> {
    match outcome {
        ReadOutcome::Line(line) => Some(without_line_end(line@)),
        _ => None,
    }
}

/// Frames what was read: see [`line_step`].
pub fn frame(outcome: &ReadOutcome) -> (step: LineStep)
    ensures
        match line_step(*outcome) {
            None => step == LineStep::Stop,
            Some(text) => if text.len() == 0 {
                step == LineStep::Skip
            } else {
                step matches LineStep::Forward(line) && line@ == text
            },
        },
{
    match outcome {
        ReadOutcome::Line(line) => {
            let text = trim_line_end(line.as_str());
            if text.is_empty() {
                LineStep::Skip
            } else {
                LineStep::Forward(text.to_owned())
            }
        },
        _ => LineStep::Stop,
    }
}

/// Where the reading task stands.
#[derive(Debug, Clone, Copy, PartialEq, Eq)]
pub enum ReaderPhase {
    /// Nothing done yet.
    Opening,
    /// The notice that the connection stands is on its way to the queue.
    Greeting,
    /// Waiting for the next line.
    Reading,
    /// A decoded event is on its way to the queue.
    Delivering,
    /// The stream is over; the last notice is on its way to the queue.
    Closing,
    /// The task has ended.
    Done,
}

/// What happened since the last step of the reading task.
#[derive(Debug, PartialEq, Eq)]
pub enum ReaderEvent {
    /// The task begins.
    Start,
    /// The stream was read.
    Read(ReadOutcome),
    /// An event was offered to the queue.
    Offered(Offer<ChatEvent>),
}

/// What the reading task does next.
#[derive(Debug, Clone, PartialEq, Eq)]
pub enum ReaderAction {
    /// Read a line from the stream.
    Read,
    /// Offer the event to the queue.
    Offer(ChatEvent),
    /// The queue was full: wait until it has room, then offer the event again.
    Wait(ChatEvent),
    /// End the task.
    Stop,
}

/// The mathematical value of a [`ReaderAction`].
pub enum ReaderActionView {
    Read,
    Offer(ChatEventView),
    Wait(ChatEventView),
    Stop,
}

impl View for ReaderAction {
    type V = ReaderActionView;

    open spec fn view(&self) -> ReaderActionView {
        match *self {
            ReaderAction::Read => ReaderActionView::Read,
            ReaderAction::Offer(ev) => ReaderActionView::Offer(ev@),
            ReaderAction::Wait(ev) => ReaderActionView::Wait(ev@),
            ReaderAction::Stop => ReaderActionView::Stop,
        }
    }
}

/// The notice that opens the stream of events.
pub open spec fn connected_notice() -> ChatEventView {
    ChatEventView::System("connected"@)
}

/// The notice that ends the stream of events.
pub open spec fn closed_notice() -> ChatEventView {
    ChatEventView::System("connection closed"@)
}

/// The step of the reading task.
///
/// The task first offers the notice that the connection stands. Then it reads:
/// a line that is empty without its line break is skipped, every other line is
/// decoded and the event offered. A full queue makes the task wait and offer
/// the same event again, so no event is lost. The task leaves off reading at
/// the end of the stream, at a read error, and once the consumer is gone; it
/// then offers a last notice, which is let go if nobody takes it, and ends. An
/// event that does not belong to the phase ends the task.
pub open spec fn reader_next(phase: ReaderPhase, event: ReaderEvent) -> (
    ReaderPhase,
    ReaderActionView,
) {
    match (phase, event) {
        (ReaderPhase::Opening, ReaderEvent::Start) => (
            ReaderPhase::Greeting,
            ReaderActionView::Offer(connected_notice()),
        ),
        (ReaderPhase::Greeting, ReaderEvent::Offered(Offer::Full(ev))) => (
            ReaderPhase::Greeting,
            ReaderActionView::Wait(ev@),
        ),
        (ReaderPhase::Greeting, ReaderEvent::Offered(_)) => (
            ReaderPhase::Reading,
            ReaderActionView::Read,
        ),
        (ReaderPhase::Reading, ReaderEvent::Read(outcome)) => match line_step(outcome) {
            None => (ReaderPhase::Closing, ReaderActionView::Offer(closed_notice())),
            Some(text) => if text.len() == 0 {
                (ReaderPhase::Reading, ReaderActionView::Read)
            } else {
                (ReaderPhase::Delivering, ReaderActionView::Offer(decoded(text)))
            },
        },
        (ReaderPhase::Delivering, ReaderEvent::Offered(Offer::Accepted)) => (
            ReaderPhase::Reading,
            ReaderActionView::Read,
        ),
        (ReaderPhase::Delivering, ReaderEvent::Offered(Offer::Full(ev))) => (
            ReaderPhase::Delivering,
            ReaderActionView::Wait(ev@),
        ),
        (ReaderPhase::Delivering, ReaderEvent::Offered(Offer::Closed(_))) => (
            ReaderPhase::Closing,
            ReaderActionView::Offer(closed_notice()),
        ),
        (ReaderPhase::Closing, ReaderEvent::Offered(Offer::Full(ev))) => (
            ReaderPhase::Closing,
            ReaderActionView::Wait(ev@),
        ),
        _ => (ReaderPhase::Done, ReaderActionView::Stop),
    }
}

/// One step of the reading task: the next phase and what to do.
pub fn reader_step(phase: ReaderPhase, event: ReaderEvent) -> (next: (ReaderPhase, ReaderAction))
    ensures
        next.0 == reader_next(phase, event).0,
        next.1@ == reader_next(phase, event).1,
{
    match phase {
        ReaderPhase::Opening => match event {
            ReaderEvent::Start => (
                ReaderPhase::Greeting,
                ReaderAction::Offer(ChatEvent::System("connected".to_owned())),
            ),
            _ => (ReaderPhase::Done, ReaderAction::Stop),
        },
        ReaderPhase::Greeting => match event {
            ReaderEvent::Offered(Offer::Full(ev)) => (ReaderPhase::Greeting, ReaderAction::Wait(ev)),
            ReaderEvent::Offered(_) => (ReaderPhase::Reading, ReaderAction::Read),
            _ => (ReaderPhase::Done, ReaderAction::Stop),
        },
        ReaderPhase::Reading => match event {
            ReaderEvent::Read(outcome) => match frame(&outcome) {
                LineStep::Stop => (
                    ReaderPhase::Closing,
                    ReaderAction::Offer(ChatEvent::System("connection closed".to_owned())),
                ),
                LineStep::Skip => (ReaderPhase::Reading, ReaderAction::Read),
                LineStep::Forward(line) => (
                    ReaderPhase::Delivering,
                    ReaderAction::Offer(decode(line.as_str())),
                ),
            },
            _ => (ReaderPhase::Done, ReaderAction::Stop),
        },
        ReaderPhase::Delivering => match event {
            ReaderEvent::Offered(Offer::Accepted) => (ReaderPhase::Reading, ReaderAction::Read),
            ReaderEvent::Offered(Offer::Full(ev)) => (
                ReaderPhase::Delivering,
                ReaderAction::Wait(ev),
            ),
            ReaderEvent::Offered(Offer::Closed(_)) => (
                ReaderPhase::Closing,
                ReaderAction::Offer(ChatEvent::System("connection closed".to_owned())),
            ),
            _ => (ReaderPhase::Done, ReaderAction::Stop),
        },
        ReaderPhase::Closing => match event {
            ReaderEvent::Offered(Offer::Full(ev)) => (ReaderPhase::Closing, ReaderAction::Wait(ev)),
            _ => (ReaderPhase::Done, ReaderAction::Stop),
        },
        ReaderPhase::Done => (ReaderPhase::Done, ReaderAction::Stop),
    }
}

/// What is sent is what is decoded. Handed a line that carries an envelope, the
/// task that reads offers the event that the envelope's JSON object decodes to.
pub proof fn lemma_reader_decodes_what_was_sent(line: String, e: WireEnvelopeView)
    requires
        carries(line@, e),
    ensures
        reader_next(ReaderPhase::Reading, ReaderEvent::Read(ReadOutcome::Line(line))) == (
            ReaderPhase::Delivering,
            ReaderActionView::Offer(decoded(envelope_text(e))),
        ),
{
    reveal_strlit("\n");
    reveal_strlit("{\"v\":");
    lemma_framed(envelope_text(e));
    assert(envelope_text(e) + "\n"@ =~= envelope_text(e).push('\n'));
    assert(envelope_text(e).len() > 0);
}

/// No line ends the reading. Whatever a line holds, the task that reads it
/// either skips it or offers the event it decodes to, and goes back to reading
/// once the queue has taken the event.
pub proof fn lemma_reader_reads_on(line: String)
    ensures
        ({
            let (next, action) = reader_next(
                ReaderPhase::Reading,
                ReaderEvent::Read(ReadOutcome::Line(line)),
            );
            let text = without_line_end(line@);
            if text.len() == 0 {
                next == ReaderPhase::Reading && action == ReaderActionView::Read
            } else {
                next == ReaderPhase::Delivering && action == ReaderActionView::Offer(decoded(text))
            }
        }),
        reader_next(ReaderPhase::Delivering, ReaderEvent::Offered(Offer::Accepted)) == (
            ReaderPhase::Reading,
            ReaderActionView::Read,
        ),
{
}

} // verus!
