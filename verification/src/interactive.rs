//! The operator's console: what a line of input means, how it moves the room
//! state, what it asks of the session, and how events are shown.
//!
//! The loop that reads the console and talks to the peer lives outside this
//! library. It hands each input line to [`RoomState::apply`], carries out the
//! effects of the returned [`Turn`] in order, and stops where the turn says so.
//! A `Leave` or `Join` that the session cannot write is the loop's error to
//! report; after a `Send` that it cannot write, the loop carries out
//! [`send_failed`] instead of going on.

use crate::protocol::{ChatEvent, ChatEventView};
use crate::stamp::{clock_face, id_text, is_zone_offset, uuid_text, Instant};
use crate::text::{has_prefix, str_eq, strip_prefix, trim, trimmed};
use vstd::prelude::*;
use vstd::string::*;

verus! {

/// Milliseconds that the loop sleeps between two rounds of polling.
pub const POLL_INTERVAL_MS: u64 = 50;

/// Places in the queue of input lines between the console and the loop.
pub const INPUT_QUEUE_CAPACITY: usize = 64;

/// The name of the room that a session is in before any join and after a leave.
pub open spec fn default_room() -> Seq<char> {
    "default"@
}

/// What a line of operator input asks for.
#[derive(Debug, Clone, PartialEq, Eq)]
pub enum Directive {
    /// An empty line: nothing.
    Ignore,
    /// `/quit`.
    Quit,
    /// `/join` with nothing but white space after it.
    JoinUsage,
    /// `/join <room>`, the room trimmed.
    Join(String),
    /// `/leave`.
    Leave,
    /// Anything else: chat text for the current room.
    Say(String),
}

/// The mathematical value of a [`Directive`].
pub enum DirectiveView {
    Ignore,
    Quit,
    JoinUsage,
    Join(Seq<char>),
    Leave,
    Say(Seq<char>),
}

impl View for Directive {
    type V = DirectiveView;

    open spec fn view(&self) -> DirectiveView {
        match *self {
            Directive::Ignore => DirectiveView::Ignore,
            Directive::Quit => DirectiveView::Quit,
            Directive::JoinUsage => DirectiveView::JoinUsage,
            Directive::Join(room) => DirectiveView::Join(room@),
            Directive::Leave => DirectiveView::Leave,
            Directive::Say(body) => DirectiveView::Say(body@),
        }
    }
}

/// One thing that the loop does for the operator.
#[derive(Debug, Clone, PartialEq, Eq)]
pub enum Effect {
    /// Print the line on the console.
    Print(String),
    /// Tell the peer that the operator leaves the room.
    Leave(String),
    /// Tell the peer that the operator joins the room.
    Join(String),
    /// Send a chat line to the room.
    Send { room: String, body: String },
}

/// The mathematical value of an [`Effect`].
pub enum EffectView {
    Print(Seq<char>),
    Leave(Seq<char>),
    Join(Seq<char>),
    Send { room: Seq<char>, body: Seq<char> },
}

impl View for Effect {
    type V = EffectView;

    open spec fn view(&self) -> EffectView {
        match *self {
            Effect::Print(line) => EffectView::Print(line@),
            Effect::Leave(room) => EffectView::Leave(room@),
            Effect::Join(room) => EffectView::Join(room@),
            Effect::Send { room, body } => EffectView::Send { room: room@, body: body@ },
        }
    }
}

impl EffectView {
    /// Whether the effect writes to the peer.
    pub open spec fn is_write(self) -> bool {
        !(self is Print)
    }
}

/// The values of a sequence of effects.
pub open spec fn effect_views(effects: Seq<Effect>) -> Seq<EffectView> {
    Seq::new(effects.len(), |i: int| effects[i]@)
}

/// The effects among `effects` that write to the peer, in their order.
pub open spec fn writes(effects: Seq<EffectView>) -> Seq<EffectView> {
    effects.filter(|e: EffectView| e.is_write())
}

/// What one line of input leads to: effects to carry out in order, and whether
/// the loop ends after them.
#[derive(Debug, Clone, PartialEq, Eq)]
pub struct Turn {
    pub effects: Vec<Effect>,
    pub done: bool,
}

/// The meaning of an input line. An empty line is ignored; `/quit` and `/leave`
/// must match exactly; `/join ` takes the rest of the line, trimmed, as the
/// room; every other line is chat text.
pub open spec fn directive(line: Seq<char>) -> DirectiveView {
    if line.len() == 0 {
        DirectiveView::Ignore
    } else if line == "/quit"@ {
        DirectiveView::Quit
    } else if has_prefix(line, "/join "@) {
        let room = trimmed(line.skip("/join "@.len() as int));
        if room.len() == 0 {
            DirectiveView::JoinUsage
        } else {
            DirectiveView::Join(room)
        }
    } else if line == "/leave"@ {
        DirectiveView::Leave
    } else {
        DirectiveView::Say(line)
    }
}

/// The room that the operator is in after `line`, having been in `room`.
pub open spec fn next_room(room: Seq<char>, line: Seq<char>) -> Seq<char> {
    match directive(line) {
        DirectiveView::Join(target) => target,
        DirectiveView::Leave => default_room(),
        _ => room,
    }
}

/// The effects of `line` for an operator in `room`, in the order in which they
/// are carried out. Changing rooms is leave, then join, and the default room is
/// never left on the wire.
pub open spec fn effects_of(room: Seq<char>, line: Seq<char>) -> Seq<EffectView> {
    match directive(line) {
        DirectiveView::Ignore => seq![],
        DirectiveView::Quit => seq![EffectView::Print("exiting interactive loop, goodbye..."@)],
        DirectiveView::JoinUsage => seq![EffectView::Print("[system]: usage: /join <room>"@)],
        DirectiveView::Join(target) => if target == room {
            seq![EffectView::Print("[system]: already in "@ + room)]
        } else if room == default_room() {
            seq![EffectView::Join(target), EffectView::Print("[system]: joined "@ + target)]
        } else {
            seq![
                EffectView::Leave(room),
                EffectView::Join(target),
                EffectView::Print("[system]: joined "@ + target),
            ]
        },
        DirectiveView::Leave => if room == default_room() {
            seq![EffectView::Print("[system]: already in default room"@)]
        } else {
            seq![
                EffectView::Leave(room),
                EffectView::Join(default_room()),
                EffectView::Print("[system]: left "@ + room + ", back to default"@),
            ]
        },
        DirectiveView::Say(body) => seq![EffectView::Send { room, body }],
    }
}

/// Whether the loop ends after `line`.
pub open spec fn ends_loop(line: Seq<char>) -> bool {
    directive(line) is Quit
}

/// The console line for a notice.
pub open spec fn notice_line(text: Seq<char>) -> Seq<char> {
    "[system]: "@ + text
}

/// The console line for a chat message, given the text of its time.
pub open spec fn message_line(
    time: Seq<char>,
    id: u128,
    room: Seq<char>,
    from: Seq<char>,
    body: Seq<char>,
) -> Seq<char> {
    time + " | "@ + uuid_text(id) + " ["@ + room + "] "@ + from + ": "@ + body
}

/// Reads an input line.
pub fn classify(line: &str) -> (d: Directive)
    ensures
        d@ == directive(line@),
{
    if line.is_empty() {
        return Directive::Ignore;
    }
    if str_eq(line, "/quit") {
        return Directive::Quit;
    }
    match strip_prefix(line, "/join ") {
        Some(rest) => {
            let room = trim(rest);
            if room.is_empty() {
                Directive::JoinUsage
            } else {
                Directive::Join(room.to_owned())
            }
        },
        None => {
            if str_eq(line, "/leave") {
                Directive::Leave
            } else {
                Directive::Say(line.to_owned())
            }
        },
    }
}

/// `head` followed by `tail`.
fn joined(head: &str, tail: &str) -> (r: String)
    ensures
        r@ == head@ + tail@,
{
    let mut r = head.to_owned();
    r.append(tail);
    r
}

/// The room that the operator is in. It is never the empty name.
#[derive(Debug, PartialEq, Eq)]
pub struct RoomState {
    current: String,
}

impl View for RoomState {
    type V = Seq<char>;

    closed spec fn view(&self) -> Seq<char> {
        self.current@
    }
}

impl RoomState {
    #[verifier::type_invariant]
    spec fn named(self) -> bool {
        self.current@.len() > 0
    }

    /// The state at the start of the loop: in the default room.
    pub fn new() -> (s: RoomState)
        ensures
            s@ == default_room(),
    {
        proof {
            reveal_strlit("default");
        }
        RoomState { current: "default".to_owned() }
    }

    /// The current room.
    pub fn current(&self) -> (room: &str)
        ensures
            room@ == self@,
            room@.len() > 0,
    {
        proof {
            use_type_invariant(self);
        }
        self.current.as_str()
    }

    /// Takes one line of operator input: moves to the room it asks for and
    /// says what the loop is to do.
    pub fn apply(&mut self, line: &str) -> (turn: Turn)
        ensures
            final(self)@ == next_room(old(self)@, line@),
            effect_views(turn.effects@) == effects_of(old(self)@, line@),
            turn.done == ends_loop(line@),
    {
        proof {
            use_type_invariant(&*self);
            reveal_strlit("default");
        }
        let mut effects: Vec<Effect> = Vec::new();
        let mut done = false;
        match classify(line) {
            Directive::Ignore => {},
            Directive::Quit => {
                effects.push(Effect::Print("exiting interactive loop, goodbye...".to_owned()));
                done = true;
            },
            Directive::JoinUsage => {
                effects.push(Effect::Print("[system]: usage: /join <room>".to_owned()));
            },
            Directive::Join(target) => {
                if str_eq(target.as_str(), self.current.as_str()) {
                    effects.push(
                        Effect::Print(joined("[system]: already in ", self.current.as_str())),
                    );
                } else {
                    if !str_eq(self.current.as_str(), "default") {
                        effects.push(Effect::Leave(self.current.clone()));
                    }
                    effects.push(Effect::Join(target.clone()));
                    effects.push(Effect::Print(joined("[system]: joined ", target.as_str())));
                    self.current = target;
                }
            },
            Directive::Leave => {
                if str_eq(self.current.as_str(), "default") {
                    effects.push(Effect::Print("[system]: already in default room".to_owned()));
                } else {
                    let mut notice = joined("[system]: left ", self.current.as_str());
                    notice.append(", back to default");
                    effects.push(Effect::Leave(self.current.clone()));
                    effects.push(Effect::Join("default".to_owned()));
                    effects.push(Effect::Print(notice));
                    self.current = "default".to_owned();
                }
            },
            Directive::Say(body) => {
                effects.push(Effect::Send { room: self.current.clone(), body });
            },
        }
        assert(effect_views(effects@) =~= effects_of(old(self)@, line@));
        Turn { effects, done }
    }
}

/// What the loop does after a `Send` that the session could not write: it tells
/// the operator and ends. No other failure ends the loop in this way.
pub fn send_failed() -> (turn: Turn)
    ensures
        effect_views(turn.effects@) == seq![EffectView::Print("disconnected, quitting loop"@)],
        turn.done,
{
    let mut effects: Vec<Effect> = Vec::new();
    effects.push(Effect::Print("disconnected, quitting loop".to_owned()));
    assert(effect_views(effects@) =~= seq![EffectView::Print("disconnected, quitting loop"@)]);
    Turn { effects, done: true }
}

/// The console line for a notice.
pub fn render_notice(text: &str) -> (line: String)
    ensures
        line@ == notice_line(text@),
{
    joined("[system]: ", text)
}

/// The console line for a chat message whose time reads `time`.
pub fn render_message(time: &str, id: u128, room: &str, from: &str, body: &str) -> (line: String)
    ensures
        line@ == message_line(time@, id, room@, from@, body@),
{
    let mut line = joined(time, " | ");
    line.append(id_text(id).as_str());
    line.append(" [");
    line.append(room);
    line.append("] ");
    line.append(from);
    line.append(": ");
    line.append(body);
    line
}

/// What a clock shows of `ts` where local time is `offset` seconds ahead of UTC.
pub open spec fn clock_text(ts: Instant, offset: i32) -> Seq<char> {
    clock_face(ts.secs as i64, ts.nanos as u32, offset)
}

/// Whether `line` is the console line of the message with its time as a clock
/// shows it at some offset from UTC of less than a day.
pub open spec fn is_message_line(
    line: Seq<char>,
    id: u128,
    ts: Instant,
    room: Seq<char>,
    from: Seq<char>,
    body: Seq<char>,
) -> bool {
    exists|offset: i32|
        is_zone_offset(offset) && line == message_line(
            #[trigger] clock_text(ts, offset),
            id,
            room,
            from,
            body,
        )
}

/// Whether `line` shows `event`: a notice as [`notice_line`] has it, a message as
/// [`message_line`] has it with the time on a clock in some time zone.
pub open spec fn shows(event: ChatEventView, line: Seq<char>) -> bool {
    match event {
        ChatEventView::System(text) => line == notice_line(text),
        ChatEventView::Message { id, ts, from, room, body } => is_message_line(
            line,
            id,
            ts,
            room,
            from,
            body,
        ),
    }
}

/// The console line for an event. A message shows its time as a clock on this
/// machine shows it; the machine's time zone decides the offset from UTC.
pub fn render(event: &ChatEvent) -> (line: String)
    ensures
        shows(event@, line@),
{
    match event {
        ChatEvent::System(text) => render_notice(text.as_str()),
        ChatEvent::Message { id, ts, from, room, body } => {
            let time = ts.to_local();
            let line = render_message(
                time.as_str(),
                *id,
                room.as_str(),
                from.as_str(),
                body.as_str(),
            );
            let ghost offset = choose|offset: i32|
                is_zone_offset(offset) && time@ == #[trigger] ts.clock_text(offset);
            assert(is_zone_offset(offset) && line@ == message_line(
                clock_text(ts@, offset),
                *id,
                room@,
                from@,
                body@,
            ));
            line
        },
    }
}

// ---------------------------------------------------------------- laws

/// Joining the room one is in changes nothing: the room stays, the operator is
/// told once that they are in it already, and nothing is written to the peer.
pub proof fn lemma_join_current_room(room: Seq<char>, line: Seq<char>)
    requires
        directive(line) == DirectiveView::Join(room),
    ensures
        next_room(room, line) == room,
        effects_of(room, line) == seq![EffectView::Print("[system]: already in "@ + room)],
        writes(effects_of(room, line)) == Seq::<EffectView>::empty(),
        !ends_loop(line),
{
    let only = seq![EffectView::Print("[system]: already in "@ + room)];
    reveal(Seq::filter);
    assert(only.drop_last() =~= Seq::<EffectView>::empty());
    assert(writes(only.drop_last()) =~= Seq::<EffectView>::empty());
    assert(writes(only) =~= Seq::<EffectView>::empty());
}

/// Leaving while in the default room changes nothing: the room stays the
/// default, the operator is told so, and neither a leave nor a join is written
/// to the peer.
pub proof fn lemma_leave_default_room(line: Seq<char>)
    requires
        directive(line) is Leave,
    ensures
        next_room(default_room(), line) == default_room(),
        effects_of(default_room(), line) == seq![
            EffectView::Print("[system]: already in default room"@),
        ],
        writes(effects_of(default_room(), line)) == Seq::<EffectView>::empty(),
        !ends_loop(line),
{
    let only = seq![EffectView::Print("[system]: already in default room"@)];
    reveal(Seq::filter);
    assert(only.drop_last() =~= Seq::<EffectView>::empty());
    assert(writes(only.drop_last()) =~= Seq::<EffectView>::empty());
    assert(writes(only) =~= Seq::<EffectView>::empty());
}

/// A join from the default room and the leave that follows it write, in this
/// order: the join of the room, the leave of the room, the join of the default
/// room. The operator is back in the default room.
pub proof fn lemma_join_then_leave(room: Seq<char>, join: Seq<char>, leave: Seq<char>)
    requires
        directive(join) == DirectiveView::Join(room),
        room != default_room(),
        directive(leave) is Leave,
    ensures
        writes(effects_of(default_room(), join)) + writes(
            effects_of(next_room(default_room(), join), leave),
        ) == seq![
            EffectView::Join(room),
            EffectView::Leave(room),
            EffectView::Join(default_room()),
        ],
        next_room(next_room(default_room(), join), leave) == default_room(),
{
    reveal(Seq::filter);
    let first = effects_of(default_room(), join);
    let second = effects_of(room, leave);
    let empty = Seq::<EffectView>::empty();
    assert(first.drop_last() =~= seq![EffectView::Join(room)]);
    assert(first.drop_last().drop_last() =~= empty);
    assert(writes(empty) =~= empty);
    assert(writes(first.drop_last()) =~= seq![EffectView::Join(room)]);
    assert(writes(first) =~= seq![EffectView::Join(room)]);
    assert(second.drop_last() =~= seq![
        EffectView::Leave(room),
        EffectView::Join(default_room()),
    ]);
    assert(second.drop_last().drop_last() =~= seq![EffectView::Leave(room)]);
    assert(second.drop_last().drop_last().drop_last() =~= empty);
    assert(writes(second.drop_last().drop_last()) =~= seq![EffectView::Leave(room)]);
    assert(writes(second.drop_last()) =~= seq![
        EffectView::Leave(room),
        EffectView::Join(default_room()),
    ]);
    assert(writes(second) =~= seq![EffectView::Leave(room), EffectView::Join(default_room())]);
    assert(writes(first) + writes(second) =~= seq![
        EffectView::Join(room),
        EffectView::Leave(room),
        EffectView::Join(default_room()),
    ]);
}

/// The operator is always in a room with a name, and chat text goes to that
/// room: from a named room every line leads to a named room, and what is sent
/// is sent to the room that the operator was in.
pub proof fn lemma_room_is_named(room: Seq<char>, line: Seq<char>)
    requires
        room.len() > 0,
    ensures
        next_room(room, line).len() > 0,
        forall|i: int|
            0 <= i < effects_of(room, line).len() ==> (#[trigger] effects_of(room, line)[i]
                matches EffectView::Send { room: target, body } ==> target == room && body
                == line),
{
    reveal_strlit("default");
}

} // verus!
