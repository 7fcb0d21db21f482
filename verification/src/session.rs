//! The per-connection state machine.
//!
//! A session owns one WebSocket. The caller runs the socket: it reads a
//! message or notices an event, asks `session_step` what to do, enqueues
//! the frames it is given in their order, and goes on from the state it is
//! given. Reading stops once the state is no longer `Open`.

use vstd::prelude::*;

use crate::config::texts;
use crate::handlers::DispatchOutcome;
use crate::handlers::carried_out;
use crate::handlers::handle_ocpp_messages_at;
use crate::handlers::Message;
use crate::handlers::messages;
use crate::handlers::Outcome;
use crate::handlers::text_plan;
use crate::handlers::WsMessage;
use crate::time::Timestamp;
use crate::time::utc_now;

verus! {

/// The number of frames that the outbound queue of a session holds before
/// a producer has to wait.
pub const OUTBOUND_QUEUE_CAPACITY: usize = 64;

/// The lifecycle of a session.
#[derive(Debug, Clone, Copy, PartialEq, Eq, Structural)]
pub enum SessionState {
    /// Frames are read and answered.
    Open,
    /// Reading has stopped; the writer drains what is enqueued.
    Closing,
    /// The socket has been released.
    Closed,
}

/// What can happen to a session.
#[derive(Debug, PartialEq)]
pub enum SessionEvent {
    /// A message has arrived.
    Inbound(WsMessage),
    /// Reading the socket failed.
    ReadError,
    /// The peer is gone: the stream has ended.
    Disconnected,
    /// The writer is done: the queue is drained or a write failed.
    WriterFinished,
}

/// The mathematical content of a `SessionEvent`.
pub enum Event {
    Inbound(Message),
    ReadError,
    Disconnected,
    WriterFinished,
}

impl View for SessionEvent {
    type V = Event;

    open spec fn view(&self) -> Event {
        match self {
            SessionEvent::Inbound(m) => Event::Inbound(m@),
            SessionEvent::ReadError => Event::ReadError,
            SessionEvent::Disconnected => Event::Disconnected,
            SessionEvent::WriterFinished => Event::WriterFinished,
        }
    }
}

/// What a session does on an event: the state it moves to and the frames
/// it enqueues, in order.
#[derive(Debug, PartialEq)]
pub struct SessionStep {
    pub state: SessionState,
    pub outgoing: Vec<WsMessage>,
}

/// The mathematical content of a `SessionStep`.
pub struct Step {
    pub state: SessionState,
    pub outgoing: Seq<Message>,
}

impl View for SessionStep {
    type V = Step;

    open spec fn view(&self) -> Step {
        Step { state: self.state, outgoing: messages(self.outgoing@) }
    }
}

/// The step of a session, `dispatched` being the outcome of the dispatcher
/// for an inbound text.
///
/// An open session answers a text as the dispatcher says and closes if the
/// dispatcher closes; answers a ping with a pong of the same payload;
/// ignores a pong and a binary message; echoes a close frame and stops
/// reading; and stops reading on a read error or when the peer is gone.
/// A session that has stopped reading enqueues nothing more and is closed
/// once its writer is done. An open session whose writer is done, which
/// is a failed write, is closed at once.
pub open spec fn step_of(state: SessionState, event: Event, dispatched: Outcome) -> Step {
    match state {
        SessionState::Open => match event {
            Event::Inbound(Message::Text(_)) => Step {
                state: if dispatched.closes {
                    SessionState::Closing
                } else {
                    SessionState::Open
                },
                outgoing: dispatched.outgoing,
            },
            Event::Inbound(Message::Ping(payload)) => Step {
                state: SessionState::Open,
                outgoing: seq![Message::Pong(payload)],
            },
            Event::Inbound(Message::Pong(_)) => Step {
                state: SessionState::Open,
                outgoing: Seq::empty(),
            },
            Event::Inbound(Message::Binary(_)) => Step {
                state: SessionState::Open,
                outgoing: Seq::empty(),
            },
            Event::Inbound(Message::Close(frame)) => Step {
                state: SessionState::Closing,
                outgoing: seq![Message::Close(frame)],
            },
            Event::ReadError => Step { state: SessionState::Closing, outgoing: Seq::empty() },
            Event::Disconnected => Step { state: SessionState::Closing, outgoing: Seq::empty() },
            Event::WriterFinished => Step { state: SessionState::Closed, outgoing: Seq::empty() },
        },
        SessionState::Closing => match event {
            Event::WriterFinished => Step { state: SessionState::Closed, outgoing: Seq::empty() },
            _ => Step { state: SessionState::Closing, outgoing: Seq::empty() },
        },
        SessionState::Closed => Step { state: SessionState::Closed, outgoing: Seq::empty() },
    }
}

/// The outcome of a dispatcher that was not asked.
pub open spec fn idle() -> Outcome {
    Outcome { closes: false, outgoing: Seq::empty() }
}

/// The step of a session on an event at a given time.
///
/// Only an open session that receives a text asks the dispatcher, and the
/// outcome of the dispatcher is the one that carries out what is owed to
/// the text. In every other step the dispatcher is not asked.
pub open spec fn step_at(
    state: SessionState,
    event: Event,
    allowed: Seq<Seq<char>>,
    now: Timestamp,
) -> Step {
    if state == SessionState::Open && event is Inbound && event->Inbound_0 is Text {
        step_of(state, event, carried_out(text_plan(event->Inbound_0->Text_0, allowed, now)))
    } else {
        step_of(state, event, idle())
    }
}

/// A peer's close frame is answered by that one frame, echoed, and ends
/// the reading: an open session that receives a close frame enqueues
/// exactly the echo and is no longer open.
pub proof fn lemma_close_is_echoed_once(frame: Option<(u16, Seq<char>)>, dispatched: Outcome)
    ensures
        step_of(SessionState::Open, Event::Inbound(Message::Close(frame)), dispatched)
            == (Step { state: SessionState::Closing, outgoing: seq![Message::Close(frame)] }),
{
}

/// Once a session has stopped reading it enqueues nothing more and never
/// opens again, whatever happens.
pub proof fn lemma_nothing_after_close(state: SessionState, event: Event, dispatched: Outcome)
    requires
        state != SessionState::Open,
    ensures
        step_of(state, event, dispatched).outgoing.len() == 0,
        step_of(state, event, dispatched).state != SessionState::Open,
{
}

/// A closed session stays closed.
pub proof fn lemma_closed_is_final(event: Event, dispatched: Outcome)
    ensures
        step_of(SessionState::Closed, event, dispatched).state == SessionState::Closed,
{
}

/// A session leaves `Open` only for `Closing`, except that a writer that
/// is done ends it at once; and it enqueues at most its answer to a text,
/// one pong or one close frame.
pub proof fn lemma_open_steps(event: Event, dispatched: Outcome)
    ensures
        ({
            let step = step_of(SessionState::Open, event, dispatched);
            &&& step.state == SessionState::Closed <==> event is WriterFinished
            &&& !(event matches Event::Inbound(Message::Text(_))) ==> step.outgoing.len() <= 1
        }),
{
}

/// The course of a session over a run of events, each with the outcome of
/// the dispatcher for it: the state at the end, and every frame enqueued,
/// in the order of the events and, for one event, in the order of its
/// step.
pub open spec fn run(state: SessionState, inputs: Seq<(Event, Outcome)>) -> Step
    decreases inputs.len(),
{
    if inputs.len() == 0 {
        Step { state, outgoing: Seq::empty() }
    } else {
        let first = step_of(state, inputs[0].0, inputs[0].1);
        let rest = run(first.state, inputs.drop_first());
        Step { state: rest.state, outgoing: first.outgoing + rest.outgoing }
    }
}

/// A session that has stopped reading enqueues nothing over any run of
/// events, and is not open at its end.
pub proof fn lemma_run_after_close(state: SessionState, inputs: Seq<(Event, Outcome)>)
    requires
        state != SessionState::Open,
    ensures
        run(state, inputs).outgoing.len() == 0,
        run(state, inputs).state != SessionState::Open,
    decreases inputs.len(),
{
    if inputs.len() > 0 {
        let first = step_of(state, inputs[0].0, inputs[0].1);
        lemma_run_after_close(first.state, inputs.drop_first());
    }
}

/// After a close frame from the peer the session enqueues that frame,
/// echoed, and nothing else, whatever arrives later; and it is over.
pub proof fn lemma_close_ends_the_session(
    frame: Option<(u16, Seq<char>)>,
    dispatched: Outcome,
    later: Seq<(Event, Outcome)>,
)
    ensures
        run(
            SessionState::Open,
            seq![(Event::Inbound(Message::Close(frame)), dispatched)] + later,
        ).outgoing == seq![Message::Close(frame)],
        run(
            SessionState::Open,
            seq![(Event::Inbound(Message::Close(frame)), dispatched)] + later,
        ).state != SessionState::Open,
{
    let inputs = seq![(Event::Inbound(Message::Close(frame)), dispatched)] + later;
    assert(inputs.drop_first() =~= later);
    lemma_run_after_close(SessionState::Closing, later);
    assert(seq![Message::Close(frame)] + run(SessionState::Closing, later).outgoing =~= seq![
        Message::Close(frame),
    ]);
}

/// What is enqueued for an event stands before everything that is
/// enqueued for the events after it: a run is its first step followed by
/// the run of the rest.
pub proof fn lemma_run_keeps_the_order(state: SessionState, inputs: Seq<(Event, Outcome)>)
    requires
        inputs.len() > 0,
    ensures
        ({
            let first = step_of(state, inputs[0].0, inputs[0].1);
            let all = run(state, inputs).outgoing;
            &&& all.len() >= first.outgoing.len()
            &&& all.subrange(0, first.outgoing.len() as int) == first.outgoing
            &&& all.subrange(first.outgoing.len() as int, all.len() as int) == run(
                first.state,
                inputs.drop_first(),
            ).outgoing
        }),
{
    let first = step_of(state, inputs[0].0, inputs[0].1);
    let rest = run(first.state, inputs.drop_first());
    let all = run(state, inputs).outgoing;
    assert(all == first.outgoing + rest.outgoing);
    assert(all.subrange(0, first.outgoing.len() as int) =~= first.outgoing);
    assert(all.subrange(first.outgoing.len() as int, all.len() as int) =~= rest.outgoing);
}

/// One step of a session at a given time.
///
/// The step is exactly `step_at`: `step_of`, with the outcome that carries
/// out what is owed to a text (see `text_plan`).
pub fn session_step_at(
    state: SessionState,
    event: SessionEvent,
    allowed: &Vec<String>,
    now: Timestamp,
) -> (r: SessionStep)
    ensures
        r@ == step_at(state, event@, texts(allowed@), now),
{
    let ghost before = event@;
    match state {
        SessionState::Open => match event {
            SessionEvent::Inbound(WsMessage::Text(text)) => {
                let outcome = handle_ocpp_messages_at(text.as_str(), allowed, now);
                let ghost dispatched = outcome@;
                let step = match outcome {
                    DispatchOutcome::Continue(outgoing) => SessionStep {
                        state: SessionState::Open,
                        outgoing,
                    },
                    DispatchOutcome::Close(outgoing) => SessionStep {
                        state: SessionState::Closing,
                        outgoing,
                    },
                };
                proof {
                    assert(before == Event::Inbound(Message::Text(text@)));
                    assert(dispatched == carried_out(
                        text_plan(before->Inbound_0->Text_0, texts(allowed@), now),
                    ));
                    assert(step_of(state, before, dispatched) == step@);
                }
                step
            },
            SessionEvent::Inbound(WsMessage::Ping(payload)) => {
                let mut outgoing: Vec<WsMessage> = Vec::new();
                outgoing.push(WsMessage::Pong(payload));
                let step = SessionStep { state: SessionState::Open, outgoing };
                proof {
                    assert(step@.outgoing =~= seq![Message::Pong(payload@)]);
                    assert(step_of(state, before, idle()) == step@);
                }
                step
            },
            SessionEvent::Inbound(WsMessage::Close(frame)) => {
                let mut outgoing: Vec<WsMessage> = Vec::new();
                outgoing.push(WsMessage::Close(frame));
                let step = SessionStep { state: SessionState::Closing, outgoing };
                proof {
                    assert(step@.outgoing =~= seq![before->Inbound_0]);
                    assert(step_of(state, before, idle()) == step@);
                }
                step
            },
            SessionEvent::Inbound(_) => {
                let step = SessionStep { state: SessionState::Open, outgoing: Vec::new() };
                proof {
                    assert(step@.outgoing =~= Seq::<Message>::empty());
                    assert(step_of(state, before, idle()) == step@);
                }
                step
            },
            SessionEvent::WriterFinished => {
                let step = SessionStep { state: SessionState::Closed, outgoing: Vec::new() };
                proof {
                    assert(step@.outgoing =~= Seq::<Message>::empty());
                    assert(step_of(state, before, idle()) == step@);
                }
                step
            },
            _ => {
                let step = SessionStep { state: SessionState::Closing, outgoing: Vec::new() };
                proof {
                    assert(step@.outgoing =~= Seq::<Message>::empty());
                    assert(step_of(state, before, idle()) == step@);
                }
                step
            },
        },
        _ => {
            let next = match (state, &event) {
                (SessionState::Closing, SessionEvent::WriterFinished) => SessionState::Closed,
                (SessionState::Closing, _) => SessionState::Closing,
                _ => SessionState::Closed,
            };
            let step = SessionStep { state: next, outgoing: Vec::new() };
            proof {
                assert(step@.outgoing =~= Seq::<Message>::empty());
                assert(step_of(state, before, idle()) == step@);
            }
            step
        },
    }
}

/// One step of a session, the time being that of the step.
pub fn session_step(state: SessionState, event: SessionEvent, allowed: &Vec<String>) -> (r:
    SessionStep)
    ensures
        exists|now: Timestamp| r@ == #[trigger] step_at(state, event@, texts(allowed@), now),
{
    let now = utc_now();
    session_step_at(state, event, allowed, now)
}

/// One session: a charger's connection, from the accepted upgrade to the
/// release of its socket.
///
/// The peer address and the station identifier are kept for the record
/// only; nothing is decided by them.
#[derive(Debug)]
pub struct Session {
    peer: String,
    station_id: String,
    state: SessionState,
}

impl Session {
    /// The lifecycle state of the session.
    pub closed spec fn spec_state(&self) -> SessionState {
        self.state
    }

    /// The address of the peer.
    pub closed spec fn spec_peer(&self) -> Seq<char> {
        self.peer@
    }

    /// The station identifier of the URL path.
    pub closed spec fn spec_station_id(&self) -> Seq<char> {
        self.station_id@
    }

    /// An open session for a peer and a station.
    pub fn new(peer: String, station_id: String) -> (r: Session)
        ensures
            r.spec_state() == SessionState::Open,
            r.spec_peer() == peer@,
            r.spec_station_id() == station_id@,
    {
        Session { peer, station_id, state: SessionState::Open }
    }

    /// The lifecycle state of the session.
    #[verifier::when_used_as_spec(spec_state)]
    pub fn state(&self) -> (r: SessionState)
        ensures
            r == self.spec_state(),
    {
        self.state
    }

    /// The address of the peer.
    pub fn peer(&self) -> (r: &str)
        ensures
            r@ == self.spec_peer(),
    {
        self.peer.as_str()
    }

    /// The station identifier of the URL path.
    pub fn station_id(&self) -> (r: &str)
        ensures
            r@ == self.spec_station_id(),
    {
        self.station_id.as_str()
    }

    /// Whether frames are still read for the session.
    pub fn is_open(&self) -> (r: bool)
        ensures
            r == (self.spec_state() == SessionState::Open),
    {
        self.state == SessionState::Open
    }

    /// Take one event at a given time: the session moves to the state of
    /// the step and hands out the frames to enqueue, in order.
    pub fn on_event_at(&mut self, event: SessionEvent, allowed: &Vec<String>, now: Timestamp) -> (r:
        Vec<WsMessage>)
        ensures
            (Step { state: final(self).spec_state(), outgoing: messages(r@) }) == step_at(
                old(self).spec_state(),
                event@,
                texts(allowed@),
                now,
            ),
            final(self).spec_peer() == old(self).spec_peer(),
            final(self).spec_station_id() == old(self).spec_station_id(),
    {
        let step = session_step_at(self.state, event, allowed, now);
        self.state = step.state;
        step.outgoing
    }

    /// Take one event, the time being that of the step.
    pub fn on_event(&mut self, event: SessionEvent, allowed: &Vec<String>) -> (r: Vec<WsMessage>)
        ensures
            exists|now: Timestamp|
                (Step { state: final(self).spec_state(), outgoing: messages(r@) })
                    == #[trigger] step_at(old(self).spec_state(), event@, texts(allowed@), now),
            final(self).spec_peer() == old(self).spec_peer(),
            final(self).spec_station_id() == old(self).spec_station_id(),
    {
        let now = utc_now();
        self.on_event_at(event, allowed, now)
    }
}

} // verus!
