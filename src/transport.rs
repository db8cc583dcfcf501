//! Decisions of the transport: when to connect, read, deliver, give up, and
//! how sends are counted. The caller performs each action and reports what
//! happened as the next event.

use vstd::prelude::*;

use crate::incoming::IncomingMessage;
use crate::message::FramingError;

verus! {

/// Pause before reconnecting after the controller closed the connection.
pub const EOF_RECONNECT_DELAY_MS: u64 = 1000;

/// Pause between two failed attempts to connect.
pub const CONNECT_RETRY_DELAY_MS: u64 = 100;

/// Ticks between two reports of cancelled sends.
pub const SEND_REPORT_TICKS: u64 = 100;

/// How long a send may take before it is abandoned.
pub const SEND_TIMEOUT_MS: u64 = 1000;

/// `x + 1`, wrapping to zero past the largest `u64`.
pub open spec fn bump(x: u64) -> u64 {
    if x == u64::MAX {
        0
    } else {
        (x + 1) as u64
    }
}

fn bump_exec(x: u64) -> (r: u64)
    ensures
        r == bump(x),
{
    if x == u64::MAX {
        0
    } else {
        x + 1
    }
}

/// Counts of outgoing sends: begun, delivered, and abandoned (timed out or
/// failed after connecting). Each counter wraps past the largest `u64`.
#[derive(Clone, Copy, Debug, PartialEq, Eq, Structural)]
pub struct SendCounters {
    pub started: u64,
    pub finished: u64,
    pub cancelled: u64,
}

impl SendCounters {
    pub fn new() -> (r: SendCounters)
        ensures
            r == (SendCounters { started: 0, finished: 0, cancelled: 0 }),
    {
        SendCounters { started: 0, finished: 0, cancelled: 0 }
    }
}

/// Where a send stands.
#[derive(Clone, Copy, Debug, PartialEq, Eq, Structural)]
pub enum SendPhase {
    Connecting,
    Writing,
    Done,
}

/// What happened to a send since its last step.
#[derive(Clone, Copy, Debug, PartialEq, Eq, Structural)]
pub enum SendEvent {
    ConnectFailed,
    Connected,
    Written,
    WriteFailed,
    TimedOut,
}

/// What the caller does next for a send.
#[derive(Clone, Copy, Debug, PartialEq, Eq, Structural)]
pub enum SendAction {
    /// Try to connect after this many milliseconds.
    ConnectAfter(u64),
    /// Write the whole message and flush it.
    Write,
    /// The send is over: drop the connection and the message.
    Stop,
}

/// The phase and action that follow `event` in `phase`. Connecting is retried
/// until the send times out; a timeout, or a failed write, abandons the
/// message, which is never sent again.
pub open spec fn send_next(phase: SendPhase, event: SendEvent) -> (SendPhase, SendAction) {
    match (phase, event) {
        (SendPhase::Done, _) => (SendPhase::Done, SendAction::Stop),
        (_, SendEvent::TimedOut) => (SendPhase::Done, SendAction::Stop),
        (SendPhase::Connecting, SendEvent::ConnectFailed) => (
            SendPhase::Connecting,
            SendAction::ConnectAfter(CONNECT_RETRY_DELAY_MS),
        ),
        (SendPhase::Connecting, SendEvent::Connected) => (SendPhase::Writing, SendAction::Write),
        (SendPhase::Writing, SendEvent::Written) => (SendPhase::Done, SendAction::Stop),
        (SendPhase::Writing, SendEvent::WriteFailed) => (SendPhase::Done, SendAction::Stop),
        (SendPhase::Connecting, _) => (SendPhase::Connecting, SendAction::ConnectAfter(0)),
        (SendPhase::Writing, _) => (SendPhase::Writing, SendAction::Write),
    }
}

/// The counters after `event` in `phase`: a send that ends by writing counts
/// as finished, one that ends otherwise as cancelled.
pub open spec fn send_counted(c: SendCounters, phase: SendPhase, event: SendEvent) -> SendCounters {
    if phase != SendPhase::Done && send_next(phase, event).0 == SendPhase::Done {
        if event == SendEvent::Written {
            SendCounters { finished: bump(c.finished), ..c }
        } else {
            SendCounters { cancelled: bump(c.cancelled), ..c }
        }
    } else {
        c
    }
}

/// The phase and counters of a send from `phase` after `events`, in order.
pub open spec fn send_run(phase: SendPhase, c: SendCounters, events: Seq<SendEvent>) -> (
    SendPhase,
    SendCounters,
)
    decreases events.len(),
{
    if events.len() == 0 {
        (phase, c)
    } else {
        let (p, c2) = send_run(phase, c, events.drop_last());
        (send_next(p, events.last()).0, send_counted(c2, p, events.last()))
    }
}

/// Whatever happens to a send once it has started, it is counted exactly
/// once when it ends, as finished or as cancelled, and never again; until it
/// ends no counter moves. (Away from the wrap of either counter.)
pub proof fn lemma_send_counted_once(c: SendCounters, events: Seq<SendEvent>)
    requires
        c.finished < u64::MAX,
        c.cancelled < u64::MAX,
    ensures
        ({
            let (p, c2) = send_run(SendPhase::Connecting, c, events);
            &&& c2.started == c.started
            &&& p == SendPhase::Done ==> c2.finished + c2.cancelled == c.finished + c.cancelled + 1
            &&& p != SendPhase::Done ==> c2 == c
        }),
    decreases events.len(),
{
    if events.len() > 0 {
        lemma_send_counted_once(c, events.drop_last());
    }
}

/// Starts a send: counts it and asks for a connection at once.
pub fn begin_send(counters: &mut SendCounters) -> (r: (SendPhase, SendAction))
    ensures
        r == (SendPhase::Connecting, SendAction::ConnectAfter(0)),
        *final(counters) == (SendCounters { started: bump(old(counters).started), ..*old(counters) }),
{
    counters.started = bump_exec(counters.started);
    (SendPhase::Connecting, SendAction::ConnectAfter(0))
}

/// One step of a send.
pub fn send_step(phase: SendPhase, event: SendEvent, counters: &mut SendCounters) -> (r: (
    SendPhase,
    SendAction,
))
    ensures
        r == send_next(phase, event),
        *final(counters) == send_counted(*old(counters), phase, event),
{
    let next = match (phase, event) {
        (SendPhase::Done, _) => (SendPhase::Done, SendAction::Stop),
        (_, SendEvent::TimedOut) => (SendPhase::Done, SendAction::Stop),
        (SendPhase::Connecting, SendEvent::ConnectFailed) => (
            SendPhase::Connecting,
            SendAction::ConnectAfter(CONNECT_RETRY_DELAY_MS),
        ),
        (SendPhase::Connecting, SendEvent::Connected) => (SendPhase::Writing, SendAction::Write),
        (SendPhase::Writing, SendEvent::Written) => (SendPhase::Done, SendAction::Stop),
        (SendPhase::Writing, SendEvent::WriteFailed) => (SendPhase::Done, SendAction::Stop),
        (SendPhase::Connecting, _) => (SendPhase::Connecting, SendAction::ConnectAfter(0)),
        (SendPhase::Writing, _) => (SendPhase::Writing, SendAction::Write),
    };
    let ends = match phase {
        SendPhase::Done => false,
        _ => match next.0 {
            SendPhase::Done => true,
            _ => false,
        },
    };
    if ends {
        match event {
            SendEvent::Written => {
                counters.finished = bump_exec(counters.finished);
            },
            _ => {
                counters.cancelled = bump_exec(counters.cancelled);
            },
        }
    }
    next
}

/// Called once per tick: every `SEND_REPORT_TICKS` ticks, takes the count of
/// cancelled sends and resets it. Returns that count when it is not zero.
pub fn dbg_send_count(ticks: &mut u64, counters: &mut SendCounters) -> (r: Option<u64>)
    ensures
        *old(ticks) + 1 < SEND_REPORT_TICKS ==> {
            &&& *final(ticks) == *old(ticks) + 1
            &&& *final(counters) == *old(counters)
            &&& r is None
        },
        *old(ticks) + 1 >= SEND_REPORT_TICKS ==> {
            &&& *final(ticks) == 0
            &&& *final(counters) == (SendCounters { cancelled: 0, ..*old(counters) })
            &&& r == if old(counters).cancelled == 0 {
                None
            } else {
                Some(old(counters).cancelled)
            }
        },
{
    if *ticks < SEND_REPORT_TICKS - 1 {
        *ticks = *ticks + 1;
        return None;
    }
    *ticks = 0;
    let cancelled = counters.cancelled;
    counters.cancelled = 0;
    if cancelled != 0 {
        Some(cancelled)
    } else {
        None
    }
}

/// Where the receiving side stands.
#[derive(Clone, Copy, Debug, PartialEq, Eq, Structural)]
pub enum ReceiverPhase {
    Connecting,
    Connected,
}

/// What happened on the receiving side since its last step.
#[derive(Clone, Copy, Debug)]
pub enum ReceiverEvent {
    ConnectFailed,
    Connected,
    /// A whole message was read and decoded.
    Received(IncomingMessage),
    /// The bytes read hold no message.
    Malformed(FramingError),
    /// The controller closed the connection.
    Eof,
    ReadFailed,
}

/// What the caller does next on the receiving side.
#[derive(Clone, Copy, Debug)]
pub enum ReceiverAction {
    /// Drop any connection and connect after this many milliseconds.
    ConnectAfter(u64),
    /// Read the next message.
    Read,
    /// Hand the message to the simulation, then read the next one.
    Deliver(IncomingMessage),
}

/// The phase and action that follow `event` in `phase`. The receiver never
/// gives up: a closed connection is reopened after a pause, a failed read or
/// a malformed message drops the connection and reopens it at once.
pub open spec fn receiver_next(phase: ReceiverPhase, event: ReceiverEvent) -> (
    ReceiverPhase,
    ReceiverAction,
) {
    match (phase, event) {
        (ReceiverPhase::Connecting, ReceiverEvent::Connected) => (
            ReceiverPhase::Connected,
            ReceiverAction::Read,
        ),
        (ReceiverPhase::Connecting, ReceiverEvent::ConnectFailed) => (
            ReceiverPhase::Connecting,
            ReceiverAction::ConnectAfter(CONNECT_RETRY_DELAY_MS),
        ),
        (ReceiverPhase::Connecting, _) => (
            ReceiverPhase::Connecting,
            ReceiverAction::ConnectAfter(0),
        ),
        (ReceiverPhase::Connected, ReceiverEvent::Received(m)) => (
            ReceiverPhase::Connected,
            ReceiverAction::Deliver(m),
        ),
        (ReceiverPhase::Connected, ReceiverEvent::Eof) => (
            ReceiverPhase::Connecting,
            ReceiverAction::ConnectAfter(EOF_RECONNECT_DELAY_MS),
        ),
        (ReceiverPhase::Connected, ReceiverEvent::Connected) => (
            ReceiverPhase::Connected,
            ReceiverAction::Read,
        ),
        (ReceiverPhase::Connected, _) => (
            ReceiverPhase::Connecting,
            ReceiverAction::ConnectAfter(0),
        ),
    }
}

/// One step of the receiving side.
pub fn receiver_step(phase: ReceiverPhase, event: ReceiverEvent) -> (r: (
    ReceiverPhase,
    ReceiverAction,
))
    ensures
        r == receiver_next(phase, event),
{
    match (phase, event) {
        (ReceiverPhase::Connecting, ReceiverEvent::Connected) => (
            ReceiverPhase::Connected,
            ReceiverAction::Read,
        ),
        (ReceiverPhase::Connecting, ReceiverEvent::ConnectFailed) => (
            ReceiverPhase::Connecting,
            ReceiverAction::ConnectAfter(CONNECT_RETRY_DELAY_MS),
        ),
        (ReceiverPhase::Connecting, _) => (
            ReceiverPhase::Connecting,
            ReceiverAction::ConnectAfter(0),
        ),
        (ReceiverPhase::Connected, ReceiverEvent::Received(m)) => (
            ReceiverPhase::Connected,
            ReceiverAction::Deliver(m),
        ),
        (ReceiverPhase::Connected, ReceiverEvent::Eof) => (
            ReceiverPhase::Connecting,
            ReceiverAction::ConnectAfter(EOF_RECONNECT_DELAY_MS),
        ),
        (ReceiverPhase::Connected, ReceiverEvent::Connected) => (
            ReceiverPhase::Connected,
            ReceiverAction::Read,
        ),
        (ReceiverPhase::Connected, _) => (
            ReceiverPhase::Connecting,
            ReceiverAction::ConnectAfter(0),
        ),
    }
}

} // verus!
