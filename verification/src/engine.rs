//! The acquisition engine: one request, polls for the reply, a fallback
//! server after repeated silence, and a halt on a reply that cannot be used.
//!
//! The engine performs no I/O. Its caller sends, sleeps and receives, reports
//! each poll as a [`PollEvent`], and carries out the [`Action`] it gets back.

use vstd::prelude::*;
use crate::clock::{capture, ReferenceTime};
use crate::codec::{decode_reply, decoded_reply, TimeServerReply};

verus! {

/// Empty polls after a send that make the engine turn to the fallback server.
pub const RETRY_THRESHOLD: u32 = 10;

/// Milliseconds to sleep after an empty poll.
pub const RETRY_DELAY_MS: u32 = 500;

/// UDP port on which the time servers listen.
pub const SERVER_PORT: u16 = 123;

/// Local UDP port that the datagram channel is bound to.
pub const LOCAL_PORT: u16 = 50123;

/// The two time servers.
#[derive(Clone, Copy, Debug, PartialEq, Eq, Structural)]
pub enum Server {
    /// Asked first.
    Primary,
    /// Asked after `RETRY_THRESHOLD` empty polls in a row.
    Fallback,
}

/// An IPv4 address and a UDP port.
#[derive(Clone, Copy, Debug, PartialEq, Eq)]
pub struct Endpoint {
    /// The four octets of the address, first one first.
    pub octets: [u8; 4],
    /// The UDP port.
    pub port: u16,
}

impl Server {
    /// The four octets of the server's address.
    pub open spec fn octets(self) -> Seq<u8> {
        match self {
            Server::Primary => seq![129u8, 6u8, 15u8, 28u8],
            Server::Fallback => seq![129u8, 6u8, 15u8, 29u8],
        }
    }

    /// Where to send a request meant for this server.
    pub fn endpoint(self) -> (endpoint: Endpoint)
        ensures
            endpoint.octets@ == self.octets(),
            endpoint.port == SERVER_PORT,
    {
        let octets: [u8; 4] = match self {
            Server::Primary => [129, 6, 15, 28],
            Server::Fallback => [129, 6, 15, 29],
        };
        assert(octets@ =~= self.octets());
        Endpoint { octets, port: SERVER_PORT }
    }
}

/// Where the engine stands.
#[derive(Clone, Copy, Debug, PartialEq, Eq)]
pub enum EngineState {
    /// Nothing has been sent yet.
    Idle,
    /// A request is out; `retries` empty polls have followed the last send.
    AwaitingReply { retries: u32 },
    /// A usable reply arrived and the reference pair was captured.
    Acquired { reference: ReferenceTime },
    /// A reply arrived that cannot be used. The process must stop.
    Fatal,
}

/// What one poll of the datagram channel found.
#[derive(Clone, Copy, Debug, PartialEq, Eq)]
pub enum PollEvent {
    /// Nothing has arrived yet.
    NoData,
    /// A datagram arrived and was decoded.
    Reply(TimeServerReply),
    /// A datagram arrived that is too short to be a reply.
    Truncated,
}

/// What the caller has to do next.
#[derive(Clone, Copy, Debug, PartialEq, Eq)]
pub enum Action {
    /// Send the request to this server, then poll.
    Send(Server),
    /// Sleep this many milliseconds, then poll again.
    Wait { millis: u32 },
    /// Sleep this many milliseconds, send the request to this server, then
    /// poll.
    WaitThenSend { millis: u32, server: Server },
    /// Acquisition is done: go on to the render loop.
    Proceed,
    /// Stop the process.
    Halt,
}

impl EngineState {
    /// While a reply is awaited the retry counter stays below the threshold.
    pub open spec fn wf(self) -> bool {
        self matches EngineState::AwaitingReply { retries } ==> retries < RETRY_THRESHOLD
    }

    /// The captured reference pair, once there is one.
    pub open spec fn captured(self) -> Option<ReferenceTime> {
        match self {
            EngineState::Acquired { reference } => Some(reference),
            _ => None,
        }
    }

    /// The captured reference pair, once there is one.
    pub fn reference(&self) -> (reference: Option<ReferenceTime>)
        ensures
            reference == self.captured(),
    {
        match self {
            EngineState::Acquired { reference } => Some(*reference),
            _ => None,
        }
    }
}

/// The event that stands for what a poll received: nothing, or a datagram.
pub open spec fn event_of(received: Option<Seq<u8>>) -> PollEvent {
    match received {
        None => PollEvent::NoData,
        Some(bytes) => match decoded_reply(bytes) {
            Some(reply) => PollEvent::Reply(reply),
            None => PollEvent::Truncated,
        },
    }
}

/// The state and the action that follow `state` on `event`, where
/// `monotonic_now` is the counter reading taken at the poll.
///
/// * `Idle` starts the conversation: the request goes to the primary server.
/// * An empty poll is counted and answered with a wait; the one that brings
///   the count to `RETRY_THRESHOLD` also sends the request to the fallback
///   server and starts the count again.
/// * A reply with a validity field that is not zero, and with a timestamp
///   that the Unix epoch can express, is captured.
/// * Any other datagram is fatal.
/// * `Acquired` and `Fatal` are final.
pub open spec fn transition(state: EngineState, event: PollEvent, monotonic_now: u64) -> (
    EngineState,
    Action,
) {
    match state {
        EngineState::Idle => (EngineState::AwaitingReply { retries: 0 }, Action::Send(Server::Primary)),
        EngineState::AwaitingReply { retries } => match event {
            PollEvent::NoData => if retries + 1 >= RETRY_THRESHOLD {
                (
                    EngineState::AwaitingReply { retries: 0 },
                    Action::WaitThenSend { millis: RETRY_DELAY_MS, server: Server::Fallback },
                )
            } else {
                (
                    EngineState::AwaitingReply { retries: (retries + 1) as u32 },
                    Action::Wait { millis: RETRY_DELAY_MS },
                )
            },
            PollEvent::Reply(reply) => match reply.usable_seconds() {
                Some(seconds) => (
                    EngineState::Acquired {
                        reference: ReferenceTime {
                            wall_clock_seconds: seconds,
                            monotonic_at_capture: monotonic_now,
                        },
                    },
                    Action::Proceed,
                ),
                None => (EngineState::Fatal, Action::Halt),
            },
            PollEvent::Truncated => (EngineState::Fatal, Action::Halt),
        },
        EngineState::Acquired { .. } => (state, Action::Proceed),
        EngineState::Fatal => (state, Action::Halt),
    }
}

/// The state after `polls` empty polls in a row.
pub open spec fn after_empty_polls(state: EngineState, polls: nat) -> EngineState
    decreases polls,
{
    if polls == 0 {
        state
    } else {
        transition(after_empty_polls(state, (polls - 1) as nat), PollEvent::NoData, 0).0
    }
}

/// Starts the conversation: the request goes to the primary server and the
/// retry counter starts at zero.
pub fn start() -> (next: (EngineState, Action))
    ensures
        next == transition(EngineState::Idle, PollEvent::NoData, 0),
        next.0 == (EngineState::AwaitingReply { retries: 0 }),
        next.1 == Action::Send(Server::Primary),
{
    (EngineState::AwaitingReply { retries: 0 }, Action::Send(Server::Primary))
}

/// Turns what a poll received into the event for `step`.
pub fn poll_event(received: Option<&[u8]>) -> (event: PollEvent)
    ensures
        event == event_of(
            match received {
                Some(datagram) => Some(datagram@),
                None => None,
            },
        ),
{
    match received {
        None => PollEvent::NoData,
        Some(datagram) => match decode_reply(datagram) {
            Some(reply) => PollEvent::Reply(reply),
            None => PollEvent::Truncated,
        },
    }
}

/// Advances the engine by one poll.
pub fn step(state: EngineState, event: PollEvent, monotonic_now: u64) -> (next: (
    EngineState,
    Action,
))
    ensures
        next == transition(state, event, monotonic_now),
        next.0.wf(),
{
    match state {
        EngineState::Idle => start(),
        EngineState::AwaitingReply { retries } => match event {
            PollEvent::NoData => {
                if retries >= RETRY_THRESHOLD - 1 {
                    (
                        EngineState::AwaitingReply { retries: 0 },
                        Action::WaitThenSend { millis: RETRY_DELAY_MS, server: Server::Fallback },
                    )
                } else {
                    (
                        EngineState::AwaitingReply { retries: retries + 1 },
                        Action::Wait { millis: RETRY_DELAY_MS },
                    )
                }
            },
            PollEvent::Reply(reply) => {
                if !reply.is_valid() {
                    (EngineState::Fatal, Action::Halt)
                } else {
                    match reply.unix_seconds {
                        Some(seconds) => (
                            EngineState::Acquired { reference: capture(seconds, monotonic_now) },
                            Action::Proceed,
                        ),
                        None => (EngineState::Fatal, Action::Halt),
                    }
                }
            },
            PollEvent::Truncated => (EngineState::Fatal, Action::Halt),
        },
        EngineState::Acquired { .. } => (state, Action::Proceed),
        EngineState::Fatal => (state, Action::Halt),
    }
}

/// After any step the retry counter is below the threshold.
pub proof fn lemma_counter_below_threshold(state: EngineState, event: PollEvent, monotonic_now: u64)
    ensures
        transition(state, event, monotonic_now).0.wf(),
{
}

/// A reply whose validity field is zero never yields a reference pair: where
/// a reply is awaited the engine halts, and from no state does it reach
/// `Acquired`.
pub proof fn lemma_zero_validity_never_captured(
    state: EngineState,
    reply: TimeServerReply,
    monotonic_now: u64,
)
    requires
        reply.transmit_seconds == 0,
    ensures
        state is AwaitingReply ==> transition(state, PollEvent::Reply(reply), monotonic_now) == (
            EngineState::Fatal,
            Action::Halt,
        ),
        !(state is Acquired) ==> !(transition(
            state,
            PollEvent::Reply(reply),
            monotonic_now,
        ).0 is Acquired),
{
}

/// A reference pair appears only where a reply is awaited and a reply
/// arrives with a validity field that is not zero; it then holds the reply's
/// Unix seconds and the counter reading of that poll.
pub proof fn lemma_capture_only_from_valid_reply(
    state: EngineState,
    event: PollEvent,
    monotonic_now: u64,
)
    requires
        !(state is Acquired),
        transition(state, event, monotonic_now).0 is Acquired,
    ensures
        state is AwaitingReply,
        ({
            &&& event matches PollEvent::Reply(reply)
            &&& reply.transmit_seconds != 0
            &&& reply.unix_seconds matches Some(seconds)
            &&& transition(state, event, monotonic_now).0.captured() == Some(
                ReferenceTime { wall_clock_seconds: seconds, monotonic_at_capture: monotonic_now },
            )
        }),
{
}

/// Once captured, the reference pair is never written again, and a halted
/// engine stays halted.
pub proof fn lemma_final_states_stay(state: EngineState, event: PollEvent, monotonic_now: u64)
    requires
        state is Acquired || state is Fatal,
    ensures
        transition(state, event, monotonic_now).0 == state,
{
}

/// Empty polls are counted modulo the threshold: after `polls` of them a
/// counter that stood at `retries` stands at `(retries + polls) %
/// RETRY_THRESHOLD`, and the last of them asked for a send to the fallback
/// server exactly where it brought the count to a multiple of the threshold.
/// So the first ten empty polls after a send lead to one send to the
/// fallback server, asked for by the tenth.
pub proof fn lemma_fallback_at_threshold(retries: u32, polls: nat, monotonic_now: u64)
    requires
        retries < RETRY_THRESHOLD,
        polls >= 1,
    ensures
        after_empty_polls(EngineState::AwaitingReply { retries }, polls) == (
        EngineState::AwaitingReply {
            retries: ((retries + polls) % (RETRY_THRESHOLD as int)) as u32,
        }),
        transition(
            after_empty_polls(EngineState::AwaitingReply { retries }, (polls - 1) as nat),
            PollEvent::NoData,
            monotonic_now,
        ).1 == if (retries + polls) % (RETRY_THRESHOLD as int) == 0 {
            (Action::WaitThenSend { millis: RETRY_DELAY_MS, server: Server::Fallback })
        } else {
            (Action::Wait { millis: RETRY_DELAY_MS })
        },
    decreases polls,
{
    let first = EngineState::AwaitingReply { retries };
    if polls == 1 {
        assert(after_empty_polls(first, 0) == first);
        assert(after_empty_polls(first, 1) == transition(first, PollEvent::NoData, 0).0);
    } else {
        lemma_fallback_at_threshold(retries, (polls - 1) as nat, monotonic_now);
        assert(after_empty_polls(first, polls) == transition(
            after_empty_polls(first, (polls - 1) as nat),
            PollEvent::NoData,
            0,
        ).0);
    }
}

} // verus!
