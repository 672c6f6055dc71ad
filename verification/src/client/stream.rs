//! The account stream: its endpoint, its errors and events, and the retry decisions
//! of streams that reconnect automatically.
use vstd::prelude::*;
use vstd::string::StringExecFns;

use super::connection::{answers, connect_failure_reason, ConnectFailure, ConnectionResult, SocketAction, SocketEvent};
use crate::responses::stream::StreamMessage;
use crate::text::{concat, concat3};

verus! {

/// Whether another reconnection attempt is allowed after `attempt` attempts (counted
/// from 0): always when retries are unlimited (`None`), else while `attempt` is below
/// the maximum.
pub open spec fn retry_allowed(max_retries: Option<u32>, attempt: u32) -> bool {
    match max_retries {
        None => true,
        Some(max) => attempt < max,
    }
}

/// Decides whether to retry for the given attempt number (0-indexed).
pub fn should_retry(max_retries: Option<u32>, attempt: u32) -> (res: bool)
    ensures
        res == retry_allowed(max_retries, attempt),
{
    match max_retries {
        None => true,
        Some(max) => attempt < max,
    }
}

/// The shape of a reconnection decision, without the reason it carries.
#[derive(Debug, Clone, Copy, PartialEq, Eq)]
pub enum StepKind {
    /// Stop for good.
    Stop,
    /// Report the disconnection and that retries are exhausted, then stop.
    GiveUp,
    /// Report the disconnection, wait the delay of attempt `delay_attempt`, report
    /// reconnection attempt number `attempt` and connect again.
    Retry { delay_attempt: u32, attempt: u32 },
}

/// What a reconnecting stream does after a connection ended.
#[derive(Debug)]
pub enum ReconnectStep {
    /// Stop for good: the user closed the stream or its receiver is gone.
    Stop,
    /// Report the disconnection for `reason`, report that the retries are exhausted,
    /// and stop.
    GiveUp { reason: String },
    /// Report the disconnection for `reason`, wait the delay computed for attempt
    /// `delay_attempt`, report reconnection attempt number `attempt` (counted from 1),
    /// and connect again.
    Retry { reason: String, delay_attempt: u32, attempt: u32 },
}

impl ReconnectStep {
    pub open spec fn kind(self) -> StepKind {
        match self {
            ReconnectStep::Stop => StepKind::Stop,
            ReconnectStep::GiveUp { .. } => StepKind::GiveUp,
            ReconnectStep::Retry { delay_attempt, attempt, .. } => StepKind::Retry { delay_attempt, attempt },
        }
    }
}

/// The attempt counter after `attempt`, stopping at `u32::MAX`.
pub open spec fn next_attempt(attempt: u32) -> u32 {
    if attempt < u32::MAX { (attempt + 1) as u32 } else { attempt }
}

/// The reconnection decision after a connection ended with `result`, and the attempt
/// counter it leaves: an established connection resets the counter before the retry
/// budget is consulted.
pub open spec fn reconnect_step(max_retries: Option<u32>, attempt: u32, result: ConnectionResult) -> (StepKind, u32) {
    match result {
        ConnectionResult::Error(_, established) => {
            let current = if established { 0u32 } else { attempt };
            if retry_allowed(max_retries, current) {
                (StepKind::Retry { delay_attempt: current, attempt: next_attempt(current) }, next_attempt(current))
            } else {
                (StepKind::GiveUp, current)
            }
        },
        _ => (StepKind::Stop, attempt),
    }
}

/// Retry bookkeeping of a reconnecting stream.
#[derive(Debug, Clone, Copy)]
pub struct Reconnector {
    /// Maximum number of reconnection attempts (`None` for no limit).
    pub max_retries: Option<u32>,
    /// Reconnection attempts made since the last established connection.
    pub attempt: u32,
}

impl Reconnector {
    /// Bookkeeping for a stream that has not reconnected yet.
    pub fn new(max_retries: Option<u32>) -> (res: Self)
        ensures
            res.max_retries == max_retries,
            res.attempt == 0,
    {
        Reconnector { max_retries, attempt: 0 }
    }

    /// Decides what follows the end of a connection: stop when the user closed the
    /// stream or dropped its receiver; otherwise reset the count after an established
    /// connection, then give up when no retry is left, or retry.
    pub fn on_connection_end(&mut self, result: ConnectionResult) -> (step: ReconnectStep)
        ensures
            (step.kind(), final(self).attempt) == reconnect_step(old(self).max_retries, old(self).attempt, result),
            final(self).max_retries == old(self).max_retries,
            result matches ConnectionResult::Error(reason, _) ==> match step {
                ReconnectStep::GiveUp { reason: r } => r == reason,
                ReconnectStep::Retry { reason: r, .. } => r == reason,
                ReconnectStep::Stop => false,
            },
    {
        match result {
            ConnectionResult::UserClosed => ReconnectStep::Stop,
            ConnectionResult::ReceiverDropped => ReconnectStep::Stop,
            ConnectionResult::Error(reason, established) => {
                if established {
                    self.attempt = 0;
                }
                if !should_retry(self.max_retries, self.attempt) {
                    return ReconnectStep::GiveUp { reason };
                }
                let delay_attempt = self.attempt;
                if self.attempt < u32::MAX {
                    self.attempt = self.attempt + 1;
                }
                ReconnectStep::Retry { reason, delay_attempt, attempt: self.attempt }
            },
        }
    }
}

/// The number of messages a stream buffers when no buffer size is given.
pub const DEFAULT_BUFFER_SIZE: usize = 100;

/// The size of the message buffer of a stream: the given size, or 100.
pub fn buffer_capacity(buffer_size: Option<usize>) -> (res: usize)
    ensures
        res == buffer_size.unwrap_or(DEFAULT_BUFFER_SIZE),
{
    match buffer_size {
        Some(size) => size,
        None => DEFAULT_BUFFER_SIZE,
    }
}

/// The connection timeout of streams that do not reconnect, in seconds.
pub const CONNECT_TIMEOUT_SECS: u64 = 30;

/// Events of a reconnecting account stream: messages and connection lifecycle.
#[derive(Debug, Clone, PartialEq, Eq)]
pub enum StreamEvent {
    /// A message was received from the stream.
    Message(StreamMessage),
    /// Connected (or reconnected) to the stream.
    Connected,
    /// Connection lost; reconnection attempt `attempt` (counted from 1) follows after
    /// `delay_ms` milliseconds.
    Reconnecting { attempt: u32, delay_ms: u64 },
    /// Disconnected from the stream, for `reason`.
    Disconnected { reason: String },
    /// The reconnection attempts are exhausted.
    MaxRetriesExceeded,
}

/// Errors of stream operations.
#[derive(Debug, Clone, PartialEq, Eq)]
pub enum StreamError {
    /// The WebSocket connection failed.
    ConnectionFailed(String),
    /// The WebSocket connection was closed.
    ConnectionClosed,
    /// A message could not be sent through the channel.
    ChannelSendError,
    /// The stream was already closed.
    StreamClosed,
    /// The connection timeout was exceeded.
    ConnectionTimeout,
}

/// The rendering of a stream error.
pub open spec fn stream_error_message(err: StreamError) -> Seq<char> {
    match err {
        StreamError::ConnectionFailed(msg) => "Connection failed: "@ + msg@,
        StreamError::ConnectionClosed => "Connection closed"@,
        StreamError::ChannelSendError => "Failed to send message through channel"@,
        StreamError::StreamClosed => "Stream was already closed"@,
        StreamError::ConnectionTimeout => "Connection timeout exceeded"@,
    }
}

impl StreamError {
    /// The human-readable rendering of the error.
    pub fn message(&self) -> (res: String)
        ensures
            res@ == stream_error_message(*self),
    {
        match self {
            StreamError::ConnectionFailed(msg) => concat("Connection failed: ", msg.as_str()),
            StreamError::ConnectionClosed => String::from_str("Connection closed"),
            StreamError::ChannelSendError => String::from_str("Failed to send message through channel"),
            StreamError::StreamClosed => String::from_str("Stream was already closed"),
            StreamError::ConnectionTimeout => String::from_str("Connection timeout exceeded"),
        }
    }
}

/// Account stream client: the WebSocket base URL and the API key that authenticates
/// the stream.
#[derive(Debug, Clone)]
pub struct AccountStream {
    pub ws_url: String,
    pub api_key: String,
}

impl AccountStream {
    /// An account stream client for `ws_url`, authenticated by `api_key`.
    pub fn new(ws_url: String, api_key: String) -> (res: Self)
        ensures
            res.ws_url == ws_url,
            res.api_key == api_key,
    {
        AccountStream { ws_url, api_key }
    }

    /// The WebSocket endpoint of the account stream, authenticated in its query.
    pub fn endpoint(&self) -> (res: String)
        ensures
            res@ == self.ws_url@ + "/accounts/ws/stream?api_key="@ + self.api_key@,
    {
        concat3(self.ws_url.as_str(), "/accounts/ws/stream?api_key=", self.api_key.as_str())
    }
}

/// The decisions a reconnecting stream takes over the successive ends of its
/// connections, starting with `attempt` attempts made, until it stops or gives up.
pub open spec fn run_steps(max_retries: Option<u32>, attempt: u32, results: Seq<ConnectionResult>) -> Seq<StepKind>
    decreases results.len(),
{
    if results.len() == 0 {
        Seq::empty()
    } else {
        let (kind, next) = reconnect_step(max_retries, attempt, results[0]);
        if kind is Retry {
            seq![kind] + run_steps(max_retries, next, results.drop_first())
        } else {
            seq![kind]
        }
    }
}

/// Every end in `results` is a connection attempt that never got established.
pub open spec fn all_unestablished(results: Seq<ConnectionResult>) -> bool {
    forall|i: int| 0 <= i < results.len() ==> (#[trigger] results[i] matches ConnectionResult::Error(_, false))
}

/// Retries allowed at some attempt number are allowed at every smaller one, and
/// retries refused at some attempt number are refused at every larger one.
pub proof fn lemma_retry_allowed_monotone(max_retries: Option<u32>, a: u32, b: u32)
    requires
        a <= b,
    ensures
        retry_allowed(max_retries, b) ==> retry_allowed(max_retries, a),
        !retry_allowed(max_retries, a) ==> !retry_allowed(max_retries, b),
{
}

/// A stream configured without reconnection (`Some(0)`) gives up on the first lost or
/// failed connection; one without limit (`None`) always retries.
pub proof fn lemma_no_reconnect_and_infinite(attempt: u32, result: ConnectionResult)
    requires
        result is Error,
    ensures
        reconnect_step(Some(0u32), attempt, result).0 == StepKind::GiveUp,
        reconnect_step(None, attempt, result).0 is Retry,
{
}

/// Closing the stream or dropping its receiver stops the stream whatever its state,
/// and the stream takes no further decision.
pub proof fn lemma_close_stops(max_retries: Option<u32>, attempt: u32, results: Seq<ConnectionResult>)
    requires
        results.len() > 0,
        results[0] is UserClosed || results[0] is ReceiverDropped,
    ensures
        run_steps(max_retries, attempt, results) == seq![StepKind::Stop],
{
}

/// Losing an established connection is decided like the first failure of a fresh
/// stream: the retry count starts over, whatever it was.
pub proof fn lemma_established_loss_resets(max_retries: Option<u32>, attempt: u32, reason: String, other: String)
    ensures
        reconnect_step(max_retries, attempt, ConnectionResult::Error(reason, true))
            == reconnect_step(max_retries, 0, ConnectionResult::Error(other, false)),
{
}

/// With at most `max` retries, a stream whose connection attempts keep failing
/// (from `attempt` attempts already made, up to `max`) retries exactly `max - attempt`
/// more times, with attempt numbers counted up by one and delays computed for the
/// attempts before them, and then gives up.
pub proof fn lemma_retry_budget(max: u32, attempt: u32, results: Seq<ConnectionResult>)
    requires
        attempt <= max,
        all_unestablished(results),
        results.len() > max - attempt,
    ensures
        run_steps(Some(max), attempt, results).len() == max - attempt + 1,
        forall|i: int| 0 <= i < max - attempt ==> #[trigger] run_steps(Some(max), attempt, results)[i]
            == (StepKind::Retry { delay_attempt: (attempt + i) as u32, attempt: (attempt + i + 1) as u32 }),
        run_steps(Some(max), attempt, results)[max - attempt] == StepKind::GiveUp,
    decreases max - attempt,
{
    let steps = run_steps(Some(max), attempt, results);
    assert(results[0] matches ConnectionResult::Error(_, false));
    if attempt == max {
        assert(steps == seq![StepKind::GiveUp]);
    } else {
        let rest = results.drop_first();
        assert forall|i: int| 0 <= i < rest.len() implies (#[trigger] rest[i] matches ConnectionResult::Error(_, false)) by {
            assert(rest[i] == results[i + 1]);
        }
        lemma_retry_budget(max, (attempt + 1) as u32, rest);
        let tail = run_steps(Some(max), (attempt + 1) as u32, rest);
        assert(steps == seq![StepKind::Retry { delay_attempt: attempt, attempt: (attempt + 1) as u32 }] + tail);
        assert forall|i: int| 0 <= i < max - attempt implies #[trigger] steps[i]
            == (StepKind::Retry { delay_attempt: (attempt + i) as u32, attempt: (attempt + i + 1) as u32 }) by {
            if i > 0 {
                assert(steps[i] == tail[i - 1]);
            }
        }
    }
}

/// A stream without a retry limit never gives up on failing connection attempts: it
/// retries after every one of them.
pub proof fn lemma_unlimited_retries(attempt: u32, results: Seq<ConnectionResult>)
    requires
        all_unestablished(results),
    ensures
        run_steps(None, attempt, results).len() == results.len(),
        forall|i: int| 0 <= i < results.len() ==> #[trigger] run_steps(None, attempt, results)[i] is Retry,
    decreases results.len(),
{
    if results.len() > 0 {
        assert(results[0] matches ConnectionResult::Error(_, false));
        let rest = results.drop_first();
        assert forall|i: int| 0 <= i < rest.len() implies (#[trigger] rest[i] matches ConnectionResult::Error(_, false)) by {
            assert(rest[i] == results[i + 1]);
        }
        lemma_unlimited_retries(next_attempt(attempt), rest);
        let steps = run_steps(None, attempt, results);
        let tail = run_steps(None, next_attempt(attempt), rest);
        assert forall|i: int| 0 <= i < results.len() implies #[trigger] steps[i] is Retry by {
            if i > 0 {
                assert(steps[i] == tail[i - 1]);
            }
        }
    }
}

/// A connection whose message loop ended it had been established: its loss restarts
/// the retry count, so the next reconnection waits the first delay and is attempt 1
/// (when any retry is allowed).
pub proof fn lemma_loop_end_restarts_retries(
    event: SocketEvent,
    action: SocketAction,
    max_retries: Option<u32>,
    attempt: u32,
)
    requires
        answers(event, action),
        action matches SocketAction::Finish { result: ConnectionResult::Error(_, _), .. },
    ensures
        ({
            let result = action->result;
            &&& result matches ConnectionResult::Error(_, true)
            &&& retry_allowed(max_retries, 0) ==> reconnect_step(max_retries, attempt, result).0
                == (StepKind::Retry { delay_attempt: 0, attempt: 1 })
        }),
{
}

/// A connection attempt that failed before being established keeps counting: the next
/// decision is taken on the current attempt number.
pub proof fn lemma_connect_failure_counts(
    failure: ConnectFailure,
    result: ConnectionResult,
    max_retries: Option<u32>,
    attempt: u32,
)
    requires
        result matches ConnectionResult::Error(reason, established)
            && !established && reason@ == connect_failure_reason(failure),
    ensures
        reconnect_step(max_retries, attempt, result).0 == (if retry_allowed(max_retries, attempt) {
            StepKind::Retry { delay_attempt: attempt, attempt: next_attempt(attempt) }
        } else {
            StepKind::GiveUp
        }),
{
}

/// The position of the last connection end among `results[0..=j]` whose connection
/// had been established, or -1 when there is none.
pub open spec fn last_established(results: Seq<ConnectionResult>, j: int) -> int
    decreases j + 1,
{
    if j < 0 {
        -1
    } else if results[j] matches ConnectionResult::Error(_, true) {
        j
    } else {
        last_established(results, j - 1)
    }
}

proof fn lemma_last_established_shift(results: Seq<ConnectionResult>, j: int)
    requires
        1 <= j < results.len(),
    ensures
        last_established(results, j) == if last_established(results.drop_first(), j - 1) >= 0 {
            last_established(results.drop_first(), j - 1) + 1
        } else if results[0] matches ConnectionResult::Error(_, true) {
            0
        } else {
            -1
        },
    decreases j,
{
    let rest = results.drop_first();
    assert(rest[j - 1] == results[j]);
    reveal_with_fuel(last_established, 2);
    if j > 1 {
        lemma_last_established_shift(results, j - 1);
    } else {
        assert(last_established(rest, -1) == -1);
        assert(last_established(results, -1) == -1);
    }
}

proof fn lemma_run_steps_len(max_retries: Option<u32>, attempt: u32, results: Seq<ConnectionResult>)
    ensures
        run_steps(max_retries, attempt, results).len() <= results.len(),
    decreases results.len(),
{
    if results.len() > 0 {
        let (kind, next) = reconnect_step(max_retries, attempt, results[0]);
        lemma_run_steps_len(max_retries, next, results.drop_first());
    }
}

proof fn lemma_attempt_numbering_from(max_retries: Option<u32>, attempt: u32, results: Seq<ConnectionResult>, j: int)
    requires
        0 <= j < run_steps(max_retries, attempt, results).len(),
        run_steps(max_retries, attempt, results)[j] is Retry,
        attempt + results.len() < u32::MAX,
    ensures
        run_steps(max_retries, attempt, results)[j]->Retry_attempt == if last_established(results, j) >= 0 {
            j - last_established(results, j) + 1
        } else {
            attempt + j + 1
        },
        run_steps(max_retries, attempt, results)[j]->Retry_delay_attempt
            == run_steps(max_retries, attempt, results)[j]->Retry_attempt - 1,
    decreases results.len(),
{
    let steps = run_steps(max_retries, attempt, results);
    lemma_run_steps_len(max_retries, attempt, results);
    let (kind, next) = reconnect_step(max_retries, attempt, results[0]);
    reveal_with_fuel(last_established, 2);
    assert(last_established(results, -1) == -1);
    if j > 0 {
        assert(kind is Retry);
        let rest = results.drop_first();
        lemma_attempt_numbering_from(max_retries, next, rest, j - 1);
        assert(steps[j] == run_steps(max_retries, next, rest)[j - 1]);
        lemma_last_established_shift(results, j);
    }
}

/// Reconnection attempts are numbered from 1 after each connection that had been
/// established (the one the stream announced as connected), or from the start: the
/// `j`-th decision of a stream, when it is a retry, is attempt number `j - e + 1`,
/// where `e` is the position of the last established connection at or before it
/// (0 when there is none), so the number counts the reconnections announced since the
/// stream was last connected, this one included; it waits the delay computed for the
/// attempt before.
pub proof fn lemma_attempt_numbering(max_retries: Option<u32>, results: Seq<ConnectionResult>, j: int)
    requires
        0 <= j < run_steps(max_retries, 0, results).len(),
        run_steps(max_retries, 0, results)[j] is Retry,
        results.len() < u32::MAX,
    ensures
        ({
            let since = if last_established(results, j) >= 0 { last_established(results, j) } else { 0 };
            run_steps(max_retries, 0, results)[j] == (StepKind::Retry {
                delay_attempt: (j - since) as u32,
                attempt: (j - since + 1) as u32,
            })
        }),
{
    lemma_attempt_numbering_from(max_retries, 0, results, j);
}

} // verus!
