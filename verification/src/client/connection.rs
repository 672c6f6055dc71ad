//! Decisions of a single WebSocket connection of the account and market streams:
//! what each incoming frame or local signal leads to, and why a connection ended.
use vstd::prelude::*;
use vstd::string::StringExecFns;

use crate::text::concat;

verus! {

/// What happened on an open stream connection, as its message loop sees it.
#[derive(Debug)]
pub enum SocketEvent {
    /// The user asked to close the stream.
    CloseRequested,
    /// A text frame arrived.
    Text(String),
    /// A ping frame arrived, with its payload.
    Ping(Vec<u8>),
    /// The server sent a close frame, with the reason it gave, if any.
    Closed(Option<String>),
    /// The WebSocket reported an error, given by its rendering.
    Failed(String),
    /// The frame stream ended without a close frame.
    Ended,
    /// A binary, pong or raw frame arrived.
    Other,
    /// Handing a message to the receiver failed: the receiver was dropped.
    DeliveryFailed,
    /// Answering a ping failed.
    PongFailed,
}

/// Why a connection ended.
#[derive(Debug)]
pub enum ConnectionResult {
    /// The user closed the stream.
    UserClosed,
    /// The connection failed or was lost, with the reason and whether it had been
    /// established.
    Error(String, bool),
    /// The receiver of the stream was dropped.
    ReceiverDropped,
}

/// What the message loop does next.
#[derive(Debug)]
pub enum SocketAction {
    /// Parse the text into a message and hand it to the receiver.
    Deliver(String),
    /// Answer with a pong frame carrying the same payload.
    Pong(Vec<u8>),
    /// Nothing to do: wait for the next event.
    Continue,
    /// End the connection, after sending a close frame when `send_close` holds.
    Finish { send_close: bool, result: ConnectionResult },
}

/// Why an attempt to open a connection failed.
#[derive(Debug)]
pub enum ConnectFailure {
    /// The WebSocket handshake failed, with the rendering of the error.
    Refused(String),
    /// The handshake did not complete within the connection timeout.
    TimedOut,
}

/// `action` ends the connection with an error of reason `reason` on a connection that
/// had been established, without a close frame.
pub open spec fn ends_established(action: SocketAction, reason: Seq<char>) -> bool {
    action matches SocketAction::Finish { send_close, result: ConnectionResult::Error(r, true) }
        && !send_close && r@ == reason
}

/// The action that answers each event.
pub open spec fn answers(event: SocketEvent, action: SocketAction) -> bool {
    match event {
        SocketEvent::CloseRequested => action == (SocketAction::Finish {
            send_close: true,
            result: ConnectionResult::UserClosed,
        }),
        SocketEvent::Text(text) => action == SocketAction::Deliver(text),
        SocketEvent::Ping(data) => action == SocketAction::Pong(data),
        SocketEvent::Closed(Some(reason)) => ends_established(action, reason@),
        SocketEvent::Closed(None) => ends_established(action, "Server closed connection"@),
        SocketEvent::Failed(err) => ends_established(action, "WebSocket error: "@ + err@),
        SocketEvent::Ended => ends_established(action, "Stream ended unexpectedly"@),
        SocketEvent::Other => action == SocketAction::Continue,
        SocketEvent::DeliveryFailed => action == (SocketAction::Finish {
            send_close: true,
            result: ConnectionResult::ReceiverDropped,
        }),
        SocketEvent::PongFailed => ends_established(action, "Failed to send pong"@),
    }
}

/// Decides what the message loop of an established connection does on `event`:
/// deliver text, answer pings, ignore other frames, and end the connection on a close
/// request, a close frame, an error, the end of the stream, a dropped receiver or a
/// failed pong.
pub fn on_socket_event(event: SocketEvent) -> (action: SocketAction)
    ensures
        answers(event, action),
{
    match event {
        SocketEvent::CloseRequested => SocketAction::Finish {
            send_close: true,
            result: ConnectionResult::UserClosed,
        },
        SocketEvent::Text(text) => SocketAction::Deliver(text),
        SocketEvent::Ping(data) => SocketAction::Pong(data),
        SocketEvent::Closed(Some(reason)) => SocketAction::Finish {
            send_close: false,
            result: ConnectionResult::Error(reason, true),
        },
        SocketEvent::Closed(None) => SocketAction::Finish {
            send_close: false,
            result: ConnectionResult::Error(String::from_str("Server closed connection"), true),
        },
        SocketEvent::Failed(err) => SocketAction::Finish {
            send_close: false,
            result: ConnectionResult::Error(concat("WebSocket error: ", err.as_str()), true),
        },
        SocketEvent::Ended => SocketAction::Finish {
            send_close: false,
            result: ConnectionResult::Error(String::from_str("Stream ended unexpectedly"), true),
        },
        SocketEvent::Other => SocketAction::Continue,
        SocketEvent::DeliveryFailed => SocketAction::Finish {
            send_close: true,
            result: ConnectionResult::ReceiverDropped,
        },
        SocketEvent::PongFailed => SocketAction::Finish {
            send_close: false,
            result: ConnectionResult::Error(String::from_str("Failed to send pong"), true),
        },
    }
}

/// The reason given for a failed connection attempt.
pub open spec fn connect_failure_reason(failure: ConnectFailure) -> Seq<char> {
    match failure {
        ConnectFailure::Refused(err) => "Connection failed: "@ + err@,
        ConnectFailure::TimedOut => "Connection timeout"@,
    }
}

/// The end of a connection that was never established.
pub fn on_connect_failure(failure: ConnectFailure) -> (res: ConnectionResult)
    ensures
        res matches ConnectionResult::Error(reason, established)
            && !established && reason@ == connect_failure_reason(failure),
{
    match failure {
        ConnectFailure::Refused(err) => ConnectionResult::Error(
            concat("Connection failed: ", err.as_str()),
            false,
        ),
        ConnectFailure::TimedOut => ConnectionResult::Error(String::from_str("Connection timeout"), false),
    }
}

/// `event` ends the message loop: anything but a text, ping or other frame.
pub open spec fn ends_loop(event: SocketEvent) -> bool {
    !(event is Text || event is Ping || event is Other)
}

/// The texts of the frames that arrive before the event that ends the loop, in order.
pub open spec fn texts_until_end(events: Seq<SocketEvent>) -> Seq<String>
    decreases events.len(),
{
    if events.len() == 0 {
        Seq::empty()
    } else {
        match events[0] {
            SocketEvent::Text(text) => seq![text] + texts_until_end(events.drop_first()),
            SocketEvent::Ping(_) => texts_until_end(events.drop_first()),
            SocketEvent::Other => texts_until_end(events.drop_first()),
            _ => Seq::empty(),
        }
    }
}

/// The texts that a sequence of loop actions hands to the receiver, in order, until
/// the action that finishes the connection.
pub open spec fn deliveries(actions: Seq<SocketAction>) -> Seq<String>
    decreases actions.len(),
{
    if actions.len() == 0 {
        Seq::empty()
    } else {
        match actions[0] {
            SocketAction::Deliver(text) => seq![text] + deliveries(actions.drop_first()),
            SocketAction::Pong(_) => deliveries(actions.drop_first()),
            SocketAction::Continue => deliveries(actions.drop_first()),
            SocketAction::Finish { .. } => Seq::empty(),
        }
    }
}

/// Over a whole connection, the message loop hands the receiver exactly the text
/// frames that arrive before the connection ends, in order, none lost or duplicated;
/// it answers every ping with a pong of the same payload, ignores binary and pong
/// frames, and finishes exactly on a close request, a close frame, an error, the end
/// of the stream, a dropped receiver or a failed pong.
pub proof fn lemma_frames_delivered_in_order(events: Seq<SocketEvent>, actions: Seq<SocketAction>)
    requires
        events.len() == actions.len(),
        forall|i: int| 0 <= i < events.len() ==> answers(#[trigger] events[i], actions[i]),
    ensures
        deliveries(actions) == texts_until_end(events),
        forall|i: int| 0 <= i < events.len() ==> ((#[trigger] actions[i] is Finish) <==> ends_loop(events[i])),
        forall|i: int| 0 <= i < events.len() ==> (#[trigger] events[i] matches SocketEvent::Ping(data)
            ==> actions[i] == SocketAction::Pong(data)),
        forall|i: int| 0 <= i < events.len() ==> (#[trigger] events[i] is Other ==> actions[i] is Continue),
    decreases events.len(),
{
    if events.len() > 0 {
        let rest_events = events.drop_first();
        let rest_actions = actions.drop_first();
        assert forall|i: int| 0 <= i < rest_events.len() implies answers(#[trigger] rest_events[i], rest_actions[i]) by {
            assert(answers(events[i + 1], actions[i + 1]));
        }
        lemma_frames_delivered_in_order(rest_events, rest_actions);
        assert(answers(events[0], actions[0]));
    }
}

} // verus!
