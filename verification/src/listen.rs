//! The handshake on the realtime socket, as a state machine: the caller
//! performs each action on the socket and hands back its outcome.

use vstd::prelude::*;
use crate::bot::Bot;
use crate::error::ChurroError;
use crate::realtime::{ClientFrame, RealtimeClientFrame, RealtimeSubscribeEvents};

verus! {

/// Where the bot's realtime connection stands.
#[derive(Debug, Clone, Copy, PartialEq, Eq)]
pub enum ListenerState {
    /// The socket is being opened.
    Connecting,
    /// The hello frame was sent; the server's answer is awaited.
    AwaitingServerHello,
    /// The subscription was sent; the server's first message is awaited.
    AwaitingInitialMessage,
    /// Events are being read and dispatched.
    Listening,
    /// Nothing more happens on the socket.
    Stopped,
}

/// How the last action on the socket went.
#[derive(Debug)]
pub enum Outcome {
    /// The socket opened, or a message arrived.
    Done,
    /// The stream of incoming messages ended.
    Ended,
    /// The socket reported an error.
    Failed(tokio_tungstenite::tungstenite::Error),
}

/// What to do next on the socket.
#[derive(Debug)]
pub enum ListenerAction {
    /// Send the frame, then wait for the next incoming message.
    SendAndReceive(RealtimeClientFrame),
    /// The handshake is complete: report success and read events from now on.
    StartReading,
    /// Read the next event.
    Receive,
    /// Stop reading, without reporting anything.
    Stop,
    /// Give up and report the error.
    Fail(ChurroError),
}

/// The state that follows `state` after `outcome`.
pub open spec fn next_listener_state(state: ListenerState, outcome: Outcome) -> ListenerState {
    match (state, outcome) {
        (ListenerState::Connecting, Outcome::Done) => ListenerState::AwaitingServerHello,
        (ListenerState::AwaitingServerHello, Outcome::Done) => ListenerState::AwaitingInitialMessage,
        (ListenerState::AwaitingInitialMessage, Outcome::Done) => ListenerState::Listening,
        (ListenerState::Listening, Outcome::Done) => ListenerState::Listening,
        _ => ListenerState::Stopped,
    }
}

/// Whether `frame` is the hello frame that carries `token`.
pub open spec fn is_hello_with(frame: RealtimeClientFrame, token: Seq<char>) -> bool {
    frame.frame matches Some(ClientFrame::Hello(h)) && h.protocol_version == 1 && (
    h.bearer_token matches Some(t) && t@ == token)
}

/// Whether `action` is what follows `state` after `outcome`, for a bot whose token is `token`.
pub open spec fn listener_action_after(
    token: Seq<char>,
    state: ListenerState,
    outcome: Outcome,
    action: ListenerAction,
) -> bool {
    match (state, outcome) {
        (ListenerState::Connecting, Outcome::Done) => action matches ListenerAction::SendAndReceive(
            f,
        ) && is_hello_with(f, token),
        (ListenerState::Connecting, Outcome::Failed(e)) => action == ListenerAction::Fail(
            ChurroError::Websocket(e),
        ),
        (ListenerState::AwaitingServerHello, Outcome::Done) => action
            == ListenerAction::SendAndReceive(
            RealtimeClientFrame {
                frame: Some(ClientFrame::SubscribeEvents(RealtimeSubscribeEvents {})),
            },
        ),
        (ListenerState::AwaitingServerHello, Outcome::Ended) => action matches ListenerAction::Fail(
            ChurroError::WebsocketRecv(m),
        ) && m@ == "couldn't receive server hello"@,
        (ListenerState::AwaitingServerHello, Outcome::Failed(e)) => action == ListenerAction::Fail(
            ChurroError::Websocket(e),
        ),
        (ListenerState::AwaitingInitialMessage, Outcome::Done) => action
            == ListenerAction::StartReading,
        (ListenerState::AwaitingInitialMessage, Outcome::Ended) => action matches ListenerAction::Fail(
            ChurroError::WebsocketRecv(m),
        ) && m@ == "couldn't receive initial message"@,
        (ListenerState::AwaitingInitialMessage, Outcome::Failed(e)) => action
            == ListenerAction::Fail(ChurroError::Websocket(e)),
        (ListenerState::Listening, Outcome::Done) => action == ListenerAction::Receive,
        _ => action == ListenerAction::Stop,
    }
}

/// Once stopped, the connection stays stopped and does nothing more, whatever happens.
pub proof fn lemma_stopped_is_final(token: Seq<char>, outcome: Outcome, action: ListenerAction)
    requires
        listener_action_after(token, ListenerState::Stopped, outcome, action),
    ensures
        next_listener_state(ListenerState::Stopped, outcome) == ListenerState::Stopped,
        action == ListenerAction::Stop,
{
}

/// Events are read only after the whole handshake: the listening state is
/// entered only from the wait for the initial message, or kept, and only
/// after a message arrived.
pub proof fn lemma_listening_needs_handshake(state: ListenerState, outcome: Outcome)
    requires
        next_listener_state(state, outcome) == ListenerState::Listening,
    ensures
        state == ListenerState::AwaitingInitialMessage || state == ListenerState::Listening,
        outcome is Done,
{
}

/// The handshake sends the hello frame with the bot's token, then the
/// subscription, then starts reading.
pub proof fn lemma_handshake_order(
    token: Seq<char>,
    first: ListenerAction,
    second: ListenerAction,
    third: ListenerAction,
)
    requires
        listener_action_after(token, ListenerState::Connecting, Outcome::Done, first),
        listener_action_after(token, next_listener_state(ListenerState::Connecting, Outcome::Done), Outcome::Done, second),
        listener_action_after(
            token,
            next_listener_state(next_listener_state(ListenerState::Connecting, Outcome::Done), Outcome::Done),
            Outcome::Done,
            third,
        ),
    ensures
        first matches ListenerAction::SendAndReceive(f) && is_hello_with(f, token),
        second == ListenerAction::SendAndReceive(
            RealtimeClientFrame {
                frame: Some(ClientFrame::SubscribeEvents(RealtimeSubscribeEvents {})),
            },
        ),
        third == ListenerAction::StartReading,
        next_listener_state(
            next_listener_state(next_listener_state(ListenerState::Connecting, Outcome::Done), Outcome::Done),
            Outcome::Done,
        ) == ListenerState::Listening,
{
}

/// During the handshake every end of the stream and every socket error is
/// reported as a failure, and the connection stops.
pub proof fn lemma_handshake_failures_reported(
    token: Seq<char>,
    state: ListenerState,
    outcome: Outcome,
    action: ListenerAction,
)
    requires
        state == ListenerState::AwaitingServerHello || state == ListenerState::AwaitingInitialMessage,
        !(outcome is Done),
        listener_action_after(token, state, outcome, action),
    ensures
        action is Fail,
        next_listener_state(state, outcome) == ListenerState::Stopped,
{
}

impl Bot {
    /// One step of the realtime handshake and of the reading that follows it.
    pub fn listen_step(&self, state: ListenerState, outcome: Outcome) -> (r: (
        ListenerState,
        ListenerAction,
    ))
        ensures
            r.0 == next_listener_state(state, outcome),
            listener_action_after(self@.token, state, outcome, r.1),
    {
        match state {
            ListenerState::Connecting => match outcome {
                Outcome::Done => (
                    ListenerState::AwaitingServerHello,
                    ListenerAction::SendAndReceive(self.hello_frame()),
                ),
                Outcome::Ended => (ListenerState::Stopped, ListenerAction::Stop),
                Outcome::Failed(e) => (
                    ListenerState::Stopped,
                    ListenerAction::Fail(ChurroError::Websocket(e)),
                ),
            },
            ListenerState::AwaitingServerHello => match outcome {
                Outcome::Done => (
                    ListenerState::AwaitingInitialMessage,
                    ListenerAction::SendAndReceive(Bot::subscribe_frame()),
                ),
                Outcome::Ended => (
                    ListenerState::Stopped,
                    ListenerAction::Fail(
                        ChurroError::WebsocketRecv(
                            String::from_str("couldn't receive server hello"),
                        ),
                    ),
                ),
                Outcome::Failed(e) => (
                    ListenerState::Stopped,
                    ListenerAction::Fail(ChurroError::Websocket(e)),
                ),
            },
            ListenerState::AwaitingInitialMessage => match outcome {
                Outcome::Done => (ListenerState::Listening, ListenerAction::StartReading),
                Outcome::Ended => (
                    ListenerState::Stopped,
                    ListenerAction::Fail(
                        ChurroError::WebsocketRecv(
                            String::from_str("couldn't receive initial message"),
                        ),
                    ),
                ),
                Outcome::Failed(e) => (
                    ListenerState::Stopped,
                    ListenerAction::Fail(ChurroError::Websocket(e)),
                ),
            },
            ListenerState::Listening => match outcome {
                Outcome::Done => (ListenerState::Listening, ListenerAction::Receive),
                _ => (ListenerState::Stopped, ListenerAction::Stop),
            },
            ListenerState::Stopped => (ListenerState::Stopped, ListenerAction::Stop),
        }
    }
}

} // verus!
