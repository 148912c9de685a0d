//! The frames of the realtime websocket protocol, held as plain values.

use vstd::prelude::*;

verus! {

/// The first frame a client sends: the protocol it speaks and its token.
#[derive(Debug, Clone, PartialEq, Eq)]
pub struct RealtimeClientHello {
    pub protocol_version: u32,
    pub bearer_token: Option<String>,
}

/// The frame by which a client asks for the event stream.
#[derive(Debug, Clone, PartialEq, Eq)]
pub struct RealtimeSubscribeEvents {}

/// What a client frame carries.
#[derive(Debug, Clone, PartialEq, Eq)]
pub enum ClientFrame {
    Hello(RealtimeClientHello),
    SubscribeEvents(RealtimeSubscribeEvents),
}

/// A frame sent by the client.
#[derive(Debug, Clone, PartialEq, Eq)]
pub struct RealtimeClientFrame {
    pub frame: Option<ClientFrame>,
}

/// Wraps what a client frame carries into the frame itself.
pub fn to_rt_frame(v: ClientFrame) -> (r: RealtimeClientFrame)
    ensures
        r.frame == Some(v),
{
    RealtimeClientFrame { frame: Some(v) }
}

/// A user mentioned the bot.
#[derive(Debug, Clone, PartialEq, Eq)]
pub struct MentionNotification {
    pub room_id: String,
    pub actor_user_id: String,
}

/// A message was posted; it may belong to a thread.
#[derive(Debug, Clone, PartialEq, Eq)]
pub struct MessagePosted {
    pub room_id: String,
    pub message_event_id: String,
    pub thread_root_event_id: Option<String>,
}

/// A message was edited.
#[derive(Debug, Clone, PartialEq, Eq)]
pub struct MessageEdited {
    pub room_id: String,
    pub message_event_id: String,
}

/// A message was deleted.
#[derive(Debug, Clone, PartialEq, Eq)]
pub struct MessageRetracted {
    pub room_id: String,
    pub message_event_id: String,
}

/// Someone opened a direct conversation with the bot.
#[derive(Debug, Clone, PartialEq, Eq)]
pub struct NewDirectMessageNotification {
    pub room_id: String,
    pub sender_id: String,
}

/// A reaction was added to, or removed from, a message.
#[derive(Debug, Clone, PartialEq, Eq)]
pub struct ReactionChanged {
    pub room_id: String,
    pub message_event_id: String,
    pub emoji: String,
}

/// The events the server reports; `Other` stands for every kind a bot does not handle.
#[derive(Debug, Clone, PartialEq, Eq)]
pub enum Event {
    MentionNotification(MentionNotification),
    MessagePosted(MessagePosted),
    MessageEdited(MessageEdited),
    MessageRetracted(MessageRetracted),
    NewDirectMessageNotification(NewDirectMessageNotification),
    ReactionAdded(ReactionChanged),
    ReactionRemoved(ReactionChanged),
    Other,
}

/// An event together with the user whose action caused it, where known.
#[derive(Debug, Clone, PartialEq, Eq)]
pub struct RealtimeEventEnvelope {
    pub actor_id: Option<String>,
    pub event: Option<Event>,
}

/// What a server frame carries; `Other` stands for every kind but events.
#[derive(Debug, Clone, PartialEq, Eq)]
pub enum ServerFrame {
    Event(RealtimeEventEnvelope),
    Other,
}

/// A frame sent by the server.
#[derive(Debug, Clone, PartialEq, Eq)]
pub struct RealtimeServerFrame {
    pub frame: Option<ServerFrame>,
}

} // verus!
