//! The messages of the Chatto API that a bot reads and writes, held as plain
//! values, with the views that contracts speak of.

use vstd::prelude::*;

verus! {

/// A chat room, as far as the bot reads it.
#[derive(Debug, Clone, PartialEq, Eq)]
pub struct Room {
    pub id: String,
}

/// A user of the server, as far as the bot reads it.
#[derive(Debug, Clone, PartialEq, Eq)]
pub struct User {
    pub id: String,
}

/// A message posted in a room. An empty `thread_root_event_id` means that the
/// message does not stand in a thread.
#[derive(Debug, Clone, PartialEq, Eq)]
pub struct Message {
    pub id: String,
    pub room_id: String,
    pub thread_root_event_id: String,
    pub actor_id: String,
}

pub struct MessageView {
    pub id: Seq<char>,
    pub room_id: Seq<char>,
    pub thread_root_event_id: Seq<char>,
    pub actor_id: Seq<char>,
}

impl View for Message {
    type V = MessageView;

    open spec fn view(&self) -> MessageView {
        MessageView {
            id: self.id@,
            room_id: self.room_id@,
            thread_root_event_id: self.thread_root_event_id@,
            actor_id: self.actor_id@,
        }
    }
}

impl MessageView {
    /// Whether the message stands in a thread.
    pub open spec fn in_thread(self) -> bool {
        self.thread_root_event_id.len() != 0
    }

    /// The root of the thread that a message belongs to, or would start:
    /// its thread's root where it stands in one, else the message itself.
    pub open spec fn thread_root(self) -> Seq<char> {
        if self.in_thread() {
            self.thread_root_event_id
        } else {
            self.id
        }
    }
}

/// The request that posts a message. Empty strings stand for unset fields.
#[derive(Debug, Clone, PartialEq, Eq)]
pub struct CreateMessageRequest {
    pub room_id: String,
    pub body: String,
    pub in_reply_to: String,
    pub thread_root_event_id: String,
    pub also_send_to_channel: bool,
}

pub struct CreateMessageView {
    pub room_id: Seq<char>,
    pub body: Seq<char>,
    pub in_reply_to: Seq<char>,
    pub thread_root_event_id: Seq<char>,
    pub also_send_to_channel: bool,
}

impl View for CreateMessageRequest {
    type V = CreateMessageView;

    open spec fn view(&self) -> CreateMessageView {
        CreateMessageView {
            room_id: self.room_id@,
            body: self.body@,
            in_reply_to: self.in_reply_to@,
            thread_root_event_id: self.thread_root_event_id@,
            also_send_to_channel: self.also_send_to_channel,
        }
    }
}

/// A message posted to a room, outside any thread.
pub open spec fn plain_message(room_id: Seq<char>, body: Seq<char>) -> CreateMessageView {
    CreateMessageView {
        room_id,
        body,
        in_reply_to: Seq::empty(),
        thread_root_event_id: Seq::empty(),
        also_send_to_channel: false,
    }
}

/// A message that answers the message `reply_to`, outside any thread.
pub open spec fn reply_message(
    room_id: Seq<char>,
    reply_to: Seq<char>,
    body: Seq<char>,
    also_send_to_channel: bool,
) -> CreateMessageView {
    CreateMessageView {
        room_id,
        body,
        in_reply_to: reply_to,
        thread_root_event_id: Seq::empty(),
        also_send_to_channel,
    }
}

/// A message that answers the message `root` inside the thread rooted at it.
pub open spec fn thread_reply_message(
    room_id: Seq<char>,
    root: Seq<char>,
    body: Seq<char>,
    also_send_to_channel: bool,
) -> CreateMessageView {
    CreateMessageView {
        room_id,
        body,
        in_reply_to: root,
        thread_root_event_id: root,
        also_send_to_channel,
    }
}

/// A message posted in the thread rooted at `root`, answering no message.
pub open spec fn thread_message(
    room_id: Seq<char>,
    root: Seq<char>,
    body: Seq<char>,
    also_send_to_channel: bool,
) -> CreateMessageView {
    CreateMessageView {
        room_id,
        body,
        in_reply_to: Seq::empty(),
        thread_root_event_id: root,
        also_send_to_channel,
    }
}

/// The request that fetches a room.
#[derive(Debug, Clone, PartialEq, Eq)]
pub struct GetRoomRequest {
    pub room_id: String,
}

impl View for GetRoomRequest {
    type V = Seq<char>;

    open spec fn view(&self) -> Seq<char> {
        self.room_id@
    }
}

/// Whom a user request asks for.
#[derive(Debug, Clone, PartialEq, Eq)]
pub enum UserTarget {
    UserId(String),
}

/// The request that fetches a user.
#[derive(Debug, Clone, PartialEq, Eq)]
pub struct GetUserRequest {
    pub target: Option<UserTarget>,
}

impl View for GetUserRequest {
    type V = Option<Seq<char>>;

    /// The id of the user asked for.
    open spec fn view(&self) -> Option<Seq<char>> {
        match self.target {
            Some(UserTarget::UserId(id)) => Some(id@),
            None => None,
        }
    }
}

/// The request that fetches a message of a room.
#[derive(Debug, Clone, PartialEq, Eq)]
pub struct GetMessageRequest {
    pub room_id: String,
    pub event_id: String,
}

impl View for GetMessageRequest {
    type V = (Seq<char>, Seq<char>);

    open spec fn view(&self) -> (Seq<char>, Seq<char>) {
        (self.room_id@, self.event_id@)
    }
}

/// The request that sets the bot's custom status.
#[derive(Debug, Clone, PartialEq, Eq)]
pub struct UpdateCustomStatusRequest {
    pub emoji: String,
    pub text: String,
}

/// The request that clears the bot's custom status.
#[derive(Debug, Clone, PartialEq, Eq)]
pub struct DeleteCustomStatusRequest {}

/// The request that makes the bot join a room.
#[derive(Debug, Clone, PartialEq, Eq)]
pub struct JoinRoomRequest {
    pub room_id: String,
}

/// The request that makes the bot leave a room.
#[derive(Debug, Clone, PartialEq, Eq)]
pub struct LeaveRoomRequest {
    pub room_id: String,
}

/// The room entry of a room response.
#[derive(Debug, Clone, PartialEq, Eq)]
pub struct RoomDetails {
    pub room: Option<Room>,
}

/// The answer to a `GetRoomRequest`.
#[derive(Debug, Clone, PartialEq, Eq)]
pub struct GetRoomResponse {
    pub room: Option<RoomDetails>,
}

/// The user entry of a user response.
#[derive(Debug, Clone, PartialEq, Eq)]
pub struct UserDetails {
    pub user: Option<User>,
}

/// The answer to a `GetUserRequest`.
#[derive(Debug, Clone, PartialEq, Eq)]
pub struct GetUserResponse {
    pub user: Option<UserDetails>,
}

/// The answer to a `GetMessageRequest`.
#[derive(Debug, Clone, PartialEq, Eq)]
pub struct GetMessageResponse {
    pub message: Option<Message>,
}

/// An owned copy of a string slice.
pub fn owned(s: &str) -> (r: String)
    ensures
        r@ == s@,
{
    String::from_str(s)
}

} // verus!
