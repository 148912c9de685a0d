//! The bot's session and the requests it sends to the server.

use vstd::prelude::*;
use crate::error::{CResult, ChurroError};
use crate::uri::{parse_uri, uri_parses, ParsedUri};
use crate::model::{
    owned, plain_message, reply_message, thread_message, thread_reply_message,
    CreateMessageRequest, DeleteCustomStatusRequest, GetMessageRequest, GetMessageResponse,
    GetRoomRequest, GetRoomResponse, GetUserRequest, GetUserResponse, JoinRoomRequest,
    LeaveRoomRequest, Message, MessageView, Room, RoomDetails, UpdateCustomStatusRequest, User,
    UserDetails, UserTarget,
};
use crate::realtime::{
    to_rt_frame, ClientFrame, RealtimeClientFrame, RealtimeClientHello, RealtimeSubscribeEvents,
};

verus! {

/// The hexadecimal digit of `d`, in lower case, for `0 <= d < 16`.
pub open spec fn hex_digit(d: int) -> char {
    if d < 10 {
        ('0' as int + d) as char
    } else {
        ('a' as int + d - 10) as char
    }
}

/// How serde_json writes one character inside a JSON string: the quote, the
/// backslash and the control characters escaped, every other character as it is.
pub open spec fn json_escape_char(c: char) -> Seq<char> {
    if c == '"' {
        seq!['\\', '"']
    } else if c == '\\' {
        seq!['\\', '\\']
    } else if c == '\u{8}' {
        seq!['\\', 'b']
    } else if c == '\t' {
        seq!['\\', 't']
    } else if c == '\n' {
        seq!['\\', 'n']
    } else if c == '\u{c}' {
        seq!['\\', 'f']
    } else if c == '\r' {
        seq!['\\', 'r']
    } else if (c as int) < 0x20 {
        seq!['\\', 'u', '0', '0', hex_digit(c as int / 16), hex_digit(c as int % 16)]
    } else {
        seq![c]
    }
}

/// The characters `s`, each escaped as inside a JSON string.
pub open spec fn json_escaped(s: Seq<char>) -> Seq<char>
    decreases s.len(),
{
    if s.len() == 0 {
        Seq::empty()
    } else {
        json_escaped(s.drop_last()) + json_escape_char(s.last())
    }
}

/// The JSON string literal for the characters `s`, as serde_json writes it.
pub open spec fn json_string(s: Seq<char>) -> Seq<char> {
    seq!['"'] + json_escaped(s) + seq!['"']
}

/// Calls `serde_json::to_string` on a string slice. Claimed: it succeeds,
/// since it writes a `str` into a `Vec`, which cannot fail, and it returns the
/// JSON string literal `json_string` describes (the escape table and
/// `write_char_escape` of serde_json's compact formatter).
#[verifier::external_body]
fn json_quote(s: &str) -> (r: Result<String, serde_json::Error>)
    ensures
        r is Ok,
        r matches Ok(q) ==> q@ == json_string(s@),
{
    serde_json::to_string(s)
}

/// The base of every HTTPS endpoint of the server.
pub open spec fn https_url(server: Seq<char>) -> Seq<char> {
    "https://"@ + server
}

/// The endpoint that logs a user in.
pub open spec fn login_url(server: Seq<char>) -> Seq<char> {
    https_url(server) + "/auth/login"@
}

/// The base URI of the Connect API.
pub open spec fn connect_url(server: Seq<char>) -> Seq<char> {
    https_url(server) + "/api/connect"@
}

/// The websocket endpoint of the realtime API.
pub open spec fn realtime_url(server: Seq<char>) -> Seq<char> {
    "wss://"@ + server + "/api/realtime"@
}

/// The value of the `Authorization` header for a token.
pub open spec fn bearer(token: Seq<char>) -> Seq<char> {
    "Bearer "@ + token
}

/// The JSON object `{"login": .., "password": ..}` in compact form, given the
/// two values already written as JSON string literals.
pub open spec fn login_body_text(quoted_login: Seq<char>, quoted_password: Seq<char>) -> Seq<char> {
    "{\"login\":"@ + quoted_login + ",\"password\":"@ + quoted_password + "}"@
}

/// Frames the login object around two JSON string literals.
pub fn login_body(quoted_login: &str, quoted_password: &str) -> (r: String)
    ensures
        r@ == login_body_text(quoted_login@, quoted_password@),
{
    let mut body = String::from_str("{\"login\":");
    body.append(quoted_login);
    body.append(",\"password\":");
    body.append(quoted_password);
    body.append("}");
    body
}

/// The HTTP request that logs a user in: where it is posted, and its JSON body.
#[derive(Debug, Clone, PartialEq, Eq)]
pub struct LoginRequest {
    pub url: String,
    pub body: String,
}

/// The user part of the server's answer to a login.
#[derive(Debug, Clone, PartialEq, Eq)]
pub struct LoginUser {
    pub id: String,
    pub login: String,
}

/// The server's answer to a login.
#[derive(Debug, Clone, PartialEq, Eq)]
pub struct LoginResult {
    pub success: bool,
    pub token: String,
    pub user: LoginUser,
}

/// What every Connect client of the bot is configured with.
#[derive(Debug)]
pub struct ConnectConfig {
    pub base: ParsedUri,
    pub authorization: String,
}

/// A bot logged in to a server: its token, who it is, and where the server is.
#[derive(Debug)]
pub struct Bot {
    token: String,
    user_id: String,
    username: String,
    server_url: String,
}

pub struct BotView {
    pub token: Seq<char>,
    pub user_id: Seq<char>,
    pub username: Seq<char>,
    pub server_url: Seq<char>,
}

impl Clone for Bot {
    /// The same session.
    fn clone(&self) -> (r: Self)
        ensures
            r@ == self@,
    {
        Bot {
            token: self.token.clone(),
            user_id: self.user_id.clone(),
            username: self.username.clone(),
            server_url: self.server_url.clone(),
        }
    }
}

impl View for Bot {
    type V = BotView;

    closed spec fn view(&self) -> BotView {
        BotView {
            token: self.token@,
            user_id: self.user_id@,
            username: self.username@,
            server_url: self.server_url@,
        }
    }
}

/// The thread-aware reply to a message: a reply inside the thread the message
/// starts where it stands in none, a plain reply where it stands in one.
pub open spec fn reply_in_thread_message(
    msg: MessageView,
    text: Seq<char>,
    also_send_to_channel: bool,
) -> crate::model::CreateMessageView {
    if msg.in_thread() {
        reply_message(msg.room_id, msg.id, text, also_send_to_channel)
    } else {
        thread_reply_message(msg.room_id, msg.id, text, also_send_to_channel)
    }
}

/// A message in the thread of `root_msg`: the thread it stands in, or the one it starts.
pub open spec fn send_in_thread_message(
    root_msg: MessageView,
    text: Seq<char>,
    also_send_to_channel: bool,
) -> crate::model::CreateMessageView {
    thread_message(root_msg.room_id, root_msg.thread_root(), text, also_send_to_channel)
}

/// Posting in the thread of a message, or in the thread of any reply that
/// stands in that thread, sends the same request: the thread is always the
/// one rooted at the original message.
pub proof fn lemma_send_in_thread_same_thread(
    root: MessageView,
    reply: MessageView,
    text: Seq<char>,
    also_send_to_channel: bool,
)
    requires
        !root.in_thread(),
        root.id.len() != 0,
        reply.thread_root_event_id == root.id,
        reply.room_id == root.room_id,
    ensures
        send_in_thread_message(reply, text, also_send_to_channel) == send_in_thread_message(
            root,
            text,
            also_send_to_channel,
        ),
{
}

/// For a message that stands in no thread, replying in its thread and posting
/// in its thread both go to the thread rooted at it, and the reply answers it.
pub proof fn lemma_reply_in_thread_opens_thread(
    msg: MessageView,
    text: Seq<char>,
    also_send_to_channel: bool,
)
    requires
        !msg.in_thread(),
    ensures
        reply_in_thread_message(msg, text, also_send_to_channel).thread_root_event_id == msg.id,
        send_in_thread_message(msg, text, also_send_to_channel).thread_root_event_id == msg.id,
        reply_in_thread_message(msg, text, also_send_to_channel).in_reply_to == msg.id,
{
}

/// Every answer to a message, plain, threaded or posted in its thread, goes
/// to the message's own room and carries the given text.
pub proof fn lemma_answers_stay_in_room(msg: MessageView, text: Seq<char>, also_send_to_channel: bool)
    ensures
        reply_message(msg.room_id, msg.id, text, also_send_to_channel).room_id == msg.room_id,
        reply_in_thread_message(msg, text, also_send_to_channel).room_id == msg.room_id,
        send_in_thread_message(msg, text, also_send_to_channel).room_id == msg.room_id,
        reply_message(msg.room_id, msg.id, text, also_send_to_channel).body == text,
        reply_in_thread_message(msg, text, also_send_to_channel).body == text,
        send_in_thread_message(msg, text, also_send_to_channel).body == text,
{
}

/// Every answer to a message carries the caller's text and flag. A plain
/// reply answers the message outside any thread; a thread-aware reply answers
/// it inside the thread it starts where it stands in none, else plainly; a
/// thread post answers nothing and goes to the thread the message stands in,
/// or the one it starts.
pub proof fn lemma_answers_shape(msg: MessageView, text: Seq<char>, flag: bool)
    ensures
        reply_message(msg.room_id, msg.id, text, flag).also_send_to_channel == flag,
        reply_message(msg.room_id, msg.id, text, flag).in_reply_to == msg.id,
        reply_message(msg.room_id, msg.id, text, flag).thread_root_event_id.len() == 0,
        reply_in_thread_message(msg, text, flag).also_send_to_channel == flag,
        reply_in_thread_message(msg, text, flag).in_reply_to == msg.id,
        reply_in_thread_message(msg, text, flag).thread_root_event_id == (if msg.thread_root_event_id.len()
            == 0 {
            msg.id
        } else {
            Seq::<char>::empty()
        }),
        send_in_thread_message(msg, text, flag).also_send_to_channel == flag,
        send_in_thread_message(msg, text, flag).in_reply_to.len() == 0,
        send_in_thread_message(msg, text, flag).thread_root_event_id == (if msg.thread_root_event_id.len()
            == 0 {
            msg.id
        } else {
            msg.thread_root_event_id
        }),
        plain_message(msg.room_id, text).also_send_to_channel == false,
        plain_message(msg.room_id, text).in_reply_to.len() == 0,
        plain_message(msg.room_id, text).thread_root_event_id.len() == 0,
        plain_message(msg.room_id, text).body == text,
{
}

impl Bot {
    pub fn username(&self) -> (r: String)
        ensures
            r@ == self@.username,
    {
        self.username.clone()
    }

    pub fn user_id(&self) -> (r: String)
        ensures
            r@ == self@.user_id,
    {
        self.user_id.clone()
    }

    /// The request that logs `username` in on `server` with `password`.
    pub fn login_request(username: &str, password: &str, server: &str) -> (r: CResult<LoginRequest>)
        ensures
            r matches Ok(req) && req.url@ == login_url(server@) && req.body@ == login_body_text(
                json_string(username@),
                json_string(password@),
            ),
    {
        let mut url = String::from_str("https://");
        url.append(server);
        url.append("/auth/login");
        let quoted_login = match json_quote(username) {
            Ok(q) => q,
            Err(e) => {
                return Err(ChurroError::Json(e));
            },
        };
        let quoted_password = match json_quote(password) {
            Ok(q) => q,
            Err(e) => {
                return Err(ChurroError::Json(e));
            },
        };
        let body = login_body(quoted_login.as_str(), quoted_password.as_str());
        Ok(LoginRequest { url, body })
    }

    /// The bot that the server's answer to a login on `server` describes, and
    /// the configuration of its Connect clients. Fails where the API's base
    /// URI does not parse.
    pub fn login(server: &str, result: LoginResult) -> (r: CResult<(Bot, ConnectConfig)>)
        ensures
            uri_parses(connect_url(server@)) ==> (r matches Ok((bot, config))
                && bot@ == (BotView {
                    token: result.token@,
                    user_id: result.user.id@,
                    username: result.user.login@,
                    server_url: server@,
                })
                && config.base.text_view() == connect_url(server@)
                && config.authorization@ == bearer(result.token@)),
            !uri_parses(connect_url(server@)) ==> r matches Err(ChurroError::InvalidUri(_)),
    {
        let mut api_url = String::from_str("https://");
        api_url.append(server);
        api_url.append("/api/connect");
        let base = match parse_uri(api_url.as_str()) {
            Ok(u) => u,
            Err(e) => {
                return Err(ChurroError::InvalidUri(e));
            },
        };
        let mut authorization = String::from_str("Bearer ");
        authorization.append(result.token.as_str());
        let bot = Bot {
            token: result.token,
            user_id: result.user.id,
            username: result.user.login,
            server_url: owned(server),
        };
        Ok((bot, ConnectConfig { base, authorization }))
    }

    /// Where the bot opens its realtime websocket.
    pub fn realtime_url(&self) -> (r: String)
        ensures
            r@ == realtime_url(self@.server_url),
    {
        let mut url = String::from_str("wss://");
        url.append(self.server_url.as_str());
        url.append("/api/realtime");
        url
    }

    /// The first frame on the realtime socket: protocol version 1 and the bot's token.
    pub fn hello_frame(&self) -> (r: RealtimeClientFrame)
        ensures
            r.frame matches Some(ClientFrame::Hello(h)) && h.protocol_version == 1
                && (h.bearer_token matches Some(t) && t@ == self@.token),
    {
        to_rt_frame(ClientFrame::Hello(RealtimeClientHello {
            protocol_version: 1,
            bearer_token: Some(self.token.clone()),
        }))
    }

    /// The frame that asks for the event stream.
    pub fn subscribe_frame() -> (r: RealtimeClientFrame)
        ensures
            r.frame == Some(ClientFrame::SubscribeEvents(RealtimeSubscribeEvents {})),
    {
        to_rt_frame(ClientFrame::SubscribeEvents(RealtimeSubscribeEvents {}))
    }

    /// The request that fetches the room `id`.
    pub fn fetch_room(&self, id: &str) -> (r: GetRoomRequest)
        ensures
            r.room_id@ == id@,
    {
        GetRoomRequest { room_id: owned(id) }
    }

    /// The room in an answer to `fetch_room`; not found where the answer holds none.
    pub fn room_from_response(resp: GetRoomResponse) -> (r: CResult<Room>)
        ensures
            match resp.room {
                Some(RoomDetails { room: Some(room) }) => r == Ok::<Room, ChurroError>(room),
                _ => r matches Err(ChurroError::ResourceNotFound(what)) && what@ == "room"@,
            },
    {
        match resp.room {
            Some(RoomDetails { room: Some(room) }) => Ok(room),
            _ => Err(ChurroError::ResourceNotFound("room")),
        }
    }

    /// The request that fetches the user `id`.
    pub fn fetch_user(&self, id: &str) -> (r: GetUserRequest)
        ensures
            r.target matches Some(UserTarget::UserId(u)) && u@ == id@,
    {
        GetUserRequest { target: Some(UserTarget::UserId(owned(id))) }
    }

    /// The user in an answer to `fetch_user`; not found where the answer holds none.
    pub fn user_from_response(resp: GetUserResponse) -> (r: CResult<User>)
        ensures
            match resp.user {
                Some(UserDetails { user: Some(user) }) => r == Ok::<User, ChurroError>(user),
                _ => r matches Err(ChurroError::ResourceNotFound(what)) && what@ == "user"@,
            },
    {
        match resp.user {
            Some(UserDetails { user: Some(user) }) => Ok(user),
            _ => Err(ChurroError::ResourceNotFound("user")),
        }
    }

    /// The request that fetches the message `event_id` of the room `room_id`.
    pub fn fetch_message_raw(&self, room_id: &str, event_id: &str) -> (r: GetMessageRequest)
        ensures
            r.room_id@ == room_id@,
            r.event_id@ == event_id@,
    {
        GetMessageRequest { room_id: owned(room_id), event_id: owned(event_id) }
    }

    /// The request that fetches the message `event_id` of `room`.
    pub fn fetch_message(&self, room: &Room, event_id: &str) -> (r: GetMessageRequest)
        ensures
            r.room_id@ == room.id@,
            r.event_id@ == event_id@,
    {
        self.fetch_message_raw(room.id.as_str(), event_id)
    }

    /// The message in an answer to a message fetch; not found where the answer holds none.
    pub fn message_from_response(resp: GetMessageResponse) -> (r: CResult<Message>)
        ensures
            match resp.message {
                Some(message) => r == Ok::<Message, ChurroError>(message),
                None => r matches Err(ChurroError::ResourceNotFound(what)) && what@ == "message"@,
            },
    {
        match resp.message {
            Some(message) => Ok(message),
            None => Err(ChurroError::ResourceNotFound("message")),
        }
    }

    /// The request that posts `msg` to the room `room_id`.
    pub fn send_message_raw(&self, room_id: &str, msg: &str) -> (r: CreateMessageRequest)
        ensures
            r@ == plain_message(room_id@, msg@),
    {
        CreateMessageRequest {
            room_id: owned(room_id),
            body: owned(msg),
            in_reply_to: String::new(),
            thread_root_event_id: String::new(),
            also_send_to_channel: false,
        }
    }

    /// The request that posts `msg` to `room`.
    pub fn send_message(&self, room: &Room, msg: &str) -> (r: CreateMessageRequest)
        ensures
            r@ == plain_message(room.id@, msg@),
    {
        self.send_message_raw(room.id.as_str(), msg)
    }

    /// The request that answers the message `id` of the room `room_id` with `text`.
    pub fn reply_raw(&self, room_id: &str, id: &str, text: &str, send_to_channel: bool) -> (r:
        CreateMessageRequest)
        ensures
            r@ == reply_message(room_id@, id@, text@, send_to_channel),
    {
        CreateMessageRequest {
            room_id: owned(room_id),
            body: owned(text),
            in_reply_to: owned(id),
            thread_root_event_id: String::new(),
            also_send_to_channel: send_to_channel,
        }
    }

    /// The request that answers `msg` with `text`.
    pub fn reply(&self, msg: &Message, text: &str, send_to_channel: bool) -> (r: CreateMessageRequest)
        ensures
            r@ == reply_message(msg@.room_id, msg@.id, text@, send_to_channel),
    {
        self.reply_raw(msg.room_id.as_str(), msg.id.as_str(), text, send_to_channel)
    }

    /// The request that answers the message `id` inside the thread rooted at it.
    pub fn reply_in_thread_raw(
        &self,
        room_id: &str,
        id: &str,
        text: &str,
        send_to_channel: bool,
    ) -> (r: CreateMessageRequest)
        ensures
            r@ == thread_reply_message(room_id@, id@, text@, send_to_channel),
    {
        CreateMessageRequest {
            room_id: owned(room_id),
            body: owned(text),
            in_reply_to: owned(id),
            thread_root_event_id: owned(id),
            also_send_to_channel: send_to_channel,
        }
    }

    /// The request that answers `msg`: in the thread it starts where it stands
    /// in no thread, else as a plain reply.
    pub fn reply_in_thread(&self, msg: &Message, text: &str, send_to_channel: bool) -> (r:
        CreateMessageRequest)
        ensures
            r@ == reply_in_thread_message(msg@, text@, send_to_channel),
    {
        if msg.thread_root_event_id.as_str().is_empty() {
            self.reply_in_thread_raw(msg.room_id.as_str(), msg.id.as_str(), text, send_to_channel)
        } else {
            self.reply(msg, text, send_to_channel)
        }
    }

    /// The request that posts `text` in the thread rooted at `root_id`.
    pub fn send_in_thread_raw(
        &self,
        room_id: &str,
        root_id: &str,
        text: &str,
        send_to_channel: bool,
    ) -> (r: CreateMessageRequest)
        ensures
            r@ == thread_message(room_id@, root_id@, text@, send_to_channel),
    {
        CreateMessageRequest {
            room_id: owned(room_id),
            body: owned(text),
            in_reply_to: String::new(),
            thread_root_event_id: owned(root_id),
            also_send_to_channel: send_to_channel,
        }
    }

    /// The request that posts `text` in the thread of `root_msg`: the thread
    /// it stands in, or the one it starts.
    pub fn send_in_thread(&self, root_msg: &Message, text: &str, send_to_channel: bool) -> (r:
        CreateMessageRequest)
        ensures
            r@ == send_in_thread_message(root_msg@, text@, send_to_channel),
    {
        let root_id: &str = if root_msg.thread_root_event_id.as_str().is_empty() {
            root_msg.id.as_str()
        } else {
            root_msg.thread_root_event_id.as_str()
        };
        self.send_in_thread_raw(root_msg.room_id.as_str(), root_id, text, send_to_channel)
    }

    /// The request that sets the bot's custom status.
    pub fn set_status(&self, emoji: &str, text: &str) -> (r: UpdateCustomStatusRequest)
        ensures
            r.emoji@ == emoji@,
            r.text@ == text@,
    {
        UpdateCustomStatusRequest { emoji: owned(emoji), text: owned(text) }
    }

    /// The request that clears the bot's custom status.
    pub fn clear_status(&self) -> (r: DeleteCustomStatusRequest)
        ensures
            r == (DeleteCustomStatusRequest {}),
    {
        DeleteCustomStatusRequest {}
    }

    /// The request that makes the bot join the room `room_id`.
    pub fn join_room_raw(&self, room_id: &str) -> (r: JoinRoomRequest)
        ensures
            r.room_id@ == room_id@,
    {
        JoinRoomRequest { room_id: owned(room_id) }
    }

    /// The request that makes the bot join `room`.
    pub fn join_room(&self, room: &Room) -> (r: JoinRoomRequest)
        ensures
            r.room_id@ == room.id@,
    {
        self.join_room_raw(room.id.as_str())
    }

    /// The request that makes the bot leave the room `room_id`.
    pub fn leave_room_raw(&self, room_id: &str) -> (r: LeaveRoomRequest)
        ensures
            r.room_id@ == room_id@,
    {
        LeaveRoomRequest { room_id: owned(room_id) }
    }

    /// The request that makes the bot leave `room`.
    pub fn leave_room(&self, room: &Room) -> (r: LeaveRoomRequest)
        ensures
            r.room_id@ == room.id@,
    {
        self.leave_room_raw(room.id.as_str())
    }
}

} // verus!
