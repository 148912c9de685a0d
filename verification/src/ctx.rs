//! The context a handler receives: the bot, and what an event is about.

use vstd::prelude::*;
use std::sync::Arc;
use crate::bot::{reply_in_thread_message, send_in_thread_message, Bot};
use crate::error::{CResult, ChurroError};
use crate::model::{plain_message, reply_message, CreateMessageRequest, Message, Room, User};

verus! {

/// What an event handler works with. Each part is absent where the event
/// does not name it or where fetching it failed.
pub struct Ctx {
    pub bot: Arc<Bot>,
    pub room: Option<Room>,
    pub user: Option<User>,
    pub message: Option<Message>,
    pub root_message: Option<Message>,
}

impl Ctx {
    /// A context that holds the bot and nothing else.
    pub fn with_bot(bot: Arc<Bot>) -> (r: Self)
        ensures
            r.bot == bot,
            r.room is None,
            r.user is None,
            r.message is None,
            r.root_message is None,
    {
        Ctx { bot, room: None, user: None, message: None, root_message: None }
    }

    /// The request that answers the context's message; not found where it has none.
    pub fn reply(&self, msg: &str, send_to_channel: bool) -> (r: CResult<CreateMessageRequest>)
        ensures
            match self.message {
                Some(m) => r matches Ok(req) && req@ == reply_message(
                    m@.room_id,
                    m@.id,
                    msg@,
                    send_to_channel,
                ),
                None => r matches Err(ChurroError::ResourceNotFound(what)) && what@ == "message"@,
            },
    {
        match &self.message {
            Some(message) => Ok(self.bot.reply(message, msg, send_to_channel)),
            None => Err(ChurroError::ResourceNotFound("message")),
        }
    }

    /// The request that answers the context's message in its thread, as
    /// `Bot::reply_in_thread` does; not found where it has none.
    pub fn reply_in_thread(&self, msg: &str, send_to_channel: bool) -> (r: CResult<
        CreateMessageRequest,
    >)
        ensures
            match self.message {
                Some(m) => r matches Ok(req) && req@ == reply_in_thread_message(
                    m@,
                    msg@,
                    send_to_channel,
                ),
                None => r matches Err(ChurroError::ResourceNotFound(what)) && what@ == "message"@,
            },
    {
        match &self.message {
            Some(message) => Ok(self.bot.reply_in_thread(message, msg, send_to_channel)),
            None => Err(ChurroError::ResourceNotFound("message")),
        }
    }

    /// The request that posts `msg` where the context is: in the thread of its
    /// message where that message stands in one, else in its room. Not found
    /// where the context has no room.
    pub fn send(&self, msg: &str, send_to_channel: bool) -> (r: CResult<CreateMessageRequest>)
        ensures
            match self.room {
                None => r matches Err(ChurroError::ResourceNotFound(what)) && what@ == "room"@,
                Some(room) => r matches Ok(req) && req@ == (match self.message {
                    Some(m) => if m@.in_thread() {
                        send_in_thread_message(m@, msg@, send_to_channel)
                    } else {
                        plain_message(room.id@, msg@)
                    },
                    None => plain_message(room.id@, msg@),
                }),
            },
    {
        let room = match &self.room {
            Some(room) => room,
            None => {
                return Err(ChurroError::ResourceNotFound("room"));
            },
        };
        match &self.message {
            Some(message) => {
                if message.thread_root_event_id.as_str().is_empty() {
                    Ok(self.bot.send_message(room, msg))
                } else {
                    Ok(self.bot.send_in_thread(message, msg, send_to_channel))
                }
            },
            None => Ok(self.bot.send_message(room, msg)),
        }
    }

    /// The request that posts `msg` in the thread of the context's message;
    /// not found where it has none.
    pub fn send_in_thread(&self, msg: &str, send_to_channel: bool) -> (r: CResult<
        CreateMessageRequest,
    >)
        ensures
            match self.message {
                Some(m) => r matches Ok(req) && req@ == send_in_thread_message(
                    m@,
                    msg@,
                    send_to_channel,
                ),
                None => r matches Err(ChurroError::ResourceNotFound(what)) && what@ == "message"@,
            },
    {
        match &self.message {
            Some(message) => Ok(self.bot.send_in_thread(message, msg, send_to_channel)),
            None => Err(ChurroError::ResourceNotFound("message")),
        }
    }
}

} // verus!
