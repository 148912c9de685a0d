//! Routing of realtime events to handlers: which resources an event needs,
//! and the context its handler receives once they are fetched.

use vstd::prelude::*;
use std::sync::Arc;
use crate::bot::Bot;
use crate::ctx::Ctx;
use crate::model::{GetMessageRequest, GetRoomRequest, GetUserRequest, Message, Room, User};
use crate::realtime::{Event, RealtimeEventEnvelope, RealtimeServerFrame, ServerFrame};

verus! {

/// The handler that an event goes to, with what it receives besides the context.
#[derive(Debug, Clone, PartialEq, Eq)]
pub enum HandlerCall {
    BotMentioned,
    MessageSent,
    MessageEdited,
    /// The id of the deleted message.
    MessageDeleted(String),
    DmStarted,
    /// The emoji of the reaction.
    ReactionAdded(String),
    /// The emoji of the reaction.
    ReactionRemoved(String),
}

pub enum HandlerCallView {
    BotMentioned,
    MessageSent,
    MessageEdited,
    MessageDeleted(Seq<char>),
    DmStarted,
    ReactionAdded(Seq<char>),
    ReactionRemoved(Seq<char>),
}

impl View for HandlerCall {
    type V = HandlerCallView;

    open spec fn view(&self) -> HandlerCallView {
        match self {
            HandlerCall::BotMentioned => HandlerCallView::BotMentioned,
            HandlerCall::MessageSent => HandlerCallView::MessageSent,
            HandlerCall::MessageEdited => HandlerCallView::MessageEdited,
            HandlerCall::MessageDeleted(id) => HandlerCallView::MessageDeleted(id@),
            HandlerCall::DmStarted => HandlerCallView::DmStarted,
            HandlerCall::ReactionAdded(emoji) => HandlerCallView::ReactionAdded(emoji@),
            HandlerCall::ReactionRemoved(emoji) => HandlerCallView::ReactionRemoved(emoji@),
        }
    }
}

/// What must be fetched before an event's handler runs, and which handler it is.
/// Where `user_from_message` holds and the first round gives no user, the
/// handler's user is the author of the fetched message, looked up in a
/// second round.
#[derive(Debug, Clone, PartialEq, Eq)]
pub struct EventPlan {
    pub handler: HandlerCall,
    pub room: GetRoomRequest,
    pub message: Option<GetMessageRequest>,
    pub root_message: Option<GetMessageRequest>,
    pub user: Option<GetUserRequest>,
    pub user_from_message: bool,
}

pub struct EventPlanView {
    pub handler: HandlerCallView,
    pub room: Seq<char>,
    pub message: Option<(Seq<char>, Seq<char>)>,
    pub root_message: Option<(Seq<char>, Seq<char>)>,
    pub user: Option<Option<Seq<char>>>,
    pub user_from_message: bool,
}

impl View for EventPlan {
    type V = EventPlanView;

    open spec fn view(&self) -> EventPlanView {
        EventPlanView {
            handler: self.handler@,
            room: self.room@,
            message: match self.message {
                Some(m) => Some(m@),
                None => None,
            },
            root_message: match self.root_message {
                Some(m) => Some(m@),
                None => None,
            },
            user: match self.user {
                Some(u) => Some(u@),
                None => None,
            },
            user_from_message: self.user_from_message,
        }
    }
}

/// The user fetch for the actor of an event, where the event names one.
pub open spec fn actor_fetch(actor_id: Option<String>) -> Option<Option<Seq<char>>> {
    match actor_id {
        Some(a) => Some(Some(a@)),
        None => None,
    }
}

/// The plan for a server frame: `None` for frames that carry no event, and
/// for events that no handler takes.
pub open spec fn planned(frame: RealtimeServerFrame) -> Option<EventPlanView> {
    match frame.frame {
        Some(ServerFrame::Event(env)) => match env.event {
            Some(Event::MentionNotification(ev)) => Some(
                EventPlanView {
                    handler: HandlerCallView::BotMentioned,
                    room: ev.room_id@,
                    message: None,
                    root_message: None,
                    user: Some(Some(ev.actor_user_id@)),
                    user_from_message: false,
                },
            ),
            Some(Event::MessagePosted(ev)) => Some(
                EventPlanView {
                    handler: HandlerCallView::MessageSent,
                    room: ev.room_id@,
                    message: Some((ev.room_id@, ev.message_event_id@)),
                    root_message: match ev.thread_root_event_id {
                        Some(root) => Some((ev.room_id@, root@)),
                        None => None,
                    },
                    user: actor_fetch(env.actor_id),
                    user_from_message: true,
                },
            ),
            Some(Event::MessageEdited(ev)) => Some(
                EventPlanView {
                    handler: HandlerCallView::MessageEdited,
                    room: ev.room_id@,
                    message: Some((ev.room_id@, ev.message_event_id@)),
                    root_message: None,
                    user: actor_fetch(env.actor_id),
                    user_from_message: true,
                },
            ),
            Some(Event::MessageRetracted(ev)) => Some(
                EventPlanView {
                    handler: HandlerCallView::MessageDeleted(ev.message_event_id@),
                    room: ev.room_id@,
                    message: None,
                    root_message: None,
                    user: actor_fetch(env.actor_id),
                    user_from_message: false,
                },
            ),
            Some(Event::NewDirectMessageNotification(ev)) => Some(
                EventPlanView {
                    handler: HandlerCallView::DmStarted,
                    room: ev.room_id@,
                    message: None,
                    root_message: None,
                    user: Some(Some(ev.sender_id@)),
                    user_from_message: false,
                },
            ),
            Some(Event::ReactionAdded(ev)) => Some(
                EventPlanView {
                    handler: HandlerCallView::ReactionAdded(ev.emoji@),
                    room: ev.room_id@,
                    message: Some((ev.room_id@, ev.message_event_id@)),
                    root_message: None,
                    user: actor_fetch(env.actor_id),
                    user_from_message: false,
                },
            ),
            Some(Event::ReactionRemoved(ev)) => Some(
                EventPlanView {
                    handler: HandlerCallView::ReactionRemoved(ev.emoji@),
                    room: ev.room_id@,
                    message: Some((ev.room_id@, ev.message_event_id@)),
                    root_message: None,
                    user: actor_fetch(env.actor_id),
                    user_from_message: false,
                },
            ),
            _ => None,
        },
        _ => None,
    }
}

/// What the fetches of a plan gave; each is absent where it was not made or failed.
#[derive(Debug, Clone, PartialEq, Eq)]
pub struct Fetched {
    pub room: Option<Room>,
    pub message: Option<Message>,
    pub root_message: Option<Message>,
    pub user: Option<User>,
}

/// The user that the first round gave, where the plan asked for one.
pub open spec fn first_round_user(plan: EventPlan, fetched: Fetched) -> Option<User> {
    if plan.user is Some {
        fetched.user
    } else {
        None
    }
}

/// The id of the user to look up in the second round: the author of the
/// fetched message, where the plan falls back on it and the first round gave
/// no user.
pub open spec fn second_user_fetch(plan: EventPlan, fetched: Fetched) -> Option<Seq<char>> {
    if plan.user_from_message && first_round_user(plan, fetched) is None
        && fetched.message is Some {
        Some(fetched.message->0.actor_id@)
    } else {
        None
    }
}

/// The user that a handler receives: the one the first round gave; failing
/// that, what the second round gave, where it was made; else none.
pub open spec fn handler_user(plan: EventPlan, fetched: Fetched, second: Option<User>) -> Option<User> {
    if first_round_user(plan, fetched) is Some {
        first_round_user(plan, fetched)
    } else if second_user_fetch(plan, fetched) is Some {
        second
    } else {
        None
    }
}

/// The frame that carries `event`, reported as caused by `actor_id`.
pub open spec fn event_frame(actor_id: Option<String>, event: Event) -> RealtimeServerFrame {
    RealtimeServerFrame {
        frame: Some(ServerFrame::Event(RealtimeEventEnvelope { actor_id, event: Some(event) })),
    }
}

/// Every event kind that a handler takes is planned, and goes to the handler
/// of its kind; a deletion hands on the deleted message's id and a reaction
/// its emoji. Frames without an event, and other events, are not planned.
pub proof fn lemma_plan_handler(actor_id: Option<String>, event: Event)
    ensures
        (event is Other) == (planned(event_frame(actor_id, event)) is None),
        match event {
            Event::MentionNotification(_) => planned(event_frame(actor_id, event))->0.handler
                == HandlerCallView::BotMentioned,
            Event::MessagePosted(_) => planned(event_frame(actor_id, event))->0.handler
                == HandlerCallView::MessageSent,
            Event::MessageEdited(_) => planned(event_frame(actor_id, event))->0.handler
                == HandlerCallView::MessageEdited,
            Event::MessageRetracted(ev) => planned(event_frame(actor_id, event))->0.handler
                == HandlerCallView::MessageDeleted(ev.message_event_id@),
            Event::NewDirectMessageNotification(_) => planned(event_frame(actor_id, event))->0.handler
                == HandlerCallView::DmStarted,
            Event::ReactionAdded(ev) => planned(event_frame(actor_id, event))->0.handler
                == HandlerCallView::ReactionAdded(ev.emoji@),
            Event::ReactionRemoved(ev) => planned(event_frame(actor_id, event))->0.handler
                == HandlerCallView::ReactionRemoved(ev.emoji@),
            Event::Other => true,
        },
        planned(RealtimeServerFrame { frame: None }) is None,
        planned(RealtimeServerFrame { frame: Some(ServerFrame::Other) }) is None,
        planned(
            RealtimeServerFrame {
                frame: Some(ServerFrame::Event(RealtimeEventEnvelope { actor_id, event: None })),
            },
        ) is None,
{
}

/// Every planned event fetches the room the event names.
pub proof fn lemma_plan_room(actor_id: Option<String>, event: Event)
    ensures
        match event {
            Event::MentionNotification(ev) => planned(event_frame(actor_id, event))->0.room
                == ev.room_id@,
            Event::MessagePosted(ev) => planned(event_frame(actor_id, event))->0.room == ev.room_id@,
            Event::MessageEdited(ev) => planned(event_frame(actor_id, event))->0.room == ev.room_id@,
            Event::MessageRetracted(ev) => planned(event_frame(actor_id, event))->0.room
                == ev.room_id@,
            Event::NewDirectMessageNotification(ev) => planned(event_frame(actor_id, event))->0.room
                == ev.room_id@,
            Event::ReactionAdded(ev) => planned(event_frame(actor_id, event))->0.room == ev.room_id@,
            Event::ReactionRemoved(ev) => planned(event_frame(actor_id, event))->0.room
                == ev.room_id@,
            Event::Other => true,
        },
{
}

/// Every event that names a message (a post, an edit, a reaction) fetches
/// that message from the event's room; the others fetch none. Only a post in
/// a thread fetches the thread's root as well.
pub proof fn lemma_plan_message(actor_id: Option<String>, event: Event)
    ensures
        match event {
            Event::MessagePosted(ev) => planned(event_frame(actor_id, event))->0.message == Some(
                (ev.room_id@, ev.message_event_id@),
            ) && planned(event_frame(actor_id, event))->0.root_message == (match ev.thread_root_event_id {
                Some(root) => Some((ev.room_id@, root@)),
                None => None,
            }),
            Event::MessageEdited(ev) => planned(event_frame(actor_id, event))->0.message == Some(
                (ev.room_id@, ev.message_event_id@),
            ) && planned(event_frame(actor_id, event))->0.root_message is None,
            Event::ReactionAdded(ev) => planned(event_frame(actor_id, event))->0.message == Some(
                (ev.room_id@, ev.message_event_id@),
            ) && planned(event_frame(actor_id, event))->0.root_message is None,
            Event::ReactionRemoved(ev) => planned(event_frame(actor_id, event))->0.message == Some(
                (ev.room_id@, ev.message_event_id@),
            ) && planned(event_frame(actor_id, event))->0.root_message is None,
            Event::Other => true,
            _ => planned(event_frame(actor_id, event))->0.message is None
                && planned(event_frame(actor_id, event))->0.root_message is None,
        },
{
}

/// A mention fetches the mentioning user, a new direct conversation its
/// sender, and every other event the actor that the frame names, where it
/// names one. Only posts and edits fall back on the message's author.
pub proof fn lemma_plan_user(actor_id: Option<String>, event: Event)
    ensures
        match event {
            Event::MentionNotification(ev) => planned(event_frame(actor_id, event))->0.user == Some(
                Some(ev.actor_user_id@),
            ),
            Event::NewDirectMessageNotification(ev) => planned(event_frame(actor_id, event))->0.user
                == Some(Some(ev.sender_id@)),
            Event::Other => true,
            _ => planned(event_frame(actor_id, event))->0.user == (match actor_id {
                Some(a) => Some(Some(a@)),
                None => None,
            }),
        },
        !(event is Other) ==> (planned(event_frame(actor_id, event))->0.user_from_message <==> (
        event is MessagePosted || event is MessageEdited)),
{
}

/// Where the plan asked for a user and the fetch gave one, the handler gets
/// that user, whatever the event.
pub proof fn lemma_handler_gets_fetched_user(plan: EventPlan, fetched: Fetched, second: Option<User>)
    requires
        plan.user is Some,
        fetched.user is Some,
    ensures
        handler_user(plan, fetched, second) == fetched.user,
        second_user_fetch(plan, fetched) is None,
{
}

/// A plan that does not fall back on the message's author makes no second
/// lookup, and its handler gets the first round's user, or none where the
/// plan asked for no user.
pub proof fn lemma_no_fallback_without_message_event(
    plan: EventPlan,
    fetched: Fetched,
    second: Option<User>,
)
    requires
        !plan.user_from_message,
    ensures
        second_user_fetch(plan, fetched) is None,
        handler_user(plan, fetched, second) == (if plan.user is Some {
            fetched.user
        } else {
            None
        }),
{
}

/// The second lookup, where a plan falls back on the message's author and
/// the first round gave no user, asks for the author of the fetched message.
pub proof fn lemma_fallback_asks_for_author(plan: EventPlan, fetched: Fetched, second: Option<User>)
    requires
        plan.user_from_message,
        plan.user is None || fetched.user is None,
        fetched.message is Some,
    ensures
        second_user_fetch(plan, fetched) == Some(fetched.message->0.actor_id@),
        handler_user(plan, fetched, second) == second,
{
}

/// The handler of a posted or edited message gets the user fetched for the
/// event's actor; only where that gave none does it get the message's author,
/// looked up in the second round.
pub proof fn lemma_message_handler_user(plan: EventPlan, fetched: Fetched, second: Option<User>)
    requires
        plan.user_from_message,
    ensures
        handler_user(plan, fetched, second) == (if plan.user is Some && fetched.user is Some {
            fetched.user
        } else if fetched.message is Some {
            second
        } else {
            None
        }),
{
}

impl Bot {
    /// The plan for a server frame; `None` for frames without an event and for
    /// events that no handler takes.
    pub fn plan_event(&self, frame: RealtimeServerFrame) -> (r: Option<EventPlan>)
        ensures
            match r {
                Some(p) => planned(frame) == Some(p@),
                None => planned(frame) is None,
            },
    {
        let env = match frame.frame {
            Some(ServerFrame::Event(env)) => env,
            _ => {
                return None;
            },
        };
        let actor_id = env.actor_id;
        let actor_fetch = match &actor_id {
            Some(a) => Some(self.fetch_user(a.as_str())),
            None => None,
        };
        match env.event {
            Some(Event::MentionNotification(ev)) => Some(
                EventPlan {
                    handler: HandlerCall::BotMentioned,
                    room: self.fetch_room(ev.room_id.as_str()),
                    message: None,
                    root_message: None,
                    user: Some(self.fetch_user(ev.actor_user_id.as_str())),
                    user_from_message: false,
                },
            ),
            Some(Event::MessagePosted(ev)) => {
                let root_message = match &ev.thread_root_event_id {
                    Some(root) => Some(
                        self.fetch_message_raw(ev.room_id.as_str(), root.as_str()),
                    ),
                    None => None,
                };
                Some(
                    EventPlan {
                        handler: HandlerCall::MessageSent,
                        room: self.fetch_room(ev.room_id.as_str()),
                        message: Some(
                            self.fetch_message_raw(
                                ev.room_id.as_str(),
                                ev.message_event_id.as_str(),
                            ),
                        ),
                        root_message,
                        user: actor_fetch,
                        user_from_message: true,
                    },
                )
            },
            Some(Event::MessageEdited(ev)) => Some(
                EventPlan {
                    handler: HandlerCall::MessageEdited,
                    room: self.fetch_room(ev.room_id.as_str()),
                    message: Some(
                        self.fetch_message_raw(ev.room_id.as_str(), ev.message_event_id.as_str()),
                    ),
                    root_message: None,
                    user: actor_fetch,
                    user_from_message: true,
                },
            ),
            Some(Event::MessageRetracted(ev)) => {
                let room = self.fetch_room(ev.room_id.as_str());
                Some(
                    EventPlan {
                        handler: HandlerCall::MessageDeleted(ev.message_event_id),
                        room,
                        message: None,
                        root_message: None,
                        user: actor_fetch,
                        user_from_message: false,
                    },
                )
            },
            Some(Event::NewDirectMessageNotification(ev)) => Some(
                EventPlan {
                    handler: HandlerCall::DmStarted,
                    room: self.fetch_room(ev.room_id.as_str()),
                    message: None,
                    root_message: None,
                    user: Some(self.fetch_user(ev.sender_id.as_str())),
                    user_from_message: false,
                },
            ),
            Some(Event::ReactionAdded(ev)) => {
                let room = self.fetch_room(ev.room_id.as_str());
                let message = self.fetch_message_raw(
                    ev.room_id.as_str(),
                    ev.message_event_id.as_str(),
                );
                Some(
                    EventPlan {
                        handler: HandlerCall::ReactionAdded(ev.emoji),
                        room,
                        message: Some(message),
                        root_message: None,
                        user: actor_fetch,
                        user_from_message: false,
                    },
                )
            },
            Some(Event::ReactionRemoved(ev)) => {
                let room = self.fetch_room(ev.room_id.as_str());
                let message = self.fetch_message_raw(
                    ev.room_id.as_str(),
                    ev.message_event_id.as_str(),
                );
                Some(
                    EventPlan {
                        handler: HandlerCall::ReactionRemoved(ev.emoji),
                        room,
                        message: Some(message),
                        root_message: None,
                        user: actor_fetch,
                        user_from_message: false,
                    },
                )
            },
            _ => None,
        }
    }

    /// The second-round user fetch of a plan, where one is made.
    pub fn second_user_request(&self, plan: &EventPlan, fetched: &Fetched) -> (r: Option<
        GetUserRequest,
    >)
        ensures
            match r {
                Some(req) => second_user_fetch(*plan, *fetched) is Some && second_user_fetch(*plan, *fetched) == req@,
                None => second_user_fetch(*plan, *fetched) is None,
            },
    {
        if plan.user_from_message && (plan.user.is_none() || fetched.user.is_none()) {
            match &fetched.message {
                Some(m) => Some(self.fetch_user(m.actor_id.as_str())),
                None => None,
            }
        } else {
            None
        }
    }
}

/// The context and the handler for a planned event, once its fetches are done;
/// `second` is what the second-round user fetch gave.
pub fn dispatch(bot: Arc<Bot>, plan: EventPlan, fetched: Fetched, second: Option<User>) -> (r: (
    Ctx,
    HandlerCall,
))
    ensures
        r.0.bot == bot,
        r.0.room == fetched.room,
        r.0.message == (if plan.message is Some {
            fetched.message
        } else {
            None
        }),
        r.0.root_message == (if plan.root_message is Some {
            fetched.root_message
        } else {
            None
        }),
        r.0.user == handler_user(plan, fetched, second),
        r.1 == plan.handler,
{
    let first = if plan.user.is_some() {
        fetched.user
    } else {
        None
    };
    let takes_second = first.is_none() && plan.user_from_message && fetched.message.is_some();
    let mut ctx = Ctx::with_bot(bot);
    ctx.room = fetched.room;
    if plan.message.is_some() {
        ctx.message = fetched.message;
    }
    if plan.root_message.is_some() {
        ctx.root_message = fetched.root_message;
    }
    if first.is_some() {
        ctx.user = first;
    } else if takes_second {
        ctx.user = second;
    }
    (ctx, plan.handler)
}

} // verus!
