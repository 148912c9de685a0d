use churro::bot::{Bot, LoginResult, LoginUser};
use churro::ctx::Ctx;
use churro::events::{dispatch, EventPlan, Fetched, HandlerCall};
use churro::listen::{ListenerAction, ListenerState, Outcome};
use churro::model::{CreateMessageRequest, GetUserRequest, Message, Room, User, UserTarget};
use churro::realtime::{
    ClientFrame, Event, MentionNotification, MessageEdited, MessagePosted, MessageRetracted,
    NewDirectMessageNotification, ReactionChanged, RealtimeClientHello, RealtimeEventEnvelope,
    RealtimeServerFrame, RealtimeSubscribeEvents, ServerFrame,
};
use churro::ChurroError;
use std::sync::Arc;

fn bob() -> Bot {
    let result = LoginResult {
        success: true,
        token: "tok123".to_string(),
        user: LoginUser { id: "u-bob".to_string(), login: "bob".to_string() },
    };
    Bot::login("chat.example.com", result).unwrap().0
}

fn message(id: &str, root: &str) -> Message {
    Message {
        id: id.to_string(),
        room_id: "r1".to_string(),
        thread_root_event_id: root.to_string(),
        actor_id: "u-alice".to_string(),
    }
}

fn cm(room: &str, body: &str, reply_to: &str, root: &str, stc: bool) -> CreateMessageRequest {
    CreateMessageRequest {
        room_id: room.to_string(),
        body: body.to_string(),
        in_reply_to: reply_to.to_string(),
        thread_root_event_id: root.to_string(),
        also_send_to_channel: stc,
    }
}

fn user_req(id: &str) -> GetUserRequest {
    GetUserRequest { target: Some(UserTarget::UserId(id.to_string())) }
}

fn frame(actor: Option<&str>, event: Event) -> RealtimeServerFrame {
    RealtimeServerFrame {
        frame: Some(ServerFrame::Event(RealtimeEventEnvelope {
            actor_id: actor.map(|a| a.to_string()),
            event: Some(event),
        })),
    }
}

#[test]
fn ctx_with_bot_is_empty() {
    let ctx = Ctx::with_bot(Arc::new(bob()));
    assert!(ctx.room.is_none() && ctx.user.is_none() && ctx.message.is_none() && ctx.root_message.is_none());
    assert_eq!(ctx.bot.username(), "bob");
}

#[test]
fn ctx_without_message_or_room_fails() {
    let ctx = Ctx::with_bot(Arc::new(bob()));
    assert_eq!(ctx.reply("x", false).unwrap_err().to_string(), "message resource not found");
    assert_eq!(ctx.reply_in_thread("x", false).unwrap_err().to_string(), "message resource not found");
    assert_eq!(ctx.send_in_thread("x", false).unwrap_err().to_string(), "message resource not found");
    assert!(matches!(ctx.send("x", false), Err(ChurroError::ResourceNotFound("room"))));
}

#[test]
fn ctx_requests_follow_the_message() {
    let mut ctx = Ctx::with_bot(Arc::new(bob()));
    ctx.room = Some(Room { id: "r1".to_string() });
    assert_eq!(ctx.send("plain", true).unwrap(), cm("r1", "plain", "", "", false));
    ctx.message = Some(message("m1", ""));
    assert_eq!(ctx.reply("a", true).unwrap(), cm("r1", "a", "m1", "", true));
    assert_eq!(ctx.reply_in_thread("b", false).unwrap(), cm("r1", "b", "m1", "m1", false));
    assert_eq!(ctx.send_in_thread("c", false).unwrap(), cm("r1", "c", "", "m1", false));
    assert_eq!(ctx.send("d", true).unwrap(), cm("r1", "d", "", "", false));
    ctx.message = Some(message("m2", "m1"));
    assert_eq!(ctx.send("e", true).unwrap(), cm("r1", "e", "", "m1", true));
    assert_eq!(ctx.reply_in_thread("f", false).unwrap(), cm("r1", "f", "m2", "", false));
}

#[test]
fn handshake_sends_hello_then_subscribe() {
    let bot = bob();
    let (s, a) = bot.listen_step(ListenerState::Connecting, Outcome::Done);
    assert_eq!(s, ListenerState::AwaitingServerHello);
    match a {
        ListenerAction::SendAndReceive(f) => assert_eq!(
            f.frame,
            Some(ClientFrame::Hello(RealtimeClientHello {
                protocol_version: 1,
                bearer_token: Some("tok123".to_string()),
            }))
        ),
        other => panic!("unexpected {:?}", other),
    }
    let (s, a) = bot.listen_step(s, Outcome::Done);
    assert_eq!(s, ListenerState::AwaitingInitialMessage);
    match a {
        ListenerAction::SendAndReceive(f) => {
            assert_eq!(f.frame, Some(ClientFrame::SubscribeEvents(RealtimeSubscribeEvents {})))
        },
        other => panic!("unexpected {:?}", other),
    }
    let (s, a) = bot.listen_step(s, Outcome::Done);
    assert_eq!(s, ListenerState::Listening);
    assert!(matches!(a, ListenerAction::StartReading));
    let (s, a) = bot.listen_step(s, Outcome::Done);
    assert_eq!(s, ListenerState::Listening);
    assert!(matches!(a, ListenerAction::Receive));
    let (s, a) = bot.listen_step(s, Outcome::Ended);
    assert_eq!(s, ListenerState::Stopped);
    assert!(matches!(a, ListenerAction::Stop));
    let (s, a) = bot.listen_step(s, Outcome::Done);
    assert_eq!(s, ListenerState::Stopped);
    assert!(matches!(a, ListenerAction::Stop));
}

#[test]
fn handshake_failures() {
    let bot = bob();
    let (s, a) = bot.listen_step(ListenerState::AwaitingServerHello, Outcome::Ended);
    assert_eq!(s, ListenerState::Stopped);
    match a {
        ListenerAction::Fail(e) => assert_eq!(e.to_string(), "error receiving data on websocket: couldn't receive server hello"),
        other => panic!("unexpected {:?}", other),
    }
    let (_, a) = bot.listen_step(ListenerState::AwaitingInitialMessage, Outcome::Ended);
    match a {
        ListenerAction::Fail(ChurroError::WebsocketRecv(m)) => assert_eq!(m, "couldn't receive initial message"),
        other => panic!("unexpected {:?}", other),
    }
    let err = tokio_tungstenite::tungstenite::Error::ConnectionClosed;
    let (s, a) = bot.listen_step(ListenerState::AwaitingInitialMessage, Outcome::Failed(err));
    assert_eq!(s, ListenerState::Stopped);
    assert!(matches!(a, ListenerAction::Fail(ChurroError::Websocket(_))));
    let err = tokio_tungstenite::tungstenite::Error::AlreadyClosed;
    let (_, a) = bot.listen_step(ListenerState::Connecting, Outcome::Failed(err));
    assert!(matches!(a, ListenerAction::Fail(ChurroError::Websocket(_))));
    let err = tokio_tungstenite::tungstenite::Error::AlreadyClosed;
    let (s, a) = bot.listen_step(ListenerState::Listening, Outcome::Failed(err));
    assert_eq!(s, ListenerState::Stopped);
    assert!(matches!(a, ListenerAction::Stop));
}

#[test]
fn frames_without_events_are_skipped() {
    let bot = bob();
    assert_eq!(bot.plan_event(RealtimeServerFrame { frame: None }), None);
    assert_eq!(bot.plan_event(RealtimeServerFrame { frame: Some(ServerFrame::Other) }), None);
    let empty = RealtimeServerFrame {
        frame: Some(ServerFrame::Event(RealtimeEventEnvelope { actor_id: None, event: None })),
    };
    assert_eq!(bot.plan_event(empty), None);
    assert_eq!(bot.plan_event(frame(Some("a"), Event::Other)), None);
}

#[test]
fn plans_per_event_kind() {
    let bot = bob();
    let p = bot.plan_event(frame(Some("a"), Event::MentionNotification(MentionNotification {
        room_id: "r1".to_string(),
        actor_user_id: "u7".to_string(),
    }))).unwrap();
    assert_eq!(p.handler, HandlerCall::BotMentioned);
    assert_eq!(p.room.room_id, "r1");
    assert_eq!(p.user, Some(user_req("u7")));
    assert!(p.message.is_none() && p.root_message.is_none() && !p.user_from_message);

    let p = bot.plan_event(frame(Some("a"), Event::MessagePosted(MessagePosted {
        room_id: "r1".to_string(),
        message_event_id: "m2".to_string(),
        thread_root_event_id: Some("m1".to_string()),
    }))).unwrap();
    assert_eq!(p.handler, HandlerCall::MessageSent);
    assert_eq!(p.message.as_ref().unwrap().event_id, "m2");
    assert_eq!(p.root_message.as_ref().unwrap().event_id, "m1");
    assert_eq!(p.root_message.as_ref().unwrap().room_id, "r1");
    assert_eq!(p.user, Some(user_req("a")));
    assert!(p.user_from_message);

    let p = bot.plan_event(frame(None, Event::MessagePosted(MessagePosted {
        room_id: "r1".to_string(),
        message_event_id: "m2".to_string(),
        thread_root_event_id: None,
    }))).unwrap();
    assert!(p.root_message.is_none() && p.user.is_none());

    let p = bot.plan_event(frame(Some("a"), Event::MessageEdited(MessageEdited {
        room_id: "r1".to_string(),
        message_event_id: "m3".to_string(),
    }))).unwrap();
    assert_eq!(p.handler, HandlerCall::MessageEdited);
    assert_eq!(p.message.as_ref().unwrap().event_id, "m3");
    assert!(p.root_message.is_none() && p.user_from_message);

    let p = bot.plan_event(frame(Some("a"), Event::MessageRetracted(MessageRetracted {
        room_id: "r1".to_string(),
        message_event_id: "m4".to_string(),
    }))).unwrap();
    assert_eq!(p.handler, HandlerCall::MessageDeleted("m4".to_string()));
    assert!(p.message.is_none());
    assert_eq!(p.user, Some(user_req("a")));

    let p = bot.plan_event(frame(Some("a"), Event::NewDirectMessageNotification(NewDirectMessageNotification {
        room_id: "dm".to_string(),
        sender_id: "u9".to_string(),
    }))).unwrap();
    assert_eq!(p.handler, HandlerCall::DmStarted);
    assert_eq!(p.room.room_id, "dm");
    assert_eq!(p.user, Some(user_req("u9")));

    let reaction = ReactionChanged {
        room_id: "r1".to_string(),
        message_event_id: "m5".to_string(),
        emoji: ":+1:".to_string(),
    };
    let p = bot.plan_event(frame(Some("a"), Event::ReactionAdded(reaction.clone()))).unwrap();
    assert_eq!(p.handler, HandlerCall::ReactionAdded(":+1:".to_string()));
    assert_eq!(p.message.as_ref().unwrap().event_id, "m5");
    let p = bot.plan_event(frame(None, Event::ReactionRemoved(reaction))).unwrap();
    assert_eq!(p.handler, HandlerCall::ReactionRemoved(":+1:".to_string()));
    assert!(p.user.is_none());
}

fn posted_plan(bot: &Bot) -> EventPlan {
    bot.plan_event(frame(Some("a"), Event::MessagePosted(MessagePosted {
        room_id: "r1".to_string(),
        message_event_id: "m2".to_string(),
        thread_root_event_id: None,
    }))).unwrap()
}

#[test]
fn message_handler_user_comes_from_second_round() {
    let bot = Arc::new(bob());
    let plan = posted_plan(&bot);
    let author = User { id: "u-alice".to_string() };
    let fetched = Fetched {
        room: Some(Room { id: "r1".to_string() }),
        message: Some(message("m2", "")),
        root_message: None,
        user: None,
    };
    assert_eq!(bot.second_user_request(&plan, &fetched), Some(user_req("u-alice")));
    let (ctx, call) = dispatch(bot.clone(), plan.clone(), fetched, Some(author.clone()));
    assert_eq!(call, HandlerCall::MessageSent);
    assert_eq!(ctx.user, Some(author.clone()));
    assert_eq!(ctx.message, Some(message("m2", "")));
    assert_eq!(ctx.room, Some(Room { id: "r1".to_string() }));

    let fetched = Fetched {
        room: None,
        message: Some(message("m2", "")),
        root_message: None,
        user: Some(User { id: "a".to_string() }),
    };
    assert_eq!(bot.second_user_request(&plan, &fetched), None);
    let (ctx, _) = dispatch(bot.clone(), plan, fetched, Some(author));
    assert_eq!(ctx.user, Some(User { id: "a".to_string() }));
    assert_eq!(ctx.room, None);
}

#[test]
fn message_handler_gets_actor_when_other_fetches_fail() {
    let bot = Arc::new(bob());
    let plan = bot.plan_event(frame(Some("u1"), Event::MessagePosted(MessagePosted {
        room_id: "r1".to_string(),
        message_event_id: "m1".to_string(),
        thread_root_event_id: None,
    }))).unwrap();
    let fetched = Fetched { room: None, message: None, root_message: None, user: Some(User { id: "u1".to_string() }) };
    assert_eq!(bot.second_user_request(&plan, &fetched), None);
    let (ctx, call) = dispatch(bot, plan, fetched, None);
    assert_eq!(call, HandlerCall::MessageSent);
    assert_eq!(ctx.user.as_ref().map(|u| u.id.as_str()), Some("u1"));
}

#[test]
fn edited_message_without_actor_falls_back_to_author() {
    let bot = Arc::new(bob());
    let plan = bot.plan_event(frame(None, Event::MessageEdited(MessageEdited {
        room_id: "r1".to_string(),
        message_event_id: "m2".to_string(),
    }))).unwrap();
    let fetched = Fetched { room: None, message: Some(message("m2", "")), root_message: None, user: None };
    assert_eq!(bot.second_user_request(&plan, &fetched), Some(user_req("u-alice")));
    let author = User { id: "u-alice".to_string() };
    let (ctx, _) = dispatch(bot, plan, fetched, Some(author.clone()));
    assert_eq!(ctx.user, Some(author));
}

#[test]
fn handler_bot_is_a_faithful_clone() {
    let bot = bob();
    let copy = bot.clone();
    assert_eq!(copy.username(), "bob");
    assert_eq!(copy.user_id(), "u-bob");
    assert_eq!(copy.realtime_url(), bot.realtime_url());
    let ctx = Ctx::with_bot(Arc::new(copy));
    assert_eq!(ctx.bot.user_id(), bot.user_id());
}

#[test]
fn other_handlers_get_first_round_user() {
    let bot = Arc::new(bob());
    let plan = bot.plan_event(frame(Some("a"), Event::MessageRetracted(MessageRetracted {
        room_id: "r1".to_string(),
        message_event_id: "m4".to_string(),
    }))).unwrap();
    let fetched = Fetched {
        room: Some(Room { id: "r1".to_string() }),
        message: Some(message("m4", "")),
        root_message: None,
        user: Some(User { id: "a".to_string() }),
    };
    assert_eq!(bot.second_user_request(&plan, &fetched), None);
    let (ctx, call) = dispatch(bot, plan, fetched, None);
    assert_eq!(call, HandlerCall::MessageDeleted("m4".to_string()));
    assert_eq!(ctx.user, Some(User { id: "a".to_string() }));
    assert_eq!(ctx.message, None);
}
