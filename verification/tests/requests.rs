use churro::bot::{login_body, Bot, LoginResult, LoginUser};
use churro::model::{
    CreateMessageRequest, DeleteCustomStatusRequest, GetMessageResponse, GetRoomResponse,
    GetUserResponse, Message, Room, RoomDetails, User, UserDetails, UserTarget,
};
use churro::ChurroError;

fn bob() -> Bot {
    let result = LoginResult {
        success: true,
        token: "tok123".to_string(),
        user: LoginUser { id: "u-bob".to_string(), login: "bob".to_string() },
    };
    let (bot, _config) = Bot::login("chat.example.com", result).unwrap();
    bot
}

fn message(id: &str, root: &str) -> Message {
    Message {
        id: id.to_string(),
        room_id: "r1".to_string(),
        thread_root_event_id: root.to_string(),
        actor_id: "u-alice".to_string(),
    }
}

#[test]
fn login_request_posts_json_to_auth_login() {
    let req = Bot::login_request("bob", "bobs_strong_password", "chat.example.com").unwrap();
    assert_eq!(req.url, "https://chat.example.com/auth/login");
    assert_eq!(req.body, "{\"login\":\"bob\",\"password\":\"bobs_strong_password\"}");
    let parsed: serde_json::Value = serde_json::from_str(&req.body).unwrap();
    assert_eq!(parsed["login"], "bob");
    assert_eq!(parsed["password"], "bobs_strong_password");
}

#[test]
fn login_request_escapes_strings() {
    let req = Bot::login_request("bo\"b", "a\\b\nc", "h").unwrap();
    assert_eq!(req.body, "{\"login\":\"bo\\\"b\",\"password\":\"a\\\\b\\nc\"}");
    let parsed: serde_json::Value = serde_json::from_str(&req.body).unwrap();
    assert_eq!(parsed["login"], "bo\"b");
    assert_eq!(parsed["password"], "a\\b\nc");
}

#[test]
fn login_request_escapes_control_characters() {
    let req = Bot::login_request("a\u{1}\u{1f}\t", "\u{8}\u{c}\r\u{7f}/é", "h").unwrap();
    assert_eq!(req.body, "{\"login\":\"a\\u0001\\u001f\\t\",\"password\":\"\\b\\f\\r\u{7f}/é\"}");
}

#[test]
fn login_body_frames_quoted_values() {
    assert_eq!(login_body("\"x\"", "\"y\""), "{\"login\":\"x\",\"password\":\"y\"}");
    assert_eq!(login_body("", ""), "{\"login\":,\"password\":}");
}

#[test]
fn login_builds_bot_and_config() {
    let result = LoginResult {
        success: true,
        token: "tok123".to_string(),
        user: LoginUser { id: "u-bob".to_string(), login: "bob".to_string() },
    };
    let (bot, config) = Bot::login("chat.example.com", result).unwrap();
    assert_eq!(bot.username(), "bob");
    assert_eq!(bot.user_id(), "u-bob");
    assert_eq!(bot.realtime_url(), "wss://chat.example.com/api/realtime");
    assert_eq!(config.authorization, "Bearer tok123");
    assert_eq!(config.base.text(), "https://chat.example.com/api/connect");
    assert_eq!(config.base.into_uri().to_string(), "https://chat.example.com/api/connect");
}

#[test]
fn login_with_bad_server_is_invalid_uri() {
    let result = LoginResult {
        success: true,
        token: "t".to_string(),
        user: LoginUser { id: "i".to_string(), login: "l".to_string() },
    };
    let r = Bot::login("bad host", result);
    assert!(matches!(r, Err(ChurroError::InvalidUri(_))));
}

#[test]
fn fetch_requests_name_their_targets() {
    let bot = bob();
    assert_eq!(bot.fetch_room("r1").room_id, "r1");
    assert_eq!(bot.fetch_user("u1").target, Some(UserTarget::UserId("u1".to_string())));
    let m = bot.fetch_message_raw("r1", "e1");
    assert_eq!((m.room_id.as_str(), m.event_id.as_str()), ("r1", "e1"));
    let room = Room { id: "r2".to_string() };
    let m = bot.fetch_message(&room, "e2");
    assert_eq!((m.room_id.as_str(), m.event_id.as_str()), ("r2", "e2"));
}

#[test]
fn responses_without_resource_are_not_found() {
    let room = Room { id: "r1".to_string() };
    let ok = Bot::room_from_response(GetRoomResponse {
        room: Some(RoomDetails { room: Some(room.clone()) }),
    });
    assert_eq!(ok.unwrap(), room);
    let e = Bot::room_from_response(GetRoomResponse { room: Some(RoomDetails { room: None }) });
    assert_eq!(e.unwrap_err().to_string(), "room resource not found");
    let e = Bot::room_from_response(GetRoomResponse { room: None });
    assert!(matches!(e, Err(ChurroError::ResourceNotFound("room"))));

    let user = User { id: "u1".to_string() };
    let ok = Bot::user_from_response(GetUserResponse {
        user: Some(UserDetails { user: Some(user.clone()) }),
    });
    assert_eq!(ok.unwrap(), user);
    let e = Bot::user_from_response(GetUserResponse { user: None });
    assert_eq!(e.unwrap_err().to_string(), "user resource not found");

    let msg = message("m1", "");
    assert_eq!(Bot::message_from_response(GetMessageResponse { message: Some(msg.clone()) }).unwrap(), msg);
    let e = Bot::message_from_response(GetMessageResponse { message: None });
    assert_eq!(e.unwrap_err().to_string(), "message resource not found");
}

fn cm(room: &str, body: &str, reply_to: &str, root: &str, stc: bool) -> CreateMessageRequest {
    CreateMessageRequest {
        room_id: room.to_string(),
        body: body.to_string(),
        in_reply_to: reply_to.to_string(),
        thread_root_event_id: root.to_string(),
        also_send_to_channel: stc,
    }
}

#[test]
fn send_and_reply_requests() {
    let bot = bob();
    let room = Room { id: "r1".to_string() };
    assert_eq!(bot.send_message_raw("r9", "hi"), cm("r9", "hi", "", "", false));
    assert_eq!(bot.send_message(&room, "hi"), cm("r1", "hi", "", "", false));
    assert_eq!(bot.reply_raw("r1", "m1", "yo", true), cm("r1", "yo", "m1", "", true));
    assert_eq!(bot.reply(&message("m1", ""), "yo", false), cm("r1", "yo", "m1", "", false));
    assert_eq!(bot.reply_in_thread_raw("r1", "m1", "t", true), cm("r1", "t", "m1", "m1", true));
    assert_eq!(bot.send_in_thread_raw("r1", "m0", "t", false), cm("r1", "t", "", "m0", false));
}

#[test]
fn reply_in_thread_depends_on_thread() {
    let bot = bob();
    assert_eq!(bot.reply_in_thread(&message("m1", ""), "t", false), cm("r1", "t", "m1", "m1", false));
    assert_eq!(bot.reply_in_thread(&message("m2", "m1"), "t", true), cm("r1", "t", "m2", "", true));
}

#[test]
fn send_in_thread_uses_thread_root() {
    let bot = bob();
    let root = bot.send_in_thread(&message("m1", ""), "t", false);
    let inner = bot.send_in_thread(&message("m2", "m1"), "t", false);
    assert_eq!(root, cm("r1", "t", "", "m1", false));
    assert_eq!(inner, root);
}

#[test]
fn status_and_room_membership_requests() {
    let bot = bob();
    let s = bot.set_status(":wave:", "around");
    assert_eq!((s.emoji.as_str(), s.text.as_str()), (":wave:", "around"));
    assert_eq!(bot.clear_status(), DeleteCustomStatusRequest {});
    let room = Room { id: "r5".to_string() };
    assert_eq!(bot.join_room_raw("r4").room_id, "r4");
    assert_eq!(bot.join_room(&room).room_id, "r5");
    assert_eq!(bot.leave_room_raw("r4").room_id, "r4");
    assert_eq!(bot.leave_room(&room).room_id, "r5");
}

#[test]
fn error_texts() {
    assert_eq!(ChurroError::WebsocketRecv("gone".to_string()).to_string(), "error receiving data on websocket: gone");
    assert_eq!(ChurroError::ResourceNotFound("room").to_string(), "room resource not found");
    let e = serde_json::from_str::<serde_json::Value>("{").unwrap_err();
    let text = e.to_string();
    assert_eq!(ChurroError::Json(e).to_string(), text);
}
