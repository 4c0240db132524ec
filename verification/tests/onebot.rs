use qqbot::frames::{frame_step, json_syntax_error, FrameStep};
use qqbot::daily_likes::{friend_ids, like_schedule, Friend, FriendList, SendLike, LIKES_PER_FRIEND};
use qqbot::dispatch::{
    group_user_line, parse_failure_report, private_item_step, route, ItemStep, Route,
};
use qqbot::iflow_json::AiMessageItem;
use qqbot::onebot_recv::{
    HeartBeat, ImageData, ImageMessage, MessageItem, NormalMessage, RecvMessageJson, Sender,
    TextData, TextMessage, UnUseMessage, UserMessage,
};
use qqbot::onebot_send::{Actions, Data, Params, SendGroupMsg, SendMessageJson, SendPrivateMsg, Type};

fn text_item(t: &str) -> MessageItem {
    MessageItem::Text(TextMessage { data: TextData { text: t.to_string() } })
}

fn image_item(url: &str) -> MessageItem {
    MessageItem::Image(ImageMessage {
        data: ImageData { file: "f.png".to_string(), file_size: "10".to_string(), url: url.to_string() },
    })
}

fn user_message(items: Vec<MessageItem>, group_id: Option<u64>) -> UserMessage {
    UserMessage {
        time: 1,
        user_id: 1001,
        sub_type: "friend".to_string(),
        self_id: 2002,
        raw_message: "hi".to_string(),
        message_type: "private".to_string(),
        message_seq: 3,
        message_id: -4,
        message_format: "array".to_string(),
        font: 0,
        sender: Sender { nickname: "bob".to_string(), user_id: 1001, card: None, role: None },
        message: items,
        group_id,
    }
}

#[test]
fn first_text_of_a_text_segment() {
    let m = user_message(vec![text_item("hello"), image_item("u")], None);
    assert_eq!(m.get_first_text(), "hello");
}

#[test]
fn first_text_of_a_picture() {
    let m = user_message(vec![image_item("u"), text_item("later")], None);
    assert_eq!(m.get_first_text(), "这是一张图片");
}

#[test]
fn role_message_is_a_user_entry() {
    let m = user_message(vec![text_item("hello")], None);
    match m.get_role_message() {
        AiMessageItem::User(a) => {
            assert_eq!(a.content, "hello");
            assert!(a.tool_calls.is_none());
        }
        _ => panic!("not a user entry"),
    }
}

#[test]
fn private_request() {
    let r = SendMessageJson::json_send_private_msg(123, "hey");
    assert!(matches!(r.action, Actions::SendPrivateMsg));
    assert_eq!(r.echo, "1");
    match r.params {
        Params::SendPrivateMsg(p) => {
            assert_eq!(p.user_id, 123);
            assert_eq!(p.message.len(), 1);
            assert!(matches!(p.message[0].kind, Type::Text));
            assert!(matches!(&p.message[0].data, Data::Text { text } if text == "hey"));
        }
        _ => panic!("wrong params"),
    }
}

#[test]
fn group_request() {
    let r = SendMessageJson::json_send_group_msg(456, "all");
    assert!(matches!(r.action, Actions::SendGroupMsg));
    assert_eq!(r.echo, "1");
    match r.params {
        Params::SendGroupMsg(p) => {
            assert_eq!(p.group_id, 456);
            assert_eq!(p.message.len(), 1);
            assert!(matches!(&p.message[0].data, Data::Text { text } if text == "all"));
        }
        _ => panic!("wrong params"),
    }
}

#[test]
fn message_params() {
    let p = SendPrivateMsg::new(9, "x");
    assert_eq!(p.user_id, 9);
    assert!(matches!(&p.message[0].data, Data::Text { text } if text == "x"));
    let g = SendGroupMsg::new(8, "y");
    assert_eq!(g.group_id, 8);
    assert!(matches!(&g.message[0].data, Data::Text { text } if text == "y"));
}

#[test]
fn routes() {
    let ack = RecvMessageJson::UnUseMessage(UnUseMessage { echo: "1".to_string() });
    assert!(matches!(route(ack, 5), Route::Ignore));
    let beat = RecvMessageJson::NormalMessage(NormalMessage::MetaEvent(HeartBeat {
        time: 1,
        self_id: 2,
        meta_event_type: "heartbeat".to_string(),
    }));
    assert!(matches!(route(beat, 5), Route::Ignore));
    let own = RecvMessageJson::NormalMessage(NormalMessage::MessageSent(user_message(vec![], None)));
    assert!(matches!(route(own, 5), Route::Ignore));
    let group = RecvMessageJson::NormalMessage(NormalMessage::Message(user_message(
        vec![text_item("a")],
        Some(77),
    )));
    assert!(matches!(route(group, 5), Route::Group(m) if m.group_id == Some(77)));
    let private =
        RecvMessageJson::NormalMessage(NormalMessage::Message(user_message(vec![text_item("a")], None)));
    assert!(matches!(route(private, 5), Route::Private(m) if m.user_id == 1001));
    let notice = RecvMessageJson::NormalMessage(NormalMessage::Notice("{\"a\":1}".to_string()));
    assert!(matches!(route(notice, 5),
        Route::NotifyManager { user_id: 5, text } if text == "{\"a\":1}"));
}

#[test]
fn failure_report() {
    assert_eq!(parse_failure_report("bad", "{x}"), "发生错误bad,在序列化\n{x}");
}

#[test]
fn group_line() {
    assert_eq!(group_user_line("bob", "hi"), "用户bob:hi");
}

#[test]
fn item_steps() {
    assert!(matches!(private_item_step(&text_item("t")), ItemStep::Remember(s) if s == "t"));
    assert!(matches!(private_item_step(&image_item("http://p")), ItemStep::Describe(s) if s == "http://p"));
}

#[test]
fn daily_likes() {
    assert_eq!(like_schedule(), "0 34 15 * * *");
    let like = SendLike::new(280179863);
    assert_eq!(like.user_id, 280179863);
    assert_eq!(like.times, 10);
    assert_eq!(LIKES_PER_FRIEND, 10);
    let list = FriendList { data: vec![Friend { user_id: 3 }, Friend { user_id: 1 }] };
    assert_eq!(friend_ids(&list), vec![3, 1]);
    assert!(friend_ids(&FriendList { data: vec![] }).is_empty());
}

#[test]
fn frames() {
    assert!(matches!(frame_step("{\"post_type\":\"meta_event\"}"), FrameStep::Handle));
    assert!(matches!(frame_step("not json"), FrameStep::Stop(m) if !m.is_empty()));
    assert!(json_syntax_error("[1, 2]").is_none());
    assert!(json_syntax_error("").is_some());
}
