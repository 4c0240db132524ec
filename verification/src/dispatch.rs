//! What the bot does with each event it receives: which events it answers,
//! where the answer goes, and what enters the conversation memory.

use vstd::prelude::*;
use crate::memory::{is_system_entry, assistant_entries_nonempty};
use crate::onebot_recv::{MessageItem, NormalMessage, RecvMessageJson, UserMessage};
use crate::qq_group::{GroupInfo, QQGroup};
use crate::qq_user::QQUser;

verus! {

/// Where an event leads.
pub enum Route {
    /// Nothing is done.
    Ignore,
    /// A group message: it is answered in its group.
    Group(UserMessage),
    /// A private message: it is answered to its author.
    Private(UserMessage),
    /// A notice: its text is forwarded to the manager in private.
    NotifyManager { user_id: u64, text: String },
}

/// The route of an event. Messages with a group are answered in the group,
/// the others in private; notices are forwarded to the manager `manager_qq_id`;
/// acknowledgements, meta events and the bot's own messages are ignored.
pub fn route(event: RecvMessageJson, manager_qq_id: u64) -> (r: Route)
    ensures
        match event {
            RecvMessageJson::UnUseMessage(_) => r is Ignore,
            RecvMessageJson::NormalMessage(NormalMessage::MetaEvent(_)) => r is Ignore,
            RecvMessageJson::NormalMessage(NormalMessage::MessageSent(_)) => r is Ignore,
            RecvMessageJson::NormalMessage(NormalMessage::Message(m)) => if m.group_id is Some {
                r == Route::Group(m)
            } else {
                r == Route::Private(m)
            },
            RecvMessageJson::NormalMessage(NormalMessage::Notice(text)) => r == (Route::NotifyManager {
                user_id: manager_qq_id,
                text,
            }),
        },
{
    match event {
        RecvMessageJson::UnUseMessage(_) => Route::Ignore,
        RecvMessageJson::NormalMessage(normal) => match normal {
            NormalMessage::MetaEvent(_) => Route::Ignore,
            NormalMessage::MessageSent(_) => Route::Ignore,
            NormalMessage::Message(m) => {
                if m.group_id.is_some() {
                    Route::Group(m)
                } else {
                    Route::Private(m)
                }
            },
            NormalMessage::Notice(text) => Route::NotifyManager { user_id: manager_qq_id, text },
        },
    }
}

/// The report sent to the manager about an event text that could not be read:
/// the reader's error, then the text itself.
pub fn parse_failure_report(error: &str, event_text: &str) -> (r: String)
    ensures
        r@ == "发生错误"@ + error@ + ",在序列化\n"@ + event_text@,
{
    let mut r = String::from_str("发生错误");
    r.append(error);
    r.append(",在序列化\n");
    r.append(event_text);
    r
}

/// How a group message enters the group's conversation: who said it, then
/// what they said.
pub fn group_user_line(nickname: &str, text: &str) -> (r: String)
    ensures
        r@ == "用户"@ + nickname@ + ":"@ + text@,
{
    let mut r = String::from_str("用户");
    r.append(nickname);
    r.append(":");
    r.append(text);
    r
}

/// A group seen for the first time: its conversation starts with the bot's
/// instructions `bot_prompt`.
pub fn new_group_conversation(group_id: u64, group_info: Option<GroupInfo>, bot_prompt: &str) -> (r:
    QQGroup)
    ensures
        r.group_id == group_id,
        r.group_info == group_info,
        r.memory@.len() == 1,
        is_system_entry(r.memory@[0], bot_prompt@),
        assistant_entries_nonempty(r.memory@),
{
    let mut group = QQGroup::new(group_id, group_info);
    group.push_memory_system(bot_prompt);
    group
}

/// A user seen for the first time: their conversation starts with the bot's
/// instructions `bot_prompt`.
pub fn new_user_conversation(user_id: u64, user_name: &str, bot_prompt: &str) -> (r: QQUser)
    ensures
        r.user_id == user_id,
        r.user_name@ == user_name@,
        r.memory@.len() == 1,
        is_system_entry(r.memory@[0], bot_prompt@),
        assistant_entries_nonempty(r.memory@),
{
    let mut user = QQUser::new(user_id, user_name);
    user.push_memory_system(bot_prompt);
    user
}

/// What a segment of a private message adds to the conversation.
pub enum ItemStep {
    /// A text: it is added as said by the user.
    Remember(String),
    /// A picture: it is described by the vision model, and the description
    /// is added as a system entry.
    Describe(String),
}

/// The step for one segment of a private message.
pub fn private_item_step(item: &MessageItem) -> (r: ItemStep)
    ensures
        match *item {
            MessageItem::Text(t) => r == ItemStep::Remember(t.data.text),
            MessageItem::Image(i) => r == ItemStep::Describe(i.data.url),
        },
{
    match item {
        MessageItem::Text(t) => ItemStep::Remember(t.data.text.clone()),
        MessageItem::Image(i) => ItemStep::Describe(i.data.url.clone()),
    }
}

} // verus!
