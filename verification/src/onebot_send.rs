//! Actions the bot asks the OneBot server to perform.

use vstd::prelude::*;

verus! {

/// A request to send a chat message.
pub struct SendMessageJson {
    pub action: Actions,
    pub echo: String,
    pub params: Params,
}

/// The action a request asks for.
pub enum Actions {
    SendPrivateMsg,
    SendGroupMsg,
}

/// The parameters of a request, by action.
pub enum Params {
    SendPrivateMsg(SendPrivateMsg),
    SendGroupMsg(SendGroupMsg),
}

/// Parameters of a private message.
pub struct SendPrivateMsg {
    pub user_id: u64,
    pub message: Vec<Message>,
}

/// Parameters of a group message.
pub struct SendGroupMsg {
    pub group_id: u64,
    pub message: Vec<Message>,
}

/// One segment of an outgoing message; `kind` is the segment's type.
pub struct Message {
    pub kind: Type,
    pub data: Data,
}

/// Type of an outgoing segment.
pub enum Type {
    Text,
    Reply,
    Image,
}

/// Content of an outgoing segment.
pub enum Data {
    Text { text: String },
    Id { id: String },
    File { file: String },
}

/// `message` is one text segment that says `text`.
pub open spec fn is_text_message(message: Seq<Message>, text: Seq<char>) -> bool {
    &&& message.len() == 1
    &&& message[0].kind is Text
    &&& message[0].data matches Data::Text { text: t } && t@ == text
}

/// The action of `request` names the kind of its parameters.
pub open spec fn action_agrees(request: SendMessageJson) -> bool {
    match request.action {
        Actions::SendPrivateMsg => request.params is SendPrivateMsg,
        Actions::SendGroupMsg => request.params is SendGroupMsg,
    }
}

/// An outgoing text message carries exactly the given text, whatever its
/// length: one text segment whose text is `text`.
pub proof fn lemma_text_message_carries_text(message: Seq<Message>, text: Seq<char>)
    requires
        is_text_message(message, text),
    ensures
        message.len() == 1,
        message[0].data matches Data::Text { text: t } && t@ == text,
        message[0].data matches Data::Text { text: t } && t@.len() == text.len(),
{
}

fn text_segment(text: &str) -> (r: Vec<Message>)
    ensures
        is_text_message(r@, text@),
        r@[0].data matches Data::Text { text: t } && t@ == text@,
{
    vec![Message { data: Data::Text { text: String::from_str(text) }, kind: Type::Text }]
}

impl SendPrivateMsg {
    /// A private text message to `user_id`.
    pub fn new(user_id: u64, text: &str) -> (r: Self)
        ensures
            r.user_id == user_id,
            is_text_message(r.message@, text@),
            r.message@[0].data matches Data::Text { text: t } && t@ == text@,
    {
        Self { user_id, message: text_segment(text) }
    }
}

impl SendGroupMsg {
    /// A text message to the group `group_id`.
    pub fn new(group_id: u64, text: &str) -> (r: Self)
        ensures
            r.group_id == group_id,
            is_text_message(r.message@, text@),
            r.message@[0].data matches Data::Text { text: t } && t@ == text@,
    {
        Self { group_id, message: text_segment(text) }
    }
}

impl SendMessageJson {
    /// The request that sends `text` to the user `user_id` in private.
    pub fn json_send_private_msg(user_id: u64, text: &str) -> (r: Self)
        ensures
            r.action is SendPrivateMsg,
            r.echo@ == "1"@,
            r.params matches Params::SendPrivateMsg(p) && p.user_id == user_id
                && is_text_message(p.message@, text@),
            action_agrees(r),
    {
        Self {
            action: Actions::SendPrivateMsg,
            echo: String::from_str("1"),
            params: Params::SendPrivateMsg(SendPrivateMsg::new(user_id, text)),
        }
    }

    /// The request that sends `text` to the group `group_id`.
    pub fn json_send_group_msg(group_id: u64, text: &str) -> (r: Self)
        ensures
            r.action is SendGroupMsg,
            r.echo@ == "1"@,
            r.params matches Params::SendGroupMsg(p) && p.group_id == group_id
                && is_text_message(p.message@, text@),
            action_agrees(r),
    {
        Self {
            action: Actions::SendGroupMsg,
            echo: String::from_str("1"),
            params: Params::SendGroupMsg(SendGroupMsg::new(group_id, text)),
        }
    }
}

} // verus!
