//! Events that the OneBot server pushes to the bot.

use vstd::prelude::*;
use crate::iflow_json::{AiMessageItem, AiMessages, is_plain};

verus! {

/// Any event text the server sends.
#[derive(Debug)]
pub enum RecvMessageJson {
    /// The acknowledgement the server gives for each message the bot sends.
    UnUseMessage(UnUseMessage),
    NormalMessage(NormalMessage),
}

/// Acknowledgement of a sent message, identified by its echo token.
#[derive(Debug)]
pub struct UnUseMessage {
    pub echo: String,
}

/// An event, by its post type.
#[derive(Debug)]
pub enum NormalMessage {
    /// A message the bot itself sent.
    MessageSent(UserMessage),
    /// A heartbeat or a lifecycle event.
    MetaEvent(HeartBeat),
    /// A message someone sent to the bot, in private or in a group.
    Message(UserMessage),
    /// A notice, kept as the JSON text of the whole event.
    Notice(String),
}

/// A meta event.
#[derive(Debug)]
pub struct HeartBeat {
    pub time: u64,
    pub self_id: u64,
    pub meta_event_type: String,
}

/// A chat message and where it came from.
#[derive(Debug, Clone)]
pub struct UserMessage {
    pub time: u64,
    pub user_id: u64,
    pub sub_type: String,
    pub self_id: u64,
    pub raw_message: String,
    pub message_type: String,
    pub message_seq: u64,
    pub message_id: i64,
    pub message_format: String,
    pub font: u64,
    pub sender: Sender,
    pub message: Vec<MessageItem>,
    pub group_id: Option<u64>,
}

/// One segment of a chat message.
#[derive(Debug, Clone)]
pub enum MessageItem {
    Text(TextMessage),
    Image(ImageMessage),
}

/// A text segment.
#[derive(Debug, Clone)]
pub struct TextMessage {
    pub data: TextData,
}

/// The text of a text segment.
#[derive(Debug, Clone)]
pub struct TextData {
    pub text: String,
}

/// An image segment.
#[derive(Debug, Clone)]
pub struct ImageMessage {
    pub data: ImageData,
}

/// Where an image segment's picture is.
#[derive(Debug, Clone)]
pub struct ImageData {
    pub file: String,
    pub file_size: String,
    pub url: String,
}

/// A sticker segment.
#[derive(Debug, Clone)]
pub struct FaceMessage {
    pub data: FaceData,
}

/// Where a sticker's picture is.
#[derive(Debug, Clone)]
pub struct FaceData {
    pub url: String,
}

/// The author of a chat message.
#[derive(Debug, Clone)]
pub struct Sender {
    pub nickname: String,
    pub user_id: u64,
    pub card: Option<String>,
    pub role: Option<String>,
}

/// What the bot reads out of a segment: its text, or a fixed stand-in for a
/// picture.
pub open spec fn segment_text(item: MessageItem) -> Seq<char> {
    match item {
        MessageItem::Text(t) => t.data.text@,
        MessageItem::Image(_) => "这是一张图片"@,
    }
}

/// A text segment reads as its whole text, whatever its length; only a
/// picture reads as the stand-in.
pub proof fn lemma_segment_text_is_whole_text(item: MessageItem)
    ensures
        item matches MessageItem::Text(t) ==> segment_text(item) == t.data.text@,
        item is Image ==> segment_text(item) == "这是一张图片"@,
{
}

impl UserMessage {
    /// What the first segment says: its text, or a stand-in for a picture.
    pub fn get_first_text(&self) -> (r: String)
        requires
            self.message@.len() > 0,
        ensures
            r@ == segment_text(self.message@[0]),
            self.message@[0] matches MessageItem::Text(t) ==> r@ == t.data.text@,
    {
        let first_message = &self.message[0];
        match first_message {
            MessageItem::Text(text) => text.data.text.clone(),
            MessageItem::Image(_) => String::from_str("这是一张图片"),
        }
    }

    /// The first segment as a user entry of a conversation.
    pub fn get_role_message(&self) -> (r: AiMessageItem)
        requires
            self.message@.len() > 0,
        ensures
            r matches AiMessageItem::User(m) && is_plain(m, segment_text(self.message@[0])),
    {
        let text = self.get_first_text();
        AiMessageItem::User(AiMessages::new(text.as_str()))
    }
}

} // verus!
