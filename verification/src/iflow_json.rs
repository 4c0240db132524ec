//! Request and response models of the iFlow chat-completion API.

use vstd::prelude::*;

verus! {

/// Answer of the key endpoint of the iFlow platform.
#[derive(Debug, Clone)]
pub struct IflowApiKey {
    pub success: bool,
    pub code: String,
    pub message: String,
    pub data: ApiKeyData,
}

/// The key record inside [`IflowApiKey`].
#[derive(Debug, Clone)]
pub struct ApiKeyData {
    pub has_expired: bool,
    pub name: String,
    pub api_key_mask: String,
}

/// Body of a chat-completion request.
#[derive(Debug, Clone)]
pub struct IflowSendJson {
    pub model: String,
    pub messages: Vec<AiMessageItem>,
    pub stream: bool,
    pub tools: Option<Vec<Tool>>,
}

/// A tool that the model may call; `kind` is the tool's type tag.
#[derive(Debug, Clone)]
pub struct Tool {
    pub kind: String,
    pub function: FunctionInfo,
}

/// Description of a callable tool.
#[derive(Debug, Clone)]
pub struct FunctionInfo {
    pub description: String,
    pub name: String,
    pub parameters: Option<String>,
    pub strict: bool,
}

/// Body of a chat-completion answer.
#[derive(Debug, Clone)]
pub struct IflowRecvJson {
    pub id: String,
    pub choices: Vec<Choice>,
}

/// One candidate answer.
#[derive(Debug, Clone)]
pub struct Choice {
    pub message: ChoicesMessage,
    pub finish_reason: String,
}

/// The message of a candidate answer.
#[derive(Debug, Clone)]
pub struct ChoicesMessage {
    pub role: String,
    pub content: String,
    pub reasoning_content: Option<String>,
    pub tool_calls: Option<Vec<FunctionTool>>,
}

/// A tool call requested by the model.
#[derive(Debug, Clone)]
pub struct FunctionTool {
    pub index: u64,
    pub id: String,
    pub kind: String,
    pub function: Function,
}

/// Name and arguments of a requested tool call.
#[derive(Debug, Clone)]
pub struct Function {
    pub arguments: String,
    pub name: String,
}

/// One entry of a conversation, tagged by its role.
#[derive(Debug, Clone)]
pub enum AiMessageItem {
    User(AiMessages),
    Assistant(AiMessages),
    System(AiMessages),
    Tool(ToolMessages),
}

/// The answer of a tool, addressed to the call it answers.
#[derive(Debug, Clone)]
pub struct ToolMessages {
    pub content: String,
    pub tool_call_id: String,
}

/// Text of a user, assistant or system entry.
#[derive(Debug, Clone)]
pub struct AiMessages {
    pub content: String,
    pub tool_calls: Option<Vec<FunctionTool>>,
}

/// `m` carries exactly the text `content` and no tool call.
pub open spec fn is_plain(m: AiMessages, content: Seq<char>) -> bool {
    m.content@ == content && m.tool_calls is None
}

/// The text kept for an assistant reply: an empty reply is kept as `null`.
pub open spec fn reply_text(text: Seq<char>) -> Seq<char> {
    if text.len() == 0 {
        "null"@
    } else {
        text
    }
}

/// A reply is kept as it is, whatever its length; only the empty reply is
/// kept as `null`, so a kept reply is never empty.
pub proof fn lemma_reply_text_keeps_replies(text: Seq<char>)
    ensures
        text.len() > 0 ==> reply_text(text) == text,
        text.len() == 0 ==> reply_text(text) == "null"@,
        reply_text(text).len() > 0,
        reply_text(reply_text(text)) == reply_text(text),
{
    reveal_strlit("null");
}

impl AiMessages {
    /// A message with the given text and no tool call.
    pub fn new(content: &str) -> (r: AiMessages)
        ensures
            is_plain(r, content@),
    {
        AiMessages { content: String::from_str(content), tool_calls: None }
    }
}

/// Body of an image-description request.
#[derive(Debug, Clone)]
pub struct ImageSendJson {
    pub model: String,
    pub stream: bool,
    pub messages: Vec<ImageSendMessage>,
}

/// One message of an image-description request.
#[derive(Debug, Clone)]
pub struct ImageSendMessage {
    pub role: String,
    pub content: Vec<ImageContent>,
}

/// One part of an image-description message: a text or an image address;
/// `kind` is the part's type tag.
#[derive(Debug, Clone)]
pub struct ImageContent {
    pub kind: String,
    pub image_url: Option<String>,
    pub text: Option<String>,
}

/// The instruction sent along with every image to be described.
pub open spec fn image_prompt() -> Seq<char> {
    "请你详细描述这张图片,然后请使用(用户发送了一张图片,内容:)为开头来描述"@
}

impl ImageSendJson {
    /// A request to the vision model: one user message made of the fixed
    /// instruction text followed by the image address.
    pub fn new(image_url: &str) -> (r: Self)
        ensures
            r.model@ == "qwen3-vl-plus"@,
            !r.stream,
            r.messages@.len() == 1,
            r.messages@[0].role@ == "user"@,
            r.messages@[0].content@.len() == 2,
            r.messages@[0].content@[0].kind@ == "text"@,
            r.messages@[0].content@[0].text matches Some(t) && t@ == image_prompt(),
            r.messages@[0].content@[0].image_url is None,
            r.messages@[0].content@[1].kind@ == "image_url"@,
            r.messages@[0].content@[1].text is None,
            r.messages@[0].content@[1].image_url matches Some(u) && u@ == image_url@,
    {
        let prompt = ImageContent {
            kind: String::from_str("text"),
            text: Some(
                String::from_str(
                    "请你详细描述这张图片,然后请使用(用户发送了一张图片,内容:)为开头来描述",
                ),
            ),
            image_url: None,
        };
        let image = ImageContent {
            kind: String::from_str("image_url"),
            text: None,
            image_url: Some(String::from_str(image_url)),
        };
        let message = ImageSendMessage {
            role: String::from_str("user"),
            content: vec![prompt, image],
        };
        Self { model: String::from_str("qwen3-vl-plus"), stream: false, messages: vec![message] }
    }
}

} // verus!
