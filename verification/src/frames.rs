//! What the bot does with each frame of the OneBot WebSocket before it reads
//! it as an event.

use vstd::prelude::*;

verus! {

/// The message of serde_json's error on `text`, or `None` where `text` is one
/// JSON value.
pub uninterp spec fn json_parse_error(text: Seq<char>) -> Option<Seq<char>>;

/// `text` is one JSON value.
pub open spec fn is_json_text(text: Seq<char>) -> bool {
    json_parse_error(text) is None
}

/// Reads `text` as JSON.
///
/// Calls `serde_json::from_str::<serde_json::Value>` and keeps the message of
/// its error, if any. The result is named [`json_parse_error`]; what the JSON
/// grammar accepts and the wording of the message are left unsaid.
#[verifier::external_body]
pub fn json_syntax_error(text: &str) -> (r: Option<String>)
    ensures
        r is None <==> json_parse_error(text@) is None,
        r matches Some(m) ==> json_parse_error(text@) == Some(m@),
{
    serde_json::from_str::<serde_json::Value>(text).err().map(|e| e.to_string())
}

/// What a frame leads to.
pub enum FrameStep {
    /// The frame is JSON: hand it to the event handler.
    Handle,
    /// The frame is not JSON: end with this error.
    Stop(String),
}

/// The step for a frame whose text is `text`: a JSON frame is handled, any
/// other frame ends the connection with the reader's error.
pub fn frame_step(text: &str) -> (r: FrameStep)
    ensures
        r is Handle <==> is_json_text(text@),
        r matches FrameStep::Stop(m) ==> json_parse_error(text@) == Some(m@),
{
    match json_syntax_error(text) {
        None => FrameStep::Handle,
        Some(message) => FrameStep::Stop(message),
    }
}

} // verus!
