//! The decisions of the iFlow chat client: how a request is authorised, when a
//! failed request is sent again, when the key is renewed, how a tool call of
//! the model is answered, and what the caller gets back.

use vstd::prelude::*;
use crate::function_tools::{is_datetime_text, tool_run_at};
use crate::iflow_json::{
    AiMessageItem, AiMessages, Function, FunctionTool, IflowApiKey, IflowRecvJson, IflowSendJson,
    reply_text,
};

verus! {

/// How many times one request is sent before the client gives up.
pub const MAX_SEND_ATTEMPTS: u32 = 3;

/// The client has a credential to work with: the cookie is not empty.
pub fn cookie_configured(cookie: &str) -> (r: bool)
    ensures
        r == (cookie@.len() > 0),
{
    !cookie.is_empty()
}

/// The value of the authorisation header for the key `api_key`.
pub fn bearer_value(api_key: &str) -> (r: String)
    ensures
        r@ == "Bearer "@ + api_key@,
{
    let mut r = String::from_str("Bearer ");
    r.append(api_key);
    r
}

/// What to do once the answer to a request has been read.
pub enum SendStep {
    /// The answer was understood: hand it to the caller.
    Deliver,
    /// It was not: fetch a fresh key, then send the request again.
    RenewKeyAndRetry,
    /// It was not, and no attempt is left: fetch a fresh key, then fail.
    RenewKeyAndGiveUp,
}

/// The attempts made so far to send one request; never more than
/// [`MAX_SEND_ATTEMPTS`].
pub struct SendAttempts {
    made: u32,
}

impl SendAttempts {
    /// How many times the request has been sent.
    pub closed spec fn made(&self) -> u32 {
        self.made
    }

    #[verifier::type_invariant]
    spec fn within_budget(&self) -> bool {
        1 <= self.made <= MAX_SEND_ATTEMPTS
    }

    /// The count once the request has been sent for the first time.
    pub fn first() -> (r: Self)
        ensures
            r.made() == 1,
    {
        SendAttempts { made: 1 }
    }

    /// How many times the request has been sent.
    pub fn count(&self) -> (r: u32)
        ensures
            r == self.made(),
            1 <= r <= MAX_SEND_ATTEMPTS,
    {
        proof {
            use_type_invariant(self);
        }
        self.made
    }

    /// The step after the answer to the latest attempt was read;
    /// `understood` tells whether it had the shape of a chat answer. A retry
    /// counts one more attempt.
    pub fn after_answer(&mut self, understood: bool) -> (r: SendStep)
        ensures
            1 <= final(self).made() <= MAX_SEND_ATTEMPTS,
            understood ==> r is Deliver && final(self).made() == old(self).made(),
            !understood && old(self).made() < MAX_SEND_ATTEMPTS ==> r is RenewKeyAndRetry
                && final(self).made() == old(self).made() + 1,
            !understood && old(self).made() >= MAX_SEND_ATTEMPTS ==> r is RenewKeyAndGiveUp
                && final(self).made() == old(self).made(),
    {
        proof {
            use_type_invariant(&*self);
        }
        if understood {
            SendStep::Deliver
        } else if self.made < MAX_SEND_ATTEMPTS {
            self.made = self.made + 1;
            SendStep::RenewKeyAndRetry
        } else {
            SendStep::RenewKeyAndGiveUp
        }
    }
}

/// What the key endpoint's answer leads to.
pub enum ApiKeyChoice {
    /// The key is still valid: use it.
    Use(String),
    /// The key has expired: ask for a new one under this name.
    Renew(String),
}

/// Uses the key that the platform reports, unless it has expired; then the key
/// is renewed under the same name.
pub fn api_key_choice(answer: &IflowApiKey) -> (r: ApiKeyChoice)
    ensures
        answer.data.has_expired <==> r is Renew,
        r matches ApiKeyChoice::Use(k) ==> k == answer.data.api_key_mask,
        r matches ApiKeyChoice::Renew(n) ==> n == answer.data.name,
{
    if answer.data.has_expired {
        ApiKeyChoice::Renew(answer.data.name.clone())
    } else {
        ApiKeyChoice::Use(answer.data.api_key_mask.clone())
    }
}

/// The first choice of `recv` asks for at least one tool call.
pub open spec fn has_tool_call(recv: IflowRecvJson) -> bool {
    &&& recv.choices@.len() > 0
    &&& recv.choices@[0].message.tool_calls matches Some(calls) && calls@.len() > 0
}

/// The first tool call that the first choice of `recv` asks for.
pub open spec fn requested_call(recv: IflowRecvJson) -> FunctionTool {
    recv.choices@[0].message.tool_calls->Some_0@[0]
}

/// The tool call that an answer asks for, if it asks for one.
pub fn first_tool_call(recv: &IflowRecvJson) -> (r: Option<&FunctionTool>)
    ensures
        r is Some <==> has_tool_call(*recv),
        r matches Some(call) ==> *call == requested_call(*recv),
{
    if recv.choices.len() == 0 {
        return None;
    }
    match &recv.choices[0].message.tool_calls {
        None => None,
        Some(calls) => {
            if calls.len() == 0 {
                None
            } else {
                Some(&calls[0])
            }
        },
    }
}

/// `item` repeats to the model the tool call `call` that it asked for, with
/// the answer text `content` (an empty text kept as `null`).
pub open spec fn echoes_call(item: AiMessageItem, content: Seq<char>, call: FunctionTool) -> bool {
    item matches AiMessageItem::Assistant(m) && {
        &&& m.content@ == reply_text(content)
        &&& m.tool_calls matches Some(calls) && calls@.len() == 1 && {
            let echo = calls@[0];
            &&& echo.index == call.index
            &&& echo.id == call.id
            &&& echo.function == call.function
            &&& echo.kind@ == "function"@
        }
    }
}

/// The request that follows an answer asking for a tool call: the request
/// `send` that got that answer, with two entries added at the end of its
/// conversation: the assistant's tool call as the model made it, then
/// `tool_answer`, the result of running the tool.
pub fn tool_followup(recv: IflowRecvJson, send: IflowSendJson, tool_answer: AiMessageItem) -> (r:
    IflowSendJson)
    requires
        has_tool_call(recv),
    ensures
        r.model == send.model,
        r.stream == send.stream,
        r.tools == send.tools,
        r.messages@.len() == send.messages@.len() + 2,
        r.messages@.take(send.messages@.len() as int) == send.messages@,
        echoes_call(
            r.messages@[send.messages@.len() as int],
            recv.choices@[0].message.content@,
            requested_call(recv),
        ),
        r.messages@[send.messages@.len() as int + 1] == tool_answer,
{
    let ghost call = requested_call(recv);
    let ghost content = recv.choices@[0].message.content@;
    let mut choices = recv.choices;
    let choice = choices.swap_remove(0);
    let message = choice.message;
    let mut calls = message.tool_calls.unwrap();
    let first = calls.swap_remove(0);
    let answer_text = message.content;
    let final_content = if answer_text.as_str().is_empty() {
        String::from_str("null")
    } else {
        answer_text
    };
    let echo = FunctionTool {
        index: first.index,
        id: first.id,
        function: first.function,
        kind: String::from_str("function"),
    };
    let mut send = send;
    let ghost old_messages = send.messages@;
    send.messages.push(
        AiMessageItem::Assistant(AiMessages { content: final_content, tool_calls: Some(vec![echo]) }),
    );
    send.messages.push(tool_answer);
    assert(send.messages@.take(old_messages.len() as int) =~= old_messages);
    send
}

fn copy_call(call: &FunctionTool) -> (r: FunctionTool)
    ensures
        r == *call,
{
    FunctionTool {
        index: call.index,
        id: call.id.clone(),
        kind: call.kind.clone(),
        function: Function {
            arguments: call.function.arguments.clone(),
            name: call.function.name.clone(),
        },
    }
}

/// Runs the tool that the answer `recv` asks for and builds the request that
/// follows: `send` with the tool call repeated, then the tool's answer,
/// addressed to that same call. The answer is the clock's text (never empty)
/// where the call asks for the clock tool, and empty otherwise.
pub fn run_tool_and_follow_up(recv: IflowRecvJson, send: IflowSendJson) -> (r: IflowSendJson)
    requires
        has_tool_call(recv),
    ensures
        r.model == send.model,
        r.stream == send.stream,
        r.tools == send.tools,
        r.messages@.len() == send.messages@.len() + 2,
        r.messages@.take(send.messages@.len() as int) == send.messages@,
        echoes_call(
            r.messages@[send.messages@.len() as int],
            recv.choices@[0].message.content@,
            requested_call(recv),
        ),
        r.messages@[send.messages@.len() as int + 1] matches AiMessageItem::Tool(t) && {
            &&& t.tool_call_id == requested_call(recv).id
            &&& r.messages@[send.messages@.len() as int]->Assistant_0.tool_calls->Some_0@[0].id
                == t.tool_call_id
            &&& tool_run_at(requested_call(recv).index) is Some ==> t.content@.len() > 0
                && is_datetime_text(t.content@)
            &&& tool_run_at(requested_call(recv).index) is None ==> t.content@.len() == 0
        },
{
    let call = copy_call(first_tool_call(&recv).unwrap());
    let answer = IflowSendJson::exec_func(call);
    tool_followup(recv, send, answer)
}

/// The text of the first choice of each answer, in order.
pub fn choice_contents(answers: &Vec<IflowRecvJson>) -> (r: Vec<String>)
    requires
        forall|i: int| 0 <= i < answers@.len() ==> (#[trigger] answers@[i]).choices@.len() > 0,
    ensures
        r@.len() == answers@.len(),
        forall|i: int|
            0 <= i < answers@.len() ==> #[trigger] r@[i] == answers@[i].choices@[0].message.content,
{
    let mut r: Vec<String> = Vec::new();
    let mut i: usize = 0;
    while i < answers.len()
        invariant
            i <= answers@.len(),
            r@.len() == i,
            forall|k: int| 0 <= k < answers@.len() ==> (#[trigger] answers@[k]).choices@.len() > 0,
            forall|k: int|
                0 <= k < i ==> #[trigger] r@[k] == answers@[k].choices@[0].message.content,
        decreases answers@.len() - i,
    {
        let answer = &answers[i];
        r.push(answer.choices[0].message.content.clone());
        i = i + 1;
    }
    r
}

/// The text of the first choice of an answer.
pub fn first_choice_content(recv: &IflowRecvJson) -> (r: String)
    requires
        recv.choices@.len() > 0,
    ensures
        r == recv.choices@[0].message.content,
{
    recv.choices[0].message.content.clone()
}

/// The replies one after the other, each followed by a line break.
pub open spec fn joined_lines(replies: Seq<String>) -> Seq<char>
    decreases replies.len(),
{
    if replies.len() == 0 {
        Seq::empty()
    } else {
        joined_lines(replies.drop_last()) + replies.last()@ + "\n"@
    }
}

/// Joining adds each reply, in order, followed by a line break: nothing joins
/// to nothing, and one more reply adds that reply and a line break at the end.
pub proof fn lemma_joined_lines_appends(replies: Seq<String>, reply: String)
    ensures
        joined_lines(Seq::<String>::empty()) == Seq::<char>::empty(),
        joined_lines(replies.push(reply)) == joined_lines(replies) + reply@ + "\n"@,
        joined_lines(seq![reply]) == reply@ + "\n"@,
{
    assert(replies.push(reply).drop_last() =~= replies);
    assert(seq![reply].drop_last() =~= Seq::<String>::empty());
    assert(Seq::<char>::empty() + reply@ =~= reply@);
}

/// All replies in one text, each followed by a line break.
pub fn join_replies(replies: &Vec<String>) -> (r: String)
    ensures
        r@ == joined_lines(replies@),
        replies@.len() == 1 ==> r@ == replies@[0]@ + "\n"@,
{
    let mut r = String::new();
    let mut i: usize = 0;
    while i < replies.len()
        invariant
            i <= replies@.len(),
            r@ == joined_lines(replies@.take(i as int)),
        decreases replies@.len() - i,
    {
        assert(replies@.take(i + 1).drop_last() =~= replies@.take(i as int));
        r.append(replies[i].as_str());
        r.append("\n");
        i = i + 1;
    }
    assert(replies@.take(replies@.len() as int) =~= replies@);
    proof {
        if replies@.len() == 1 {
            lemma_joined_lines_appends(Seq::empty(), replies@[0]);
            assert(seq![replies@[0]] =~= replies@);
        }
    }
    r
}

/// The request that continues the conversation `messages`: the chat model
/// `qwen3-max`, offered every tool.
pub fn chat_request(messages: Vec<AiMessageItem>) -> (r: IflowSendJson)
    ensures
        r.model@ == "qwen3-max"@,
        r.messages@ == messages@,
        !r.stream,
        r.tools matches Some(tools) && tools@.len() == 1 && crate::function_tools::is_datetime_tool(
            tools@[0],
        ),
{
    IflowSendJson::new("qwen3-max", messages)
}

/// A conversation of one user entry: how a single question is asked.
pub fn single_question(text: &str) -> (r: Vec<AiMessageItem>)
    ensures
        r@.len() == 1,
        r@[0] matches AiMessageItem::User(m) && crate::iflow_json::is_plain(m, text@),
{
    vec![AiMessageItem::User(AiMessages::new(text))]
}

} // verus!
