//! The tools that the model may call, and the construction of chat requests
//! that offer them.

use vstd::prelude::*;
use crate::iflow_json::{
    AiMessageItem, FunctionInfo, FunctionTool, IflowSendJson, Tool, ToolMessages,
};

verus! {

/// `s` has the shape in which chrono prints a date and time with its offset:
/// a date, a space, a time, a space and a signed offset, at least 26
/// characters in all (`YYYY-MM-DD HH:MM:SS +HH:MM` is the shortest).
pub open spec fn is_datetime_text(s: Seq<char>) -> bool {
    &&& s.len() >= 26
    &&& exists|i: int, j: int|
        0 < i < j && j + 1 < s.len() && #[trigger] s[i] == ' ' && #[trigger] s[j] == ' ' && (
        s[j + 1] == '+' || s[j + 1] == '-')
}

/// The local date and time, as chrono prints it.
///
/// Calls `chrono::Local::now()` and formats it with `to_string`. Which date
/// and time it gives depends on the clock and the machine's time zone and is
/// left unsaid. chrono writes the date (four digits of year, or a signed year,
/// then `-MM-DD`), a space, the time (`HH:MM:SS`, maybe with a fraction), a
/// space, and the offset (`+HH:MM` or `-HH:MM`, maybe with seconds): that
/// shape is what the contract states.
#[verifier::external_body]
pub fn get_datetime() -> (r: String)
    ensures
        r@.len() > 0,
        is_datetime_text(r@),
{
    chrono::prelude::Local::now().to_string()
}

/// The name of the tool that a call with the index `index` runs, or `None`
/// where no tool has that index.
pub open spec fn tool_run_at(index: u64) -> Option<Seq<char>> {
    if index == 0 {
        Some("get_datetime"@)
    } else {
        None
    }
}

/// The call `func` runs the clock tool, `get_datetime`.
pub fn is_clock_call(func: &FunctionTool) -> (r: bool)
    ensures
        r == (tool_run_at(func.index) == Some("get_datetime"@)),
{
    func.index == 0
}

/// `t` is the one tool the bot offers: the current date and time.
pub open spec fn is_datetime_tool(t: Tool) -> bool {
    &&& t.kind@ == "function"@
    &&& t.function.description@ == "返回当前时间"@
    &&& t.function.name@ == "get_datetime"@
    &&& t.function.parameters is None
    &&& !t.function.strict
}

/// The clock tool answers with a date and time, never with the name of a
/// tool: no tool the bot offers has a name in the shape of a date and time.
pub proof fn lemma_clock_answer_is_no_tool_name(t: Tool, answer: Seq<char>)
    requires
        is_datetime_tool(t),
        is_datetime_text(answer),
    ensures
        answer != t.function.name@,
        tool_run_at(0) matches Some(name) && answer != name,
{
    reveal_strlit("get_datetime");
}

impl IflowSendJson {
    /// A non-streaming request for `model` over `messages` that offers every tool.
    pub fn new(model: &str, messages: Vec<AiMessageItem>) -> (r: Self)
        ensures
            r.model@ == model@,
            r.messages@ == messages@,
            !r.stream,
            r.tools matches Some(tools) && tools@.len() == 1 && is_datetime_tool(tools@[0]),
    {
        Self {
            model: String::from_str(model),
            messages,
            stream: false,
            tools: Some(Self::get_all_tools()),
        }
    }

    /// A non-streaming request for `model` over `messages` that offers no tool.
    pub fn new_without_function_tool(model: &str, messages: Vec<AiMessageItem>) -> (r: Self)
        ensures
            r.model@ == model@,
            r.messages@ == messages@,
            !r.stream,
            r.tools is None,
    {
        Self { model: String::from_str(model), messages, stream: false, tools: None }
    }

    /// Every tool the bot offers to the model; the tool at each index is the
    /// one that a call with that index runs.
    pub fn get_all_tools() -> (r: Vec<Tool>)
        ensures
            r@.len() == 1,
            is_datetime_tool(r@[0]),
            forall|i: int| 0 <= i < r@.len() ==> tool_run_at(i as u64) == Some(#[trigger] r@[i].function.name@),
    {
        vec![
            Tool {
                kind: String::from_str("function"),
                function: FunctionInfo {
                    description: String::from_str("返回当前时间"),
                    name: String::from_str("get_datetime"),
                    parameters: None,
                    strict: false,
                },
            },
        ]
    }

    /// The answer to the tool call `func`, given the current date and time
    /// `datetime`: the tool at index 0 answers with `datetime`, any other index
    /// with an empty text.
    pub fn answer_tool_call(func: FunctionTool, datetime: String) -> (r: AiMessageItem)
        ensures
            r matches AiMessageItem::Tool(t) && t.tool_call_id == func.id && (if tool_run_at(
                func.index,
            ) is Some {
                t.content == datetime
            } else {
                t.content@.len() == 0
            }),
    {
        let result = if func.index == 0 {
            datetime
        } else {
            String::new()
        };
        AiMessageItem::Tool(ToolMessages { content: result, tool_call_id: func.id })
    }

    /// Runs the tool that `func` asks for and answers the call: the tool at
    /// index 0 gives the current date and time, read from the clock only then,
    /// in chrono's printed form; any other index gives an empty answer.
    pub fn exec_func(func: FunctionTool) -> (r: AiMessageItem)
        ensures
            r matches AiMessageItem::Tool(t) && t.tool_call_id == func.id && (if tool_run_at(
                func.index,
            ) is Some {
                t.content@.len() > 0 && is_datetime_text(t.content@)
            } else {
                t.content@.len() == 0
            }),
    {
        let datetime = if func.index == 0 {
            get_datetime()
        } else {
            String::new()
        };
        Self::answer_tool_call(func, datetime)
    }
}

} // verus!
