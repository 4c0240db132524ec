use qqbot::iflow_client::{
    api_key_choice, bearer_value, chat_request, choice_contents, cookie_configured,
    run_tool_and_follow_up, first_choice_content, first_tool_call,
    join_replies, single_question, tool_followup, ApiKeyChoice, SendAttempts, SendStep,
    MAX_SEND_ATTEMPTS,
};
use qqbot::iflow_json::{
    AiMessageItem, AiMessages, ApiKeyData, Choice, ChoicesMessage, Function, FunctionTool,
    IflowApiKey, IflowRecvJson, IflowSendJson, ImageSendJson, ToolMessages,
};

fn answer(content: &str, calls: Option<Vec<FunctionTool>>) -> IflowRecvJson {
    IflowRecvJson {
        id: "r1".to_string(),
        choices: vec![Choice {
            message: ChoicesMessage {
                role: "assistant".to_string(),
                content: content.to_string(),
                reasoning_content: None,
                tool_calls: calls,
            },
            finish_reason: "stop".to_string(),
        }],
    }
}

fn call(index: u64, id: &str) -> FunctionTool {
    FunctionTool {
        index,
        id: id.to_string(),
        kind: "tool".to_string(),
        function: Function { arguments: "{}".to_string(), name: "get_datetime".to_string() },
    }
}

fn key(expired: bool) -> IflowApiKey {
    IflowApiKey {
        success: true,
        code: "0".to_string(),
        message: "ok".to_string(),
        data: ApiKeyData { has_expired: expired, name: "main".to_string(), api_key_mask: "sk-1".to_string() },
    }
}

#[test]
fn bearer() {
    assert_eq!(bearer_value("sk-1"), "Bearer sk-1");
}

#[test]
fn retry_steps() {
    assert_eq!(MAX_SEND_ATTEMPTS, 3);
    let mut a = SendAttempts::first();
    assert_eq!(a.count(), 1);
    assert!(matches!(a.after_answer(false), SendStep::RenewKeyAndRetry));
    assert_eq!(a.count(), 2);
    assert!(matches!(a.after_answer(false), SendStep::RenewKeyAndRetry));
    assert_eq!(a.count(), 3);
    assert!(matches!(a.after_answer(false), SendStep::RenewKeyAndGiveUp));
    assert_eq!(a.count(), 3);
    assert!(matches!(a.after_answer(true), SendStep::Deliver));
    let mut b = SendAttempts::first();
    assert!(matches!(b.after_answer(true), SendStep::Deliver));
    assert_eq!(b.count(), 1);
}

#[test]
fn key_choices() {
    assert!(matches!(api_key_choice(&key(false)), ApiKeyChoice::Use(k) if k == "sk-1"));
    assert!(matches!(api_key_choice(&key(true)), ApiKeyChoice::Renew(n) if n == "main"));
}

#[test]
fn tool_call_detection() {
    assert!(first_tool_call(&answer("x", None)).is_none());
    assert!(first_tool_call(&answer("x", Some(vec![]))).is_none());
    let no_choice = IflowRecvJson { id: "e".to_string(), choices: vec![] };
    assert!(first_tool_call(&no_choice).is_none());
    let a = answer("x", Some(vec![call(0, "c1"), call(1, "c2")]));
    assert_eq!(first_tool_call(&a).map(|c| c.id.clone()), Some("c1".to_string()));
}

#[test]
fn followup_appends_echo_and_answer() {
    let send = IflowSendJson::new("qwen3-max", vec![AiMessageItem::User(AiMessages::new("time?"))]);
    let recv = answer("", Some(vec![call(0, "c1")]));
    let tool = AiMessageItem::Tool(ToolMessages { content: "noon".to_string(), tool_call_id: "c1".to_string() });
    let next = tool_followup(recv, send, tool);
    assert_eq!(next.model, "qwen3-max");
    assert_eq!(next.messages.len(), 3);
    assert!(matches!(&next.messages[0], AiMessageItem::User(m) if m.content == "time?"));
    match &next.messages[1] {
        AiMessageItem::Assistant(m) => {
            assert_eq!(m.content, "null");
            let calls = m.tool_calls.as_ref().unwrap();
            assert_eq!(calls.len(), 1);
            assert_eq!(calls[0].id, "c1");
            assert_eq!(calls[0].index, 0);
            assert_eq!(calls[0].kind, "function");
            assert_eq!(calls[0].function.name, "get_datetime");
        }
        _ => panic!("not an assistant entry"),
    }
    assert!(matches!(&next.messages[2], AiMessageItem::Tool(t) if t.content == "noon" && t.tool_call_id == "c1"));
    assert!(next.tools.is_some());
}

#[test]
fn followup_keeps_answer_text() {
    let send = IflowSendJson::new_without_function_tool("m", vec![]);
    let recv = answer("let me check", Some(vec![call(2, "z")]));
    let tool = AiMessageItem::Tool(ToolMessages { content: String::new(), tool_call_id: "z".to_string() });
    let next = tool_followup(recv, send, tool);
    assert!(matches!(&next.messages[0], AiMessageItem::Assistant(m) if m.content == "let me check"));
    assert!(next.tools.is_none());
}

#[test]
fn contents_in_order() {
    let got = choice_contents(&vec![answer("a", None), answer("b", None)]);
    assert_eq!(got, vec!["a".to_string(), "b".to_string()]);
    assert!(choice_contents(&vec![]).is_empty());
}

#[test]
fn first_content() {
    assert_eq!(first_choice_content(&answer("desc", None)), "desc");
}

#[test]
fn joined_replies() {
    assert_eq!(join_replies(&vec!["a".to_string(), "b".to_string()]), "a\nb\n");
    assert_eq!(join_replies(&vec![]), "");
}

#[test]
fn single_question_is_one_user_entry() {
    let q = single_question("今天是几号");
    assert_eq!(q.len(), 1);
    assert!(matches!(&q[0], AiMessageItem::User(m) if m.content == "今天是几号" && m.tool_calls.is_none()));
}

#[test]
fn image_request() {
    let r = ImageSendJson::new("https://httpbin.org/image/png");
    assert_eq!(r.model, "qwen3-vl-plus");
    assert!(!r.stream);
    assert_eq!(r.messages.len(), 1);
    assert_eq!(r.messages[0].role, "user");
    let parts = &r.messages[0].content;
    assert_eq!(parts.len(), 2);
    assert_eq!(parts[0].kind, "text");
    assert_eq!(
        parts[0].text.as_deref(),
        Some("请你详细描述这张图片,然后请使用(用户发送了一张图片,内容:)为开头来描述")
    );
    assert!(parts[0].image_url.is_none());
    assert_eq!(parts[1].kind, "image_url");
    assert!(parts[1].text.is_none());
    assert_eq!(parts[1].image_url.as_deref(), Some("https://httpbin.org/image/png"));
}

#[test]
fn chat_request_uses_the_chat_model() {
    let r = chat_request(vec![AiMessageItem::User(AiMessages::new("hi"))]);
    assert_eq!(r.model, "qwen3-max");
    assert_eq!(r.messages.len(), 1);
    assert!(!r.stream);
    assert_eq!(r.tools.as_ref().map(|t| t.len()), Some(1));
}

#[test]
fn cookie_check() {
    assert!(!cookie_configured(""));
    assert!(cookie_configured("a=b"));
}

#[test]
fn follow_up_runs_the_clock_tool() {
    let send = chat_request(vec![AiMessageItem::User(AiMessages::new("time?"))]);
    let next = run_tool_and_follow_up(answer("", Some(vec![call(0, "c7")])), send);
    assert_eq!(next.messages.len(), 3);
    assert!(matches!(&next.messages[1], AiMessageItem::Assistant(m)
        if m.tool_calls.as_ref().unwrap()[0].id == "c7"));
    assert!(matches!(&next.messages[2], AiMessageItem::Tool(t) if t.tool_call_id == "c7" && !t.content.is_empty()));
    let send = chat_request(vec![]);
    let next = run_tool_and_follow_up(answer("x", Some(vec![call(5, "d")])), send);
    assert!(matches!(&next.messages[1], AiMessageItem::Tool(t) if t.tool_call_id == "d" && t.content.is_empty()));
}
