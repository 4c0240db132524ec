use qqbot::function_tools::{get_datetime, is_clock_call};
use qqbot::iflow_json::{AiMessageItem, Function, FunctionTool, IflowSendJson};

fn call(index: u64, id: &str) -> FunctionTool {
    FunctionTool {
        index,
        id: id.to_string(),
        kind: "function".to_string(),
        function: Function { arguments: "{}".to_string(), name: "get_datetime".to_string() },
    }
}

#[test]
fn test_time() {
    let result = chrono::prelude::Local::now();
    let result = result.to_string();
    println!("{}", result);
    println!("{}", get_datetime());
}

#[test]
fn datetime_is_not_empty() {
    assert!(!get_datetime().is_empty());
}

#[test]
fn all_tools_offer_the_clock() {
    let tools = IflowSendJson::get_all_tools();
    assert_eq!(tools.len(), 1);
    assert_eq!(tools[0].kind, "function");
    assert_eq!(tools[0].function.name, "get_datetime");
    assert_eq!(tools[0].function.description, "返回当前时间");
    assert!(tools[0].function.parameters.is_none());
    assert!(!tools[0].function.strict);
}

#[test]
fn request_with_tools() {
    let r = IflowSendJson::new("qwen3-max", vec![]);
    assert_eq!(r.model, "qwen3-max");
    assert!(r.messages.is_empty());
    assert!(!r.stream);
    assert_eq!(r.tools.as_ref().map(|t| t.len()), Some(1));
}

#[test]
fn request_without_tools() {
    let r = IflowSendJson::new_without_function_tool("m", vec![]);
    assert_eq!(r.model, "m");
    assert!(!r.stream);
    assert!(r.tools.is_none());
}

#[test]
fn unknown_tool_answers_empty() {
    match IflowSendJson::exec_func(call(3, "call_9")) {
        AiMessageItem::Tool(t) => {
            assert_eq!(t.tool_call_id, "call_9");
            assert_eq!(t.content, "");
        }
        _ => panic!("not a tool answer"),
    }
}

#[test]
fn clock_tool_answers_with_time() {
    match IflowSendJson::exec_func(call(0, "call_1")) {
        AiMessageItem::Tool(t) => {
            assert_eq!(t.tool_call_id, "call_1");
            assert!(!t.content.is_empty());
        }
        _ => panic!("not a tool answer"),
    }
}

#[test]
fn answer_uses_given_time() {
    match IflowSendJson::answer_tool_call(call(0, "a"), "2024-01-01".to_string()) {
        AiMessageItem::Tool(t) => assert_eq!(t.content, "2024-01-01"),
        _ => panic!("not a tool answer"),
    }
    match IflowSendJson::answer_tool_call(call(1, "b"), "2024-01-01".to_string()) {
        AiMessageItem::Tool(t) => {
            assert_eq!(t.content, "");
            assert_eq!(t.tool_call_id, "b");
        }
        _ => panic!("not a tool answer"),
    }
}

#[test]
fn clock_call_detection() {
    assert!(is_clock_call(&call(0, "a")));
    assert!(!is_clock_call(&call(1, "b")));
}
