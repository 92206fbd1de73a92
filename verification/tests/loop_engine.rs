//! Tests of the tool-call loop engine and the cancellation signal.

use proxycast_core::engine::{
    CancelSignal, LoopAction, ToolLoopConfig, ToolLoopEngine, TurnOutcome, tool_error_to_result,
};
use proxycast_core::registry::{ToolError, ToolResult};
use proxycast_core::types::{AgentMessage, MessageContent, StreamResult, ToolCall};

fn ts() -> String {
    "2024-01-01T00:00:00Z".to_string()
}

fn model_result_with_calls(calls: Vec<ToolCall>) -> StreamResult {
    StreamResult {
        content: "working on it".to_string(),
        tool_calls: Some(calls),
        usage: None,
        reasoning_content: None,
    }
}

fn final_model_result() -> StreamResult {
    StreamResult {
        content: "all done".to_string(),
        tool_calls: None,
        usage: None,
        reasoning_content: None,
    }
}

fn two_calls() -> Vec<ToolCall> {
    vec![
        ToolCall { id: "t1".to_string(), name: "terminal".to_string(), arguments: "{}".to_string() },
        ToolCall { id: "t2".to_string(), name: "terminal".to_string(), arguments: "{}".to_string() },
    ]
}

#[test]
fn test_two_tool_round_trip() {
    // A model response with two tool calls executes both sequentially,
    // appends two results in call order, issues one continuation, and
    // terminates when the continuation holds no further tool calls.
    let mut engine = ToolLoopEngine::new(ToolLoopConfig::new(10), Vec::new());
    match engine.begin(false) {
        LoopAction::CallModel { continuation } => assert!(!continuation),
        _ => panic!("expected the opening model call"),
    }
    match engine.on_model_result(&model_result_with_calls(two_calls()), &ts(), false) {
        LoopAction::DispatchTool { index, call } => {
            assert_eq!(index, 0);
            assert_eq!(call.id, "t1");
        }
        _ => panic!("expected the first dispatch"),
    }
    match engine.on_tool_result(&ToolResult::success("one".to_string()), &ts(), false) {
        LoopAction::DispatchTool { index, call } => {
            assert_eq!(index, 1);
            assert_eq!(call.id, "t2");
        }
        _ => panic!("expected the second dispatch"),
    }
    match engine.on_tool_result(&ToolResult::success("two".to_string()), &ts(), false) {
        LoopAction::CallModel { continuation } => assert!(continuation),
        _ => panic!("expected one continuation"),
    }
    match engine.on_model_result(&final_model_result(), &ts(), false) {
        LoopAction::Finish(TurnOutcome::Done { content, .. }) => assert_eq!(content, "all done"),
        _ => panic!("expected termination"),
    }
    // Results stand in the history strictly in call-declaration order.
    let history = engine.history();
    let tool_ids: Vec<&str> = history
        .iter()
        .filter(|m| m.role == "tool")
        .map(|m| m.tool_call_id.as_deref().unwrap())
        .collect();
    assert_eq!(tool_ids, vec!["t1", "t2"]);
    let texts: Vec<&str> = history
        .iter()
        .filter(|m| m.role == "tool")
        .map(|m| match &m.content {
            MessageContent::Text(t) => t.as_str(),
            MessageContent::Parts(_) => panic!("expected plain text"),
        })
        .collect();
    assert_eq!(texts, vec!["one", "two"]);
}

#[test]
fn test_failed_tool_feeds_back() {
    // A failed call never aborts sibling calls under the default policy; it
    // produces a failure marker fed back to the model.
    let mut engine = ToolLoopEngine::new(ToolLoopConfig::new(10), Vec::new());
    engine.begin(false);
    engine.on_model_result(&model_result_with_calls(two_calls()), &ts(), false);
    let failure = ToolResult::failure_with_output("".to_string(), "no such file".to_string());
    match engine.on_tool_result(&failure, &ts(), false) {
        LoopAction::DispatchTool { index, .. } => assert_eq!(index, 1),
        _ => panic!("the sibling call must still run"),
    }
    let history = engine.history();
    let failed = history.iter().find(|m| m.role == "tool").unwrap();
    match &failed.content {
        MessageContent::Text(t) => assert_eq!(t, "[TOOL FAILED] no such file"),
        MessageContent::Parts(_) => panic!("expected plain text"),
    }
}

#[test]
fn test_fail_fast_aborts() {
    let mut config = ToolLoopConfig::new(10);
    config.fail_fast = true;
    let mut engine = ToolLoopEngine::new(config, Vec::new());
    engine.begin(false);
    engine.on_model_result(&model_result_with_calls(two_calls()), &ts(), false);
    let failure = ToolResult::failure_with_output("".to_string(), "boom".to_string());
    match engine.on_tool_result(&failure, &ts(), false) {
        LoopAction::Finish(TurnOutcome::Error { .. }) => {}
        _ => panic!("fail-fast must abort the turn"),
    }
}

#[test]
fn test_max_rounds_exceeded() {
    // Exceeding the round cap is a terminal error, never an endless loop.
    let mut engine = ToolLoopEngine::new(ToolLoopConfig::new(0), Vec::new());
    engine.begin(false);
    match engine.on_model_result(&model_result_with_calls(two_calls()), &ts(), false) {
        LoopAction::Finish(TurnOutcome::Error { message }) => {
            assert_eq!(message, "tool loop exceeded max iterations");
        }
        _ => panic!("expected the round-cap error"),
    }
}

#[test]
fn test_cancellation_before_model_call() {
    let mut engine = ToolLoopEngine::new(ToolLoopConfig::new(10), Vec::new());
    match engine.begin(true) {
        LoopAction::Finish(TurnOutcome::Cancelled) => {}
        _ => panic!("expected prompt teardown"),
    }
}

#[test]
fn test_cancellation_before_dispatch() {
    let mut engine = ToolLoopEngine::new(ToolLoopConfig::new(10), Vec::new());
    engine.begin(false);
    engine.on_model_result(&model_result_with_calls(two_calls()), &ts(), false);
    // The signal is observed before the second dispatch.
    match engine.on_tool_result(&ToolResult::success("one".to_string()), &ts(), true) {
        LoopAction::Finish(TurnOutcome::Cancelled) => {}
        _ => panic!("expected prompt teardown"),
    }
}

#[test]
fn test_cancel_signal_idempotent() {
    let mut signal = CancelSignal::new();
    assert!(!signal.is_cancelled());
    signal.signal();
    assert!(signal.is_cancelled());
    signal.signal();
    assert!(signal.is_cancelled());
}

#[test]
fn test_tool_error_to_result() {
    let timeout = tool_error_to_result(&ToolError::Timeout);
    assert!(!timeout.success);
    assert_eq!(timeout.error.as_deref(), Some("Tool execution timed out"));
    let invalid = tool_error_to_result(&ToolError::InvalidArguments("bad".to_string()));
    assert_eq!(invalid.error.as_deref(), Some("Invalid arguments: bad"));
    let failed = tool_error_to_result(&ToolError::ExecutionFailed("why".to_string()));
    assert_eq!(failed.error.as_deref(), Some("Execution failed: why"));
}

#[test]
fn test_assistant_message_appended() {
    let mut engine = ToolLoopEngine::new(ToolLoopConfig::new(10), Vec::new());
    engine.begin(false);
    engine.on_model_result(&final_model_result(), &ts(), false);
    let history = engine.history();
    assert_eq!(history.len(), 1);
    let m: &AgentMessage = &history[0];
    assert_eq!(m.role, "assistant");
    match &m.content {
        MessageContent::Text(t) => assert_eq!(t, "all done"),
        MessageContent::Parts(_) => panic!("expected plain text"),
    }
}
