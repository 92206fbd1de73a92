//! Tests of the correlation bridge, duplicate suppression and the tools.

use proxycast_core::bridge::{BridgeOutcome, CorrelationTable};
use proxycast_core::browser::{
    browser_result_to_tool, settle_driver_outcome, BrowserResult, BrowserTool, DriverOutcome,
};
use proxycast_core::numtext::{i32_to_string, u64_to_string};
use proxycast_core::outside::fresh_request_id;
use proxycast_core::registry::{ToolDefinition, ToolRegistry};
use proxycast_core::scrollback::{
    format_scrollback_output, GetScrollbackResponse, TermScrollbackTool,
    handle_term_scrollback_response,
};
use proxycast_core::suppress::ExecutedLog;
use proxycast_core::terminal::{
    handle_terminal_command_response, TerminalCommandResponse, TerminalTool,
};

#[test]
fn test_single_resolution() {
    // Resolving a given correlation id twice delivers the slot only once;
    // the second resolution is a silent no-op.
    let mut table: CorrelationTable<u32> = CorrelationTable::new();
    let id = "req-1".to_string();
    assert!(table.register(&id, 7).is_ok());
    assert!(table.is_pending(&id));
    assert_eq!(table.resolve(&id), Some(7));
    assert_eq!(table.resolve(&id), None);
    assert!(!table.is_pending(&id));
}

#[test]
fn test_register_never_overwrites() {
    let mut table: CorrelationTable<u32> = CorrelationTable::new();
    let id = "req-1".to_string();
    assert!(table.register(&id, 1).is_ok());
    assert_eq!(table.register(&id, 2), Err(2));
    assert_eq!(table.resolve(&id), Some(1));
}

#[test]
fn test_late_fulfillment_dropped() {
    // A request whose wait expired is unregistered; a fulfillment arriving
    // afterward for the same id finds no slot and is dropped.
    let mut tool: TerminalTool<u32> = TerminalTool::new();
    let id = "req-9".to_string();
    let request = tool
        .register_dispatch(&id, &"echo hi".to_string(), None, 30, 5)
        .expect("fresh id expected");
    assert_eq!(request.request_id, "req-9");
    assert_eq!(request.command, "echo hi");
    assert_eq!(request.timeout_secs, 30);
    // The wait expires: the slot is unregistered.
    tool.abort_dispatch(&id);
    // The late response is dropped, not an error.
    let response = TerminalCommandResponse {
        request_id: id.clone(),
        success: true,
        output: "hi".to_string(),
        error: None,
        exit_code: Some(0),
        rejected: false,
    };
    assert!(handle_terminal_command_response(&mut tool, &response).is_none());
}

#[test]
fn test_bridge_timeout_then_late_fulfillment() {
    // A request with a bounded wait that never receives fulfillment returns
    // Timeout at expiry; a fulfillment arriving afterward for the same id
    // is dropped, not an error.
    let mut tool: TerminalTool<u32> = TerminalTool::new();
    let id = "req-30s".to_string();
    let cmd = "sleep 60".to_string();
    tool.register_dispatch(&id, &cmd, None, 30, 1).expect("fresh id expected");
    let settled = tool.settle_dispatch(&id, &cmd, BridgeOutcome::Timeout, 35_000);
    assert!(matches!(settled, Err(proxycast_core::registry::ToolError::Timeout)));
    // The late fulfillment finds no slot.
    let response = TerminalCommandResponse {
        request_id: id.clone(),
        success: true,
        output: "done".to_string(),
        error: None,
        exit_code: Some(0),
        rejected: false,
    };
    assert!(handle_terminal_command_response(&mut tool, &response).is_none());
}

#[test]
fn test_settle_with_response_records_run() {
    let mut tool: TerminalTool<u32> = TerminalTool::new();
    let cmd = "make".to_string();
    let response = TerminalCommandResponse {
        request_id: "r".to_string(),
        success: true,
        output: "ok".to_string(),
        error: None,
        exit_code: Some(0),
        rejected: false,
    };
    let settled = tool.settle_dispatch(
        &"r".to_string(),
        &cmd,
        BridgeOutcome::Response(response),
        1_000,
    );
    let verdict = settled.expect("a delivered response settles Ok");
    assert!(verdict.success);
    assert_eq!(verdict.output, "ok");
    // The run is now recorded: the identical command is suppressed.
    assert!(tool.check_duplicate_command(&cmd, 2_000).is_some());
}

#[test]
fn test_scrollback_settle_outcomes() {
    let mut tool: TermScrollbackTool<u32> = TermScrollbackTool::new();
    let id = "sb-2".to_string();
    tool.register_request(&id, &"session-0".to_string(), None, None, 4)
        .expect("fresh id expected");
    let settled = tool.settle_request(&id, BridgeOutcome::ChannelClosed);
    assert!(matches!(
        settled,
        Err(proxycast_core::registry::ToolError::ExecutionFailed(_))
    ));
    let ok = GetScrollbackResponse {
        request_id: "sb-3".to_string(),
        success: true,
        total_lines: 2,
        line_start: 0,
        line_end: 1,
        content: "a\nb".to_string(),
        has_more: false,
        error: None,
    };
    let rendered = tool
        .settle_request(&"sb-3".to_string(), BridgeOutcome::Response(ok))
        .expect("a successful answer settles Ok");
    assert!(rendered.success);
    assert_eq!(rendered.output, "Terminal output (lines 0-1 of 2):\n\na\nb");
}

#[test]
fn test_fulfillment_delivers_once() {
    let mut tool: TerminalTool<u32> = TerminalTool::new();
    let id = "req-2".to_string();
    tool.register_dispatch(&id, &"pwd".to_string(), None, 10, 3)
        .expect("fresh id expected");
    let response = TerminalCommandResponse {
        request_id: id.clone(),
        success: true,
        output: "/home".to_string(),
        error: None,
        exit_code: Some(0),
        rejected: false,
    };
    assert_eq!(handle_terminal_command_response(&mut tool, &response), Some(3));
    assert!(handle_terminal_command_response(&mut tool, &response).is_none());
}

#[test]
fn test_duplicate_window() {
    // An identical successful command inside the window is short-circuited;
    // after the window elapses it is dispatched again.
    let mut log = ExecutedLog::new();
    let cmd = "cargo build".to_string();
    assert!(log.check_duplicate_command(&cmd, 1_000).is_none());
    log.record_executed_command(&cmd, true, 1_000);
    let blocked = log.check_duplicate_command(&cmd, 5_000);
    assert!(blocked.is_some());
    assert!(blocked.unwrap().contains("already executed successfully"));
    // 30 seconds later the record has aged out.
    assert!(log.check_duplicate_command(&cmd, 31_001).is_none());
}

#[test]
fn test_failed_runs_are_not_suppressed() {
    let mut log = ExecutedLog::new();
    let cmd = "cargo test".to_string();
    log.record_executed_command(&cmd, false, 1_000);
    assert!(log.check_duplicate_command(&cmd, 2_000).is_none());
}

#[test]
fn test_record_cap() {
    let mut log = ExecutedLog::new();
    for i in 0..105u64 {
        log.record_executed_command(&format!("cmd-{}", i), true, 1_000 + i);
    }
    assert_eq!(log.record_count(), 100);
}

#[test]
fn test_terminal_duplicate_gate() {
    let mut tool: TerminalTool<u32> = TerminalTool::new();
    let cmd = "ls".to_string();
    assert!(tool.check_duplicate_command(&cmd, 1_000).is_none());
    tool.record_executed_command(&cmd, true, 1_000);
    let blocked = tool.check_duplicate_command(&cmd, 2_000).expect("short circuit expected");
    assert!(blocked.success);
    assert!(blocked.output.starts_with("[DUPLICATE COMMAND BLOCKED]"));
    assert!(blocked.output.ends_with("Original command: ls"));
}

#[test]
fn test_complete_execution_verdicts() {
    let mut tool: TerminalTool<u32> = TerminalTool::new();
    let cmd = "make".to_string();
    let rejected = TerminalCommandResponse {
        request_id: "r".to_string(),
        success: false,
        output: "".to_string(),
        error: None,
        exit_code: None,
        rejected: true,
    };
    let verdict = tool.complete_execution(&cmd, &rejected, 1_000);
    assert!(!verdict.success);
    assert_eq!(verdict.output, "The user rejected this command");
    assert_eq!(verdict.error.as_deref(), Some("Command rejected by the user"));

    let failed = TerminalCommandResponse {
        request_id: "r".to_string(),
        success: false,
        output: "partial".to_string(),
        error: None,
        exit_code: Some(2),
        rejected: false,
    };
    let verdict = tool.complete_execution(&cmd, &failed, 2_000);
    assert!(!verdict.success);
    assert_eq!(verdict.output, "partial");
    assert_eq!(verdict.error.as_deref(), Some("Command execution failed (exit code: 2)"));

    let ok = TerminalCommandResponse {
        request_id: "r".to_string(),
        success: true,
        output: "done".to_string(),
        error: None,
        exit_code: Some(0),
        rejected: false,
    };
    let verdict = tool.complete_execution(&cmd, &ok, 3_000);
    assert!(verdict.success);
    assert_eq!(verdict.output, "done");
}

#[test]
fn test_tool_definition() {
    let tool: TerminalTool<u32> = TerminalTool::new();
    let def = tool.definition();

    assert_eq!(def.name, "terminal");
    assert!(!def.description.is_empty());
    assert!(def.parameters.required.contains(&"command".to_string()));
}

#[test]
fn browser_test_tool_definition() {
    let tool = BrowserTool::new();
    let def = tool.definition();

    assert_eq!(def.name, "browser");
    assert!(!def.description.is_empty());
    assert!(def.parameters.required.contains(&"action".to_string()));
}

#[test]
fn test_scrollback_definition_and_output() {
    let tool: TermScrollbackTool<u32> = TermScrollbackTool::new();
    let def = tool.definition();
    assert_eq!(def.name, "term_get_scrollback");
    assert!(def.parameters.required.contains(&"session_id".to_string()));

    let response = GetScrollbackResponse {
        request_id: "r".to_string(),
        success: true,
        total_lines: 500,
        line_start: 300,
        line_end: 499,
        content: "line a\nline b".to_string(),
        has_more: true,
        error: None,
    };
    let text = format_scrollback_output(&response);
    assert!(text.starts_with("Terminal output (lines 300-499 of 500):\n\n"));
    assert!(text.contains("line a\nline b"));
    assert!(text.ends_with("[More output available. Use line_start parameter to fetch earlier lines.]"));
}

#[test]
fn test_scrollback_late_fulfillment_dropped() {
    let mut tool: TermScrollbackTool<u32> = TermScrollbackTool::new();
    let id = "sb-1".to_string();
    tool.register_request(&id, &"session-0".to_string(), None, Some(200), 9)
        .expect("fresh id expected");
    tool.abort_request(&id);
    let response = GetScrollbackResponse {
        request_id: id.clone(),
        success: true,
        total_lines: 1,
        line_start: 0,
        line_end: 0,
        content: "x".to_string(),
        has_more: false,
        error: None,
    };
    assert!(handle_term_scrollback_response(&mut tool, &response).is_none());
}

#[test]
fn test_registry_unique_names() {
    let mut registry = ToolRegistry::new();
    assert!(registry.register(ToolDefinition::new("terminal", "runs commands")).is_ok());
    assert!(registry.register(ToolDefinition::new("browser", "drives a browser")).is_ok());
    assert!(registry.register(ToolDefinition::new("terminal", "impostor")).is_err());
    assert_eq!(registry.len(), 2);
    assert_eq!(registry.list_names(), vec!["terminal".to_string(), "browser".to_string()]);
    assert!(registry.contains("terminal"));
    assert!(!registry.contains("bash"));
}

#[test]
fn test_browser_builders_and_output() {
    let tool = BrowserTool::new()
        .with_script_path("elsewhere/driver.mjs".to_string())
        .with_timeout(9)
        .with_headless(false);
    assert_eq!(tool.script_path, "elsewhere/driver.mjs");
    assert_eq!(tool.timeout_secs, 9);
    assert!(!tool.headless);

    let result = BrowserResult {
        success: true,
        output: "body text".to_string(),
        url: Some("https://example.com".to_string()),
        title: Some("Example".to_string()),
        screenshot: None,
        error: None,
    };
    let verdict = browser_result_to_tool(&result);
    assert!(verdict.success);
    assert_eq!(verdict.output, "Title: Example\nURL: https://example.com\nbody text");
}

#[test]
fn test_terminal_argument_parsing() {
    let tool: TerminalTool<u32> = TerminalTool::new();
    let good: serde_json::Value =
        serde_json::from_str("{\"command\":\"ls -la\",\"working_dir\":\"/tmp\",\"timeout\":60}")
            .unwrap();
    let args = tool.parse_arguments(&good).expect("well-formed arguments");
    assert_eq!(args.command, "ls -la");
    assert_eq!(args.working_dir.as_deref(), Some("/tmp"));
    assert_eq!(args.timeout_secs, 60);

    let defaulted: serde_json::Value = serde_json::from_str("{\"command\":\"pwd\"}").unwrap();
    let args = tool.parse_arguments(&defaulted).expect("well-formed arguments");
    assert_eq!(args.command, "pwd");
    assert!(args.working_dir.is_none());
    assert_eq!(args.timeout_secs, 120);

    let missing: serde_json::Value = serde_json::from_str("{\"working_dir\":\"/tmp\"}").unwrap();
    assert!(matches!(
        tool.parse_arguments(&missing),
        Err(proxycast_core::registry::ToolError::InvalidArguments(_))
    ));
}

#[test]
fn test_scrollback_argument_parsing() {
    let tool: TermScrollbackTool<u32> = TermScrollbackTool::new();
    let good: serde_json::Value =
        serde_json::from_str("{\"session_id\":\"s-1\",\"line_start\":10,\"count\":200}").unwrap();
    let args = tool.parse_arguments(&good).expect("well-formed arguments");
    assert_eq!(args.session_id, "s-1");
    assert_eq!(args.line_start, Some(10));
    assert_eq!(args.count, Some(200));

    let missing: serde_json::Value = serde_json::from_str("{\"count\":5}").unwrap();
    assert!(matches!(
        tool.parse_arguments(&missing),
        Err(proxycast_core::registry::ToolError::InvalidArguments(_))
    ));
}

#[test]
fn test_driver_outcome_settlement() {
    assert!(matches!(
        settle_driver_outcome(&DriverOutcome::TimedOut),
        Err(proxycast_core::registry::ToolError::Timeout)
    ));
    match settle_driver_outcome(&DriverOutcome::SpawnFailed("no such file".to_string())) {
        Err(proxycast_core::registry::ToolError::ExecutionFailed(m)) => {
            assert_eq!(m, "failed to run the driver process: no such file");
        }
        _ => panic!("expected an execution failure"),
    }
    match settle_driver_outcome(&DriverOutcome::Exited {
        status_success: false,
        parsed: None,
        stderr: "boom".to_string(),
    }) {
        Err(proxycast_core::registry::ToolError::ExecutionFailed(m)) => {
            assert_eq!(m, "browser action failed: boom");
        }
        _ => panic!("expected an execution failure"),
    }
    let parsed = BrowserResult {
        success: true,
        output: "page text".to_string(),
        url: None,
        title: None,
        screenshot: None,
        error: None,
    };
    let settled = settle_driver_outcome(&DriverOutcome::Exited {
        status_success: true,
        parsed: Some(parsed),
        stderr: String::new(),
    })
    .expect("a parsed result passes through");
    assert!(settled.success);
    assert_eq!(settled.output, "page text");
}

#[test]
fn test_fresh_request_ids() {
    let a = fresh_request_id();
    let b = fresh_request_id();
    assert_eq!(a.chars().count(), 36);
    assert_eq!(b.chars().count(), 36);
    assert_ne!(a, b);
}

#[test]
fn test_decimal_rendering() {
    assert_eq!(u64_to_string(0), "0");
    assert_eq!(u64_to_string(1234), "1234");
    assert_eq!(i32_to_string(-7), "-7");
    assert_eq!(i32_to_string(120), "120");
}
