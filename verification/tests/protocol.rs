//! Tests of the SSE decoder, the stream parser and the protocol adapter.

use proxycast_core::adapter::{
    decode_image_url, convert_to_anthropic_message, AnthropicProtocol, FunctionDef, ImageSource,
    Tool, WireBlock, WireContent,
};
use proxycast_core::stream::TurnStream;
use proxycast_core::types::{
    AgentConfig, AgentMessage, ImageData, MessageContent, ToolCall,
};

fn user_msg(text: &str) -> AgentMessage {
    AgentMessage {
        role: "user".to_string(),
        content: MessageContent::Text(text.to_string()),
        timestamp: "2024-01-01T00:00:00Z".to_string(),
        tool_calls: None,
        tool_call_id: None,
        reasoning_content: None,
    }
}

#[test]
fn test_scenario_text_then_stop() {
    // A text-delta frame "Hi" followed by the terminal marker yields the
    // terminal aggregate {content: "Hi", tool_calls: None}.
    let mut turn = TurnStream::new();
    let bytes = "event: content_block_delta\ndata: {\"type\":\"content_block_delta\",\"index\":0,\"delta\":{\"type\":\"text_delta\",\"text\":\"Hi\"}}\n\nevent: message_stop\ndata: {\"type\":\"message_stop\"}\n\n";
    let events = turn.push_chunk(bytes.as_bytes());
    assert!(turn.is_done());
    let result = turn.finalize();
    assert_eq!(result.content, "Hi");
    assert!(result.tool_calls.is_none());
    assert!(result.usage.is_none());
    assert!(!events.is_empty());
}

#[test]
fn test_fragmentation_invariance() {
    // Feeding the same byte stream whole or byte by byte yields the same
    // final aggregate.
    let mut stream_text = String::new();
    stream_text.push_str("data: {\"type\":\"message_start\",\"message\":{\"usage\":{\"input_tokens\":3}}}\n\n");
    stream_text.push_str("data: {\"type\":\"content_block_delta\",\"index\":0,\"delta\":{\"type\":\"text_delta\",\"text\":\"Hel\"}}\n\n");
    stream_text.push_str("data: {\"type\":\"content_block_delta\",\"index\":0,\"delta\":{\"type\":\"text_delta\",\"text\":\"lo\"}}\n\n");
    stream_text.push_str("data: {\"type\":\"message_delta\",\"delta\":{\"stop_reason\":\"end_turn\"},\"usage\":{\"output_tokens\":5}}\n\n");
    stream_text.push_str("data: {\"type\":\"message_stop\"}\n\n");
    let bytes = stream_text.as_str();
    let mut whole = TurnStream::new();
    whole.push_chunk(bytes.as_bytes());
    let whole_result = whole.finalize();

    let mut pieces = TurnStream::new();
    for b in bytes.as_bytes() {
        pieces.push_chunk(&[*b]);
    }
    let piece_result = pieces.finalize();

    assert_eq!(whole_result.content, piece_result.content);
    assert_eq!(whole_result.content, "Hello");
    let wu = whole_result.usage.expect("usage expected");
    let pu = piece_result.usage.expect("usage expected");
    assert_eq!(wu.input_tokens, 3);
    assert_eq!(wu.output_tokens, 5);
    assert_eq!(pu.input_tokens, 3);
    assert_eq!(pu.output_tokens, 5);
    assert_eq!(whole.is_done(), pieces.is_done());
}

#[test]
fn test_tool_call_accumulation() {
    // Argument deltas accumulate per block and are interpreted once, on
    // block close.
    let mut stream_text = String::new();
    stream_text.push_str("data: {\"type\":\"content_block_start\",\"index\":0,\"content_block\":{\"type\":\"tool_use\",\"id\":\"t1\",\"name\":\"terminal\"}}\n\n");
    stream_text.push_str("data: {\"type\":\"content_block_delta\",\"index\":0,\"delta\":{\"type\":\"input_json_delta\",\"partial_json\":\"{\\\"command\\\":\"}}\n\n");
    stream_text.push_str("data: {\"type\":\"content_block_delta\",\"index\":0,\"delta\":{\"type\":\"input_json_delta\",\"partial_json\":\"\\\"ls\\\"}\"}}\n\n");
    stream_text.push_str("data: {\"type\":\"content_block_stop\",\"index\":0}\n\n");
    stream_text.push_str("data: {\"type\":\"message_stop\"}\n\n");
    let bytes = stream_text.as_str();
    let mut turn = TurnStream::new();
    turn.push_chunk(bytes.as_bytes());
    let result = turn.finalize();
    let calls = result.tool_calls.expect("tool calls expected");
    assert_eq!(calls.len(), 1);
    assert_eq!(calls[0].id, "t1");
    assert_eq!(calls[0].name, "terminal");
    assert_eq!(calls[0].arguments, "{\"command\":\"ls\"}");
}

#[test]
fn test_malformed_tool_arguments_default_to_empty_object() {
    // A buffer that is not acceptable JSON yields the empty object rather
    // than aborting the turn.
    let mut stream_text = String::new();
    stream_text.push_str("data: {\"type\":\"content_block_start\",\"index\":0,\"content_block\":{\"type\":\"tool_use\",\"id\":\"t1\",\"name\":\"terminal\"}}\n\n");
    stream_text.push_str("data: {\"type\":\"content_block_delta\",\"index\":0,\"delta\":{\"type\":\"input_json_delta\",\"partial_json\":\"{\\\"comm\"}}\n\n");
    stream_text.push_str("data: {\"type\":\"message_stop\"}\n\n");
    let bytes = stream_text.as_str();
    let mut turn = TurnStream::new();
    turn.push_chunk(bytes.as_bytes());
    let result = turn.finalize();
    let calls = result.tool_calls.expect("tool calls expected");
    assert_eq!(calls[0].arguments, "{}");
}

#[test]
fn test_decode_data_url() {
    let inline = decode_image_url(&"data:image/png;base64,QUJD".to_string());
    match inline {
        ImageSource::Base64 { media_type, data } => {
            assert_eq!(media_type, "image/png");
            assert_eq!(data, "QUJD");
        }
        ImageSource::Url { .. } => panic!("expected an inline image"),
    }
    let plain = decode_image_url(&"https://example.com/cat.png".to_string());
    match plain {
        ImageSource::Url { url } => assert_eq!(url, "https://example.com/cat.png"),
        ImageSource::Base64 { .. } => panic!("expected a pass-through URL"),
    }
}

#[test]
fn test_tool_role_remap() {
    // The vendor has no tool role: a tool result becomes a user message
    // holding one tool-result block.
    let msg = AgentMessage {
        role: "tool".to_string(),
        content: MessageContent::Text("output text".to_string()),
        timestamp: "2024-01-01T00:00:00Z".to_string(),
        tool_calls: None,
        tool_call_id: Some("t1".to_string()),
        reasoning_content: None,
    };
    let wire = convert_to_anthropic_message(&msg);
    assert_eq!(wire.role, "user");
    match wire.content {
        WireContent::Blocks(blocks) => {
            assert_eq!(blocks.len(), 1);
            match &blocks[0] {
                WireBlock::ToolResult { tool_use_id, content } => {
                    assert_eq!(tool_use_id, "t1");
                    assert_eq!(content, "output text");
                }
                _ => panic!("expected a tool-result block"),
            }
        }
        WireContent::Text(_) => panic!("expected a block list"),
    }
}

#[test]
fn test_synthetic_result_for_unanswered_call() {
    // A history with an assistant tool call "t1" and no following result
    // gains, after repair, a synthetic failure result for "t1".
    let history = vec![
        user_msg("run it"),
        AgentMessage {
            role: "assistant".to_string(),
            content: MessageContent::Text("".to_string()),
            timestamp: "2024-01-01T00:00:00Z".to_string(),
            tool_calls: Some(vec![ToolCall {
                id: "t1".to_string(),
                name: "terminal".to_string(),
                arguments: "{}".to_string(),
            }]),
            tool_call_id: None,
            reasoning_content: None,
        },
    ];
    let repaired = proxycast_core::repair::repair_history(
        &history,
        &"2024-01-01T00:00:01Z".to_string(),
    );
    assert_eq!(repaired.len(), 3);
    let synthetic = &repaired[2];
    assert_eq!(synthetic.role, "tool");
    assert_eq!(synthetic.tool_call_id.as_deref(), Some("t1"));
    match &synthetic.content {
        MessageContent::Text(t) => assert_eq!(t, "execution timed out or failed"),
        MessageContent::Parts(_) => panic!("expected plain text"),
    }
}

#[test]
fn test_repair_exact_pairing() {
    // After repair every declared call has exactly one matching result and
    // declaration order is kept; orphaned and duplicate results leave.
    let assistant = AgentMessage {
        role: "assistant".to_string(),
        content: MessageContent::Text("".to_string()),
        timestamp: "2024-01-01T00:00:00Z".to_string(),
        tool_calls: Some(vec![
            ToolCall { id: "a".to_string(), name: "x".to_string(), arguments: "{}".to_string() },
            ToolCall { id: "b".to_string(), name: "y".to_string(), arguments: "{}".to_string() },
        ]),
        tool_call_id: None,
        reasoning_content: None,
    };
    let result_b = AgentMessage {
        role: "tool".to_string(),
        content: MessageContent::Text("done b".to_string()),
        timestamp: "2024-01-01T00:00:01Z".to_string(),
        tool_calls: None,
        tool_call_id: Some("b".to_string()),
        reasoning_content: None,
    };
    let orphan = AgentMessage {
        role: "tool".to_string(),
        content: MessageContent::Text("orphan".to_string()),
        timestamp: "2024-01-01T00:00:02Z".to_string(),
        tool_calls: None,
        tool_call_id: Some("zz".to_string()),
        reasoning_content: None,
    };
    let duplicate_b = AgentMessage {
        role: "tool".to_string(),
        content: MessageContent::Text("done b again".to_string()),
        timestamp: "2024-01-01T00:00:03Z".to_string(),
        tool_calls: None,
        tool_call_id: Some("b".to_string()),
        reasoning_content: None,
    };
    let history = vec![assistant, result_b, orphan, duplicate_b];
    let repaired = proxycast_core::repair::repair_history(
        &history,
        &"2024-01-01T00:00:09Z".to_string(),
    );
    let mut count_a = 0;
    let mut count_b = 0;
    let mut count_other = 0;
    for m in &repaired {
        if m.role == "tool" {
            match m.tool_call_id.as_deref() {
                Some("a") => count_a += 1,
                Some("b") => count_b += 1,
                _ => count_other += 1,
            }
        }
    }
    assert_eq!(count_a, 1);
    assert_eq!(count_b, 1);
    assert_eq!(count_other, 0);
    // The kept result answers "b"; the synthetic one for "a" follows it.
    let tool_ids: Vec<&str> = repaired
        .iter()
        .filter(|m| m.role == "tool")
        .map(|m| m.tool_call_id.as_deref().unwrap())
        .collect();
    assert_eq!(tool_ids, vec!["b", "a"]);
}

#[test]
fn test_build_messages_appends_user_entry() {
    let protocol = AnthropicProtocol::new();
    let history = vec![user_msg("earlier")];
    let messages = protocol.build_messages_at(
        &history,
        "hello",
        None,
        &"2024-01-01T00:00:00Z".to_string(),
    );
    assert_eq!(messages.len(), 2);
    assert_eq!(messages[1].role, "user");
    match &messages[1].content {
        WireContent::Text(t) => assert_eq!(t, "hello"),
        WireContent::Blocks(_) => panic!("expected plain text"),
    }
}

#[test]
fn test_build_messages_with_images() {
    let protocol = AnthropicProtocol::new();
    let history: Vec<AgentMessage> = Vec::new();
    let images = vec![ImageData {
        media_type: "image/png".to_string(),
        data: "QUJD".to_string(),
    }];
    let messages = protocol.build_messages_at(
        &history,
        "look",
        Some(&images),
        &"2024-01-01T00:00:00Z".to_string(),
    );
    assert_eq!(messages.len(), 1);
    match &messages[0].content {
        WireContent::Blocks(blocks) => {
            assert_eq!(blocks.len(), 2);
            assert!(matches!(&blocks[0], WireBlock::Text { text } if text == "look"));
            assert!(matches!(&blocks[1], WireBlock::ImageBase64 { media_type, data }
                if media_type == "image/png" && data == "QUJD"));
        }
        WireContent::Text(_) => panic!("expected a block list"),
    }
}

#[test]
fn test_convert_tools_skips_search_tools() {
    let tools = vec![
        Tool::Function {
            function: FunctionDef {
                name: "terminal".to_string(),
                description: None,
                parameters_json: None,
            },
        },
        Tool::WebSearch,
        Tool::WebSearch20250305,
    ];
    let converted = AnthropicProtocol::convert_tools(Some(&tools)).expect("tool list expected");
    assert_eq!(converted.len(), 1);
    assert_eq!(converted[0].name, "terminal");
    assert_eq!(converted[0].description, "");
    assert_eq!(converted[0].input_schema_json, "{\"type\":\"object\",\"properties\":{}}");
    assert!(AnthropicProtocol::convert_tools(None).is_none());
}

#[test]
fn test_system_field_forms() {
    let plain = AnthropicProtocol::new();
    let arr = AnthropicProtocol::with_array_system_format();
    match plain.build_system_field("be brief") {
        proxycast_core::adapter::SystemField::Plain(p) => assert_eq!(p, "be brief"),
        _ => panic!("expected the plain form"),
    }
    match arr.build_system_field("be brief") {
        proxycast_core::adapter::SystemField::BlockArray(p) => assert_eq!(p, "be brief"),
        _ => panic!("expected the array form"),
    }
}

#[test]
fn test_build_request_defaults() {
    let protocol = AnthropicProtocol::new();
    let history: Vec<AgentMessage> = Vec::new();
    let config = AgentConfig { system_prompt: None, max_tokens: None };
    let request = protocol.build_request(&history, "hi", None, "model-a", &config, None);
    assert_eq!(request.model, "model-a");
    assert!(request.stream);
    assert_eq!(request.max_tokens, 4096);
    assert!(request.system.is_none());
    assert!(request.tools.is_none());
    assert_eq!(request.messages.len(), 1);
    assert_eq!(protocol.endpoint(), "/v1/messages");
}
