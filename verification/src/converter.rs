//! Converts agent-core events into the shell-facing event format.
//!
//! The agent core's message shapes are modeled here as closed tagged types
//! holding plain values, with exhaustive matching at every conversion
//! boundary, so an unrecognized shape fails fast rather than silently
//! dropping data.  One incoming event may fan out into several shell
//! events.

use vstd::prelude::*;
use crate::types::string_is;

verus! {

/// Plain text content of an agent message.
#[derive(Debug, Clone)]
pub struct TextContent {
    pub text: String,
}

/// Thinking content of an agent message.
#[derive(Debug, Clone)]
pub struct ThinkingContent {
    pub thinking: String,
}

/// One parsed tool call carried by a request part.
#[derive(Debug, Clone)]
pub struct ToolCallInfo {
    pub name: String,
    /// Raw JSON text of the arguments.
    pub arguments_json: String,
}

/// A tool request part: the parse of the call may have failed.
#[derive(Debug)]
pub struct ToolRequest {
    pub id: String,
    pub tool_call: Result<ToolCallInfo, String>,
}

/// One block of a tool result; only `text` blocks carry readable output.
#[derive(Debug, Clone)]
pub struct ToolResultBlock {
    pub kind: String,
    pub text: String,
}

/// A tool response part: the execution may have failed.
#[derive(Debug)]
pub struct ToolResponseContent {
    pub id: String,
    pub tool_result: Result<Vec<ToolResultBlock>, String>,
}

/// The payload of an action-required part.
#[derive(Debug, Clone)]
pub enum ActionRequiredData {
    ToolConfirmation { id: String, tool_name: String, arguments_json: String, prompt: String },
    Elicitation { id: String, message: String, requested_schema_json: String },
    ElicitationResponse { id: String, user_data_json: String },
}

/// An action-required part.
#[derive(Debug, Clone)]
pub struct ActionRequired {
    pub data: ActionRequiredData,
}

/// A system notification part.
#[derive(Debug, Clone)]
pub struct SystemNotification {
    pub msg: String,
}

/// An inline image part.
#[derive(Debug, Clone)]
pub struct ImageContent {
    pub mime_type: String,
    pub data: String,
}

/// A direct tool confirmation request part.
#[derive(Debug, Clone)]
pub struct ToolConfirmationRequest {
    pub id: String,
    pub tool_name: String,
    pub arguments_json: String,
    pub prompt: String,
}

/// One part of an agent message.
#[derive(Debug)]
pub enum MessagePart {
    Text(TextContent),
    Thinking(ThinkingContent),
    ToolRequest(ToolRequest),
    ToolResponse(ToolResponseContent),
    ActionRequired(ActionRequired),
    SystemNotification(SystemNotification),
    Image(ImageContent),
    ToolConfirmationRequest(ToolConfirmationRequest),
    FrontendToolRequest(ToolRequest),
    RedactedThinking(String),
}

/// One agent message.
#[derive(Debug)]
pub struct Message {
    pub id: Option<String>,
    /// Lower-case role name.
    pub role: String,
    pub created: i64,
    pub content: Vec<MessagePart>,
}

impl Message {
    /// An empty assistant message.
    pub fn assistant() -> (r: Self)
        ensures
            r.role@ == "assistant"@,
            r.id is None,
            r.created == 0,
            r.content@.len() == 0,
    {
        Message { id: None, role: String::from_str("assistant"), created: 0, content: Vec::new() }
    }

    /// An empty user message.
    pub fn user() -> (r: Self)
        ensures
            r.role@ == "user"@,
            r.id is None,
            r.created == 0,
            r.content@.len() == 0,
    {
        Message { id: None, role: String::from_str("user"), created: 0, content: Vec::new() }
    }

    /// The message with one text part appended.
    pub fn with_text(self, text: &str) -> (r: Self)
        ensures
            r.id == self.id,
            r.role@ == self.role@,
            r.created == self.created,
            r.content@.len() == self.content@.len() + 1,
            r.content@.drop_last() == self.content@,
            r.content@.last() is Text,
            r.content@.last()->Text_0.text@ == text@,
    {
        let mut content = self.content;
        content.push(MessagePart::Text(TextContent { text: String::from_str(text) }));
        Message { id: self.id, role: self.role, created: self.created, content }
    }
}

/// One event from the agent core.
#[derive(Debug)]
pub enum AgentEvent {
    Message(Message),
    McpNotification { server_name: String, payload_json: String },
    ModelChange { model: String, mode: String },
    HistoryReplaced,
}

/// A tool outcome as shown by the shell.
#[derive(Debug, Clone)]
pub struct TauriToolResult {
    pub success: bool,
    pub output: String,
    pub error: Option<String>,
}

/// Token usage as shown by the shell.
#[derive(Debug, Clone)]
pub struct TauriTokenUsage {
    pub input_tokens: u32,
    pub output_tokens: u32,
}

/// The payload of a shell action-required event.
#[derive(Debug, Clone)]
pub enum TauriActionData {
    ToolConfirmation { tool_name: String, arguments_json: String, prompt: String },
    Elicitation { message: String, requested_schema_json: String },
    ElicitationResponse { user_data_json: String },
}

/// One shell-facing event.
#[derive(Debug, Clone)]
pub enum TauriAgentEvent {
    TextDelta { text: String },
    ThinkingDelta { text: String },
    ToolStart { tool_name: String, tool_id: String, arguments: Option<String> },
    ToolEnd { tool_id: String, result: TauriToolResult },
    ActionRequired { request_id: String, action_type: String, data: TauriActionData },
    ModelChange { model: String, mode: String },
    Done { usage: Option<TauriTokenUsage> },
    FinalDone { usage: Option<TauriTokenUsage> },
    Error { message: String },
}

/// Spec model of a shell tool outcome.
pub struct TauriToolResultModel {
    pub success: bool,
    pub output: Seq<char>,
    pub error: Option<Seq<char>>,
}

impl View for TauriToolResult {
    type V = TauriToolResultModel;

    open spec fn view(&self) -> TauriToolResultModel {
        TauriToolResultModel {
            success: self.success,
            output: self.output@,
            error: match &self.error {
                Some(e) => Some(e@),
                None => None,
            },
        }
    }
}

/// Spec model of a shell action payload.
pub enum TauriActionDataModel {
    ToolConfirmation { tool_name: Seq<char>, arguments_json: Seq<char>, prompt: Seq<char> },
    Elicitation { message: Seq<char>, requested_schema_json: Seq<char> },
    ElicitationResponse { user_data_json: Seq<char> },
}

impl View for TauriActionData {
    type V = TauriActionDataModel;

    open spec fn view(&self) -> TauriActionDataModel {
        match self {
            TauriActionData::ToolConfirmation { tool_name, arguments_json, prompt } => {
                TauriActionDataModel::ToolConfirmation {
                    tool_name: tool_name@,
                    arguments_json: arguments_json@,
                    prompt: prompt@,
                }
            },
            TauriActionData::Elicitation { message, requested_schema_json } => {
                TauriActionDataModel::Elicitation {
                    message: message@,
                    requested_schema_json: requested_schema_json@,
                }
            },
            TauriActionData::ElicitationResponse { user_data_json } => {
                TauriActionDataModel::ElicitationResponse { user_data_json: user_data_json@ }
            },
        }
    }
}

/// Spec model of a shell event.
pub enum TauriEventModel {
    TextDelta { text: Seq<char> },
    ThinkingDelta { text: Seq<char> },
    ToolStart { tool_name: Seq<char>, tool_id: Seq<char>, arguments: Option<Seq<char>> },
    ToolEnd { tool_id: Seq<char>, result: TauriToolResultModel },
    ActionRequired { request_id: Seq<char>, action_type: Seq<char>, data: TauriActionDataModel },
    ModelChange { model: Seq<char>, mode: Seq<char> },
    Done { usage: Option<TauriTokenUsage> },
    FinalDone { usage: Option<TauriTokenUsage> },
    Error { message: Seq<char> },
}

impl View for TauriAgentEvent {
    type V = TauriEventModel;

    open spec fn view(&self) -> TauriEventModel {
        match self {
            TauriAgentEvent::TextDelta { text } => TauriEventModel::TextDelta { text: text@ },
            TauriAgentEvent::ThinkingDelta { text } => TauriEventModel::ThinkingDelta {
                text: text@,
            },
            TauriAgentEvent::ToolStart { tool_name, tool_id, arguments } => {
                TauriEventModel::ToolStart {
                    tool_name: tool_name@,
                    tool_id: tool_id@,
                    arguments: match arguments {
                        Some(a) => Some(a@),
                        None => None,
                    },
                }
            },
            TauriAgentEvent::ToolEnd { tool_id, result } => TauriEventModel::ToolEnd {
                tool_id: tool_id@,
                result: result@,
            },
            TauriAgentEvent::ActionRequired { request_id, action_type, data } => {
                TauriEventModel::ActionRequired {
                    request_id: request_id@,
                    action_type: action_type@,
                    data: data@,
                }
            },
            TauriAgentEvent::ModelChange { model, mode } => TauriEventModel::ModelChange {
                model: model@,
                mode: mode@,
            },
            TauriAgentEvent::Done { usage } => TauriEventModel::Done { usage: *usage },
            TauriAgentEvent::FinalDone { usage } => TauriEventModel::FinalDone { usage: *usage },
            TauriAgentEvent::Error { message } => TauriEventModel::Error { message: message@ },
        }
    }
}

/// The readable text blocks of a tool result, in order.
pub open spec fn text_items(bs: Seq<ToolResultBlock>) -> Seq<Seq<char>>
    decreases bs.len(),
{
    if bs.len() == 0 {
        Seq::<Seq<char>>::empty()
    } else {
        text_items(bs.drop_last()) + (if bs.last().kind@ == "text"@ {
            seq![bs.last().text@]
        } else {
            Seq::<Seq<char>>::empty()
        })
    }
}

/// Lines joined with one newline between them.
pub open spec fn join_nl(items: Seq<Seq<char>>) -> Seq<char>
    decreases items.len(),
{
    if items.len() == 0 {
        Seq::<char>::empty()
    } else if items.len() == 1 {
        items[0]
    } else {
        join_nl(items.drop_last()) + "\n"@ + items.last()
    }
}

/// The readable text of a tool result: its text blocks joined by newlines.
pub open spec fn tool_result_text_of(bs: Seq<ToolResultBlock>) -> Seq<char> {
    join_nl(text_items(bs))
}

/// The shell events one message part fans out into.
pub open spec fn part_events(p: MessagePart) -> Seq<TauriEventModel> {
    match p {
        MessagePart::Text(t) => seq![TauriEventModel::TextDelta { text: t.text@ }],
        MessagePart::Thinking(t) => seq![TauriEventModel::ThinkingDelta { text: t.thinking@ }],
        MessagePart::ToolRequest(req) => match req.tool_call {
            Ok(call) => seq![TauriEventModel::ToolStart {
                tool_name: call.name@,
                tool_id: req.id@,
                arguments: Some(call.arguments_json@),
            }],
            Err(e) => seq![TauriEventModel::Error {
                message: "Invalid tool call: "@ + e@,
            }],
        },
        MessagePart::ToolResponse(resp) => match resp.tool_result {
            Ok(blocks) => seq![TauriEventModel::ToolEnd {
                tool_id: resp.id@,
                result: TauriToolResultModel {
                    success: true,
                    output: tool_result_text_of(blocks@.map_values(|b: ToolResultBlock| b)),
                    error: None,
                },
            }],
            Err(e) => seq![TauriEventModel::ToolEnd {
                tool_id: resp.id@,
                result: TauriToolResultModel {
                    success: false,
                    output: Seq::<char>::empty(),
                    error: Some(e@),
                },
            }],
        },
        MessagePart::ActionRequired(action) => match action.data {
            ActionRequiredData::ToolConfirmation { id, tool_name, arguments_json, prompt } => {
                seq![TauriEventModel::ActionRequired {
                    request_id: id@,
                    action_type: "tool_confirmation"@,
                    data: TauriActionDataModel::ToolConfirmation {
                        tool_name: tool_name@,
                        arguments_json: arguments_json@,
                        prompt: prompt@,
                    },
                }]
            },
            ActionRequiredData::Elicitation { id, message, requested_schema_json } => {
                seq![TauriEventModel::ActionRequired {
                    request_id: id@,
                    action_type: "elicitation"@,
                    data: TauriActionDataModel::Elicitation {
                        message: message@,
                        requested_schema_json: requested_schema_json@,
                    },
                }]
            },
            ActionRequiredData::ElicitationResponse { id, user_data_json } => {
                seq![TauriEventModel::ActionRequired {
                    request_id: id@,
                    action_type: "elicitation_response"@,
                    data: TauriActionDataModel::ElicitationResponse {
                        user_data_json: user_data_json@,
                    },
                }]
            },
        },
        MessagePart::SystemNotification(n) => seq![TauriEventModel::TextDelta { text: n.msg@ }],
        MessagePart::Image(_) => Seq::<TauriEventModel>::empty(),
        MessagePart::ToolConfirmationRequest(req) => seq![TauriEventModel::ActionRequired {
            request_id: req.id@,
            action_type: "tool_confirmation"@,
            data: TauriActionDataModel::ToolConfirmation {
                tool_name: req.tool_name@,
                arguments_json: req.arguments_json@,
                prompt: req.prompt@,
            },
        }],
        MessagePart::FrontendToolRequest(req) => match req.tool_call {
            Ok(call) => seq![TauriEventModel::ToolStart {
                tool_name: call.name@,
                tool_id: req.id@,
                arguments: Some(call.arguments_json@),
            }],
            Err(e) => seq![TauriEventModel::Error {
                message: "Invalid frontend tool call: "@ + e@,
            }],
        },
        MessagePart::RedactedThinking(_) => Seq::<TauriEventModel>::empty(),
    }
}

/// The shell events of a run of parts, in order.
pub open spec fn parts_events(ps: Seq<MessagePart>) -> Seq<TauriEventModel>
    decreases ps.len(),
{
    if ps.len() == 0 {
        Seq::<TauriEventModel>::empty()
    } else {
        parts_events(ps.drop_last()) + part_events(ps.last())
    }
}

/// Extracts the readable text of a tool result.
pub fn extract_tool_result_text(blocks: &Vec<ToolResultBlock>) -> (r: String)
    ensures
        r@ == tool_result_text_of(blocks@.map_values(|b: ToolResultBlock| b)),
{
    let ghost bm = blocks@.map_values(|b: ToolResultBlock| b);
    proof {
        assert(bm =~= blocks@);
    }
    let mut items: Vec<String> = Vec::new();
    let n = blocks.len();
    let mut k: usize = 0;
    proof {
        assert(items@.map_values(|s: String| s@) =~= text_items(blocks@.take(0)));
    }
    while k < n
        invariant
            k <= n,
            n == blocks@.len(),
            items@.map_values(|s: String| s@) == text_items(blocks@.take(k as int)),
        decreases n - k,
    {
        proof {
            assert(blocks@.take(k + 1).drop_last() =~= blocks@.take(k as int));
            assert(blocks@.take(k + 1).last() == blocks@[k as int]);
        }
        let b = &blocks[k];
        if string_is(&b.kind, "text") {
            let ghost iv0 = items@.map_values(|s: String| s@);
            items.push(b.text.clone());
            proof {
                let iv = items@.map_values(|s: String| s@);
                assert(iv.drop_last() =~= iv0);
                assert(iv[iv.len() - 1] == items@[items@.len() - 1]@);
                assert(iv =~= text_items(blocks@.take(k + 1)));
            }
        } else {
            proof {
                assert(text_items(blocks@.take(k as int)) + Seq::<Seq<char>>::empty()
                    =~= text_items(blocks@.take(k as int)));
            }
        }
        k = k + 1;
    }
    proof {
        assert(blocks@.take(n as int) =~= blocks@);
    }
    let ghost itemsv = items@.map_values(|s: String| s@);
    let mut out = String::new();
    let m = items.len();
    let mut j: usize = 0;
    proof {
        assert(out@ =~= join_nl(itemsv.take(0)));
    }
    while j < m
        invariant
            j <= m,
            m == items@.len(),
            itemsv == items@.map_values(|s: String| s@),
            out@ == join_nl(itemsv.take(j as int)),
        decreases m - j,
    {
        proof {
            assert(itemsv.take(j + 1).drop_last() =~= itemsv.take(j as int));
            assert(itemsv.take(j + 1).last() == itemsv[j as int]);
            assert(itemsv[j as int] == items@[j as int]@);
        }
        if j > 0 {
            out.append("\n");
        }
        out.append(items[j].as_str());
        proof {
            if j == 0 {
                assert(itemsv.take(1).len() == 1);
                assert(join_nl(itemsv.take(1)) == itemsv.take(1)[0]);
                assert(itemsv.take(1)[0] == itemsv[0]);
                assert(join_nl(itemsv.take(0)) =~= Seq::<char>::empty());
                assert(Seq::<char>::empty() + itemsv[0] =~= itemsv[0]);
                assert(out@ =~= join_nl(itemsv.take(1)));
            } else {
                assert(out@ =~= join_nl(itemsv.take(j + 1)));
            }
        }
        j = j + 1;
    }
    proof {
        assert(itemsv.take(m as int) =~= itemsv);
    }
    out
}

/// The shell events one message part fans out into.
pub fn convert_part(part: &MessagePart) -> (events: Vec<TauriAgentEvent>)
    ensures
        events@.map_values(|e: TauriAgentEvent| e@) == part_events(*part),
{
    let mut events: Vec<TauriAgentEvent> = Vec::new();
    match part {
        MessagePart::Text(t) => {
            events.push(TauriAgentEvent::TextDelta { text: t.text.clone() });
        },
        MessagePart::Thinking(t) => {
            events.push(TauriAgentEvent::ThinkingDelta { text: t.thinking.clone() });
        },
        MessagePart::ToolRequest(req) => {
            match &req.tool_call {
                Ok(call) => {
                    events.push(TauriAgentEvent::ToolStart {
                        tool_name: call.name.clone(),
                        tool_id: req.id.clone(),
                        arguments: Some(call.arguments_json.clone()),
                    });
                },
                Err(e) => {
                    let mut message = String::from_str("Invalid tool call: ");
                    message.append(e.as_str());
                    events.push(TauriAgentEvent::Error { message });
                },
            }
        },
        MessagePart::ToolResponse(resp) => {
            match &resp.tool_result {
                Ok(blocks) => {
                    let output = extract_tool_result_text(blocks);
                    events.push(TauriAgentEvent::ToolEnd {
                        tool_id: resp.id.clone(),
                        result: TauriToolResult { success: true, output, error: None },
                    });
                },
                Err(e) => {
                    events.push(TauriAgentEvent::ToolEnd {
                        tool_id: resp.id.clone(),
                        result: TauriToolResult {
                            success: false,
                            output: String::new(),
                            error: Some(e.clone()),
                        },
                    });
                },
            }
        },
        MessagePart::ActionRequired(action) => {
            match &action.data {
                ActionRequiredData::ToolConfirmation { id, tool_name, arguments_json, prompt } => {
                    events.push(TauriAgentEvent::ActionRequired {
                        request_id: id.clone(),
                        action_type: String::from_str("tool_confirmation"),
                        data: TauriActionData::ToolConfirmation {
                            tool_name: tool_name.clone(),
                            arguments_json: arguments_json.clone(),
                            prompt: prompt.clone(),
                        },
                    });
                },
                ActionRequiredData::Elicitation { id, message, requested_schema_json } => {
                    events.push(TauriAgentEvent::ActionRequired {
                        request_id: id.clone(),
                        action_type: String::from_str("elicitation"),
                        data: TauriActionData::Elicitation {
                            message: message.clone(),
                            requested_schema_json: requested_schema_json.clone(),
                        },
                    });
                },
                ActionRequiredData::ElicitationResponse { id, user_data_json } => {
                    events.push(TauriAgentEvent::ActionRequired {
                        request_id: id.clone(),
                        action_type: String::from_str("elicitation_response"),
                        data: TauriActionData::ElicitationResponse {
                            user_data_json: user_data_json.clone(),
                        },
                    });
                },
            }
        },
        MessagePart::SystemNotification(n) => {
            events.push(TauriAgentEvent::TextDelta { text: n.msg.clone() });
        },
        MessagePart::Image(_) => {},
        MessagePart::ToolConfirmationRequest(req) => {
            events.push(TauriAgentEvent::ActionRequired {
                request_id: req.id.clone(),
                action_type: String::from_str("tool_confirmation"),
                data: TauriActionData::ToolConfirmation {
                    tool_name: req.tool_name.clone(),
                    arguments_json: req.arguments_json.clone(),
                    prompt: req.prompt.clone(),
                },
            });
        },
        MessagePart::FrontendToolRequest(req) => {
            match &req.tool_call {
                Ok(call) => {
                    events.push(TauriAgentEvent::ToolStart {
                        tool_name: call.name.clone(),
                        tool_id: req.id.clone(),
                        arguments: Some(call.arguments_json.clone()),
                    });
                },
                Err(e) => {
                    let mut message = String::from_str("Invalid frontend tool call: ");
                    message.append(e.as_str());
                    events.push(TauriAgentEvent::Error { message });
                },
            }
        },
        MessagePart::RedactedThinking(_) => {},
    }
    proof {
        assert(events@.map_values(|e: TauriAgentEvent| e@) =~= part_events(*part));
    }
    events
}

/// Fans one agent message out into shell events, part by part, in order.
pub fn convert_message(message: &Message) -> (events: Vec<TauriAgentEvent>)
    ensures
        events@.map_values(|e: TauriAgentEvent| e@) == parts_events(message.content@),
{
    let mut events: Vec<TauriAgentEvent> = Vec::new();
    let n = message.content.len();
    let mut k: usize = 0;
    proof {
        assert(events@.map_values(|e: TauriAgentEvent| e@) =~= parts_events(
            message.content@.take(0)));
    }
    while k < n
        invariant
            k <= n,
            n == message.content@.len(),
            events@.map_values(|e: TauriAgentEvent| e@) == parts_events(message.content@.take(
                k as int)),
        decreases n - k,
    {
        proof {
            assert(message.content@.take(k + 1).drop_last() =~= message.content@.take(k as int));
            assert(message.content@.take(k + 1).last() == message.content@[k as int]);
        }
        let ghost ev0 = events@.map_values(|e: TauriAgentEvent| e@);
        let mut part_evts = convert_part(&message.content[k]);
        let ghost pv = part_evts@.map_values(|e: TauriAgentEvent| e@);
        events.append(&mut part_evts);
        proof {
            let ev = events@.map_values(|e: TauriAgentEvent| e@);
            assert(ev =~= ev0 + pv);
            assert(ev =~= parts_events(message.content@.take(k + 1)));
        }
        k = k + 1;
    }
    proof {
        assert(message.content@.take(n as int) =~= message.content@);
    }
    events
}

/// Converts one agent-core event into shell events: a message fans out part
/// by part, a model change passes through, notifications and history
/// replacements produce nothing.
pub fn convert_agent_event(event: &AgentEvent) -> (events: Vec<TauriAgentEvent>)
    ensures
        events@.map_values(|e: TauriAgentEvent| e@) == (match event {
            AgentEvent::Message(m) => parts_events(m.content@),
            AgentEvent::McpNotification { .. } => Seq::<TauriEventModel>::empty(),
            AgentEvent::ModelChange { model, mode } => seq![TauriEventModel::ModelChange {
                model: model@,
                mode: mode@,
            }],
            AgentEvent::HistoryReplaced => Seq::<TauriEventModel>::empty(),
        }),
{
    match event {
        AgentEvent::Message(m) => convert_message(m),
        AgentEvent::McpNotification { .. } => {
            let events: Vec<TauriAgentEvent> = Vec::new();
            proof {
                assert(events@.map_values(|e: TauriAgentEvent| e@) =~= Seq::<
                    TauriEventModel,
                >::empty());
            }
            events
        },
        AgentEvent::ModelChange { model, mode } => {
            let mut events: Vec<TauriAgentEvent> = Vec::new();
            events.push(TauriAgentEvent::ModelChange { model: model.clone(), mode: mode.clone() });
            proof {
                assert(events@.map_values(|e: TauriAgentEvent| e@) =~= seq![
                    TauriEventModel::ModelChange { model: model@, mode: mode@ }]);
            }
            events
        },
        AgentEvent::HistoryReplaced => {
            let events: Vec<TauriAgentEvent> = Vec::new();
            proof {
                assert(events@.map_values(|e: TauriAgentEvent| e@) =~= Seq::<
                    TauriEventModel,
                >::empty());
            }
            events
        },
    }
}

/// One content entry of a recorded shell message.
#[derive(Debug, Clone)]
pub enum TauriMessageContent {
    Text { text: String },
    Thinking { text: String },
    ToolRequest { id: String, tool_name: String, arguments_json: String },
    ToolResponse { id: String, success: bool, output: String, error: Option<String> },
    ActionRequired { id: String, action_type: String, data: TauriActionData },
    Image { mime_type: String, data: String },
}

/// A recorded shell message.
#[derive(Debug, Clone)]
pub struct TauriMessage {
    pub id: Option<String>,
    pub role: String,
    pub content: Vec<TauriMessageContent>,
    pub timestamp: i64,
}

/// Spec model of one recorded content entry.
pub enum TauriContentModel {
    Text { text: Seq<char> },
    Thinking { text: Seq<char> },
    ToolRequest { id: Seq<char>, tool_name: Seq<char>, arguments_json: Seq<char> },
    ToolResponse { id: Seq<char>, success: bool, output: Seq<char>, error: Option<Seq<char>> },
    ActionRequired { id: Seq<char>, action_type: Seq<char>, data: TauriActionDataModel },
    Image { mime_type: Seq<char>, data: Seq<char> },
}

impl View for TauriMessageContent {
    type V = TauriContentModel;

    open spec fn view(&self) -> TauriContentModel {
        match self {
            TauriMessageContent::Text { text } => TauriContentModel::Text { text: text@ },
            TauriMessageContent::Thinking { text } => TauriContentModel::Thinking { text: text@ },
            TauriMessageContent::ToolRequest { id, tool_name, arguments_json } => {
                TauriContentModel::ToolRequest {
                    id: id@,
                    tool_name: tool_name@,
                    arguments_json: arguments_json@,
                }
            },
            TauriMessageContent::ToolResponse { id, success, output, error } => {
                TauriContentModel::ToolResponse {
                    id: id@,
                    success: *success,
                    output: output@,
                    error: match error {
                        Some(e) => Some(e@),
                        None => None,
                    },
                }
            },
            TauriMessageContent::ActionRequired { id, action_type, data } => {
                TauriContentModel::ActionRequired {
                    id: id@,
                    action_type: action_type@,
                    data: data@,
                }
            },
            TauriMessageContent::Image { mime_type, data } => TauriContentModel::Image {
                mime_type: mime_type@,
                data: data@,
            },
        }
    }
}

/// The recorded form of one message part, when it is recorded at all:
/// notifications and redacted thinking are not.
pub open spec fn part_record(p: MessagePart) -> Option<TauriContentModel> {
    match p {
        MessagePart::Text(t) => Some(TauriContentModel::Text { text: t.text@ }),
        MessagePart::Thinking(t) => Some(TauriContentModel::Thinking { text: t.thinking@ }),
        MessagePart::ToolRequest(req) => match req.tool_call {
            Ok(call) => Some(TauriContentModel::ToolRequest {
                id: req.id@,
                tool_name: call.name@,
                arguments_json: call.arguments_json@,
            }),
            Err(_) => None,
        },
        MessagePart::ToolResponse(resp) => match resp.tool_result {
            Ok(blocks) => Some(TauriContentModel::ToolResponse {
                id: resp.id@,
                success: true,
                output: tool_result_text_of(blocks@.map_values(|b: ToolResultBlock| b)),
                error: None,
            }),
            Err(e) => Some(TauriContentModel::ToolResponse {
                id: resp.id@,
                success: false,
                output: Seq::<char>::empty(),
                error: Some(e@),
            }),
        },
        MessagePart::ActionRequired(action) => match action.data {
            ActionRequiredData::ToolConfirmation { id, tool_name, arguments_json, prompt } => {
                Some(TauriContentModel::ActionRequired {
                    id: id@,
                    action_type: "tool_confirmation"@,
                    data: TauriActionDataModel::ToolConfirmation {
                        tool_name: tool_name@,
                        arguments_json: arguments_json@,
                        prompt: prompt@,
                    },
                })
            },
            ActionRequiredData::Elicitation { id, message, requested_schema_json } => {
                Some(TauriContentModel::ActionRequired {
                    id: id@,
                    action_type: "elicitation"@,
                    data: TauriActionDataModel::Elicitation {
                        message: message@,
                        requested_schema_json: requested_schema_json@,
                    },
                })
            },
            ActionRequiredData::ElicitationResponse { id, user_data_json } => {
                Some(TauriContentModel::ActionRequired {
                    id: id@,
                    action_type: "elicitation_response"@,
                    data: TauriActionDataModel::ElicitationResponse {
                        user_data_json: user_data_json@,
                    },
                })
            },
        },
        MessagePart::Image(img) => Some(TauriContentModel::Image {
            mime_type: img.mime_type@,
            data: img.data@,
        }),
        _ => None,
    }
}

/// The recorded content of a run of parts, in order.
pub open spec fn parts_record(ps: Seq<MessagePart>) -> Seq<TauriContentModel>
    decreases ps.len(),
{
    if ps.len() == 0 {
        Seq::<TauriContentModel>::empty()
    } else {
        parts_record(ps.drop_last()) + (match part_record(ps.last()) {
            Some(c) => seq![c],
            None => Seq::<TauriContentModel>::empty(),
        })
    }
}

/// The recorded form of one message part.
pub fn convert_message_content(part: &MessagePart) -> (r: Option<TauriMessageContent>)
    ensures
        match (&r, part_record(*part)) {
            (Some(c), Some(m)) => c@ == m,
            (None, None) => true,
            _ => false,
        },
{
    match part {
        MessagePart::Text(t) => Some(TauriMessageContent::Text { text: t.text.clone() }),
        MessagePart::Thinking(t) => Some(TauriMessageContent::Thinking {
            text: t.thinking.clone(),
        }),
        MessagePart::ToolRequest(req) => match &req.tool_call {
            Ok(call) => Some(TauriMessageContent::ToolRequest {
                id: req.id.clone(),
                tool_name: call.name.clone(),
                arguments_json: call.arguments_json.clone(),
            }),
            Err(_) => None,
        },
        MessagePart::ToolResponse(resp) => match &resp.tool_result {
            Ok(blocks) => Some(TauriMessageContent::ToolResponse {
                id: resp.id.clone(),
                success: true,
                output: extract_tool_result_text(blocks),
                error: None,
            }),
            Err(e) => Some(TauriMessageContent::ToolResponse {
                id: resp.id.clone(),
                success: false,
                output: String::new(),
                error: Some(e.clone()),
            }),
        },
        MessagePart::ActionRequired(action) => match &action.data {
            ActionRequiredData::ToolConfirmation { id, tool_name, arguments_json, prompt } => {
                Some(TauriMessageContent::ActionRequired {
                    id: id.clone(),
                    action_type: String::from_str("tool_confirmation"),
                    data: TauriActionData::ToolConfirmation {
                        tool_name: tool_name.clone(),
                        arguments_json: arguments_json.clone(),
                        prompt: prompt.clone(),
                    },
                })
            },
            ActionRequiredData::Elicitation { id, message, requested_schema_json } => {
                Some(TauriMessageContent::ActionRequired {
                    id: id.clone(),
                    action_type: String::from_str("elicitation"),
                    data: TauriActionData::Elicitation {
                        message: message.clone(),
                        requested_schema_json: requested_schema_json.clone(),
                    },
                })
            },
            ActionRequiredData::ElicitationResponse { id, user_data_json } => {
                Some(TauriMessageContent::ActionRequired {
                    id: id.clone(),
                    action_type: String::from_str("elicitation_response"),
                    data: TauriActionData::ElicitationResponse {
                        user_data_json: user_data_json.clone(),
                    },
                })
            },
        },
        MessagePart::Image(img) => Some(TauriMessageContent::Image {
            mime_type: img.mime_type.clone(),
            data: img.data.clone(),
        }),
        MessagePart::SystemNotification(_) => None,
        MessagePart::ToolConfirmationRequest(_) => None,
        MessagePart::FrontendToolRequest(_) => None,
        MessagePart::RedactedThinking(_) => None,
    }
}

/// The recorded form of one agent message: its recordable parts, its role
/// and creation instant carried over.
pub fn convert_to_tauri_message(message: &Message) -> (r: TauriMessage)
    ensures
        r.content@.map_values(|c: TauriMessageContent| c@) == parts_record(message.content@),
        r.role@ == message.role@,
        r.timestamp == message.created,
        r.id == message.id,
{
    let mut content: Vec<TauriMessageContent> = Vec::new();
    let n = message.content.len();
    let mut k: usize = 0;
    proof {
        assert(content@.map_values(|c: TauriMessageContent| c@) =~= parts_record(
            message.content@.take(0)));
    }
    while k < n
        invariant
            k <= n,
            n == message.content@.len(),
            content@.map_values(|c: TauriMessageContent| c@) == parts_record(
                message.content@.take(k as int)),
        decreases n - k,
    {
        proof {
            assert(message.content@.take(k + 1).drop_last() =~= message.content@.take(k as int));
            assert(message.content@.take(k + 1).last() == message.content@[k as int]);
        }
        let ghost cv0 = content@.map_values(|c: TauriMessageContent| c@);
        match convert_message_content(&message.content[k]) {
            Some(c) => {
                content.push(c);
                proof {
                    let cv = content@.map_values(|c: TauriMessageContent| c@);
                    assert(cv.drop_last() =~= cv0);
                    assert(cv[cv.len() - 1] == content@[content@.len() - 1]@);
                    assert(cv =~= parts_record(message.content@.take(k + 1)));
                }
            },
            None => {
                proof {
                    assert(cv0 + Seq::<TauriContentModel>::empty() =~= cv0);
                }
            },
        }
        k = k + 1;
    }
    proof {
        assert(message.content@.take(n as int) =~= message.content@);
    }
    TauriMessage {
        id: crate::types::clone_opt_string(&message.id),
        role: message.role.clone(),
        content,
        timestamp: message.created,
    }
}

} // verus!
