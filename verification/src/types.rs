//! Canonical data model shared by every protocol adapter.

use vstd::prelude::*;

verus! {

/// One tool invocation requested by the model within a turn.  The arguments
/// accumulate incrementally as raw JSON text and are interpreted exactly
/// once, when the block that carries them closes.
#[derive(Debug, Clone)]
pub struct ToolCall {
    /// Vendor-unique id within the turn.
    pub id: String,
    /// Tool name.
    pub name: String,
    /// Raw JSON text of the arguments.
    pub arguments: String,
}

/// One part of a structured message body.
#[derive(Debug, Clone)]
pub enum ContentPart {
    Text { text: String },
    ImageUrl { url: String },
}

/// The body of a canonical message: plain text or structured parts.
#[derive(Debug, Clone)]
pub enum MessageContent {
    Text(String),
    Parts(Vec<ContentPart>),
}

/// A canonical chat message, the adapter-agnostic representation that every
/// protocol adapter converges to and diverges from.
#[derive(Debug, Clone)]
pub struct AgentMessage {
    /// `user`, `assistant`, `system` or `tool`.
    pub role: String,
    pub content: MessageContent,
    /// RFC 3339 creation instant, carried verbatim.
    pub timestamp: String,
    /// Tool calls declared by an assistant message.
    pub tool_calls: Option<Vec<ToolCall>>,
    /// For a tool-result message, the id of the call it answers.
    pub tool_call_id: Option<String>,
    /// Reasoning text reported by the vendor, if any.
    pub reasoning_content: Option<String>,
}

/// An inline image handed to a turn: media type plus base64 payload.
#[derive(Debug, Clone)]
pub struct ImageData {
    pub media_type: String,
    pub data: String,
}

/// Token counters reported by the vendor for one turn.
#[derive(Debug, Clone)]
pub struct TokenUsage {
    pub input_tokens: u32,
    pub output_tokens: u32,
}

/// Per-turn configuration of an adapter.
#[derive(Debug, Clone)]
pub struct AgentConfig {
    pub system_prompt: Option<String>,
    pub max_tokens: Option<u32>,
}

/// One canonical event of a live model stream, emitted in vendor-stream
/// order.
#[derive(Debug, Clone)]
pub enum StreamEvent {
    TextDelta { text: String },
    ThinkingDelta { text: String },
    ToolStart { tool_name: String, tool_id: String, arguments: Option<String> },
    ToolArgsDelta { tool_id: String, delta: String },
    Done { usage: Option<TokenUsage> },
    Error { message: String },
}

/// The terminal aggregate of one model turn.
#[derive(Debug, Clone)]
pub struct StreamResult {
    pub content: String,
    pub tool_calls: Option<Vec<ToolCall>>,
    pub usage: Option<TokenUsage>,
    pub reasoning_content: Option<String>,
}

/// Spec model of a canonical stream event.
pub enum EventModel {
    TextDelta { text: Seq<char> },
    ThinkingDelta { text: Seq<char> },
    ToolStart { tool_name: Seq<char>, tool_id: Seq<char>, arguments: Option<Seq<char>> },
    ToolArgsDelta { tool_id: Seq<char>, delta: Seq<char> },
    Done { usage: Option<TokenUsage> },
    Error { message: Seq<char> },
}

impl View for StreamEvent {
    type V = EventModel;

    open spec fn view(&self) -> EventModel {
        match self {
            StreamEvent::TextDelta { text } => EventModel::TextDelta { text: text@ },
            StreamEvent::ThinkingDelta { text } => EventModel::ThinkingDelta { text: text@ },
            StreamEvent::ToolStart { tool_name, tool_id, arguments } => EventModel::ToolStart {
                tool_name: tool_name@,
                tool_id: tool_id@,
                arguments: match arguments {
                    Some(a) => Some(a@),
                    None => None,
                },
            },
            StreamEvent::ToolArgsDelta { tool_id, delta } => EventModel::ToolArgsDelta {
                tool_id: tool_id@,
                delta: delta@,
            },
            StreamEvent::Done { usage } => EventModel::Done { usage: *usage },
            StreamEvent::Error { message } => EventModel::Error { message: message@ },
        }
    }
}

/// Spec model of one finished tool call.
pub struct ToolCallModel {
    pub id: Seq<char>,
    pub name: Seq<char>,
    pub arguments: Seq<char>,
}

impl View for ToolCall {
    type V = ToolCallModel;

    open spec fn view(&self) -> ToolCallModel {
        ToolCallModel { id: self.id@, name: self.name@, arguments: self.arguments@ }
    }
}

/// Spec model of a terminal stream result.
pub struct ResultModel {
    pub content: Seq<char>,
    pub tool_calls: Option<Seq<ToolCallModel>>,
    pub usage: Option<TokenUsage>,
    pub reasoning_content: Option<Seq<char>>,
}

impl View for StreamResult {
    type V = ResultModel;

    open spec fn view(&self) -> ResultModel {
        ResultModel {
            content: self.content@,
            tool_calls: match &self.tool_calls {
                Some(v) => Some(v@.map_values(|t: ToolCall| t@)),
                None => None,
            },
            usage: self.usage,
            reasoning_content: match &self.reasoning_content {
                Some(s) => Some(s@),
                None => None,
            },
        }
    }
}

/// Spec model of one part of a structured message body.
pub enum PartModel {
    Text { text: Seq<char> },
    ImageUrl { url: Seq<char> },
}

impl View for ContentPart {
    type V = PartModel;

    open spec fn view(&self) -> PartModel {
        match self {
            ContentPart::Text { text } => PartModel::Text { text: text@ },
            ContentPart::ImageUrl { url } => PartModel::ImageUrl { url: url@ },
        }
    }
}

/// Spec model of a message body.
pub enum ContentModel {
    Text(Seq<char>),
    Parts(Seq<PartModel>),
}

impl View for MessageContent {
    type V = ContentModel;

    open spec fn view(&self) -> ContentModel {
        match self {
            MessageContent::Text(s) => ContentModel::Text(s@),
            MessageContent::Parts(v) => ContentModel::Parts(v@.map_values(|p: ContentPart| p@)),
        }
    }
}

/// Spec model of one canonical message.
pub struct MsgModel {
    pub role: Seq<char>,
    pub content: ContentModel,
    pub timestamp: Seq<char>,
    pub tool_calls: Option<Seq<ToolCallModel>>,
    pub tool_call_id: Option<Seq<char>>,
    pub reasoning_content: Option<Seq<char>>,
}

impl View for AgentMessage {
    type V = MsgModel;

    open spec fn view(&self) -> MsgModel {
        MsgModel {
            role: self.role@,
            content: self.content@,
            timestamp: self.timestamp@,
            tool_calls: match &self.tool_calls {
                Some(v) => Some(v@.map_values(|t: ToolCall| t@)),
                None => None,
            },
            tool_call_id: match &self.tool_call_id {
                Some(s) => Some(s@),
                None => None,
            },
            reasoning_content: match &self.reasoning_content {
                Some(s) => Some(s@),
                None => None,
            },
        }
    }
}

/// The views of a message sequence.
pub open spec fn msg_views(v: Seq<AgentMessage>) -> Seq<MsgModel> {
    v.map_values(|m: AgentMessage| m@)
}

/// Equality of a string field with a literal, stated over the views.
pub fn string_is(s: &String, t: &str) -> (r: bool)
    ensures
        r == (s@ == t@),
{
    let tt = String::from_str(t);
    *s == tt
}

/// A copy of an optional string, with the view kept.
pub fn clone_opt_string(s: &Option<String>) -> (r: Option<String>)
    ensures
        r@ == s@,
        match (s, &r) {
            (Some(a), Some(b)) => a@ == b@,
            (None, None) => true,
            _ => false,
        },
{
    match s {
        Some(x) => Some(x.clone()),
        None => None,
    }
}

/// A copy of a tool call, with the view kept.
pub fn clone_tool_call(t: &ToolCall) -> (r: ToolCall)
    ensures
        r@ == t@,
{
    ToolCall { id: t.id.clone(), name: t.name.clone(), arguments: t.arguments.clone() }
}

/// A copy of a tool-call list, with the views kept.
pub fn clone_tool_calls(v: &Vec<ToolCall>) -> (r: Vec<ToolCall>)
    ensures
        r@.map_values(|t: ToolCall| t@) == v@.map_values(|t: ToolCall| t@),
{
    let mut r: Vec<ToolCall> = Vec::new();
    let n = v.len();
    let mut k: usize = 0;
    proof {
        assert(r@.map_values(|t: ToolCall| t@) =~= v@.map_values(|t: ToolCall| t@).take(0));
    }
    while k < n
        invariant
            k <= n,
            n == v@.len(),
            r@.map_values(|t: ToolCall| t@) == v@.map_values(|t: ToolCall| t@).take(k as int),
        decreases n - k,
    {
        r.push(clone_tool_call(&v[k]));
        proof {
            let f = |t: ToolCall| t@;
            assert(v@.map_values(f)[k as int] == v@[k as int]@);
            assert(r@.map_values(f).drop_last() =~= v@.map_values(f).take(k as int));
            assert(r@.map_values(f).last() == r@[k as int]@);
            assert(r@.map_values(f) =~= v@.map_values(f).take(k + 1));
        }
        k = k + 1;
    }
    proof {
        assert(v@.map_values(|t: ToolCall| t@).take(n as int) =~= v@.map_values(
            |t: ToolCall| t@));
    }
    r
}

/// A copy of a message body, with the view kept.
pub fn clone_content(c: &MessageContent) -> (r: MessageContent)
    ensures
        r@ == c@,
{
    match c {
        MessageContent::Text(s) => MessageContent::Text(s.clone()),
        MessageContent::Parts(parts) => {
            let mut out: Vec<ContentPart> = Vec::new();
            let n = parts.len();
            let mut k: usize = 0;
            proof {
                assert(out@.map_values(|p: ContentPart| p@) =~= parts@.map_values(
                    |p: ContentPart| p@).take(0));
            }
            while k < n
                invariant
                    k <= n,
                    n == parts@.len(),
                    out@.map_values(|p: ContentPart| p@) == parts@.map_values(
                        |p: ContentPart| p@).take(k as int),
                decreases n - k,
            {
                let p = match &parts[k] {
                    ContentPart::Text { text } => ContentPart::Text { text: text.clone() },
                    ContentPart::ImageUrl { url } => ContentPart::ImageUrl { url: url.clone() },
                };
                out.push(p);
                proof {
                    let f = |p: ContentPart| p@;
                    assert(parts@.map_values(f)[k as int] == parts@[k as int]@);
                    assert(out@.map_values(f).drop_last() =~= parts@.map_values(f).take(k as int));
                    assert(out@.map_values(f).last() == out@[k as int]@);
                    assert(out@.map_values(f) =~= parts@.map_values(f).take(k + 1));
                }
                k = k + 1;
            }
            proof {
                assert(parts@.map_values(|p: ContentPart| p@).take(n as int) =~= parts@
                    .map_values(|p: ContentPart| p@));
            }
            MessageContent::Parts(out)
        },
    }
}

/// A copy of a canonical message, with the view kept.
pub fn clone_message(m: &AgentMessage) -> (r: AgentMessage)
    ensures
        r@ == m@,
{
    AgentMessage {
        role: m.role.clone(),
        content: clone_content(&m.content),
        timestamp: m.timestamp.clone(),
        tool_calls: match &m.tool_calls {
            Some(v) => Some(clone_tool_calls(v)),
            None => None,
        },
        tool_call_id: clone_opt_string(&m.tool_call_id),
        reasoning_content: clone_opt_string(&m.reasoning_content),
    }
}

} // verus!
