//! Stateful stream parser: turns decoded wire frames into canonical stream
//! events and, at the end of a turn, one terminal `StreamResult`.
//!
//! Text and thinking deltas each accumulate into a single logical string;
//! tool-call argument deltas accumulate per block into independent buffers;
//! a terminal marker flushes all buffers and computes usage from the
//! vendor-reported counters.

use vstd::prelude::*;
use crate::frames::{BlockDelta, BlockDeltaModel, BlockStart, BlockStartModel, FrameModel, WireFrame};
use crate::outside::{json_accepts, json_text_accepted};
use crate::types::{EventModel, ResultModel, StreamEvent, StreamResult, TokenUsage, ToolCall, ToolCallModel};

verus! {

/// Spec model of one tool-use block under accumulation.
pub struct ToolModel {
    pub index: int,
    pub id: Seq<char>,
    pub name: Seq<char>,
    pub args: Seq<char>,
    pub closed: bool,
}

/// Spec model of the whole parser state.
pub struct ParserModel {
    pub content: Seq<char>,
    pub thinking: Seq<char>,
    pub tools: Seq<ToolModel>,
    pub input_tokens: Option<u64>,
    pub output_tokens: Option<u64>,
    pub stop_reason: Option<Seq<char>>,
    pub done: bool,
}

/// Position of the first accumulated block with this wire index, -1 if none.
pub open spec fn tool_pos(tools: Seq<ToolModel>, index: int) -> int
    decreases tools.len(),
{
    if tools.len() == 0 {
        -1
    } else if tools[0].index == index {
        0
    } else if tool_pos(tools.skip(1), index) < 0 {
        -1
    } else {
        tool_pos(tools.skip(1), index) + 1
    }
}

/// `tool_pos` finds the first matching block exactly.
pub proof fn lemma_tool_pos_char(tools: Seq<ToolModel>, index: int)
    ensures
        tool_pos(tools, index) == -1 ==> forall|j: int|
            0 <= j < tools.len() ==> tools[j].index != index,
        tool_pos(tools, index) >= 0 ==> tool_pos(tools, index) < tools.len()
            && tools[tool_pos(tools, index)].index == index,
        tool_pos(tools, index) >= 0 ==> forall|j: int|
            0 <= j < tool_pos(tools, index) ==> tools[j].index != index,
    decreases tools.len(),
{
    if tools.len() == 0 {
    } else if tools[0].index == index {
    } else {
        lemma_tool_pos_char(tools.skip(1), index);
        let tail = tools.skip(1);
        assert(forall|j: int| 0 <= j < tail.len() ==> tail[j] == tools[j + 1]);
        if tool_pos(tail, index) < 0 {
            assert forall|j: int| 0 <= j < tools.len() implies tools[j].index != index by {
                if j >= 1 {
                    assert(tail[j - 1].index != index);
                }
            }
        } else {
            let i = tool_pos(tail, index);
            assert(tools[i + 1] == tail[i]);
            assert forall|j: int| 0 <= j < i + 1 implies tools[j].index != index by {
                if j >= 1 {
                    assert(tail[j - 1].index != index);
                }
            }
        }
    }
}

/// The parser state at the start of a turn.
pub open spec fn parser_init() -> ParserModel {
    ParserModel {
        content: Seq::<char>::empty(),
        thinking: Seq::<char>::empty(),
        tools: Seq::<ToolModel>::empty(),
        input_tokens: None,
        output_tokens: None,
        stop_reason: None,
        done: false,
    }
}

/// The parser state after one frame.
pub open spec fn parser_step(m: ParserModel, f: FrameModel) -> ParserModel {
    if m.done {
        m
    } else {
        match f {
            FrameModel::MessageStart { input_tokens } => match input_tokens {
                Some(n) => ParserModel { input_tokens: Some(n), ..m },
                None => m,
            },
            FrameModel::ContentBlockStart { index, start } => match start {
                BlockStartModel::ToolUse { id, name } => {
                    if tool_pos(m.tools, index) >= 0 {
                        m
                    } else {
                        ParserModel {
                            tools: m.tools.push(ToolModel {
                                index: index,
                                id: id,
                                name: name,
                                args: Seq::<char>::empty(),
                                closed: false,
                            }),
                            ..m
                        }
                    }
                },
                _ => m,
            },
            FrameModel::ContentBlockDelta { index, delta } => match delta {
                BlockDeltaModel::Text(s) => ParserModel { content: m.content + s, ..m },
                BlockDeltaModel::Thinking(s) => ParserModel { thinking: m.thinking + s, ..m },
                BlockDeltaModel::InputJson(s) => {
                    let p = tool_pos(m.tools, index);
                    if p >= 0 && !m.tools[p].closed {
                        ParserModel {
                            tools: m.tools.update(p, ToolModel {
                                args: m.tools[p].args + s,
                                ..m.tools[p]
                            }),
                            ..m
                        }
                    } else {
                        m
                    }
                },
                BlockDeltaModel::Other => m,
            },
            FrameModel::ContentBlockStop { index } => {
                let p = tool_pos(m.tools, index);
                if p >= 0 {
                    ParserModel {
                        tools: m.tools.update(p, ToolModel { closed: true, ..m.tools[p] }),
                        ..m
                    }
                } else {
                    m
                }
            },
            FrameModel::MessageDelta { stop_reason, output_tokens } => ParserModel {
                stop_reason: match stop_reason {
                    Some(s) => Some(s),
                    None => m.stop_reason,
                },
                output_tokens: match output_tokens {
                    Some(n) => Some(n),
                    None => m.output_tokens,
                },
                ..m
            },
            FrameModel::MessageStop => ParserModel { done: true, ..m },
            FrameModel::Ping => m,
            FrameModel::ErrorEvent { .. } => m,
            FrameModel::Unknown => m,
        }
    }
}

/// The canonical events one frame emits, in stream order.
pub open spec fn parser_step_events(m: ParserModel, f: FrameModel) -> Seq<EventModel> {
    if m.done {
        Seq::<EventModel>::empty()
    } else {
        match f {
            FrameModel::ContentBlockStart { index, start } => match start {
                BlockStartModel::ToolUse { id, name } => {
                    if tool_pos(m.tools, index) >= 0 {
                        Seq::<EventModel>::empty()
                    } else {
                        seq![EventModel::ToolStart {
                            tool_name: name,
                            tool_id: id,
                            arguments: None,
                        }]
                    }
                },
                _ => Seq::<EventModel>::empty(),
            },
            FrameModel::ContentBlockDelta { index, delta } => match delta {
                BlockDeltaModel::Text(s) => seq![EventModel::TextDelta { text: s }],
                BlockDeltaModel::Thinking(s) => seq![EventModel::ThinkingDelta { text: s }],
                BlockDeltaModel::InputJson(s) => {
                    let p = tool_pos(m.tools, index);
                    if p >= 0 && !m.tools[p].closed {
                        seq![EventModel::ToolArgsDelta { tool_id: m.tools[p].id, delta: s }]
                    } else {
                        Seq::<EventModel>::empty()
                    }
                },
                BlockDeltaModel::Other => Seq::<EventModel>::empty(),
            },
            FrameModel::ErrorEvent { message } => seq![EventModel::Error { message: message }],
            _ => Seq::<EventModel>::empty(),
        }
    }
}

/// A vendor token counter clamped to the canonical 32-bit counter.
pub open spec fn clamp_u32(x: u64) -> u32 {
    if x > u32::MAX {
        u32::MAX as u32
    } else {
        x as u32
    }
}

/// Usage of the turn: present when the vendor reported either counter.
pub open spec fn usage_of(m: ParserModel) -> Option<TokenUsage> {
    if m.input_tokens is None && m.output_tokens is None {
        None
    } else {
        Some(TokenUsage {
            input_tokens: match m.input_tokens {
                Some(n) => clamp_u32(n),
                None => 0u32,
            },
            output_tokens: match m.output_tokens {
                Some(n) => clamp_u32(n),
                None => 0u32,
            },
        })
    }
}

/// The argument text a finished tool call carries: the accumulated buffer
/// when it is acceptable JSON, the empty object otherwise.
pub open spec fn final_args(args: Seq<char>) -> Seq<char> {
    if json_text_accepted(args) {
        args
    } else {
        "{}"@
    }
}

/// The finished tool calls of the turn, in block order.
pub open spec fn tool_calls_of(m: ParserModel) -> Seq<ToolCallModel> {
    m.tools.map_values(|t: ToolModel| ToolCallModel {
        id: t.id,
        name: t.name,
        arguments: final_args(t.args),
    })
}

/// The terminal aggregate of the turn.
pub open spec fn result_of(m: ParserModel) -> ResultModel {
    ResultModel {
        content: m.content,
        tool_calls: if m.tools.len() == 0 {
            None
        } else {
            Some(tool_calls_of(m))
        },
        usage: usage_of(m),
        reasoning_content: if m.thinking.len() == 0 {
            None
        } else {
            Some(m.thinking)
        },
    }
}

/// One tool-use block under accumulation.
#[derive(Debug, Clone)]
pub struct ToolBlock {
    pub index: usize,
    pub id: String,
    pub name: String,
    pub args: String,
    pub closed: bool,
}

impl View for ToolBlock {
    type V = ToolModel;

    open spec fn view(&self) -> ToolModel {
        ToolModel {
            index: self.index as int,
            id: self.id@,
            name: self.name@,
            args: self.args@,
            closed: self.closed,
        }
    }
}

/// Stateful accumulator for one vendor stream.
#[derive(Debug)]
pub struct AnthropicSSEParser {
    content: String,
    thinking: String,
    tools: Vec<ToolBlock>,
    input_tokens: Option<u64>,
    output_tokens: Option<u64>,
    stop_reason: Option<String>,
    done: bool,
}

impl View for AnthropicSSEParser {
    type V = ParserModel;

    closed spec fn view(&self) -> ParserModel {
        ParserModel {
            content: self.content@,
            thinking: self.thinking@,
            tools: self.tools@.map_values(|t: ToolBlock| t@),
            input_tokens: self.input_tokens,
            output_tokens: self.output_tokens,
            stop_reason: match &self.stop_reason {
                Some(s) => Some(s@),
                None => None,
            },
            done: self.done,
        }
    }
}

impl AnthropicSSEParser {
    /// A parser at the start of a turn.
    pub fn new() -> (r: Self)
        ensures
            r@ == parser_init(),
    {
        let r = AnthropicSSEParser {
            content: String::new(),
            thinking: String::new(),
            tools: Vec::new(),
            input_tokens: None,
            output_tokens: None,
            stop_reason: None,
            done: false,
        };
        proof {
            assert(r@.tools =~= parser_init().tools);
            assert(r@ == parser_init());
        }
        r
    }

    /// Position of the first block with this wire index.
    fn find_tool(&self, index: usize) -> (r: Option<usize>)
        ensures
            match r {
                Some(p) => tool_pos(self@.tools, index as int) == p as int && p < self.tools@.len(),
                None => tool_pos(self@.tools, index as int) < 0,
            },
    {
        let ghost tools = self@.tools;
        let n = self.tools.len();
        let mut k: usize = 0;
        while k < n
            invariant
                k <= n,
                n == self.tools@.len(),
                tools == self@.tools,
                tools.len() == n,
                forall|j: int| 0 <= j < k ==> tools[j].index != index as int,
                forall|j: int| 0 <= j < n ==> tools[j] == self.tools@[j]@,
            decreases n - k,
        {
            if self.tools[k].index == index {
                proof {
                    lemma_tool_pos_char(tools, index as int);
                    assert(tools[k as int].index == index as int);
                    let p = tool_pos(tools, index as int);
                    if p < 0 {
                        assert(tools[k as int].index != index as int);
                    } else if p < k as int {
                        assert(tools[p].index != index as int);
                        assert(tools[p].index == index as int);
                    } else if p > k as int {
                        assert(tools[k as int].index != index as int);
                    }
                }
                return Some(k);
            }
            k = k + 1;
        }
        proof {
            lemma_tool_pos_char(tools, index as int);
            if tool_pos(tools, index as int) >= 0 {
                assert(tools[tool_pos(tools, index as int)].index == index as int);
            }
        }
        None
    }

    /// Consumes one decoded frame: updates the accumulator state and returns
    /// the canonical events the frame emits, in stream order.
    pub fn process_frame(&mut self, f: &WireFrame) -> (events: Vec<StreamEvent>)
        ensures
            final(self)@ == parser_step(old(self)@, f@),
            events@.map_values(|e: StreamEvent| e@) == parser_step_events(old(self)@, f@),
    {
        let ghost m = self@;
        let ghost gf = f@;
        let mut events: Vec<StreamEvent> = Vec::new();
        if self.done {
            proof {
                assert(self@ == parser_step(m, gf));
                assert(events@.map_values(|e: StreamEvent| e@) =~= parser_step_events(m, gf));
            }
            return events;
        }
        match f {
            WireFrame::MessageStart { input_tokens } => {
                if let Some(n) = input_tokens {
                    self.input_tokens = Some(*n);
                }
                proof {
                    assert(self@ == parser_step(m, gf));
                    assert(events@.map_values(|e: StreamEvent| e@) =~= parser_step_events(m, gf));
                }
            },
            WireFrame::ContentBlockStart { index, start } => {
                match start {
                    BlockStart::ToolUse { id, name } => {
                        let pos = self.find_tool(*index);
                        if pos.is_none() {
                            events.push(StreamEvent::ToolStart {
                                tool_name: name.clone(),
                                tool_id: id.clone(),
                                arguments: None,
                            });
                            self.tools.push(ToolBlock {
                                index: *index,
                                id: id.clone(),
                                name: name.clone(),
                                args: String::new(),
                                closed: false,
                            });
                            proof {
                                assert(self@.tools =~= parser_step(m, gf).tools);
                                assert(self@ == parser_step(m, gf));
                                assert(events@.map_values(|e: StreamEvent| e@)
                                    =~= parser_step_events(m, gf));
                            }
                        } else {
                            proof {
                                assert(self@ == parser_step(m, gf));
                                assert(events@.map_values(|e: StreamEvent| e@)
                                    =~= parser_step_events(m, gf));
                            }
                        }
                    },
                    _ => {
                        proof {
                            assert(self@ == parser_step(m, gf));
                            assert(events@.map_values(|e: StreamEvent| e@)
                                =~= parser_step_events(m, gf));
                        }
                    },
                }
            },
            WireFrame::ContentBlockDelta { index, delta } => {
                match delta {
                    BlockDelta::Text(s) => {
                        events.push(StreamEvent::TextDelta { text: s.clone() });
                        self.content.append(s.as_str());
                        proof {
                            assert(self@ == parser_step(m, gf));
                            assert(events@.map_values(|e: StreamEvent| e@)
                                =~= parser_step_events(m, gf));
                        }
                    },
                    BlockDelta::Thinking(s) => {
                        events.push(StreamEvent::ThinkingDelta { text: s.clone() });
                        self.thinking.append(s.as_str());
                        proof {
                            assert(self@ == parser_step(m, gf));
                            assert(events@.map_values(|e: StreamEvent| e@)
                                =~= parser_step_events(m, gf));
                        }
                    },
                    BlockDelta::InputJson(s) => {
                        let pos = self.find_tool(*index);
                        let mut handled = false;
                        if let Some(p) = pos {
                            if !self.tools[p].closed {
                                handled = true;
                                let mut t = self.tools.remove(p);
                                events.push(StreamEvent::ToolArgsDelta {
                                    tool_id: t.id.clone(),
                                    delta: s.clone(),
                                });
                                t.args.append(s.as_str());
                                self.tools.insert(p, t);
                                proof {
                                    let q = tool_pos(m.tools, *index as int);
                                    assert(self@.tools =~= m.tools.update(q, ToolModel {
                                        args: m.tools[q].args + s@,
                                        ..m.tools[q]
                                    }));
                                    assert(self@ == parser_step(m, gf));
                                    assert(events@.map_values(|e: StreamEvent| e@)
                                        =~= parser_step_events(m, gf));
                                }
                            }
                        }
                        if !handled {
                            proof {
                                assert(self@ == parser_step(m, gf));
                                assert(events@.map_values(|e: StreamEvent| e@)
                                    =~= parser_step_events(m, gf));
                            }
                        }
                    },
                    BlockDelta::Other => {
                        proof {
                            assert(self@ == parser_step(m, gf));
                            assert(events@.map_values(|e: StreamEvent| e@)
                                =~= parser_step_events(m, gf));
                        }
                    },
                }
            },
            WireFrame::ContentBlockStop { index } => {
                let pos = self.find_tool(*index);
                if let Some(p) = pos {
                    let mut t = self.tools.remove(p);
                    t.closed = true;
                    self.tools.insert(p, t);
                    proof {
                        let q = tool_pos(m.tools, *index as int);
                        assert(self@.tools =~= m.tools.update(q, ToolModel {
                            closed: true,
                            ..m.tools[q]
                        }));
                        assert(self@ == parser_step(m, gf));
                    }
                }
                proof {
                    assert(self@ == parser_step(m, gf));
                    assert(events@.map_values(|e: StreamEvent| e@) =~= parser_step_events(m, gf));
                }
            },
            WireFrame::MessageDelta { stop_reason, output_tokens } => {
                if let Some(s) = stop_reason {
                    self.stop_reason = Some(s.clone());
                }
                if let Some(n) = output_tokens {
                    self.output_tokens = Some(*n);
                }
                proof {
                    assert(self@ == parser_step(m, gf));
                    assert(events@.map_values(|e: StreamEvent| e@) =~= parser_step_events(m, gf));
                }
            },
            WireFrame::MessageStop => {
                self.done = true;
                proof {
                    assert(self@ == parser_step(m, gf));
                    assert(events@.map_values(|e: StreamEvent| e@) =~= parser_step_events(m, gf));
                }
            },
            WireFrame::Ping => {
                proof {
                    assert(self@ == parser_step(m, gf));
                    assert(events@.map_values(|e: StreamEvent| e@) =~= parser_step_events(m, gf));
                }
            },
            WireFrame::ErrorEvent { message } => {
                events.push(StreamEvent::Error { message: message.clone() });
                proof {
                    assert(self@ == parser_step(m, gf));
                    assert(events@.map_values(|e: StreamEvent| e@) =~= parser_step_events(m, gf));
                }
            },
            WireFrame::Unknown => {
                proof {
                    assert(self@ == parser_step(m, gf));
                    assert(events@.map_values(|e: StreamEvent| e@) =~= parser_step_events(m, gf));
                }
            },
        }
        events
    }

    /// Whether the terminal marker of the turn has been seen.
    pub fn is_done(&self) -> (r: bool)
        ensures
            r == self@.done,
    {
        self.done
    }

    /// The accumulated text of the turn.
    pub fn get_full_content(&self) -> (r: String)
        ensures
            r@ == self@.content,
    {
        self.content.clone()
    }

    /// Whether any tool-use block was opened.
    pub fn has_tool_calls(&self) -> (r: bool)
        ensures
            r == (self@.tools.len() > 0),
    {
        self.tools.len() > 0
    }

    /// Usage of the turn, present when the vendor reported either counter.
    pub fn get_usage(&self) -> (r: Option<TokenUsage>)
        ensures
            r == usage_of(self@),
    {
        if self.input_tokens.is_none() && self.output_tokens.is_none() {
            return None;
        }
        let input_tokens = match self.input_tokens {
            Some(n) => {
                if n > u32::MAX as u64 {
                    u32::MAX
                } else {
                    n as u32
                }
            },
            None => 0u32,
        };
        let output_tokens = match self.output_tokens {
            Some(n) => {
                if n > u32::MAX as u64 {
                    u32::MAX
                } else {
                    n as u32
                }
            },
            None => 0u32,
        };
        Some(TokenUsage { input_tokens, output_tokens })
    }

    /// Flushes the tool-call buffers: each argument buffer is interpreted
    /// exactly once, here; a buffer that is not acceptable JSON yields the
    /// empty object rather than aborting the turn.
    pub fn finalize_tool_calls(&self) -> (r: Vec<ToolCall>)
        ensures
            r@.map_values(|t: ToolCall| t@) == tool_calls_of(self@),
    {
        let mut r: Vec<ToolCall> = Vec::new();
        let n = self.tools.len();
        let mut k: usize = 0;
        proof {
            assert(r@.map_values(|t: ToolCall| t@) =~= tool_calls_of(self@).take(0));
        }
        while k < n
            invariant
                k <= n,
                n == self.tools@.len(),
                r@.map_values(|t: ToolCall| t@) == tool_calls_of(self@).take(k as int),
            decreases n - k,
        {
            let t = &self.tools[k];
            let arguments = if json_accepts(t.args.as_str()) {
                t.args.clone()
            } else {
                String::from_str("{}")
            };
            r.push(ToolCall { id: t.id.clone(), name: t.name.clone(), arguments });
            proof {
                assert(tool_calls_of(self@).take(k + 1).drop_last() =~= tool_calls_of(
                    self@).take(k as int));
                assert(tool_calls_of(self@)[k as int] == ToolCallModel {
                    id: self.tools@[k as int]@.id,
                    name: self.tools@[k as int]@.name,
                    arguments: final_args(self.tools@[k as int]@.args),
                });
                assert(r@.map_values(|t: ToolCall| t@) =~= tool_calls_of(self@).take(k + 1));
            }
            k = k + 1;
        }
        proof {
            assert(tool_calls_of(self@).take(n as int) =~= tool_calls_of(self@));
        }
        r
    }

    /// The terminal aggregate of the turn.
    pub fn finalize(&self) -> (r: StreamResult)
        ensures
            r@ == result_of(self@),
    {
        let tool_calls = if self.has_tool_calls() {
            Some(self.finalize_tool_calls())
        } else {
            None
        };
        let reasoning_content = if self.thinking.as_str().is_empty() {
            None
        } else {
            Some(self.thinking.clone())
        };
        let r = StreamResult {
            content: self.get_full_content(),
            tool_calls,
            usage: self.get_usage(),
            reasoning_content,
        };
        proof {
            assert(r@ == result_of(self@));
        }
        r
    }
}

} // verus!
