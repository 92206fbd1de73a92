//! The tool-call loop engine: orchestrates repeated model/tool rounds until
//! a turn terminates.
//!
//! A model result with no tool calls ends the loop and yields the final
//! content.  A result with tool calls triggers execution of each call,
//! sequential by default; results are appended to the working history
//! strictly in call-declaration order.  A failed call never aborts sibling
//! calls unless the fail-fast policy is set; it produces a synthetic error
//! tool-result fed back to the model on the next round.  A configurable
//! maximum round count bounds runaway cycles.  The cancellation signal is
//! polled before each model call and before each tool dispatch.

use vstd::prelude::*;
use crate::registry::{ToolError, ToolResult};
use crate::types::{
    AgentMessage, ContentModel, MessageContent, MsgModel, StreamResult, TokenUsage, ToolCall,
    ToolCallModel, clone_tool_call, clone_tool_calls,
};

verus! {

/// A shared, idempotent cancellation signal: once observed set, it stays
/// set; re-signaling is a no-op.
#[derive(Debug, Clone)]
pub struct CancelSignal {
    cancelled: bool,
}

impl CancelSignal {
    /// Whether the signal is set.
    pub closed spec fn is_set(&self) -> bool {
        self.cancelled
    }

    /// A fresh, unset signal.
    pub fn new() -> (r: Self)
        ensures
            !r.is_set(),
    {
        CancelSignal { cancelled: false }
    }

    /// Sets the signal; setting it again changes nothing.
    pub fn signal(&mut self)
        ensures
            final(self).is_set(),
    {
        self.cancelled = true;
    }

    /// Polls the signal.
    pub fn is_cancelled(&self) -> (r: bool)
        ensures
            r == self.is_set(),
    {
        self.cancelled
    }
}

/// Policy of one tool loop.
#[derive(Debug, Clone)]
pub struct ToolLoopConfig {
    /// Rounds allowed before the loop is cut off as a terminal error.
    pub max_rounds: u32,
    /// Abort the turn on the first failed tool call.
    pub fail_fast: bool,
    /// Declared side-effect-safe: the dispatcher may run the calls of one
    /// round concurrently.  Results are still handed back, and appended, in
    /// call-declaration order.  Never the default.
    pub concurrent: bool,
}

impl ToolLoopConfig {
    /// The default policy: sequential execution, no fail-fast, a bounded
    /// number of rounds.
    pub fn new(max_rounds: u32) -> (r: Self)
        ensures
            r.max_rounds == max_rounds,
            !r.fail_fast,
            !r.concurrent,
    {
        ToolLoopConfig { max_rounds, fail_fast: false, concurrent: false }
    }
}

/// The terminal state of one turn.
#[derive(Debug, Clone)]
pub enum TurnOutcome {
    /// The model finished without further tool calls.
    Done { content: String, usage: Option<TokenUsage> },
    /// Continuing became meaningless.
    Error { message: String },
    /// The cancellation signal was observed.
    Cancelled,
}

/// What the driver must do next.
#[derive(Debug, Clone)]
pub enum LoopAction {
    /// Issue a model call: the opening call or a continuation.
    CallModel { continuation: bool },
    /// Execute the tool call at `index` of the current round.
    DispatchTool { index: usize, call: ToolCall },
    /// Tear down and surface the outcome.
    Finish(TurnOutcome),
}

/// The message a model result appends to the working history.
pub open spec fn assistant_message_of(r: crate::types::ResultModel, ts: Seq<char>) -> MsgModel {
    MsgModel {
        role: "assistant"@,
        content: ContentModel::Text(r.content),
        timestamp: ts,
        tool_calls: r.tool_calls,
        tool_call_id: None,
        reasoning_content: r.reasoning_content,
    }
}

/// The text a tool result feeds back to the model: the output on success,
/// an explanatory failure marker otherwise.
pub open spec fn tool_result_text(success: bool, output: Seq<char>, error: Option<Seq<char>>) -> Seq<
    char,
> {
    if success {
        output
    } else {
        "[TOOL FAILED] "@ + (match error {
            Some(e) => e,
            None => "unknown error"@,
        })
    }
}

/// The tool-result message appended for one completed call.
pub open spec fn tool_result_message(id: Seq<char>, text: Seq<char>, ts: Seq<char>) -> MsgModel {
    MsgModel {
        role: "tool"@,
        content: ContentModel::Text(text),
        timestamp: ts,
        tool_calls: None,
        tool_call_id: Some(id),
        reasoning_content: None,
    }
}

/// The synthetic failure result for a tool whose execution errored; the
/// turn continues and the model may self-correct.
pub fn tool_error_to_result(e: &ToolError) -> (r: ToolResult)
    ensures
        !r.success,
        r.output@.len() == 0,
        match (&r.error, e) {
            (Some(m), ToolError::InvalidArguments(s)) => m@ == "Invalid arguments: "@ + s@,
            (Some(m), ToolError::ExecutionFailed(s)) => m@ == "Execution failed: "@ + s@,
            (Some(m), ToolError::Timeout) => m@ == "Tool execution timed out"@,
            _ => false,
        },
{
    let message = match e {
        ToolError::InvalidArguments(s) => {
            let mut m = String::from_str("Invalid arguments: ");
            m.append(s.as_str());
            m
        },
        ToolError::ExecutionFailed(s) => {
            let mut m = String::from_str("Execution failed: ");
            m.append(s.as_str());
            m
        },
        ToolError::Timeout => String::from_str("Tool execution timed out"),
    };
    ToolResult::failure_with_output(String::new(), message)
}

/// The tool-call loop engine.  The driver performs the returned actions (a
/// model call, one tool execution) and hands the outcome back; every
/// decision between them is taken here.
pub struct ToolLoopEngine {
    config: ToolLoopConfig,
    history: Vec<AgentMessage>,
    round: u32,
    calls: Vec<ToolCall>,
    next: usize,
    terminal: bool,
}

impl ToolLoopEngine {
    /// The policy of this loop.
    pub closed spec fn config_spec(&self) -> ToolLoopConfig {
        self.config
    }

    /// The working history, as models.
    pub closed spec fn history_model(&self) -> Seq<MsgModel> {
        self.history@.map_values(|m: AgentMessage| m@)
    }

    /// Rounds completed so far.
    pub closed spec fn round_spec(&self) -> u32 {
        self.round
    }

    /// The calls of the current round.
    pub closed spec fn calls_model(&self) -> Seq<ToolCallModel> {
        self.calls@.map_values(|t: ToolCall| t@)
    }

    /// How many calls of the current round are done.
    pub closed spec fn next_spec(&self) -> int {
        self.next as int
    }

    /// The loop has reached a terminal state.
    pub closed spec fn is_terminal(&self) -> bool {
        self.terminal
    }

    /// A fresh engine over a working copy of the history.
    pub fn new(config: ToolLoopConfig, history: Vec<AgentMessage>) -> (r: Self)
        ensures
            r.config_spec() == config,
            r.history_model() == history@.map_values(|m: AgentMessage| m@),
            r.round_spec() == 0,
            r.next_spec() == 0,
            r.calls_model() == Seq::<ToolCallModel>::empty(),
            !r.is_terminal(),
    {
        let r = ToolLoopEngine {
            config,
            history,
            round: 0,
            calls: Vec::new(),
            next: 0,
            terminal: false,
        };
        proof {
            assert(r.calls_model() =~= Seq::<ToolCallModel>::empty());
        }
        r
    }

    /// The working history.
    pub fn history(&self) -> (r: &Vec<AgentMessage>)
        ensures
            r@.map_values(|m: AgentMessage| m@) == self.history_model(),
    {
        &self.history
    }

    /// Opens the turn: the signal is polled before the first model call.
    pub fn begin(&mut self, cancelled: bool) -> (r: LoopAction)
        requires
            !old(self).is_terminal(),
        ensures
            final(self).history_model() == old(self).history_model(),
            final(self).config_spec() == old(self).config_spec(),
            cancelled ==> final(self).is_terminal() && r is Finish && (r->Finish_0
                is Cancelled),
            !cancelled ==> !final(self).is_terminal() && r == (LoopAction::CallModel {
                continuation: false,
            }),
    {
        if cancelled {
            self.terminal = true;
            LoopAction::Finish(TurnOutcome::Cancelled)
        } else {
            LoopAction::CallModel { continuation: false }
        }
    }

    /// Consumes one model result.  No tool calls end the loop with the
    /// final content; tool calls open a tool round, bounded by the round
    /// cap; the signal is polled before the first dispatch.
    pub fn on_model_result(&mut self, result: &StreamResult, ts: &String, cancelled: bool) -> (r:
        LoopAction)
        requires
            !old(self).is_terminal(),
        ensures
            final(self).config_spec() == old(self).config_spec(),
            final(self).history_model() == old(self).history_model().push(assistant_message_of(
                result@,
                ts@,
            )),
            ({
                let calls = match result@.tool_calls {
                    Some(cs) => cs,
                    None => Seq::<ToolCallModel>::empty(),
                };
                if calls.len() == 0 {
                    final(self).is_terminal() && r == (LoopAction::Finish(TurnOutcome::Done {
                        content: result.content,
                        usage: result.usage,
                    }))
                } else if old(self).round_spec() >= old(self).config_spec().max_rounds {
                    final(self).is_terminal() && r is Finish && (r->Finish_0 is Error) && ((
                    r->Finish_0)->Error_message)@ == "tool loop exceeded max iterations"@
                } else if cancelled {
                    final(self).is_terminal() && r is Finish && (r->Finish_0 is Cancelled)
                } else {
                    !final(self).is_terminal() && final(self).calls_model() == calls && final(
                        self).next_spec() == 0 && final(self).round_spec() == old(
                        self).round_spec() + 1 && r is DispatchTool && (r->index == 0) && (
                    r->call)@ == calls[0]
                }
            }),
    {
        let assistant = AgentMessage {
            role: String::from_str("assistant"),
            content: MessageContent::Text(result.content.clone()),
            timestamp: ts.clone(),
            tool_calls: match &result.tool_calls {
                Some(cs) => Some(clone_tool_calls(cs)),
                None => None,
            },
            tool_call_id: None,
            reasoning_content: crate::types::clone_opt_string(&result.reasoning_content),
        };
        let ghost h0 = self.history_model();
        self.history.push(assistant);
        proof {
            let hv = self.history_model();
            assert(hv.drop_last() =~= h0);
            assert(hv[hv.len() - 1] == self.history@[self.history@.len() - 1]@);
            assert(hv =~= h0.push(assistant_message_of(result@, ts@)));
        }
        let calls = match &result.tool_calls {
            Some(cs) => clone_tool_calls(cs),
            None => Vec::new(),
        };
        proof {
            let cm = (match result@.tool_calls {
                Some(cs) => cs,
                None => Seq::<ToolCallModel>::empty(),
            });
            assert(calls@.map_values(|t: ToolCall| t@) =~= cm);
        }
        if calls.len() == 0 {
            self.terminal = true;
            let usage = match &result.usage {
                Some(u) => Some(TokenUsage {
                    input_tokens: u.input_tokens,
                    output_tokens: u.output_tokens,
                }),
                None => None,
            };
            return LoopAction::Finish(TurnOutcome::Done {
                content: result.content.clone(),
                usage,
            });
        }
        if self.round >= self.config.max_rounds {
            self.terminal = true;
            return LoopAction::Finish(TurnOutcome::Error {
                message: String::from_str("tool loop exceeded max iterations"),
            });
        }
        if cancelled {
            self.terminal = true;
            return LoopAction::Finish(TurnOutcome::Cancelled);
        }
        self.calls = calls;
        self.next = 0;
        self.round = self.round + 1;
        let first = clone_tool_call(&self.calls[0]);
        LoopAction::DispatchTool { index: 0, call: first }
    }

    /// Consumes the result of the call at the cursor.  The result message
    /// is appended in call-declaration order; a failure aborts the round
    /// only under the fail-fast policy; the signal is polled before the
    /// next dispatch and before the continuation call.
    pub fn on_tool_result(&mut self, result: &ToolResult, ts: &String, cancelled: bool) -> (r:
        LoopAction)
        requires
            !old(self).is_terminal(),
            0 <= old(self).next_spec() < old(self).calls_model().len(),
        ensures
            final(self).config_spec() == old(self).config_spec(),
            final(self).round_spec() == old(self).round_spec(),
            final(self).calls_model() == old(self).calls_model(),
            final(self).history_model() == old(self).history_model().push(tool_result_message(
                old(self).calls_model()[old(self).next_spec()].id,
                tool_result_text(
                    result.success,
                    result.output@,
                    match result.error {
                        Some(e) => Some(e@),
                        None => None,
                    },
                ),
                ts@,
            )),
            final(self).next_spec() == old(self).next_spec() + 1,
            ({
                let after = old(self).next_spec() + 1;
                if !result.success && old(self).config_spec().fail_fast {
                    final(self).is_terminal() && r is Finish && (r->Finish_0 is Error) && ((
                    r->Finish_0)->Error_message)@ == "tool execution failed"@
                } else if after < old(self).calls_model().len() {
                    if cancelled {
                        final(self).is_terminal() && r is Finish && (r->Finish_0 is Cancelled)
                    } else {
                        !final(self).is_terminal() && r is DispatchTool && (r->index as int
                            == after) && (r->call)@ == old(self).calls_model()[after]
                    }
                } else {
                    if cancelled {
                        final(self).is_terminal() && r is Finish && (r->Finish_0 is Cancelled)
                    } else {
                        !final(self).is_terminal() && r == (LoopAction::CallModel {
                            continuation: true,
                        })
                    }
                }
            }),
    {
        let call_id = self.calls[self.next].id.clone();
        let text = if result.success {
            result.output.clone()
        } else {
            let mut t = String::from_str("[TOOL FAILED] ");
            match &result.error {
                Some(e) => t.append(e.as_str()),
                None => t.append("unknown error"),
            }
            t
        };
        let msg = AgentMessage {
            role: String::from_str("tool"),
            content: MessageContent::Text(text),
            timestamp: ts.clone(),
            tool_calls: None,
            tool_call_id: Some(call_id),
            reasoning_content: None,
        };
        let ghost h0 = self.history_model();
        self.history.push(msg);
        proof {
            let hv = self.history_model();
            assert(hv.drop_last() =~= h0);
            assert(hv[hv.len() - 1] == self.history@[self.history@.len() - 1]@);
            assert(self.calls@[self.next as int]@ == self.calls_model()[self.next as int]);
            assert(hv =~= h0.push(tool_result_message(self.calls_model()[self.next as int].id,
                tool_result_text(result.success, result.output@, match result.error {
                    Some(e) => Some(e@),
                    None => None,
                }), ts@)));
        }
        let cl = self.calls.len();
        proof {
            assert(self.next < cl);
        }
        self.next = self.next + 1;
        if !result.success && self.config.fail_fast {
            self.terminal = true;
            return LoopAction::Finish(TurnOutcome::Error {
                message: String::from_str("tool execution failed"),
            });
        }
        if self.next < self.calls.len() {
            if cancelled {
                self.terminal = true;
                return LoopAction::Finish(TurnOutcome::Cancelled);
            }
            let idx = self.next;
            let call = clone_tool_call(&self.calls[idx]);
            return LoopAction::DispatchTool { index: idx, call };
        }
        if cancelled {
            self.terminal = true;
            return LoopAction::Finish(TurnOutcome::Cancelled);
        }
        LoopAction::CallModel { continuation: true }
    }
}

} // verus!
