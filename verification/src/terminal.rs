//! The terminal command tool: commands are dispatched to an external,
//! human-gated actor through the correlation bridge, with sliding-window
//! duplicate suppression for commands that already succeeded.
//!
//! The async plumbing (event emission, channel waits, timers) lives with the
//! caller; every decision the tool takes is here, as a function of plain
//! values.

use vstd::prelude::*;
use crate::bridge::{BridgeOutcome, CorrelationTable};
use crate::outside::{json_as_string, json_as_u64, json_get};
use crate::registry::{JsonSchema, PropertySchema, ToolDefinition, ToolError, ToolResult};
use crate::suppress::{duplicate_notice, has_recent_success, keep_recent, ExecutedLog, RecordModel};

verus! {

/// Default command timeout, in seconds.
pub const DEFAULT_TIMEOUT_SECS: u64 = 120;

/// A command execution request handed to the external actor.
#[derive(Debug, Clone)]
pub struct TerminalCommandRequest {
    pub request_id: String,
    pub command: String,
    pub working_dir: Option<String>,
    pub timeout_secs: u64,
}

/// The external actor's answer to one command request.
#[derive(Debug, Clone)]
pub struct TerminalCommandResponse {
    pub request_id: String,
    pub success: bool,
    pub output: String,
    pub error: Option<String>,
    pub exit_code: Option<i32>,
    pub rejected: bool,
}

/// Lifecycle of one dispatched command.
#[derive(Debug, Clone, Copy, PartialEq, Eq, Structural)]
pub enum CommandStatus {
    Pending,
    Executing,
    Completed,
    Rejected,
    Timeout,
}

/// The notice returned instead of dispatching a duplicate command.
pub open spec fn blocked_output(command: Seq<char>) -> Seq<char> {
    "[DUPLICATE COMMAND BLOCKED]\n"@ + duplicate_notice() + "\n\nOriginal command: "@ + command
}

/// What one response means for the model: a rejection and a failure each
/// carry their explanatory error, success carries the output.
pub open spec fn response_verdict(
    rejected: bool,
    success: bool,
    output: Seq<char>,
    error: Option<Seq<char>>,
    exit_code: Option<int>,
) -> (bool, Seq<char>, Option<Seq<char>>) {
    if rejected {
        (false, "The user rejected this command"@, Some("Command rejected by the user"@))
    } else if success {
        (true, output, None)
    } else {
        (
            false,
            output,
            Some(
                match error {
                    Some(e) => e,
                    None => "Command execution failed (exit code: "@ + crate::numtext::decimal_of_i64(
                        match exit_code {
                            Some(c) => c,
                            None => -1,
                        },
                    ) + ")"@,
                },
            ),
        )
    }
}

/// The parsed arguments of one terminal invocation.
#[derive(Debug, Clone)]
pub struct TerminalArgs {
    pub command: String,
    pub working_dir: Option<String>,
    pub timeout_secs: u64,
}

/// The terminal tool: pending dispatches, the duplicate-suppression log,
/// and the default timeout.  `S` is the caller's response slot type.
pub struct TerminalTool<S> {
    pending: CorrelationTable<S>,
    executed: ExecutedLog,
    timeout_secs: u64,
}

impl<S> TerminalTool<S> {
    /// The pending correlation map.
    pub closed spec fn pending_map(&self) -> Map<Seq<char>, S> {
        self.pending@
    }

    /// The duplicate-suppression records.
    pub closed spec fn executed_log(&self) -> Seq<RecordModel> {
        self.executed@
    }

    /// The default timeout in seconds.
    pub closed spec fn timeout_secs_spec(&self) -> u64 {
        self.timeout_secs
    }

    /// The internal table is well formed.
    pub closed spec fn wf(&self) -> bool {
        self.pending.wf()
    }

    /// A tool with no pending dispatch, an empty log and the default
    /// timeout.
    pub fn new() -> (r: Self)
        ensures
            r.wf(),
            r.pending_map() == Map::<Seq<char>, S>::empty(),
            r.executed_log() == Seq::<RecordModel>::empty(),
            r.timeout_secs_spec() == DEFAULT_TIMEOUT_SECS,
    {
        TerminalTool {
            pending: CorrelationTable::new(),
            executed: ExecutedLog::new(),
            timeout_secs: DEFAULT_TIMEOUT_SECS,
        }
    }

    /// The same tool with another default timeout.
    pub fn with_timeout(self, timeout_secs: u64) -> (r: Self)
        ensures
            r.wf() == self.wf(),
            r.pending_map() == self.pending_map(),
            r.executed_log() == self.executed_log(),
            r.timeout_secs_spec() == timeout_secs,
    {
        TerminalTool { pending: self.pending, executed: self.executed, timeout_secs }
    }

    /// The default timeout in seconds.
    pub fn timeout_secs(&self) -> (r: u64)
        ensures
            r == self.timeout_secs_spec(),
    {
        self.timeout_secs
    }

    /// The tool's definition as offered to the model.
    pub fn definition(&self) -> (r: ToolDefinition)
        ensures
            r.name@ == "terminal"@,
            r.description@.len() > 0,
            r.parameters.required@.map_values(|s: String| s@).contains("command"@),
    {
        let d = ToolDefinition::new(
            "terminal",
            "Execute a command in the user's terminal. The command will be sent to the active terminal session and requires user approval before execution.\n\nCRITICAL RULES:\n1. NEVER re-execute a command that has already succeeded. When you receive '[COMMAND EXECUTED SUCCESSFULLY]' in the response, the command is DONE.\n2. Each command runs exactly ONCE. Do not retry successful commands.\n3. If you need to verify the result, use the term_get_scrollback tool to read the terminal output instead of re-running the command.\n\nUse this for running system commands, scripts, or any command-line operations that should be visible to the user.",
        ).with_parameters(
            JsonSchema::new().add_property(
                "command",
                PropertySchema::string(
                    "The command to execute in the terminal. Can be any valid shell command.",
                ),
                true,
            ).add_property(
                "working_dir",
                PropertySchema::string(
                    "Optional working directory for the command. If not specified, uses the terminal's current directory.",
                ),
                false,
            ).add_property(
                "timeout",
                PropertySchema::integer(
                    "Optional timeout in seconds. Defaults to 120 seconds.",
                ).with_default("120"),
                false,
            ),
        );
        proof {
            reveal_strlit(
                "Execute a command in the user's terminal. The command will be sent to the active terminal session and requires user approval before execution.\n\nCRITICAL RULES:\n1. NEVER re-execute a command that has already succeeded. When you receive '[COMMAND EXECUTED SUCCESSFULLY]' in the response, the command is DONE.\n2. Each command runs exactly ONCE. Do not retry successful commands.\n3. If you need to verify the result, use the term_get_scrollback tool to read the terminal output instead of re-running the command.\n\nUse this for running system commands, scripts, or any command-line operations that should be visible to the user.",
            );
            let rv = d.parameters.required@.map_values(|s: String| s@);
            assert(rv[0] == "command"@);
            assert(rv.contains("command"@));
        }
        d
    }

    /// Parses the tool-call arguments: `command` is required and its
    /// absence is an invalid-arguments error; the working directory is
    /// optional; the timeout defaults to this tool's.  The argument object
    /// comes from the outside JSON parser and is opaque here, so only the
    /// error variant is pinned; the dispatch functions take the parsed
    /// values and carry the exact contracts.
    pub fn parse_arguments(&self, args: &serde_json::Value) -> (r: Result<
        TerminalArgs,
        ToolError,
    >)
        ensures
            r is Err ==> (r->Err_0 is InvalidArguments),
    {
        let command = match json_get(args, "command") {
            Some(f) => match json_as_string(f) {
                Some(c) => c,
                None => {
                    return Err(ToolError::InvalidArguments(String::from_str(
                        "missing command parameter",
                    )));
                },
            },
            None => {
                return Err(ToolError::InvalidArguments(String::from_str(
                    "missing command parameter",
                )));
            },
        };
        let working_dir = match json_get(args, "working_dir") {
            Some(f) => json_as_string(f),
            None => None,
        };
        let timeout_secs = match json_get(args, "timeout") {
            Some(f) => match json_as_u64(f) {
                Some(t) => t,
                None => self.timeout_secs,
            },
            None => self.timeout_secs,
        };
        Ok(TerminalArgs { command, working_dir, timeout_secs })
    }

    /// Evicts expired suppression records, then decides whether this command
    /// was already executed successfully inside the window: `Some` carries
    /// the short-circuit result the model receives instead of a dispatch.
    pub fn check_duplicate_command(&mut self, command: &String, now_ms: u64) -> (r: Option<
        ToolResult,
    >)
        ensures
            final(self).wf() == old(self).wf(),
            final(self).pending_map() == old(self).pending_map(),
            final(self).timeout_secs_spec() == old(self).timeout_secs_spec(),
            final(self).executed_log() == keep_recent(old(self).executed_log(), now_ms),
            r is Some <==> has_recent_success(old(self).executed_log(), command@, now_ms),
            match r {
                Some(t) => t.success && t.output@ == blocked_output(command@) && t.error
                    is None,
                None => true,
            },
    {
        let verdict = self.executed.check_duplicate_command(command, now_ms);
        match verdict {
            Some(msg) => {
                let mut out = String::from_str("[DUPLICATE COMMAND BLOCKED]\n");
                out.append(msg.as_str());
                out.append("\n\nOriginal command: ");
                out.append(command.as_str());
                proof {
                    assert(out@ == blocked_output(command@));
                }
                Some(ToolResult::success(out))
            },
            None => None,
        }
    }

    /// Appends one execution record to the suppression log.
    pub fn record_executed_command(&mut self, command: &String, success: bool, now_ms: u64)
        ensures
            final(self).wf() == old(self).wf(),
            final(self).pending_map() == old(self).pending_map(),
            final(self).timeout_secs_spec() == old(self).timeout_secs_spec(),
            final(self).executed_log() == ({
                let p = old(self).executed_log().push(RecordModel {
                    command: command@,
                    executed_at_ms: now_ms,
                    success: success,
                });
                if p.len() > crate::suppress::MAX_RECORDS {
                    p.skip(1)
                } else {
                    p
                }
            }),
    {
        self.executed.record_executed_command(command, success, now_ms);
    }

    /// Registers the response slot for a fresh dispatch and builds the
    /// request handed to the external actor.  A request id already in
    /// flight is refused and the slot comes back.
    pub fn register_dispatch(
        &mut self,
        request_id: &String,
        command: &String,
        working_dir: Option<String>,
        timeout_secs: u64,
        slot: S,
    ) -> (r: Result<TerminalCommandRequest, S>)
        requires
            old(self).wf(),
        ensures
            final(self).wf(),
            final(self).executed_log() == old(self).executed_log(),
            final(self).timeout_secs_spec() == old(self).timeout_secs_spec(),
            match r {
                Ok(req) => !old(self).pending_map().contains_key(request_id@) && final(self).pending_map() == old(self).pending_map().insert(request_id@, slot)
                    && req.request_id@ == request_id@ && req.command@ == command@
                    && req.timeout_secs == timeout_secs && (match (&req.working_dir,
                &working_dir) {
                    (Some(a), Some(b)) => a@ == b@,
                    (None, None) => true,
                    _ => false,
                }),
                Err(s) => old(self).pending_map().contains_key(request_id@) && final(self).pending_map() == old(self).pending_map() && s == slot,
            },
    {
        match self.pending.register(request_id, slot) {
            Ok(()) => Ok(TerminalCommandRequest {
                request_id: request_id.clone(),
                command: command.clone(),
                working_dir,
                timeout_secs,
            }),
            Err(s) => Err(s),
        }
    }

    /// Looks the slot for a fulfilled request up and removes it atomically:
    /// present exactly when the id is still pending, so a late or repeated
    /// fulfillment finds nothing and is dropped.
    pub fn handle_response(&mut self, request_id: &String) -> (r: Option<S>)
        requires
            old(self).wf(),
        ensures
            final(self).wf(),
            final(self).executed_log() == old(self).executed_log(),
            final(self).timeout_secs_spec() == old(self).timeout_secs_spec(),
            final(self).pending_map() == old(self).pending_map().remove(request_id@),
            match r {
                Some(slot) => old(self).pending_map().contains_key(request_id@) && old(self).pending_map()[request_id@] == slot,
                None => !old(self).pending_map().contains_key(request_id@),
            },
    {
        self.pending.resolve(request_id)
    }

    /// Unregisters a dispatch whose notification failed, whose wait expired
    /// or whose channel closed, so no registration leaks.
    pub fn abort_dispatch(&mut self, request_id: &String)
        requires
            old(self).wf(),
        ensures
            final(self).wf(),
            final(self).executed_log() == old(self).executed_log(),
            final(self).timeout_secs_spec() == old(self).timeout_secs_spec(),
            final(self).pending_map() == old(self).pending_map().remove(request_id@),
    {
        let _ = self.pending.resolve(request_id);
    }

    /// The definitive failure response returned when the request could not
    /// be delivered to the external actor at all.
    pub fn notify_failure_response(&self, request_id: &String) -> (r: TerminalCommandResponse)
        ensures
            r.request_id@ == request_id@,
            !r.success,
            r.output@.len() == 0,
            r.error is Some,
            r.exit_code == Some(-1i32),
            !r.rejected,
    {
        TerminalCommandResponse {
            request_id: request_id.clone(),
            success: false,
            output: String::new(),
            error: Some(String::from_str(
                "Could not deliver the command to the terminal. Check the application configuration.",
            )),
            exit_code: Some(-1),
            rejected: false,
        }
    }

    /// Records the outcome and turns the actor's response into the result
    /// the model receives: a rejection and a failure each carry their
    /// explanatory error, success carries the output.
    pub fn complete_execution(
        &mut self,
        command: &String,
        response: &TerminalCommandResponse,
        now_ms: u64,
    ) -> (r: ToolResult)
        ensures
            final(self).wf() == old(self).wf(),
            final(self).pending_map() == old(self).pending_map(),
            final(self).timeout_secs_spec() == old(self).timeout_secs_spec(),
            final(self).executed_log() == ({
                let p = old(self).executed_log().push(RecordModel {
                    command: command@,
                    executed_at_ms: now_ms,
                    success: response.success,
                });
                if p.len() > crate::suppress::MAX_RECORDS {
                    p.skip(1)
                } else {
                    p
                }
            }),
            ({
                let v = response_verdict(
                    response.rejected,
                    response.success,
                    response.output@,
                    match response.error {
                        Some(e) => Some(e@),
                        None => None,
                    },
                    match response.exit_code {
                        Some(c) => Some(c as int),
                        None => None,
                    },
                );
                r.success == v.0 && r.output@ == v.1 && (match (r.error, v.2) {
                    (Some(a), Some(b)) => a@ == b,
                    (None, None) => true,
                    _ => false,
                })
            }),
    {
        self.executed.record_executed_command(command, response.success, now_ms);
        if response.rejected {
            ToolResult::failure_with_output(
                String::from_str("The user rejected this command"),
                String::from_str("Command rejected by the user"),
            )
        } else if response.success {
            ToolResult::success(response.output.clone())
        } else {
            let error = match &response.error {
                Some(e) => e.clone(),
                None => {
                    let code = match response.exit_code {
                        Some(c) => c,
                        None => -1,
                    };
                    let mut msg = String::from_str("Command execution failed (exit code: ");
                    msg.append(crate::numtext::i32_to_string(code).as_str());
                    msg.append(")");
                    msg
                },
            };
            ToolResult::failure_with_output(response.output.clone(), error)
        }
    }
}

impl<S> TerminalTool<S> {
    /// Settles one dispatch after the wait: a response is recorded and
    /// turned into the model-facing result; a timeout or an early channel
    /// closure unregisters the slot and surfaces the definitive error, so
    /// no registration leaks and the caller never hangs.
    pub fn settle_dispatch(
        &mut self,
        request_id: &String,
        command: &String,
        outcome: BridgeOutcome<TerminalCommandResponse>,
        now_ms: u64,
    ) -> (r: Result<crate::registry::ToolResult, crate::registry::ToolError>)
        requires
            old(self).wf(),
        ensures
            final(self).wf(),
            final(self).timeout_secs_spec() == old(self).timeout_secs_spec(),
            match outcome {
                BridgeOutcome::Response(response) => r is Ok && final(self).pending_map()
                    == old(self).pending_map() && final(self).executed_log() == ({
                    let p = old(self).executed_log().push(RecordModel {
                        command: command@,
                        executed_at_ms: now_ms,
                        success: response.success,
                    });
                    if p.len() > crate::suppress::MAX_RECORDS {
                        p.skip(1)
                    } else {
                        p
                    }
                }) && ({
                    let v = response_verdict(
                        response.rejected,
                        response.success,
                        response.output@,
                        match response.error {
                            Some(e) => Some(e@),
                            None => None,
                        },
                        match response.exit_code {
                            Some(c) => Some(c as int),
                            None => None,
                        },
                    );
                    (r->Ok_0).success == v.0 && ((r->Ok_0).output)@ == v.1 && (match (
                    (r->Ok_0).error, v.2) {
                        (Some(a), Some(b)) => a@ == b,
                        (None, None) => true,
                        _ => false,
                    })
                }),
                BridgeOutcome::Timeout => final(self).pending_map() == old(
                    self).pending_map().remove(request_id@) && final(self).executed_log()
                    == old(self).executed_log() && r == Err::<
                    crate::registry::ToolResult,
                    crate::registry::ToolError,
                >(crate::registry::ToolError::Timeout),
                BridgeOutcome::ChannelClosed => final(self).pending_map() == old(
                    self).pending_map().remove(request_id@) && final(self).executed_log()
                    == old(self).executed_log() && r is Err && (r->Err_0
                    is ExecutionFailed),
            },
    {
        match outcome {
            BridgeOutcome::Response(response) => {
                Ok(self.complete_execution(command, &response, now_ms))
            },
            BridgeOutcome::Timeout => {
                self.abort_dispatch(request_id);
                Err(crate::registry::ToolError::Timeout)
            },
            BridgeOutcome::ChannelClosed => {
                self.abort_dispatch(request_id);
                Err(crate::registry::ToolError::ExecutionFailed(String::from_str(
                    "response channel closed",
                )))
            },
        }
    }
}

/// Resolves the pending slot matching a response's request id: the caller
/// delivers the response through the slot exactly once; a late or repeated
/// response finds nothing and is dropped.
pub fn handle_terminal_command_response<S>(
    tool: &mut TerminalTool<S>,
    response: &TerminalCommandResponse,
) -> (r: Option<S>)
    requires
        old(tool).wf(),
    ensures
        final(tool).wf(),
        final(tool).pending_map() == old(tool).pending_map().remove(response.request_id@),
        match r {
            Some(slot) => old(tool).pending_map().contains_key(response.request_id@) && old(tool).pending_map()[response.request_id@] == slot,
            None => !old(tool).pending_map().contains_key(response.request_id@),
        },
{
    tool.handle_response(&response.request_id)
}

} // verus!
