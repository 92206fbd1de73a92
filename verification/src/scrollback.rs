//! The read-only terminal scrollback tool: requests for a slice of the
//! terminal's output history are delegated to the external actor through the
//! correlation bridge.

use vstd::prelude::*;
use crate::bridge::{BridgeOutcome, CorrelationTable};
use crate::numtext::{decimal_of, usize_to_string};
use crate::outside::{json_as_string, json_as_u64, json_get};
use crate::registry::{JsonSchema, PropertySchema, ToolDefinition, ToolError, ToolResult};

verus! {

/// Default wait for a scrollback answer, in seconds.
pub const DEFAULT_SCROLLBACK_TIMEOUT_SECS: u64 = 30;

/// A scrollback request handed to the external actor.
#[derive(Debug, Clone)]
pub struct GetScrollbackRequest {
    pub request_id: String,
    pub session_id: String,
    pub line_start: Option<usize>,
    pub count: Option<usize>,
}

/// The external actor's answer to one scrollback request.
#[derive(Debug, Clone)]
pub struct GetScrollbackResponse {
    pub request_id: String,
    pub success: bool,
    pub total_lines: usize,
    pub line_start: usize,
    pub line_end: usize,
    pub content: String,
    pub has_more: bool,
    pub error: Option<String>,
}

/// The text handed to the model for a successful scrollback answer.
pub open spec fn scrollback_output(
    line_start: int,
    line_end: int,
    total_lines: int,
    content: Seq<char>,
    has_more: bool,
) -> Seq<char> {
    "Terminal output (lines "@ + decimal_of(line_start as nat) + "-"@ + decimal_of(
        line_end as nat,
    ) + " of "@ + decimal_of(total_lines as nat) + "):\n\n"@ + content + (if has_more {
        "\n\n[More output available. Use line_start parameter to fetch earlier lines.]"@
    } else {
        Seq::<char>::empty()
    })
}

/// The parsed arguments of one scrollback invocation.
#[derive(Debug, Clone)]
pub struct ScrollbackArgs {
    pub session_id: String,
    pub line_start: Option<usize>,
    pub count: Option<usize>,
}

/// The scrollback tool: pending requests and the default timeout.  `S` is
/// the caller's response slot type.
pub struct TermScrollbackTool<S> {
    pending: CorrelationTable<S>,
    timeout_secs: u64,
}

impl<S> TermScrollbackTool<S> {
    /// The pending correlation map.
    pub closed spec fn pending_map(&self) -> Map<Seq<char>, S> {
        self.pending@
    }

    /// The default timeout in seconds.
    pub closed spec fn timeout_secs_spec(&self) -> u64 {
        self.timeout_secs
    }

    /// The internal table is well formed.
    pub closed spec fn wf(&self) -> bool {
        self.pending.wf()
    }

    /// A tool with no pending request and the default timeout.
    pub fn new() -> (r: Self)
        ensures
            r.wf(),
            r.pending_map() == Map::<Seq<char>, S>::empty(),
            r.timeout_secs_spec() == DEFAULT_SCROLLBACK_TIMEOUT_SECS,
    {
        TermScrollbackTool {
            pending: CorrelationTable::new(),
            timeout_secs: DEFAULT_SCROLLBACK_TIMEOUT_SECS,
        }
    }

    /// The same tool with another default timeout.
    pub fn with_timeout(self, timeout_secs: u64) -> (r: Self)
        ensures
            r.wf() == self.wf(),
            r.pending_map() == self.pending_map(),
            r.timeout_secs_spec() == timeout_secs,
    {
        TermScrollbackTool { pending: self.pending, timeout_secs }
    }

    /// The default timeout in seconds.
    pub fn timeout_secs(&self) -> (r: u64)
        ensures
            r == self.timeout_secs_spec(),
    {
        self.timeout_secs
    }

    /// The tool's definition as offered to the model.
    pub fn definition(&self) -> (r: ToolDefinition)
        ensures
            r.name@ == "term_get_scrollback"@,
            r.description@.len() > 0,
            r.parameters.required@.map_values(|s: String| s@).contains("session_id"@),
    {
        let d = ToolDefinition::new(
            "term_get_scrollback",
            "Get the terminal output history (scrollback buffer). This is a READ-ONLY tool that allows you to view what has been output in the terminal.\n\nIMPORTANT: This tool does NOT execute commands. It only reads the terminal output. Use this to:\n- Check the results of commands that the user has run\n- View error messages and logs\n- Understand the current state of the terminal\n\nThe user must manually execute commands in their terminal. You can suggest commands for the user to run, but you cannot execute them directly with this tool.",
        ).with_parameters(
            JsonSchema::new().add_property(
                "session_id",
                PropertySchema::string(
                    "The terminal session ID to read from. This is provided by the system.",
                ),
                true,
            ).add_property(
                "line_start",
                PropertySchema::integer(
                    "Optional starting line number. If not specified, returns the last 200 lines.",
                ),
                false,
            ).add_property(
                "count",
                PropertySchema::integer(
                    "Optional number of lines to return. Defaults to 200 lines.",
                ).with_default("200"),
                false,
            ),
        );
        proof {
            reveal_strlit(
                "Get the terminal output history (scrollback buffer). This is a READ-ONLY tool that allows you to view what has been output in the terminal.\n\nIMPORTANT: This tool does NOT execute commands. It only reads the terminal output. Use this to:\n- Check the results of commands that the user has run\n- View error messages and logs\n- Understand the current state of the terminal\n\nThe user must manually execute commands in their terminal. You can suggest commands for the user to run, but you cannot execute them directly with this tool.",
            );
            let rv = d.parameters.required@.map_values(|s: String| s@);
            assert(rv[0] == "session_id"@);
            assert(rv.contains("session_id"@));
        }
        d
    }

    /// Parses the tool-call arguments: `session_id` is required and its
    /// absence is an invalid-arguments error; the line range is optional.
    /// The argument object comes from the outside JSON parser and is opaque
    /// here, so only the error variant is pinned; the request functions
    /// take the parsed values and carry the exact contracts.
    pub fn parse_arguments(&self, args: &serde_json::Value) -> (r: Result<
        ScrollbackArgs,
        ToolError,
    >)
        ensures
            r is Err ==> (r->Err_0 is InvalidArguments),
    {
        let session_id = match json_get(args, "session_id") {
            Some(f) => match json_as_string(f) {
                Some(c) => c,
                None => {
                    return Err(ToolError::InvalidArguments(String::from_str(
                        "missing session_id parameter",
                    )));
                },
            },
            None => {
                return Err(ToolError::InvalidArguments(String::from_str(
                    "missing session_id parameter",
                )));
            },
        };
        let line_start = match json_get(args, "line_start") {
            Some(f) => match json_as_u64(f) {
                Some(n) => {
                    if n <= usize::MAX as u64 {
                        Some(n as usize)
                    } else {
                        None
                    }
                },
                None => None,
            },
            None => None,
        };
        let count = match json_get(args, "count") {
            Some(f) => match json_as_u64(f) {
                Some(n) => {
                    if n <= usize::MAX as u64 {
                        Some(n as usize)
                    } else {
                        None
                    }
                },
                None => None,
            },
            None => None,
        };
        Ok(ScrollbackArgs { session_id, line_start, count })
    }

    /// Registers the response slot for a fresh request and builds the
    /// request handed to the external actor.  A request id already in
    /// flight is refused and the slot comes back.
    pub fn register_request(
        &mut self,
        request_id: &String,
        session_id: &String,
        line_start: Option<usize>,
        count: Option<usize>,
        slot: S,
    ) -> (r: Result<GetScrollbackRequest, S>)
        requires
            old(self).wf(),
        ensures
            final(self).wf(),
            final(self).timeout_secs_spec() == old(self).timeout_secs_spec(),
            match r {
                Ok(req) => !old(self).pending_map().contains_key(request_id@) && final(
                    self).pending_map() == old(self).pending_map().insert(request_id@, slot)
                    && req.request_id@ == request_id@ && req.session_id@ == session_id@
                    && req.line_start == line_start && req.count == count,
                Err(s) => old(self).pending_map().contains_key(request_id@) && final(
                    self).pending_map() == old(self).pending_map() && s == slot,
            },
    {
        match self.pending.register(request_id, slot) {
            Ok(()) => Ok(GetScrollbackRequest {
                request_id: request_id.clone(),
                session_id: session_id.clone(),
                line_start,
                count,
            }),
            Err(s) => Err(s),
        }
    }

    /// Looks the slot for a fulfilled request up and removes it atomically:
    /// present exactly when the id is still pending, so a late or repeated
    /// fulfillment finds nothing and is dropped.
    pub fn handle_response(&mut self, request_id: &String) -> (r: Option<S>)
        requires
            old(self).wf(),
        ensures
            final(self).wf(),
            final(self).timeout_secs_spec() == old(self).timeout_secs_spec(),
            final(self).pending_map() == old(self).pending_map().remove(request_id@),
            match r {
                Some(slot) => old(self).pending_map().contains_key(request_id@) && old(
                    self).pending_map()[request_id@] == slot,
                None => !old(self).pending_map().contains_key(request_id@),
            },
    {
        self.pending.resolve(request_id)
    }

    /// Unregisters a request whose notification failed, whose wait expired
    /// or whose channel closed, so no registration leaks.
    pub fn abort_request(&mut self, request_id: &String)
        requires
            old(self).wf(),
        ensures
            final(self).wf(),
            final(self).timeout_secs_spec() == old(self).timeout_secs_spec(),
            final(self).pending_map() == old(self).pending_map().remove(request_id@),
    {
        let _ = self.pending.resolve(request_id);
    }
}

impl<S> TermScrollbackTool<S> {
    /// Settles one request after the wait: a successful answer is rendered
    /// for the model, a failed one surfaces its error; a timeout or an
    /// early channel closure unregisters the slot, so no registration leaks
    /// and the caller never hangs.
    pub fn settle_request(
        &mut self,
        request_id: &String,
        outcome: BridgeOutcome<GetScrollbackResponse>,
    ) -> (r: Result<ToolResult, ToolError>)
        requires
            old(self).wf(),
        ensures
            final(self).wf(),
            final(self).timeout_secs_spec() == old(self).timeout_secs_spec(),
            match outcome {
                BridgeOutcome::Response(response) => final(self).pending_map() == old(
                    self).pending_map() && (if response.success {
                    r is Ok && r->Ok_0.success && (r->Ok_0.output)@ == scrollback_output(
                        response.line_start as int,
                        response.line_end as int,
                        response.total_lines as int,
                        response.content@,
                        response.has_more,
                    )
                } else {
                    r is Err && (r->Err_0 is ExecutionFailed)
                }),
                BridgeOutcome::Timeout => final(self).pending_map() == old(
                    self).pending_map().remove(request_id@) && r == Err::<
                    ToolResult,
                    ToolError,
                >(ToolError::Timeout),
                BridgeOutcome::ChannelClosed => final(self).pending_map() == old(
                    self).pending_map().remove(request_id@) && r is Err && (r->Err_0
                    is ExecutionFailed),
            },
    {
        match outcome {
            BridgeOutcome::Response(response) => {
                if response.success {
                    Ok(ToolResult::success(format_scrollback_output(&response)))
                } else {
                    let error = match &response.error {
                        Some(e) => e.clone(),
                        None => String::from_str("Unknown error"),
                    };
                    Err(ToolError::ExecutionFailed(error))
                }
            },
            BridgeOutcome::Timeout => {
                self.abort_request(request_id);
                Err(ToolError::Timeout)
            },
            BridgeOutcome::ChannelClosed => {
                self.abort_request(request_id);
                Err(ToolError::ExecutionFailed(String::from_str("response channel closed")))
            },
        }
    }
}

/// Renders a successful scrollback answer for the model: the line range and
/// total, the content, and a marker when more output is available.
pub fn format_scrollback_output(response: &GetScrollbackResponse) -> (r: String)
    ensures
        r@ == scrollback_output(
            response.line_start as int,
            response.line_end as int,
            response.total_lines as int,
            response.content@,
            response.has_more,
        ),
{
    let mut out = String::from_str("Terminal output (lines ");
    out.append(usize_to_string(response.line_start).as_str());
    out.append("-");
    out.append(usize_to_string(response.line_end).as_str());
    out.append(" of ");
    out.append(usize_to_string(response.total_lines).as_str());
    out.append("):\n\n");
    out.append(response.content.as_str());
    if response.has_more {
        out.append("\n\n[More output available. Use line_start parameter to fetch earlier lines.]");
    } else {
        proof {
            assert(out@ =~= out@ + Seq::<char>::empty());
        }
    }
    out
}

/// Resolves the pending slot matching a response's request id: the caller
/// delivers the response through the slot exactly once; a late or repeated
/// response finds nothing and is dropped.
pub fn handle_term_scrollback_response<S>(
    tool: &mut TermScrollbackTool<S>,
    response: &GetScrollbackResponse,
) -> (r: Option<S>)
    requires
        old(tool).wf(),
    ensures
        final(tool).wf(),
        final(tool).pending_map() == old(tool).pending_map().remove(response.request_id@),
        match r {
            Some(slot) => old(tool).pending_map().contains_key(response.request_id@) && old(
                tool).pending_map()[response.request_id@] == slot,
            None => !old(tool).pending_map().contains_key(response.request_id@),
        },
{
    tool.handle_response(&response.request_id)
}

} // verus!
