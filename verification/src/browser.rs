//! The browser automation tool: the action model, its parsing from tool
//! arguments, and the rendering of results.  Launching the driver process
//! is I/O and lives with the caller.

use vstd::prelude::*;
use crate::outside::{json_as_bool, json_as_i64, json_as_u64, json_get, json_as_string};
use crate::registry::{JsonSchema, PropertySchema, ToolDefinition, ToolError, ToolResult};
use crate::types::string_is;

verus! {

/// Default browser action timeout, in seconds.
pub const DEFAULT_BROWSER_TIMEOUT_SECS: u64 = 30;

/// The scroll directions.
#[derive(Debug, Clone, PartialEq, Eq, Structural)]
pub enum ScrollDirection {
    Up,
    Down,
    Left,
    Right,
}

/// One browser action.
#[derive(Debug, Clone)]
pub enum BrowserAction {
    Open { url: String },
    Snapshot { interactive_only: bool },
    Click { selector: String },
    Fill { selector: String, value: String },
    Type { selector: String, text: String },
    Press { key: String },
    Scroll { direction: ScrollDirection, amount: i32 },
    WaitFor { selector: String, timeout_ms: u64 },
    Screenshot { full_page: bool, path: Option<String> },
    GetText { selector: Option<String> },
    Evaluate { script: String },
    Close,
}

/// The default scroll amount, in pixels.
pub fn default_scroll_amount() -> (r: i32)
    ensures
        r == 500,
{
    500
}

/// The default wait timeout, in milliseconds.
pub fn default_wait_timeout() -> (r: u64)
    ensures
        r == 5000,
{
    5000
}

/// The outcome of one browser action.
#[derive(Debug, Clone)]
pub struct BrowserResult {
    pub success: bool,
    pub output: String,
    pub url: Option<String>,
    pub title: Option<String>,
    pub screenshot: Option<String>,
    pub error: Option<String>,
}

/// The browser tool: driver script path, timeout and headless flag.
#[derive(Debug, Clone)]
pub struct BrowserTool {
    pub script_path: String,
    pub timeout_secs: u64,
    pub headless: bool,
}

impl BrowserTool {
    /// A tool pointing at the bundled driver script, headless, with the
    /// default timeout.
    pub fn new() -> (r: Self)
        ensures
            r.script_path@ == "scripts/playwright/browser-tool.mjs"@,
            r.timeout_secs == DEFAULT_BROWSER_TIMEOUT_SECS,
            r.headless,
    {
        BrowserTool {
            script_path: String::from_str("scripts/playwright/browser-tool.mjs"),
            timeout_secs: DEFAULT_BROWSER_TIMEOUT_SECS,
            headless: true,
        }
    }

    /// The same tool with another driver script path.
    pub fn with_script_path(self, path: String) -> (r: Self)
        ensures
            r.script_path@ == path@,
            r.timeout_secs == self.timeout_secs,
            r.headless == self.headless,
    {
        BrowserTool { script_path: path, timeout_secs: self.timeout_secs, headless: self.headless }
    }

    /// The same tool with another timeout.
    pub fn with_timeout(self, timeout_secs: u64) -> (r: Self)
        ensures
            r.script_path@ == self.script_path@,
            r.timeout_secs == timeout_secs,
            r.headless == self.headless,
    {
        BrowserTool { script_path: self.script_path, timeout_secs, headless: self.headless }
    }

    /// The same tool with the headless flag set as given.
    pub fn with_headless(self, headless: bool) -> (r: Self)
        ensures
            r.script_path@ == self.script_path@,
            r.timeout_secs == self.timeout_secs,
            r.headless == headless,
    {
        BrowserTool { script_path: self.script_path, timeout_secs: self.timeout_secs, headless }
    }

    /// The tool's definition as offered to the model.
    pub fn definition(&self) -> (r: ToolDefinition)
        ensures
            r.name@ == "browser"@,
            r.description@.len() > 0,
            r.parameters.required@.map_values(|s: String| s@).contains("action"@),
    {
        let d = ToolDefinition::new(
            "browser",
            "Control a web browser for automation tasks. Use this to navigate websites, interact with elements, fill forms, and extract information. The 'snapshot' action returns an accessibility tree with element references (like @e1, @e2) that can be used in subsequent actions.",
        ).with_parameters(
            JsonSchema::new().add_property(
                "action",
                PropertySchema::string(
                    "The browser action to perform. One of: open, snapshot, click, fill, type, press, scroll, wait_for, screenshot, get_text, evaluate, close",
                ),
                true,
            ).add_property(
                "url",
                PropertySchema::string("URL to open (for 'open' action)"),
                false,
            ).add_property(
                "selector",
                PropertySchema::string(
                    "Element selector. Can be CSS selector, XPath, or element reference like @e1 from snapshot output",
                ),
                false,
            ).add_property(
                "value",
                PropertySchema::string("Value to fill (for 'fill' action)"),
                false,
            ).add_property(
                "text",
                PropertySchema::string("Text to type (for 'type' action)"),
                false,
            ).add_property(
                "key",
                PropertySchema::string(
                    "Key to press (for 'press' action), e.g., 'Enter', 'Tab', 'Escape'",
                ),
                false,
            ).add_property(
                "direction",
                PropertySchema::string("Scroll direction: up, down, left, right"),
                false,
            ).add_property(
                "script",
                PropertySchema::string("JavaScript code to evaluate (for 'evaluate' action)"),
                false,
            ).add_property(
                "interactive_only",
                PropertySchema::boolean(
                    "Only include interactive elements in snapshot (default: false)",
                ),
                false,
            ).add_property(
                "full_page",
                PropertySchema::boolean("Capture full page screenshot (default: false)"),
                false,
            ),
        );
        proof {
            reveal_strlit(
                "Control a web browser for automation tasks. Use this to navigate websites, interact with elements, fill forms, and extract information. The 'snapshot' action returns an accessibility tree with element references (like @e1, @e2) that can be used in subsequent actions.",
            );
            let rv = d.parameters.required@.map_values(|s: String| s@);
            assert(rv[0] == "action"@);
            assert(rv.contains("action"@));
        }
        d
    }
}

/// Reads a string argument.
fn arg_string(v: &serde_json::Value, key: &str) -> Option<String> {
    match json_get(v, key) {
        Some(f) => json_as_string(f),
        None => None,
    }
}

/// Parses the tool arguments into one browser action.  The argument object
/// comes from the outside JSON parser and is opaque here, so this function
/// is verified only for safety; what each action means is pinned down by
/// the `BrowserAction` type itself.
pub fn parse_browser_action(v: &serde_json::Value) -> Result<BrowserAction, ToolError> {
    let action = match arg_string(v, "action") {
        Some(a) => a,
        None => {
            return Err(ToolError::InvalidArguments(String::from_str(
                "missing action parameter",
            )));
        },
    };
    if string_is(&action, "open") {
        match arg_string(v, "url") {
            Some(url) => Ok(BrowserAction::Open { url }),
            None => Err(ToolError::InvalidArguments(String::from_str(
                "the open action needs a url parameter",
            ))),
        }
    } else if string_is(&action, "snapshot") {
        let interactive_only = match json_get(v, "interactive_only") {
            Some(f) => match json_as_bool(f) {
                Some(b) => b,
                None => false,
            },
            None => false,
        };
        Ok(BrowserAction::Snapshot { interactive_only })
    } else if string_is(&action, "click") {
        match arg_string(v, "selector") {
            Some(selector) => Ok(BrowserAction::Click { selector }),
            None => Err(ToolError::InvalidArguments(String::from_str(
                "the click action needs a selector parameter",
            ))),
        }
    } else if string_is(&action, "fill") {
        let selector = match arg_string(v, "selector") {
            Some(s) => s,
            None => {
                return Err(ToolError::InvalidArguments(String::from_str(
                    "the fill action needs a selector parameter",
                )));
            },
        };
        match arg_string(v, "value") {
            Some(value) => Ok(BrowserAction::Fill { selector, value }),
            None => Err(ToolError::InvalidArguments(String::from_str(
                "the fill action needs a value parameter",
            ))),
        }
    } else if string_is(&action, "type") {
        let selector = match arg_string(v, "selector") {
            Some(s) => s,
            None => {
                return Err(ToolError::InvalidArguments(String::from_str(
                    "the type action needs a selector parameter",
                )));
            },
        };
        match arg_string(v, "text") {
            Some(text) => Ok(BrowserAction::Type { selector, text }),
            None => Err(ToolError::InvalidArguments(String::from_str(
                "the type action needs a text parameter",
            ))),
        }
    } else if string_is(&action, "press") {
        match arg_string(v, "key") {
            Some(key) => Ok(BrowserAction::Press { key }),
            None => Err(ToolError::InvalidArguments(String::from_str(
                "the press action needs a key parameter",
            ))),
        }
    } else if string_is(&action, "scroll") {
        let direction = match arg_string(v, "direction") {
            Some(d) => {
                if string_is(&d, "up") {
                    ScrollDirection::Up
                } else if string_is(&d, "down") {
                    ScrollDirection::Down
                } else if string_is(&d, "left") {
                    ScrollDirection::Left
                } else if string_is(&d, "right") {
                    ScrollDirection::Right
                } else {
                    ScrollDirection::Down
                }
            },
            None => ScrollDirection::Down,
        };
        let amount: i32 = match json_get(v, "amount") {
            Some(f) => match json_as_i64(f) {
                Some(a) => {
                    if a > i32::MAX as i64 {
                        i32::MAX
                    } else if a < i32::MIN as i64 {
                        i32::MIN
                    } else {
                        a as i32
                    }
                },
                None => default_scroll_amount(),
            },
            None => default_scroll_amount(),
        };
        Ok(BrowserAction::Scroll { direction, amount })
    } else if string_is(&action, "wait_for") {
        let selector = match arg_string(v, "selector") {
            Some(s) => s,
            None => {
                return Err(ToolError::InvalidArguments(String::from_str(
                    "the wait_for action needs a selector parameter",
                )));
            },
        };
        let timeout_ms = match json_get(v, "timeout_ms") {
            Some(f) => match json_as_u64(f) {
                Some(t) => t,
                None => default_wait_timeout(),
            },
            None => default_wait_timeout(),
        };
        Ok(BrowserAction::WaitFor { selector, timeout_ms })
    } else if string_is(&action, "screenshot") {
        let full_page = match json_get(v, "full_page") {
            Some(f) => match json_as_bool(f) {
                Some(b) => b,
                None => false,
            },
            None => false,
        };
        let path = arg_string(v, "path");
        Ok(BrowserAction::Screenshot { full_page, path })
    } else if string_is(&action, "get_text") {
        Ok(BrowserAction::GetText { selector: arg_string(v, "selector") })
    } else if string_is(&action, "evaluate") {
        match arg_string(v, "script") {
            Some(script) => Ok(BrowserAction::Evaluate { script }),
            None => Err(ToolError::InvalidArguments(String::from_str(
                "the evaluate action needs a script parameter",
            ))),
        }
    } else if string_is(&action, "close") {
        Ok(BrowserAction::Close)
    } else {
        let mut msg = String::from_str("unknown action: ");
        msg.append(action.as_str());
        Err(ToolError::InvalidArguments(msg))
    }
}

/// What one driver run produced, as plain values.  The caller spawns the
/// driver process, applies the timeout and parses its stdout; the decision
/// on the outcome is taken here.
#[derive(Debug)]
pub enum DriverOutcome {
    /// The wait for the process expired.
    TimedOut,
    /// The process could not be run at all.
    SpawnFailed(String),
    /// The process exited, successfully or not.
    Exited { status_success: bool, parsed: Option<BrowserResult>, stderr: String },
}

/// A copy of a browser result, value for value.
fn clone_browser_result(b: &BrowserResult) -> (out: BrowserResult)
    ensures
        out == *b,
{
    BrowserResult {
        success: b.success,
        output: b.output.clone(),
        url: match &b.url {
            Some(u) => Some(u.clone()),
            None => None,
        },
        title: match &b.title {
            Some(t) => Some(t.clone()),
            None => None,
        },
        screenshot: match &b.screenshot {
            Some(x) => Some(x.clone()),
            None => None,
        },
        error: match &b.error {
            Some(e) => Some(e.clone()),
            None => None,
        },
    }
}

/// Decides one driver run: a timeout surfaces as such; a process that
/// could not run, an unparsable output and a failed exit each surface as
/// an execution failure carrying the diagnostic; a clean exit with a
/// parsed result hands the result through unchanged.
pub fn settle_driver_outcome(outcome: &DriverOutcome) -> (r: Result<BrowserResult, ToolError>)
    ensures
        match outcome {
            DriverOutcome::TimedOut => r == Err::<BrowserResult, ToolError>(ToolError::Timeout),
            DriverOutcome::SpawnFailed(e) => r is Err && (r->Err_0 is ExecutionFailed) && ((
            r->Err_0)->ExecutionFailed_0)@ == "failed to run the driver process: "@ + e@,
            DriverOutcome::Exited { status_success, parsed, stderr } => {
                if *status_success {
                    match parsed {
                        Some(result) => r is Ok && r->Ok_0 == *result,
                        None => r is Err && (r->Err_0 is ExecutionFailed) && ((
                        r->Err_0)->ExecutionFailed_0)@ == "could not parse the driver output: "@
                            + stderr@,
                    }
                } else {
                    r is Err && (r->Err_0 is ExecutionFailed) && ((
                    r->Err_0)->ExecutionFailed_0)@ == "browser action failed: "@ + stderr@
                }
            },
        },
{
    match outcome {
        DriverOutcome::TimedOut => Err(ToolError::Timeout),
        DriverOutcome::SpawnFailed(e) => {
            let mut msg = String::from_str("failed to run the driver process: ");
            msg.append(e.as_str());
            Err(ToolError::ExecutionFailed(msg))
        },
        DriverOutcome::Exited { status_success, parsed, stderr } => {
            if *status_success {
                match parsed {
                    Some(result) => Ok(clone_browser_result(result)),
                    None => {
                        let mut msg = String::from_str("could not parse the driver output: ");
                        msg.append(stderr.as_str());
                        Err(ToolError::ExecutionFailed(msg))
                    },
                }
            } else {
                let mut msg = String::from_str("browser action failed: ");
                msg.append(stderr.as_str());
                Err(ToolError::ExecutionFailed(msg))
            }
        },
    }
}

/// The text of one browser result: the raw output, preceded by the URL
/// line when the page URL is known, preceded by the title line when the
/// page title is known.
pub open spec fn browser_output(
    output: Seq<char>,
    url: Option<Seq<char>>,
    title: Option<Seq<char>>,
) -> Seq<char> {
    let with_url = match url {
        Some(u) => "URL: "@ + u + "\n"@ + output,
        None => output,
    };
    match title {
        Some(t) => "Title: "@ + t + "\n"@ + with_url,
        None => with_url,
    }
}

/// Renders one browser result for the model: a success carries the page
/// text, a failure carries the text and the error.
pub fn browser_result_to_tool(result: &BrowserResult) -> (r: ToolResult)
    ensures
        r.success == result.success,
        r.output@ == browser_output(
            result.output@,
            match result.url {
                Some(u) => Some(u@),
                None => None,
            },
            match result.title {
                Some(t) => Some(t@),
                None => None,
            },
        ),
        !result.success ==> (match (&r.error, &result.error) {
            (Some(a), Some(b)) => a@ == b@,
            (Some(a), None) => a@ == "unknown error"@,
            _ => false,
        }),
        result.success ==> r.error is None,
{
    let mut output = result.output.clone();
    if let Some(u) = &result.url {
        let mut line = String::from_str("URL: ");
        line.append(u.as_str());
        line.append("\n");
        line.append(output.as_str());
        output = line;
    }
    if let Some(t) = &result.title {
        let mut line = String::from_str("Title: ");
        line.append(t.as_str());
        line.append("\n");
        line.append(output.as_str());
        output = line;
    }
    if result.success {
        ToolResult::success(output)
    } else {
        let error = match &result.error {
            Some(e) => e.clone(),
            None => String::from_str("unknown error"),
        };
        ToolResult::failure_with_output(output, error)
    }
}

} // verus!
