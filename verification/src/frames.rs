//! The closed wire-frame model of the vendor stream.
//!
//! Each decoded data payload is classified into one variant of a closed
//! tagged type; unrecognized payloads become `Unknown` and are ignored by the
//! parser, never silently mixed into another kind.  The fields of a payload
//! are read through trusted byte-level readers whose results carry names, so
//! the classification is itself a function of the payload bytes and
//! `classify_frame` carries an exact contract over it.

use vstd::prelude::*;
use crate::outside::{
    block_id_of, block_kind_of, block_name_of, delta_kind_of, delta_partial_json_of,
    delta_text_of, delta_thinking_of, error_message_of, frame_index_of, frame_type_of,
    input_tokens_of, output_tokens_of, read_block_id, read_block_kind, read_block_name,
    read_delta_kind, read_delta_partial_json, read_delta_text, read_delta_thinking,
    read_error_message, read_frame_index, read_frame_type, read_input_tokens,
    read_output_tokens, read_stop_reason, stop_reason_of,
};
use crate::types::string_is;

verus! {

/// What kind of content block a `content_block_start` opens.
#[derive(Debug, Clone)]
pub enum BlockStart {
    Text,
    Thinking,
    ToolUse { id: String, name: String },
    Other,
}

/// The payload of a `content_block_delta`.
#[derive(Debug, Clone)]
pub enum BlockDelta {
    Text(String),
    Thinking(String),
    InputJson(String),
    Other,
}

/// One decoded frame of the vendor stream.
#[derive(Debug, Clone)]
pub enum WireFrame {
    MessageStart { input_tokens: Option<u64> },
    ContentBlockStart { index: usize, start: BlockStart },
    ContentBlockDelta { index: usize, delta: BlockDelta },
    ContentBlockStop { index: usize },
    MessageDelta { stop_reason: Option<String>, output_tokens: Option<u64> },
    MessageStop,
    Ping,
    ErrorEvent { message: String },
    Unknown,
}

/// Spec model of a block opening.
pub enum BlockStartModel {
    Text,
    Thinking,
    ToolUse { id: Seq<char>, name: Seq<char> },
    Other,
}

impl View for BlockStart {
    type V = BlockStartModel;

    open spec fn view(&self) -> BlockStartModel {
        match self {
            BlockStart::Text => BlockStartModel::Text,
            BlockStart::Thinking => BlockStartModel::Thinking,
            BlockStart::ToolUse { id, name } => BlockStartModel::ToolUse {
                id: id@,
                name: name@,
            },
            BlockStart::Other => BlockStartModel::Other,
        }
    }
}

/// Spec model of a block delta.
pub enum BlockDeltaModel {
    Text(Seq<char>),
    Thinking(Seq<char>),
    InputJson(Seq<char>),
    Other,
}

impl View for BlockDelta {
    type V = BlockDeltaModel;

    open spec fn view(&self) -> BlockDeltaModel {
        match self {
            BlockDelta::Text(s) => BlockDeltaModel::Text(s@),
            BlockDelta::Thinking(s) => BlockDeltaModel::Thinking(s@),
            BlockDelta::InputJson(s) => BlockDeltaModel::InputJson(s@),
            BlockDelta::Other => BlockDeltaModel::Other,
        }
    }
}

/// Spec model of one frame.
pub enum FrameModel {
    MessageStart { input_tokens: Option<u64> },
    ContentBlockStart { index: int, start: BlockStartModel },
    ContentBlockDelta { index: int, delta: BlockDeltaModel },
    ContentBlockStop { index: int },
    MessageDelta { stop_reason: Option<Seq<char>>, output_tokens: Option<u64> },
    MessageStop,
    Ping,
    ErrorEvent { message: Seq<char> },
    Unknown,
}

impl View for WireFrame {
    type V = FrameModel;

    open spec fn view(&self) -> FrameModel {
        match self {
            WireFrame::MessageStart { input_tokens } => FrameModel::MessageStart {
                input_tokens: *input_tokens,
            },
            WireFrame::ContentBlockStart { index, start } => FrameModel::ContentBlockStart {
                index: *index as int,
                start: start@,
            },
            WireFrame::ContentBlockDelta { index, delta } => FrameModel::ContentBlockDelta {
                index: *index as int,
                delta: delta@,
            },
            WireFrame::ContentBlockStop { index } => FrameModel::ContentBlockStop {
                index: *index as int,
            },
            WireFrame::MessageDelta { stop_reason, output_tokens } => FrameModel::MessageDelta {
                stop_reason: match stop_reason {
                    Some(s) => Some(s@),
                    None => None,
                },
                output_tokens: *output_tokens,
            },
            WireFrame::MessageStop => FrameModel::MessageStop,
            WireFrame::Ping => FrameModel::Ping,
            WireFrame::ErrorEvent { message } => FrameModel::ErrorEvent { message: message@ },
            WireFrame::Unknown => FrameModel::Unknown,
        }
    }
}

/// A named field's text, the empty string when the field is absent.
pub open spec fn field_or_empty(o: Option<Seq<char>>) -> Seq<char> {
    match o {
        Some(s) => s,
        None => Seq::<char>::empty(),
    }
}

/// The classification of a `content_block_start` payload.
pub open spec fn block_start_of(data: Seq<u8>) -> FrameModel {
    match frame_index_of(data) {
        None => FrameModel::Unknown,
        Some(n) => {
            if n > usize::MAX as u64 {
                FrameModel::Unknown
            } else {
                match block_kind_of(data) {
                    None => FrameModel::Unknown,
                    Some(k) => FrameModel::ContentBlockStart {
                        index: n as int,
                        start: if k == "text"@ {
                            BlockStartModel::Text
                        } else if k == "thinking"@ {
                            BlockStartModel::Thinking
                        } else if k == "tool_use"@ {
                            BlockStartModel::ToolUse {
                                id: field_or_empty(block_id_of(data)),
                                name: field_or_empty(block_name_of(data)),
                            }
                        } else {
                            BlockStartModel::Other
                        },
                    },
                }
            }
        },
    }
}

/// The classification of a `content_block_delta` payload.
pub open spec fn block_delta_of(data: Seq<u8>) -> FrameModel {
    match frame_index_of(data) {
        None => FrameModel::Unknown,
        Some(n) => {
            if n > usize::MAX as u64 {
                FrameModel::Unknown
            } else {
                match delta_kind_of(data) {
                    None => FrameModel::Unknown,
                    Some(k) => FrameModel::ContentBlockDelta {
                        index: n as int,
                        delta: if k == "text_delta"@ {
                            match delta_text_of(data) {
                                Some(s) => BlockDeltaModel::Text(s),
                                None => BlockDeltaModel::Other,
                            }
                        } else if k == "thinking_delta"@ {
                            match delta_thinking_of(data) {
                                Some(s) => BlockDeltaModel::Thinking(s),
                                None => BlockDeltaModel::Other,
                            }
                        } else if k == "input_json_delta"@ {
                            match delta_partial_json_of(data) {
                                Some(s) => BlockDeltaModel::InputJson(s),
                                None => BlockDeltaModel::Other,
                            }
                        } else {
                            BlockDeltaModel::Other
                        },
                    },
                }
            }
        },
    }
}

/// The classification of one data payload: a total function of the payload
/// bytes, through the named fields the trusted readers extract.
pub open spec fn frame_of(data: Seq<u8>) -> FrameModel {
    match frame_type_of(data) {
        None => FrameModel::Unknown,
        Some(t) => {
            if t == "message_start"@ {
                FrameModel::MessageStart { input_tokens: input_tokens_of(data) }
            } else if t == "content_block_start"@ {
                block_start_of(data)
            } else if t == "content_block_delta"@ {
                block_delta_of(data)
            } else if t == "content_block_stop"@ {
                match frame_index_of(data) {
                    None => FrameModel::Unknown,
                    Some(n) => {
                        if n > usize::MAX as u64 {
                            FrameModel::Unknown
                        } else {
                            FrameModel::ContentBlockStop { index: n as int }
                        }
                    },
                }
            } else if t == "message_delta"@ {
                FrameModel::MessageDelta {
                    stop_reason: stop_reason_of(data),
                    output_tokens: output_tokens_of(data),
                }
            } else if t == "message_stop"@ {
                FrameModel::MessageStop
            } else if t == "ping"@ {
                FrameModel::Ping
            } else if t == "error"@ {
                FrameModel::ErrorEvent { message: field_or_empty(error_message_of(data)) }
            } else {
                FrameModel::Unknown
            }
        },
    }
}

/// Reads the payload's index as a machine index.
fn read_index_usize(data: &[u8]) -> (r: Option<usize>)
    ensures
        match r {
            Some(i) => frame_index_of(data@) == Some(i as u64) && (i as u64) <= usize::MAX
                as u64,
            None => frame_index_of(data@) is None || (frame_index_of(data@)->0 > usize::MAX
                as u64),
        },
{
    match read_frame_index(data) {
        Some(n) => {
            if n <= usize::MAX as u64 {
                Some(n as usize)
            } else {
                None
            }
        },
        None => None,
    }
}

/// A read field's text, the empty string when the field is absent.
fn read_or_empty(r: &Option<String>) -> (out: String)
    ensures
        match r {
            Some(s) => out@ == s@,
            None => out@ == Seq::<char>::empty(),
        },
{
    match r {
        Some(s) => s.clone(),
        None => String::new(),
    }
}

/// Classifies one decoded data payload into the closed wire-frame type: the
/// classification named by `frame_of`, exactly.  A payload that is not a
/// JSON object of a known kind becomes `Unknown`.
pub fn classify_frame(data: &[u8]) -> (r: WireFrame)
    ensures
        r@ == frame_of(data@),
{
    let t = match read_frame_type(data) {
        Some(t) => t,
        None => {
            return WireFrame::Unknown;
        },
    };
    if string_is(&t, "message_start") {
        WireFrame::MessageStart { input_tokens: read_input_tokens(data) }
    } else if string_is(&t, "content_block_start") {
        let index = match read_index_usize(data) {
            Some(i) => i,
            None => {
                return WireFrame::Unknown;
            },
        };
        let kind = match read_block_kind(data) {
            Some(k) => k,
            None => {
                return WireFrame::Unknown;
            },
        };
        let start = if string_is(&kind, "text") {
            BlockStart::Text
        } else if string_is(&kind, "thinking") {
            BlockStart::Thinking
        } else if string_is(&kind, "tool_use") {
            BlockStart::ToolUse {
                id: read_or_empty(&read_block_id(data)),
                name: read_or_empty(&read_block_name(data)),
            }
        } else {
            BlockStart::Other
        };
        WireFrame::ContentBlockStart { index, start }
    } else if string_is(&t, "content_block_delta") {
        let index = match read_index_usize(data) {
            Some(i) => i,
            None => {
                return WireFrame::Unknown;
            },
        };
        let kind = match read_delta_kind(data) {
            Some(k) => k,
            None => {
                return WireFrame::Unknown;
            },
        };
        let delta = if string_is(&kind, "text_delta") {
            match read_delta_text(data) {
                Some(s) => BlockDelta::Text(s),
                None => BlockDelta::Other,
            }
        } else if string_is(&kind, "thinking_delta") {
            match read_delta_thinking(data) {
                Some(s) => BlockDelta::Thinking(s),
                None => BlockDelta::Other,
            }
        } else if string_is(&kind, "input_json_delta") {
            match read_delta_partial_json(data) {
                Some(s) => BlockDelta::InputJson(s),
                None => BlockDelta::Other,
            }
        } else {
            BlockDelta::Other
        };
        WireFrame::ContentBlockDelta { index, delta }
    } else if string_is(&t, "content_block_stop") {
        match read_index_usize(data) {
            Some(index) => WireFrame::ContentBlockStop { index },
            None => WireFrame::Unknown,
        }
    } else if string_is(&t, "message_delta") {
        WireFrame::MessageDelta {
            stop_reason: read_stop_reason(data),
            output_tokens: read_output_tokens(data),
        }
    } else if string_is(&t, "message_stop") {
        WireFrame::MessageStop
    } else if string_is(&t, "ping") {
        WireFrame::Ping
    } else if string_is(&t, "error") {
        WireFrame::ErrorEvent { message: read_or_empty(&read_error_message(data)) }
    } else {
        WireFrame::Unknown
    }
}

} // verus!
