//! Protocol adapter for the Anthropic-style Messages API: builds vendor
//! requests from canonical histories.
//!
//! Vendor quirks owned here: the system prompt is encoded either as a plain
//! string or as an array of typed text blocks, selectable per instance; the
//! vendor lacks a `tool` role, so tool-result messages are remapped to the
//! `user` role with a structured content block; inline data-URL images are
//! decoded into (media type, payload) pairs while plain URLs pass through.

use vstd::prelude::*;
use vstd::utf8::is_ascii_chars;
use crate::outside::{json_accepts, now_rfc3339};
use crate::parser::final_args;
use crate::repair::{repair_history, repaired};
use crate::types::{
    msg_views, string_is, AgentConfig, AgentMessage, ContentModel, ContentPart, ImageData,
    MessageContent, MsgModel, PartModel, ToolCall, ToolCallModel,
};

verus! {

// ---------------------------------------------------------------------------
// Wire model
// ---------------------------------------------------------------------------

/// One content block of a vendor message.
#[derive(Debug, Clone)]
pub enum WireBlock {
    Text { text: String },
    ToolUse { id: String, name: String, input_json: String },
    ToolResult { tool_use_id: String, content: String },
    ImageBase64 { media_type: String, data: String },
    ImageUrl { url: String },
}

/// The body of a vendor message: a plain string or a block list.
#[derive(Debug, Clone)]
pub enum WireContent {
    Text(String),
    Blocks(Vec<WireBlock>),
}

/// One message of a vendor request.
#[derive(Debug, Clone)]
pub struct AnthropicMessage {
    pub role: String,
    pub content: WireContent,
}

/// The system field: a plain string or an array holding one text block.
#[derive(Debug, Clone)]
pub enum SystemField {
    Plain(String),
    BlockArray(String),
}

/// One tool offered to the vendor.
#[derive(Debug, Clone)]
pub struct AnthropicTool {
    pub name: String,
    pub description: String,
    /// Raw JSON text of the input schema.
    pub input_schema_json: String,
}

/// A whole vendor request body.
#[derive(Debug, Clone)]
pub struct AnthropicMessagesRequest {
    pub model: String,
    pub messages: Vec<AnthropicMessage>,
    pub max_tokens: u32,
    pub stream: bool,
    pub system: Option<SystemField>,
    pub tools: Option<Vec<AnthropicTool>>,
}

/// Spec model of a wire block.
pub enum WireBlockModel {
    Text { text: Seq<char> },
    ToolUse { id: Seq<char>, name: Seq<char>, input_json: Seq<char> },
    ToolResult { tool_use_id: Seq<char>, content: Seq<char> },
    ImageBase64 { media_type: Seq<char>, data: Seq<char> },
    ImageUrl { url: Seq<char> },
}

impl View for WireBlock {
    type V = WireBlockModel;

    open spec fn view(&self) -> WireBlockModel {
        match self {
            WireBlock::Text { text } => WireBlockModel::Text { text: text@ },
            WireBlock::ToolUse { id, name, input_json } => WireBlockModel::ToolUse {
                id: id@,
                name: name@,
                input_json: input_json@,
            },
            WireBlock::ToolResult { tool_use_id, content } => WireBlockModel::ToolResult {
                tool_use_id: tool_use_id@,
                content: content@,
            },
            WireBlock::ImageBase64 { media_type, data } => WireBlockModel::ImageBase64 {
                media_type: media_type@,
                data: data@,
            },
            WireBlock::ImageUrl { url } => WireBlockModel::ImageUrl { url: url@ },
        }
    }
}

/// Spec model of a wire message body.
pub enum WireContentModel {
    Text(Seq<char>),
    Blocks(Seq<WireBlockModel>),
}

impl View for WireContent {
    type V = WireContentModel;

    open spec fn view(&self) -> WireContentModel {
        match self {
            WireContent::Text(s) => WireContentModel::Text(s@),
            WireContent::Blocks(v) => WireContentModel::Blocks(v@.map_values(|b: WireBlock| b@)),
        }
    }
}

/// Spec model of a wire message.
pub struct WireMsgModel {
    pub role: Seq<char>,
    pub content: WireContentModel,
}

impl View for AnthropicMessage {
    type V = WireMsgModel;

    open spec fn view(&self) -> WireMsgModel {
        WireMsgModel { role: self.role@, content: self.content@ }
    }
}

/// Spec model of the system field.
pub enum SystemModel {
    Plain(Seq<char>),
    BlockArray(Seq<char>),
}

impl View for SystemField {
    type V = SystemModel;

    open spec fn view(&self) -> SystemModel {
        match self {
            SystemField::Plain(s) => SystemModel::Plain(s@),
            SystemField::BlockArray(s) => SystemModel::BlockArray(s@),
        }
    }
}

/// Spec model of one offered tool.
pub struct WireToolModel {
    pub name: Seq<char>,
    pub description: Seq<char>,
    pub input_schema_json: Seq<char>,
}

impl View for AnthropicTool {
    type V = WireToolModel;

    open spec fn view(&self) -> WireToolModel {
        WireToolModel {
            name: self.name@,
            description: self.description@,
            input_schema_json: self.input_schema_json@,
        }
    }
}

/// Spec model of a whole request.
pub struct RequestModel {
    pub model: Seq<char>,
    pub messages: Seq<WireMsgModel>,
    pub max_tokens: u32,
    pub stream: bool,
    pub system: Option<SystemModel>,
    pub tools: Option<Seq<WireToolModel>>,
}

impl View for AnthropicMessagesRequest {
    type V = RequestModel;

    open spec fn view(&self) -> RequestModel {
        RequestModel {
            model: self.model@,
            messages: self.messages@.map_values(|m: AnthropicMessage| m@),
            max_tokens: self.max_tokens,
            stream: self.stream,
            system: match &self.system {
                Some(s) => Some(s@),
                None => None,
            },
            tools: match &self.tools {
                Some(v) => Some(v@.map_values(|t: AnthropicTool| t@)),
                None => None,
            },
        }
    }
}

// ---------------------------------------------------------------------------
// Offered tools
// ---------------------------------------------------------------------------

/// Definition of one callable function offered to the model.
#[derive(Debug, Clone)]
pub struct FunctionDef {
    pub name: String,
    pub description: Option<String>,
    /// Raw JSON text of the parameter schema.
    pub parameters_json: Option<String>,
}

/// One tool in the caller-facing tool list.
#[derive(Debug, Clone)]
pub enum Tool {
    Function { function: FunctionDef },
    WebSearch,
    WebSearch20250305,
}

/// Spec model of an offered tool.
pub enum ToolSpecModel {
    Function { name: Seq<char>, description: Option<Seq<char>>, parameters_json: Option<Seq<char>> },
    WebSearch,
    WebSearch20250305,
}

impl View for Tool {
    type V = ToolSpecModel;

    open spec fn view(&self) -> ToolSpecModel {
        match self {
            Tool::Function { function } => ToolSpecModel::Function {
                name: function.name@,
                description: match &function.description {
                    Some(s) => Some(s@),
                    None => None,
                },
                parameters_json: match &function.parameters_json {
                    Some(s) => Some(s@),
                    None => None,
                },
            },
            Tool::WebSearch => ToolSpecModel::WebSearch,
            Tool::WebSearch20250305 => ToolSpecModel::WebSearch20250305,
        }
    }
}

/// The input schema offered when a function declares none.
pub open spec fn default_schema() -> Seq<char> {
    "{\"type\":\"object\",\"properties\":{}}"@
}

/// The vendor form of one function tool; search tools have no vendor form.
pub open spec fn converted_tool(t: ToolSpecModel) -> Option<WireToolModel> {
    match t {
        ToolSpecModel::Function { name, description, parameters_json } => Some(WireToolModel {
            name: name,
            description: match description {
                Some(d) => d,
                None => Seq::<char>::empty(),
            },
            input_schema_json: match parameters_json {
                Some(p) => p,
                None => default_schema(),
            },
        }),
        _ => None,
    }
}

/// The vendor tool list: function tools converted, search tools skipped.
pub open spec fn converted_tools(ts: Seq<ToolSpecModel>) -> Seq<WireToolModel>
    decreases ts.len(),
{
    if ts.len() == 0 {
        Seq::<WireToolModel>::empty()
    } else {
        converted_tools(ts.drop_last()) + (match converted_tool(ts.last()) {
            Some(w) => seq![w],
            None => Seq::<WireToolModel>::empty(),
        })
    }
}

// ---------------------------------------------------------------------------
// Data-URL images
// ---------------------------------------------------------------------------

/// Index of the first occurrence of `c`, or -1.
pub open spec fn char_index_of(s: Seq<char>, c: char) -> int
    decreases s.len(),
{
    if s.len() == 0 {
        -1
    } else if s[0] == c {
        0
    } else if char_index_of(s.skip(1), c) < 0 {
        -1
    } else {
        char_index_of(s.skip(1), c) + 1
    }
}

/// `char_index_of` finds the leftmost occurrence exactly.
pub proof fn lemma_char_index_of(s: Seq<char>, c: char)
    ensures
        char_index_of(s, c) == -1 ==> forall|j: int| 0 <= j < s.len() ==> s[j] != c,
        char_index_of(s, c) >= 0 ==> char_index_of(s, c) < s.len() && s[char_index_of(s, c)] == c,
        char_index_of(s, c) >= 0 ==> forall|j: int| 0 <= j < char_index_of(s, c) ==> s[j] != c,
    decreases s.len(),
{
    if s.len() == 0 {
    } else if s[0] == c {
    } else {
        lemma_char_index_of(s.skip(1), c);
        let tail = s.skip(1);
        assert(forall|j: int| 0 <= j < tail.len() ==> tail[j] == s[j + 1]);
        if char_index_of(tail, c) < 0 {
            assert forall|j: int| 0 <= j < s.len() implies s[j] != c by {
                if j >= 1 {
                    assert(tail[j - 1] != c);
                }
            }
        } else {
            let i = char_index_of(tail, c);
            assert(s[i + 1] == tail[i]);
            assert forall|j: int| 0 <= j < i + 1 implies s[j] != c by {
                if j >= 1 {
                    assert(tail[j - 1] != c);
                }
            }
        }
    }
}

/// `p` begins `s`.
pub open spec fn chars_prefix(p: Seq<char>, s: Seq<char>) -> bool {
    p.len() <= s.len() && s.take(p.len() as int) == p
}

/// `p` ends `s`.
pub open spec fn chars_suffix(p: Seq<char>, s: Seq<char>) -> bool {
    p.len() <= s.len() && s.skip(s.len() - p.len()) == p
}

/// The source of one image in a wire message.
#[derive(Debug, Clone)]
pub enum ImageSource {
    Base64 { media_type: String, data: String },
    Url { url: String },
}

/// Spec model of an image source.
pub enum ImageSourceModel {
    Base64 { media_type: Seq<char>, data: Seq<char> },
    Url { url: Seq<char> },
}

impl View for ImageSource {
    type V = ImageSourceModel;

    open spec fn view(&self) -> ImageSourceModel {
        match self {
            ImageSource::Base64 { media_type, data } => ImageSourceModel::Base64 {
                media_type: media_type@,
                data: data@,
            },
            ImageSource::Url { url } => ImageSourceModel::Url { url: url@ },
        }
    }
}

/// The media type of a data URL, with a `;base64` marker removed.
pub open spec fn media_type_of(mt: Seq<char>) -> Seq<char> {
    if chars_suffix(";base64"@, mt) {
        mt.take(mt.len() - 7)
    } else {
        mt
    }
}

/// How one image URL is carried: an ASCII `data:` URL with a comma is decoded
/// into its media type and payload; every other URL passes through unchanged.
pub open spec fn decoded_image(url: Seq<char>) -> ImageSourceModel {
    if is_ascii_chars(url) && chars_prefix("data:"@, url) && char_index_of(url.skip(5), ',')
        >= 0 {
        let rest = url.skip(5);
        let ci = char_index_of(rest, ',');
        ImageSourceModel::Base64 {
            media_type: media_type_of(rest.take(ci)),
            data: rest.skip(ci + 1),
        }
    } else {
        ImageSourceModel::Url { url }
    }
}

/// Finds the first comma at or after `from` in an ASCII string.
fn find_comma_ascii(s: &str, from: usize) -> (r: Option<usize>)
    requires
        s.is_ascii(),
        from <= s@.len(),
    ensures
        match r {
            Some(k) => from <= k && char_index_of(s@.skip(from as int), ',') == k - from,
            None => char_index_of(s@.skip(from as int), ',') < 0,
        },
{
    let ghost tail = s@.skip(from as int);
    let n = s.unicode_len();
    let mut k: usize = from;
    while k < n
        invariant
            from <= k <= n,
            n == s@.len(),
            from <= s@.len(),
            s.is_ascii(),
            tail == s@.skip(from as int),
            forall|j: int| from <= j < k ==> s@[j] != ',',
        decreases n - k,
    {
        let b = s.get_ascii(k);
        if b == 44u8 {
            proof {
                assert(s@[k as int] as u8 == 44u8);
                assert(s@[k as int] <= '\u{7f}');
                assert(s@[k as int] == ',');
                assert(forall|j: int| 0 <= j < tail.len() ==> tail[j] == s@[from + j]);
                assert(tail[k - from] == ',');
                assert forall|j: int| 0 <= j < k - from implies tail[j] != ',' by {
                    assert(s@[from + j] != ',');
                }
                lemma_char_index_of(tail, ',');
                let i = char_index_of(tail, ',');
                if i < 0 {
                    assert(tail[k - from] != ',');
                } else if i < k - from {
                    assert(tail[i] != ',');
                    assert(tail[i] == ',');
                } else if i > k - from {
                    assert(tail[k - from] != ',');
                }
            }
            return Some(k);
        }
        proof {
            assert(s@[k as int] as u8 == b);
            assert(s@[k as int] <= '\u{7f}');
            if s@[k as int] == ',' {
                assert(s@[k as int] as u8 == 44u8);
            }
        }
        k = k + 1;
    }
    proof {
        assert(forall|j: int| 0 <= j < tail.len() ==> tail[j] == s@[from + j]);
        assert forall|j: int| 0 <= j < tail.len() implies tail[j] != ',' by {
            assert(s@[from + j] != ',');
        }
        lemma_char_index_of(tail, ',');
        if char_index_of(tail, ',') >= 0 {
            assert(tail[char_index_of(tail, ',')] == ',');
        }
    }
    None
}

/// Decodes one image URL: an inline ASCII `data:` URL becomes a (media type,
/// payload) pair; any other URL passes through unchanged.
pub fn decode_image_url(url: &String) -> (r: ImageSource)
    ensures
        r@ == decoded_image(url@),
{
    let s = url.as_str();
    if !s.is_ascii() {
        return ImageSource::Url { url: url.clone() };
    }
    let n = s.unicode_len();
    if n < 5 {
        proof {
            reveal_strlit("data:");
            assert(!chars_prefix("data:"@, url@));
        }
        return ImageSource::Url { url: url.clone() };
    }
    let head = s.substring_ascii(0, 5).to_owned();
    let data_lit = String::from_str("data:");
    if !(head == data_lit) {
        proof {
            reveal_strlit("data:");
            assert("data:"@.len() == 5);
            assert(head@ == url@.take(5));
            assert(!chars_prefix("data:"@, url@));
        }
        return ImageSource::Url { url: url.clone() };
    }
    proof {
        reveal_strlit("data:");
        assert("data:"@.len() == 5);
        assert(head@ == url@.take(5));
        assert(chars_prefix("data:"@, url@));
    }
    let comma = find_comma_ascii(s, 5);
    match comma {
        None => {
            return ImageSource::Url { url: url.clone() };
        },
        Some(ci) => {
            let ghost rest = url@.skip(5);
            proof {
                lemma_char_index_of(rest, ',');
                assert(char_index_of(rest, ',') == ci - 5);
                assert(ci < n);
            }
            let mt_full = s.substring_ascii(5, ci);
            proof {
                assert(mt_full@ =~= rest.take(ci - 5));
            }
            let mlen = mt_full.unicode_len();
            let media_type = if mlen >= 7 {
                let tail7 = mt_full.substring_ascii(mlen - 7, mlen).to_owned();
                let b64_lit = String::from_str(";base64");
                if tail7 == b64_lit {
                    proof {
                        reveal_strlit(";base64");
                        assert(";base64"@.len() == 7);
                        assert(tail7@ =~= mt_full@.skip(mt_full@.len() - 7));
                        assert(chars_suffix(";base64"@, mt_full@));
                    }
                    let m = mt_full.substring_ascii(0, mlen - 7).to_owned();
                    proof {
                        assert(m@ =~= mt_full@.take(mt_full@.len() - 7));
                    }
                    m
                } else {
                    proof {
                        reveal_strlit(";base64");
                        assert(";base64"@.len() == 7);
                        assert(tail7@ =~= mt_full@.skip(mt_full@.len() - 7));
                        assert(!chars_suffix(";base64"@, mt_full@));
                    }
                    mt_full.to_owned()
                }
            } else {
                proof {
                    reveal_strlit(";base64");
                    assert(";base64"@.len() == 7);
                    assert(!chars_suffix(";base64"@, mt_full@));
                }
                mt_full.to_owned()
            };
            let data = s.substring_ascii(ci + 1, n).to_owned();
            proof {
                assert(data@ =~= rest.skip(ci - 5 + 1));
            }
            ImageSource::Base64 { media_type, data }
        },
    }
}

// ---------------------------------------------------------------------------
// Message conversion
// ---------------------------------------------------------------------------

/// Spec model of an inline image.
pub struct ImageModel {
    pub media_type: Seq<char>,
    pub data: Seq<char>,
}

impl View for ImageData {
    type V = ImageModel;

    open spec fn view(&self) -> ImageModel {
        ImageModel { media_type: self.media_type@, data: self.data@ }
    }
}

/// The tool-use blocks of an assistant message, in declaration order; each
/// argument buffer that is not acceptable JSON is replaced by the empty
/// object.
pub open spec fn tool_use_blocks(tcs: Seq<ToolCallModel>) -> Seq<WireBlockModel> {
    tcs.map_values(|t: ToolCallModel| WireBlockModel::ToolUse {
        id: t.id,
        name: t.name,
        input_json: final_args(t.arguments),
    })
}

/// The block list of an assistant message: its text, when not empty, then
/// its tool calls.
pub open spec fn assistant_blocks(text: Seq<char>, tcs: Option<Seq<ToolCallModel>>) -> Seq<
    WireBlockModel,
> {
    (if text.len() > 0 {
        seq![WireBlockModel::Text { text: text }]
    } else {
        Seq::<WireBlockModel>::empty()
    }) + (match tcs {
        Some(ts) => tool_use_blocks(ts),
        None => Seq::<WireBlockModel>::empty(),
    })
}

/// The wire block of one structured content part.
pub open spec fn part_block(p: PartModel) -> WireBlockModel {
    match p {
        PartModel::Text { text } => WireBlockModel::Text { text: text },
        PartModel::ImageUrl { url } => match decoded_image(url) {
            ImageSourceModel::Base64 { media_type, data } => WireBlockModel::ImageBase64 {
                media_type: media_type,
                data: data,
            },
            ImageSourceModel::Url { url } => WireBlockModel::ImageUrl { url: url },
        },
    }
}

/// The vendor form of one canonical message.  The vendor has no `tool` role:
/// a tool result becomes a `user` message holding one tool-result block.
pub open spec fn converted_message(m: MsgModel) -> WireMsgModel {
    let role = if m.role == "tool"@ {
        "user"@
    } else {
        m.role
    };
    match m.content {
        ContentModel::Text(text) => {
            if m.role == "tool"@ {
                match m.tool_call_id {
                    Some(id) => WireMsgModel {
                        role: role,
                        content: WireContentModel::Blocks(seq![WireBlockModel::ToolResult {
                            tool_use_id: id,
                            content: text,
                        }]),
                    },
                    None => WireMsgModel { role: role, content: WireContentModel::Text(text) },
                }
            } else if m.role == "assistant"@ {
                let blocks = assistant_blocks(text, m.tool_calls);
                if blocks.len() == 0 {
                    WireMsgModel { role: role, content: WireContentModel::Text(Seq::empty()) }
                } else if blocks.len() == 1 && m.tool_calls is None {
                    WireMsgModel { role: role, content: WireContentModel::Text(text) }
                } else {
                    WireMsgModel { role: role, content: WireContentModel::Blocks(blocks) }
                }
            } else {
                WireMsgModel { role: role, content: WireContentModel::Text(text) }
            }
        },
        ContentModel::Parts(parts) => WireMsgModel {
            role: role,
            content: WireContentModel::Blocks(parts.map_values(|p: PartModel| part_block(p))),
        },
    }
}

/// An argument buffer, kept when it is acceptable JSON, else the empty
/// object.
pub fn normalize_args(args: &String) -> (r: String)
    ensures
        r@ == final_args(args@),
{
    if json_accepts(args.as_str()) {
        args.clone()
    } else {
        String::from_str("{}")
    }
}

/// Converts one canonical message into its vendor form.
pub fn convert_to_anthropic_message(msg: &AgentMessage) -> (r: AnthropicMessage)
    ensures
        r@ == converted_message(msg@),
{
    let role = if string_is(&msg.role, "tool") {
        String::from_str("user")
    } else {
        msg.role.clone()
    };
    match &msg.content {
        MessageContent::Text(text) => {
            if string_is(&msg.role, "tool") {
                match &msg.tool_call_id {
                    Some(id) => {
                        let mut blocks: Vec<WireBlock> = Vec::new();
                        blocks.push(WireBlock::ToolResult {
                            tool_use_id: id.clone(),
                            content: text.clone(),
                        });
                        let r = AnthropicMessage { role, content: WireContent::Blocks(blocks) };
                        proof {
                            assert(r@.content->Blocks_0 =~= converted_message(
                                msg@).content->Blocks_0);
                            assert(r@ == converted_message(msg@));
                        }
                        r
                    },
                    None => AnthropicMessage { role, content: WireContent::Text(text.clone()) },
                }
            } else if string_is(&msg.role, "assistant") {
                let ghost bm = assistant_blocks(text@, msg@.tool_calls);
                let mut blocks: Vec<WireBlock> = Vec::new();
                if !text.as_str().is_empty() {
                    blocks.push(WireBlock::Text { text: text.clone() });
                }
                proof {
                    assert(blocks@.map_values(|b: WireBlock| b@) =~= (if text@.len() > 0 {
                        seq![WireBlockModel::Text { text: text@ }]
                    } else {
                        Seq::<WireBlockModel>::empty()
                    }));
                }
                let ghost head = blocks@.map_values(|b: WireBlock| b@);
                match &msg.tool_calls {
                    Some(tcs) => {
                        let ghost tcm = tcs@.map_values(|t: ToolCall| t@);
                        let tn = tcs.len();
                        let mut j: usize = 0;
                        proof {
                            assert(tool_use_blocks(tcm).take(0) =~= Seq::<
                                WireBlockModel,
                            >::empty());
                            assert(head + tool_use_blocks(tcm).take(0) =~= head);
                        }
                        while j < tn
                            invariant
                                j <= tn,
                                tn == tcs@.len(),
                                tcm == tcs@.map_values(|t: ToolCall| t@),
                                blocks@.map_values(|b: WireBlock| b@) == head
                                    + tool_use_blocks(tcm).take(j as int),
                            decreases tn - j,
                        {
                            let tc = &tcs[j];
                            let ghost bv0 = blocks@.map_values(|b: WireBlock| b@);
                            blocks.push(WireBlock::ToolUse {
                                id: tc.id.clone(),
                                name: tc.name.clone(),
                                input_json: normalize_args(&tc.arguments),
                            });
                            proof {
                                let bv = blocks@.map_values(|b: WireBlock| b@);
                                assert(bv.drop_last() =~= bv0);
                                assert(bv[bv.len() - 1] == blocks@[blocks@.len() - 1]@);
                                assert(tool_use_blocks(tcm)[j as int]
                                    == WireBlockModel::ToolUse {
                                    id: tcm[j as int].id,
                                    name: tcm[j as int].name,
                                    input_json: final_args(tcm[j as int].arguments),
                                });
                                assert(tcm[j as int] == tcs@[j as int]@);
                                assert(tool_use_blocks(tcm).take(j + 1) =~= tool_use_blocks(
                                    tcm).take(j as int).push(tool_use_blocks(tcm)[j as int]));
                                assert(bv.last() == tool_use_blocks(tcm)[j as int]);
                                assert(bv =~= (head + tool_use_blocks(tcm).take(j as int)).push(
                                    tool_use_blocks(tcm)[j as int]));
                                assert(bv =~= head + tool_use_blocks(tcm).take(j + 1));
                            }
                            j = j + 1;
                        }
                        proof {
                            assert(tool_use_blocks(tcm).take(tn as int) =~= tool_use_blocks(
                                tcm));
                            assert(blocks@.map_values(|b: WireBlock| b@) =~= bm);
                        }
                    },
                    None => {
                        proof {
                            assert(head + Seq::<WireBlockModel>::empty() =~= head);
                            assert(blocks@.map_values(|b: WireBlock| b@) =~= bm);
                        }
                    },
                }
                if blocks.len() == 0 {
                    let r = AnthropicMessage { role, content: WireContent::Text(String::new()) };
                    proof {
                        assert(r@.content->Text_0 =~= Seq::<char>::empty());
                        assert(r@ == converted_message(msg@));
                    }
                    r
                } else if blocks.len() == 1 && msg.tool_calls.is_none() {
                    AnthropicMessage { role, content: WireContent::Text(text.clone()) }
                } else {
                    AnthropicMessage { role, content: WireContent::Blocks(blocks) }
                }
            } else {
                AnthropicMessage { role, content: WireContent::Text(text.clone()) }
            }
        },
        MessageContent::Parts(parts) => {
            let ghost pm = parts@.map_values(|p: ContentPart| p@);
            let mut blocks: Vec<WireBlock> = Vec::new();
            let pn = parts.len();
            let mut j: usize = 0;
            proof {
                assert(blocks@.map_values(|b: WireBlock| b@) =~= pm.map_values(
                    |p: PartModel| part_block(p)).take(0));
            }
            while j < pn
                invariant
                    j <= pn,
                    pn == parts@.len(),
                    pm == parts@.map_values(|p: ContentPart| p@),
                    blocks@.map_values(|b: WireBlock| b@) == pm.map_values(
                        |p: PartModel| part_block(p)).take(j as int),
                decreases pn - j,
            {
                let ghost bv0 = blocks@.map_values(|b: WireBlock| b@);
                match &parts[j] {
                    ContentPart::Text { text } => {
                        blocks.push(WireBlock::Text { text: text.clone() });
                    },
                    ContentPart::ImageUrl { url } => {
                        match decode_image_url(url) {
                            ImageSource::Base64 { media_type, data } => {
                                blocks.push(WireBlock::ImageBase64 { media_type, data });
                            },
                            ImageSource::Url { url } => {
                                blocks.push(WireBlock::ImageUrl { url });
                            },
                        }
                    },
                }
                proof {
                    let f = |p: PartModel| part_block(p);
                    let bv = blocks@.map_values(|b: WireBlock| b@);
                    assert(bv.drop_last() =~= bv0);
                    assert(bv[bv.len() - 1] == blocks@[blocks@.len() - 1]@);
                    assert(pm[j as int] == parts@[j as int]@);
                    assert(pm.map_values(f)[j as int] == part_block(pm[j as int]));
                    assert(bv.last() == part_block(pm[j as int]));
                    assert(bv =~= pm.map_values(f).take(j + 1));
                }
                j = j + 1;
            }
            proof {
                assert(pm.map_values(|p: PartModel| part_block(p)).take(pn as int) =~= pm
                    .map_values(|p: PartModel| part_block(p)));
            }
            AnthropicMessage { role, content: WireContent::Blocks(blocks) }
        },
    }
}

// ---------------------------------------------------------------------------
// Request building
// ---------------------------------------------------------------------------

/// The vendor form of a repaired history: system messages are skipped, every
/// other message is converted, order kept.
pub open spec fn convert_history(h: Seq<MsgModel>) -> Seq<WireMsgModel>
    decreases h.len(),
{
    if h.len() == 0 {
        Seq::<WireMsgModel>::empty()
    } else {
        convert_history(h.drop_last()) + (if h.last().role == "system"@ {
            Seq::<WireMsgModel>::empty()
        } else {
            seq![converted_message(h.last())]
        })
    }
}

/// The wire block of one inline image.
pub open spec fn image_block(i: ImageModel) -> WireBlockModel {
    WireBlockModel::ImageBase64 { media_type: i.media_type, data: i.data }
}

/// The wire blocks of an inline-image list.
pub open spec fn image_blocks(is: Seq<ImageModel>) -> Seq<WireBlockModel> {
    is.map_values(|i: ImageModel| image_block(i))
}

/// The wire message carrying the new user input: plain text, or one text
/// block followed by one block per inline image.
pub open spec fn user_wire_message(text: Seq<char>, imgs: Option<Seq<ImageModel>>) -> WireMsgModel {
    match imgs {
        None => WireMsgModel { role: "user"@, content: WireContentModel::Text(text) },
        Some(is) => WireMsgModel {
            role: "user"@,
            content: WireContentModel::Blocks(seq![WireBlockModel::Text { text: text }]
                + image_blocks(is)),
        },
    }
}

/// The message list of a fresh turn: the repaired history converted, then
/// the new user message.
pub open spec fn built_messages(
    h: Seq<MsgModel>,
    user: Seq<char>,
    imgs: Option<Seq<ImageModel>>,
    ts: Seq<char>,
) -> Seq<WireMsgModel> {
    convert_history(repaired(h, ts)) + seq![user_wire_message(user, imgs)]
}

/// The model of an optional inline-image list.
pub open spec fn images_model(images: Option<&[ImageData]>) -> Option<Seq<ImageModel>> {
    match images {
        Some(is) => Some(is@.map_values(|i: ImageData| i@)),
        None => None,
    }
}

/// The system field sent for a configured prompt.
pub open spec fn system_model(use_array: bool, prompt: Option<Seq<char>>) -> Option<SystemModel> {
    match prompt {
        Some(p) => Some(
            if use_array {
                SystemModel::BlockArray(p)
            } else {
                SystemModel::Plain(p)
            },
        ),
        None => None,
    }
}

/// Converts a repaired history, skipping system messages.
fn convert_history_exec(history: &Vec<AgentMessage>) -> (r: Vec<AnthropicMessage>)
    ensures
        r@.map_values(|m: AnthropicMessage| m@) == convert_history(history@.map_values(
            |m: AgentMessage| m@)),
{
    let ghost hm = history@.map_values(|m: AgentMessage| m@);
    let mut out: Vec<AnthropicMessage> = Vec::new();
    let n = history.len();
    let mut k: usize = 0;
    proof {
        assert(hm.take(0) =~= Seq::<MsgModel>::empty());
        assert(out@.map_values(|m: AnthropicMessage| m@) =~= convert_history(hm.take(0)));
    }
    while k < n
        invariant
            k <= n,
            n == history@.len(),
            hm == history@.map_values(|m: AgentMessage| m@),
            out@.map_values(|m: AnthropicMessage| m@) == convert_history(hm.take(k as int)),
        decreases n - k,
    {
        let m = &history[k];
        proof {
            assert(hm.take(k + 1).drop_last() =~= hm.take(k as int));
            assert(hm.take(k + 1).last() == hm[k as int]);
            assert(hm[k as int] == m@);
        }
        if !string_is(&m.role, "system") {
            let ghost ov0 = out@.map_values(|m: AnthropicMessage| m@);
            out.push(convert_to_anthropic_message(m));
            proof {
                let ov = out@.map_values(|m: AnthropicMessage| m@);
                assert(ov.drop_last() =~= ov0);
                assert(ov[ov.len() - 1] == out@[out@.len() - 1]@);
                assert(ov =~= convert_history(hm.take(k + 1)));
            }
        } else {
            proof {
                assert(convert_history(hm.take(k as int)) + Seq::<WireMsgModel>::empty()
                    =~= convert_history(hm.take(k as int)));
            }
        }
        k = k + 1;
    }
    proof {
        assert(hm.take(n as int) =~= hm);
    }
    out
}

/// Strategy object for the Anthropic-style protocol family.
pub struct AnthropicProtocol {
    use_array_system_format: bool,
}

impl AnthropicProtocol {
    /// Whether the system prompt is sent as an array of typed blocks.
    pub closed spec fn uses_array_system_format(&self) -> bool {
        self.use_array_system_format
    }

    /// The standard form: the system prompt is sent as a plain string.
    pub fn new() -> (r: Self)
        ensures
            !r.uses_array_system_format(),
    {
        AnthropicProtocol { use_array_system_format: false }
    }

    /// The compatibility form: the system prompt is sent as an array of
    /// typed text blocks.
    pub fn with_array_system_format() -> (r: Self)
        ensures
            r.uses_array_system_format(),
    {
        AnthropicProtocol { use_array_system_format: true }
    }

    /// The system field for one prompt, in the form this instance uses.
    pub fn build_system_field(&self, prompt: &str) -> (r: SystemField)
        ensures
            Some(r@) == system_model(self.uses_array_system_format(), Some(prompt@)),
    {
        if self.use_array_system_format {
            SystemField::BlockArray(String::from_str(prompt))
        } else {
            SystemField::Plain(String::from_str(prompt))
        }
    }

    /// Validates and repairs the tool pairing of a history; the synthetic
    /// results are stamped with the current instant, so the shape of the
    /// outcome holds for some timestamp.
    pub fn validate_tool_message_pairs(&self, history: &Vec<AgentMessage>) -> (r: Vec<
        AgentMessage,
    >)
        ensures
            exists|ts: Seq<char>|
                r@.map_values(|m: AgentMessage| m@) == #[trigger] repaired(
                    msg_views(history@),
                    ts,
                ),
    {
        let now = now_rfc3339();
        let r = repair_history(history, &now);
        proof {
            assert(r@.map_values(|m: AgentMessage| m@) == repaired(msg_views(history@), now@));
        }
        r
    }

    /// The vendor tool list: function tools converted, search tools skipped;
    /// present exactly when a tool list was given.
    pub fn convert_tools(tools: Option<&Vec<Tool>>) -> (r: Option<Vec<AnthropicTool>>)
        ensures
            match (tools, &r) {
                (Some(ts), Some(ws)) => ws@.map_values(|w: AnthropicTool| w@)
                    == converted_tools(ts@.map_values(|t: Tool| t@)),
                (None, None) => true,
                _ => false,
            },
    {
        match tools {
            None => None,
            Some(ts) => {
                let ghost tm = ts@.map_values(|t: Tool| t@);
                let mut out: Vec<AnthropicTool> = Vec::new();
                let n = ts.len();
                let mut k: usize = 0;
                proof {
                    assert(tm.take(0) =~= Seq::<ToolSpecModel>::empty());
                    assert(out@.map_values(|w: AnthropicTool| w@) =~= converted_tools(tm.take(
                        0)));
                }
                while k < n
                    invariant
                        k <= n,
                        n == ts@.len(),
                        tm == ts@.map_values(|t: Tool| t@),
                        out@.map_values(|w: AnthropicTool| w@) == converted_tools(tm.take(
                            k as int)),
                    decreases n - k,
                {
                    proof {
                        assert(tm.take(k + 1).drop_last() =~= tm.take(k as int));
                        assert(tm.take(k + 1).last() == tm[k as int]);
                        assert(tm[k as int] == ts@[k as int]@);
                    }
                    match &ts[k] {
                        Tool::Function { function } => {
                            let ghost ov0 = out@.map_values(|w: AnthropicTool| w@);
                            let description = match &function.description {
                                Some(d) => d.clone(),
                                None => String::new(),
                            };
                            let input_schema_json = match &function.parameters_json {
                                Some(p) => p.clone(),
                                None => String::from_str(
                                    "{\"type\":\"object\",\"properties\":{}}"),
                            };
                            out.push(AnthropicTool {
                                name: function.name.clone(),
                                description,
                                input_schema_json,
                            });
                            proof {
                                let ov = out@.map_values(|w: AnthropicTool| w@);
                                assert(ov.drop_last() =~= ov0);
                                assert(ov[ov.len() - 1] == out@[out@.len() - 1]@);
                                assert(ov =~= converted_tools(tm.take(k + 1)));
                            }
                        },
                        Tool::WebSearch => {
                            proof {
                                assert(converted_tools(tm.take(k as int)) + Seq::<
                                    WireToolModel,
                                >::empty() =~= converted_tools(tm.take(k as int)));
                            }
                        },
                        Tool::WebSearch20250305 => {
                            proof {
                                assert(converted_tools(tm.take(k as int)) + Seq::<
                                    WireToolModel,
                                >::empty() =~= converted_tools(tm.take(k as int)));
                            }
                        },
                    }
                    k = k + 1;
                }
                proof {
                    assert(tm.take(n as int) =~= tm);
                }
                Some(out)
            },
        }
    }

    /// Builds the message list of a fresh turn: the history validated,
    /// repaired and converted, then the new user message; and the system
    /// field for the configured prompt.  The synthetic repair results are
    /// stamped with the current instant, so the result holds for some
    /// timestamp.
    pub fn build_messages(
        &self,
        history: &Vec<AgentMessage>,
        user_message: &str,
        images: Option<&[ImageData]>,
        config: &AgentConfig,
    ) -> (r: (Vec<AnthropicMessage>, Option<SystemField>))
        ensures
            exists|ts: Seq<char>|
                r.0@.map_values(|m: AnthropicMessage| m@) == #[trigger] built_messages(
                    msg_views(history@),
                    user_message@,
                    images_model(images),
                    ts,
                ),
            (match (&r.1, config.system_prompt) {
                (Some(s), Some(p)) => Some(s@) == system_model(self.uses_array_system_format(),
                    Some(p@)),
                (None, None) => true,
                _ => false,
            }),
    {
        let now = now_rfc3339();
        let messages = self.build_messages_at(history, user_message, images, &now);
        let system = match &config.system_prompt {
            Some(p) => Some(self.build_system_field(p.as_str())),
            None => None,
        };
        proof {
            assert(messages@.map_values(|m: AnthropicMessage| m@) == built_messages(
                msg_views(history@), user_message@, images_model(images), now@));
        }
        (messages, system)
    }

    /// The message list of a fresh turn for a given repair timestamp.
    pub fn build_messages_at(
        &self,
        history: &Vec<AgentMessage>,
        user_message: &str,
        images: Option<&[ImageData]>,
        fallback_timestamp: &String,
    ) -> (r: Vec<AnthropicMessage>)
        ensures
            r@.map_values(|m: AnthropicMessage| m@) == built_messages(
                history@.map_values(|m: AgentMessage| m@),
                user_message@,
                match images {
                    Some(is) => Some(is@.map_values(|i: ImageData| i@)),
                    None => None,
                },
                fallback_timestamp@,
            ),
    {
        let repaired_history = repair_history(history, fallback_timestamp);
        let mut messages = convert_history_exec(&repaired_history);
        let ghost base = messages@.map_values(|m: AnthropicMessage| m@);
        let user_msg = match images {
            None => AnthropicMessage {
                role: String::from_str("user"),
                content: WireContent::Text(String::from_str(user_message)),
            },
            Some(imgs) => {
                let ghost im = imgs@.map_values(|i: ImageData| i@);
                let mut blocks: Vec<WireBlock> = Vec::new();
                blocks.push(WireBlock::Text { text: String::from_str(user_message) });
                let ghost head = blocks@.map_values(|b: WireBlock| b@);
                proof {
                    assert(head =~= seq![WireBlockModel::Text { text: user_message@ }]);
                    assert(head + image_blocks(im).take(0) =~= head);
                }
                let n = imgs.len();
                let mut k: usize = 0;
                while k < n
                    invariant
                        k <= n,
                        n == imgs@.len(),
                        im == imgs@.map_values(|i: ImageData| i@),
                        head == seq![WireBlockModel::Text { text: user_message@ }],
                        blocks@.map_values(|b: WireBlock| b@) == head + image_blocks(im).take(
                            k as int),
                    decreases n - k,
                {
                    let ghost bv0 = blocks@.map_values(|b: WireBlock| b@);
                    let img = &imgs[k];
                    blocks.push(WireBlock::ImageBase64 {
                        media_type: img.media_type.clone(),
                        data: img.data.clone(),
                    });
                    proof {
                        let bv = blocks@.map_values(|b: WireBlock| b@);
                        assert(bv.drop_last() =~= bv0);
                        assert(bv[bv.len() - 1] == blocks@[blocks@.len() - 1]@);
                        assert(im[k as int] == imgs@[k as int]@);
                        assert(image_blocks(im)[k as int] == image_block(im[k as int]));
                        assert(bv.last() == image_block(im[k as int]));
                        assert(image_blocks(im).take(k + 1) =~= image_blocks(im).take(
                            k as int).push(image_blocks(im)[k as int]));
                        assert(bv =~= bv0.push(image_block(im[k as int])));
                        assert((head + image_blocks(im).take(k as int)).push(image_block(
                            im[k as int])) =~= head + image_blocks(im).take(k + 1));
                        assert(bv =~= head + image_blocks(im).take(k + 1));
                    }
                    k = k + 1;
                }
                proof {
                    assert(image_blocks(im).take(n as int) =~= image_blocks(im));
                }
                AnthropicMessage {
                    role: String::from_str("user"),
                    content: WireContent::Blocks(blocks),
                }
            },
        };
        let ghost um = user_msg@;
        messages.push(user_msg);
        proof {
            let hm = history@.map_values(|m: AgentMessage| m@);
            let imodel = (match images {
                Some(is) => Some(is@.map_values(|i: ImageData| i@)),
                None => None,
            });
            assert(um == user_wire_message(user_message@, imodel));
            let mv = messages@.map_values(|m: AnthropicMessage| m@);
            assert(mv.drop_last() =~= base);
            assert(mv[mv.len() - 1] == messages@[messages@.len() - 1]@);
            assert(mv =~= built_messages(hm, user_message@, imodel, fallback_timestamp@));
        }
        messages
    }

    /// The message list of a continuation turn for a given repair timestamp:
    /// the history validated, repaired and converted, with no new user
    /// message.
    pub fn build_messages_from_history_at(
        &self,
        history: &Vec<AgentMessage>,
        fallback_timestamp: &String,
    ) -> (r: Vec<AnthropicMessage>)
        ensures
            r@.map_values(|m: AnthropicMessage| m@) == convert_history(repaired(
                history@.map_values(|m: AgentMessage| m@),
                fallback_timestamp@,
            )),
    {
        let repaired_history = repair_history(history, fallback_timestamp);
        convert_history_exec(&repaired_history)
    }

    /// The message list and system field of a continuation turn, stamped
    /// with the current instant.
    pub fn build_messages_from_history(
        &self,
        history: &Vec<AgentMessage>,
        config: &AgentConfig,
    ) -> (r: (Vec<AnthropicMessage>, Option<SystemField>))
        ensures
            exists|ts: Seq<char>|
                r.0@.map_values(|m: AnthropicMessage| m@) == convert_history(#[trigger] repaired(
                    msg_views(history@),
                    ts,
                )),
            (match (&r.1, config.system_prompt) {
                (Some(s), Some(p)) => Some(s@) == system_model(self.uses_array_system_format(),
                    Some(p@)),
                (None, None) => true,
                _ => false,
            }),
    {
        let now = now_rfc3339();
        let messages = self.build_messages_from_history_at(history, &now);
        let system = match &config.system_prompt {
            Some(p) => Some(self.build_system_field(p.as_str())),
            None => None,
        };
        proof {
            assert(messages@.map_values(|m: AnthropicMessage| m@) == convert_history(repaired(
                msg_views(history@), now@)));
        }
        (messages, system)
    }

    /// The configured token budget, 4096 when none is set.
    pub fn effective_max_tokens(config: &AgentConfig) -> (r: u32)
        ensures
            r == (match config.max_tokens {
                Some(n) => n,
                None => 4096u32,
            }),
    {
        match config.max_tokens {
            Some(n) => n,
            None => 4096,
        }
    }


    /// Assembles the whole request body of a fresh turn: the converted
    /// messages, the streaming flag, the token budget with its default, the
    /// system field and the converted tools.
    pub fn build_request(
        &self,
        history: &Vec<AgentMessage>,
        user_message: &str,
        images: Option<&[ImageData]>,
        model: &str,
        config: &AgentConfig,
        tools: Option<&Vec<Tool>>,
    ) -> (r: AnthropicMessagesRequest)
        ensures
            r.model@ == model@,
            r.stream,
            r.max_tokens == (match config.max_tokens {
                Some(n) => n,
                None => 4096u32,
            }),
            exists|ts: Seq<char>|
                r.messages@.map_values(|m: AnthropicMessage| m@) == #[trigger] built_messages(
                    msg_views(history@),
                    user_message@,
                    images_model(images),
                    ts,
                ),
            (match (&r.system, config.system_prompt) {
                (Some(s), Some(p)) => Some(s@) == system_model(self.uses_array_system_format(),
                    Some(p@)),
                (None, None) => true,
                _ => false,
            }),
            (match (tools, &r.tools) {
                (Some(ts), Some(ws)) => ws@.map_values(|w: AnthropicTool| w@)
                    == converted_tools(ts@.map_values(|t: Tool| t@)),
                (None, None) => true,
                _ => false,
            }),
    {
        let (messages, system) = self.build_messages(history, user_message, images, config);
        AnthropicMessagesRequest {
            model: String::from_str(model),
            messages,
            max_tokens: Self::effective_max_tokens(config),
            stream: true,
            system,
            tools: Self::convert_tools(tools),
        }
    }

    /// Assembles the whole request body of a continuation turn: the
    /// repaired history converted, with no new user message.
    pub fn build_continue_request(
        &self,
        history: &Vec<AgentMessage>,
        model: &str,
        config: &AgentConfig,
        tools: Option<&Vec<Tool>>,
    ) -> (r: AnthropicMessagesRequest)
        ensures
            r.model@ == model@,
            r.stream,
            r.max_tokens == (match config.max_tokens {
                Some(n) => n,
                None => 4096u32,
            }),
            exists|ts: Seq<char>|
                r.messages@.map_values(|m: AnthropicMessage| m@) == convert_history(
                    #[trigger] repaired(msg_views(history@), ts),
                ),
            (match (&r.system, config.system_prompt) {
                (Some(s), Some(p)) => Some(s@) == system_model(self.uses_array_system_format(),
                    Some(p@)),
                (None, None) => true,
                _ => false,
            }),
            (match (tools, &r.tools) {
                (Some(ts), Some(ws)) => ws@.map_values(|w: AnthropicTool| w@)
                    == converted_tools(ts@.map_values(|t: Tool| t@)),
                (None, None) => true,
                _ => false,
            }),
    {
        let (messages, system) = self.build_messages_from_history(history, config);
        AnthropicMessagesRequest {
            model: String::from_str(model),
            messages,
            max_tokens: Self::effective_max_tokens(config),
            stream: true,
            system,
            tools: Self::convert_tools(tools),
        }
    }

    /// The request path of this protocol family.
    pub fn endpoint(&self) -> (r: &'static str)
        ensures
            r@ == "/v1/messages"@,
    {
        "/v1/messages"
    }
}

} // verus!
