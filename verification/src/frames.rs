//! OCPP-J message frames: JSON arrays whose first element tells a call (2), a
//! call result (3) and a call error (4) apart.

use vstd::prelude::*;
use vstd::string::*;
use crate::json::{JsonDocument, JsonDocumentModel, JsonItem, JsonItemModel, json_parse_outcome, parse_json};

verus! {

/// What an incoming text frame turned out to be.
#[derive(Clone, Debug, PartialEq)]
pub enum IncomingFrame {
    Call { message_id: String, action: String, payload: JsonItem },
    CallResult { message_id: String, payload: JsonItem },
    CallError { message_id: String, code: String, description: String, details: JsonItem },
    /// A frame of a known type whose elements do not have the shape of that type.
    Malformed(u64),
    /// A message type other than 2, 3 and 4.
    UnknownType(u64),
    /// The first element is a number but no non-negative integer.
    NotInteger,
    FirstNotNumber,
    EmptyArray,
    NotArray,
}

/// The mathematical value of an [`IncomingFrame`].
pub enum IncomingFrameModel {
    Call { message_id: Seq<char>, action: Seq<char>, payload: JsonItemModel },
    CallResult { message_id: Seq<char>, payload: JsonItemModel },
    CallError { message_id: Seq<char>, code: Seq<char>, description: Seq<char>, details: JsonItemModel },
    Malformed(u64),
    UnknownType(u64),
    NotInteger,
    FirstNotNumber,
    EmptyArray,
    NotArray,
}

impl View for IncomingFrame {
    type V = IncomingFrameModel;

    open spec fn view(&self) -> IncomingFrameModel {
        match self {
            IncomingFrame::Call { message_id, action, payload } => IncomingFrameModel::Call {
                message_id: message_id@,
                action: action@,
                payload: payload@,
            },
            IncomingFrame::CallResult { message_id, payload } => IncomingFrameModel::CallResult {
                message_id: message_id@,
                payload: payload@,
            },
            IncomingFrame::CallError { message_id, code, description, details } => IncomingFrameModel::CallError {
                message_id: message_id@,
                code: code@,
                description: description@,
                details: details@,
            },
            IncomingFrame::Malformed(t) => IncomingFrameModel::Malformed(*t),
            IncomingFrame::UnknownType(t) => IncomingFrameModel::UnknownType(*t),
            IncomingFrame::NotInteger => IncomingFrameModel::NotInteger,
            IncomingFrame::FirstNotNumber => IncomingFrameModel::FirstNotNumber,
            IncomingFrame::EmptyArray => IncomingFrameModel::EmptyArray,
            IncomingFrame::NotArray => IncomingFrameModel::NotArray,
        }
    }
}

/// Whether an element is a JSON string.
pub open spec fn is_text(i: JsonItemModel) -> bool {
    i is Text
}

/// The frame that the elements of an array make, by its message type `t`.
pub open spec fn typed_frame(items: Seq<JsonItemModel>, t: u64) -> IncomingFrameModel {
    if t == 2 {
        if items.len() == 4 && is_text(items[1]) && is_text(items[2]) {
            IncomingFrameModel::Call { message_id: items[1]->Text_0, action: items[2]->Text_0, payload: items[3] }
        } else {
            IncomingFrameModel::Malformed(t)
        }
    } else if t == 3 {
        if items.len() == 3 && is_text(items[1]) {
            IncomingFrameModel::CallResult { message_id: items[1]->Text_0, payload: items[2] }
        } else {
            IncomingFrameModel::Malformed(t)
        }
    } else if t == 4 {
        if items.len() == 5 && is_text(items[1]) && is_text(items[2]) && is_text(items[3]) {
            IncomingFrameModel::CallError {
                message_id: items[1]->Text_0,
                code: items[2]->Text_0,
                description: items[3]->Text_0,
                details: items[4],
            }
        } else {
            IncomingFrameModel::Malformed(t)
        }
    } else {
        IncomingFrameModel::UnknownType(t)
    }
}

/// What a parsed frame is: an array whose first element is its message type.
pub open spec fn frame_of(doc: JsonDocumentModel) -> IncomingFrameModel {
    match doc {
        JsonDocumentModel::Array(items) => if items.len() == 0 {
            IncomingFrameModel::EmptyArray
        } else {
            match items[0] {
                JsonItemModel::Number { unsigned: Some(t), .. } => typed_frame(items, t),
                JsonItemModel::Number { unsigned: None, .. } => IncomingFrameModel::NotInteger,
                _ => IncomingFrameModel::FirstNotNumber,
            }
        },
        _ => IncomingFrameModel::NotArray,
    }
}

/// The text of an element known to be a JSON string.
fn text_of(i: &JsonItem) -> (r: String)
    requires
        i@ is Text,
    ensures
        r@ == i@->Text_0,
{
    match i {
        JsonItem::Text(s) => s.clone(),
        _ => String::new(),
    }
}

/// Whether an element is a JSON string.
fn item_is_text(i: &JsonItem) -> (r: bool)
    ensures
        r == is_text(i@),
{
    match i {
        JsonItem::Text(_) => true,
        _ => false,
    }
}

/// A copy of an element.
fn copy_item(i: &JsonItem) -> (r: JsonItem)
    ensures
        r@ == i@,
{
    match i {
        JsonItem::Null => JsonItem::Null,
        JsonItem::Bool(b) => JsonItem::Bool(*b),
        JsonItem::Number { unsigned, text } => JsonItem::Number { unsigned: *unsigned, text: text.clone() },
        JsonItem::Text(s) => JsonItem::Text(s.clone()),
        JsonItem::Nested(s) => JsonItem::Nested(s.clone()),
    }
}

/// Tells the kind of a parsed frame and takes its parts.
pub fn classify_frame(doc: &JsonDocument) -> (r: IncomingFrame)
    ensures
        r@ == frame_of(doc@),
{
    match doc {
        JsonDocument::Array(items) => {
            let ghost m = items@.map_values(|i: JsonItem| crate::json::item_model(i));
            assert(doc@ == JsonDocumentModel::Array(m));
            if items.len() == 0 {
                return IncomingFrame::EmptyArray;
            }
            assert forall|k: int| 0 <= k < items.len() implies m[k] == #[trigger] items@[k]@ by {}
            let t = match &items[0] {
                JsonItem::Number { unsigned: Some(t), .. } => *t,
                JsonItem::Number { unsigned: None, .. } => return IncomingFrame::NotInteger,
                _ => return IncomingFrame::FirstNotNumber,
            };
            let n = items.len();
            if t == 2 {
                if n == 4 && item_is_text(&items[1]) && item_is_text(&items[2]) {
                    IncomingFrame::Call {
                        message_id: text_of(&items[1]),
                        action: text_of(&items[2]),
                        payload: copy_item(&items[3]),
                    }
                } else {
                    IncomingFrame::Malformed(t)
                }
            } else if t == 3 {
                if n == 3 && item_is_text(&items[1]) {
                    IncomingFrame::CallResult { message_id: text_of(&items[1]), payload: copy_item(&items[2]) }
                } else {
                    IncomingFrame::Malformed(t)
                }
            } else if t == 4 {
                if n == 5 && item_is_text(&items[1]) && item_is_text(&items[2]) && item_is_text(&items[3]) {
                    IncomingFrame::CallError {
                        message_id: text_of(&items[1]),
                        code: text_of(&items[2]),
                        description: text_of(&items[3]),
                        details: copy_item(&items[4]),
                    }
                } else {
                    IncomingFrame::Malformed(t)
                }
            } else {
                IncomingFrame::UnknownType(t)
            }
        },
        _ => IncomingFrame::NotArray,
    }
}

/// The model of a read frame: the frame, or the message of the JSON error.
pub open spec fn frame_result_model(r: Result<IncomingFrame, String>) -> Result<IncomingFrameModel, Seq<char>> {
    match r {
        Ok(f) => Ok(f@),
        Err(e) => Err(e@),
    }
}

/// What a text frame is, or the message of the JSON error that ends reading.
pub open spec fn text_frame(outcome: Result<JsonDocumentModel, Seq<char>>) -> Result<IncomingFrameModel, Seq<char>> {
    match outcome {
        Ok(doc) => Ok(frame_of(doc)),
        Err(e) => Err(e),
    }
}

/// Reads an incoming text frame.
pub fn read_frame(text: &str) -> (r: Result<IncomingFrame, String>)
    ensures
        frame_result_model(r) == text_frame(json_parse_outcome(text@)),
{
    match parse_json(text) {
        Ok(doc) => Ok(classify_frame(&doc)),
        Err(e) => Err(e),
    }
}

/// The lowercase hexadecimal digit for `n`, from 0 to 15.
pub open spec fn hex_digit(n: int) -> char {
    if n < 10 {
        (48 + n) as char
    } else {
        (87 + n) as char
    }
}

/// How `serde_json` writes one character inside a string literal: a quote and a
/// backslash behind a backslash, the control characters that have a short escape
/// by it, the other control characters as `\u00` and two hexadecimal digits, and
/// every other character as it is.
pub open spec fn json_escaped_char(c: char) -> Seq<char> {
    if c == '"' {
        seq!['\\', '"']
    } else if c == '\\' {
        seq!['\\', '\\']
    } else if c == '\u{8}' {
        seq!['\\', 'b']
    } else if c == '\t' {
        seq!['\\', 't']
    } else if c == '\n' {
        seq!['\\', 'n']
    } else if c == '\u{c}' {
        seq!['\\', 'f']
    } else if c == '\r' {
        seq!['\\', 'r']
    } else if (c as int) < 32 {
        seq!['\\', 'u', '0', '0', hex_digit((c as int) / 16), hex_digit((c as int) % 16)]
    } else {
        seq![c]
    }
}

/// The characters of `s`, each written as `serde_json` writes it in a string.
pub open spec fn json_escaped(s: Seq<char>) -> Seq<char>
    decreases s.len(),
{
    if s.len() == 0 {
        Seq::empty()
    } else {
        json_escaped(s.drop_last()) + json_escaped_char(s.last())
    }
}

/// What `serde_json` writes for a string: the JSON string literal, its escaped
/// characters between quotes.
pub open spec fn json_string_literal(s: Seq<char>) -> Seq<char> {
    seq!['"'] + json_escaped(s) + seq!['"']
}

/// Writes `s` as a JSON string literal with `serde_json::to_string`, which
/// cannot fail on a `str`: a quote, the characters of `s` with the escapes of its
/// `format_escaped_str` (the `ESCAPE` table and `write_char_escape` of its
/// compact formatter), and a quote.
#[verifier::external_body]
fn quote_json(s: &str) -> (r: String)
    ensures
        r@ == json_string_literal(s@),
{
    serde_json::to_string(s).unwrap_or_default()
}

/// The text of a call frame `[2,"id","action",payload]`.
pub open spec fn call_text(message_id: Seq<char>, action: Seq<char>, payload: Seq<char>) -> Seq<char> {
    "[2,"@ + json_string_literal(message_id) + ","@ + json_string_literal(action) + ","@ + payload + "]"@
}

/// The text of a result frame `[3,"id",payload]`.
pub open spec fn result_text(message_id: Seq<char>, payload: Seq<char>) -> Seq<char> {
    "[3,"@ + json_string_literal(message_id) + ","@ + payload + "]"@
}

/// The text of an error frame `[4,"id","code","description",details]`.
pub open spec fn error_text(message_id: Seq<char>, code: Seq<char>, description: Seq<char>, details: Seq<char>) -> Seq<char> {
    "[4,"@ + json_string_literal(message_id) + ","@ + json_string_literal(code) + ","@
        + json_string_literal(description) + ","@ + details + "]"@
}

/// Writes a call frame; `payload` is the JSON text of the request.
pub fn call_frame(message_id: &str, action: &str, payload: &str) -> (r: String)
    ensures
        r@ == call_text(message_id@, action@, payload@),
{
    let mut out = String::from_str("[2,");
    out.append(quote_json(message_id).as_str());
    out.append(",");
    out.append(quote_json(action).as_str());
    out.append(",");
    out.append(payload);
    out.append("]");
    out
}

/// Writes a result frame; `payload` is the JSON text of the response.
pub fn result_frame(message_id: &str, payload: &str) -> (r: String)
    ensures
        r@ == result_text(message_id@, payload@),
{
    let mut out = String::from_str("[3,");
    out.append(quote_json(message_id).as_str());
    out.append(",");
    out.append(payload);
    out.append("]");
    out
}

/// Writes an error frame; `details` is the JSON text of the error details.
pub fn error_frame(message_id: &str, code: &str, description: &str, details: &str) -> (r: String)
    ensures
        r@ == error_text(message_id@, code@, description@, details@),
{
    let mut out = String::from_str("[4,");
    out.append(quote_json(message_id).as_str());
    out.append(",");
    out.append(quote_json(code).as_str());
    out.append(",");
    out.append(quote_json(description).as_str());
    out.append(",");
    out.append(details);
    out.append("]");
    out
}

/// Whether `c` is a lowercase hexadecimal digit.
pub open spec fn is_lower_hex(c: char) -> bool {
    ('0' <= c && c <= '9') || ('a' <= c && c <= 'f')
}

/// Whether `s` is a version 4 UUID in its hyphenated lowercase form: 36
/// characters, hyphens at positions 8, 13, 18 and 23, lowercase hexadecimal
/// digits elsewhere, the version digit `4` at position 14 and a variant digit
/// from `8` to `b` at position 19.
pub open spec fn is_uuid_v4_text(s: Seq<char>) -> bool {
    &&& s.len() == 36
    &&& forall|i: int|
        0 <= i < 36 ==> (if i == 8 || i == 13 || i == 18 || i == 23 {
            s[i] == '-'
        } else {
            is_lower_hex(#[trigger] s[i])
        })
    &&& s[14] == '4'
    &&& (s[19] == '8' || s[19] == '9' || s[19] == 'a' || s[19] == 'b')
}

/// A fresh message id from `uuid::Uuid::new_v4().to_string()`. Its digits are
/// random and not stated; its shape is: `new_v4` masks in the version 4 and the
/// RFC 4122 variant bits, and `Display` writes the hyphenated lowercase form.
#[verifier::external_body]
fn new_message_id() -> (r: String)
    ensures
        is_uuid_v4_text(r@),
{
    uuid::Uuid::new_v4().to_string()
}

/// A call ready to be sent: its message id and its frame.
pub struct OutgoingCall {
    pub message_id: String,
    pub frame: String,
}

/// Makes a call of `action` with a fresh message id, a version 4 UUID; whatever id
/// came, the frame carries it.
pub fn new_call(action: &str, payload: &str) -> (r: OutgoingCall)
    ensures
        is_uuid_v4_text(r.message_id@),
        r.frame@ == call_text(r.message_id@, action@, payload@),
{
    let message_id = new_message_id();
    let frame = call_frame(message_id.as_str(), action, payload);
    OutgoingCall { message_id, frame }
}

/// How many times a queued call is sent before it is given up.
pub const SEND_ATTEMPTS: u32 = 3;

/// What follows an attempt to send a queued call, with `attempts_left` attempts
/// counted before it: stop once the call went through or no attempt is left,
/// else send again with one attempt fewer.
pub open spec fn retry_decision(attempts_left: u32, delivered: bool) -> Option<u32> {
    if delivered || attempts_left <= 1 {
        None
    } else {
        Some((attempts_left - 1) as u32)
    }
}

/// Decides whether a queued call is sent again: `Some` with the attempts then
/// left, or `None` to stop.
pub fn retry_after(attempts_left: u32, delivered: bool) -> (r: Option<u32>)
    ensures
        r == retry_decision(attempts_left, delivered),
{
    if delivered || attempts_left <= 1 {
        None
    } else {
        Some(attempts_left - 1)
    }
}

/// The attempts left after `failures` failed attempts from a budget of `budget`,
/// or `None` once sending has stopped.
pub open spec fn left_after_failures(budget: u32, failures: nat) -> Option<u32>
    decreases failures,
{
    if failures == 0 {
        Some(budget)
    } else {
        match left_after_failures(budget, (failures - 1) as nat) {
            Some(left) => retry_decision(left, false),
            None => None,
        }
    }
}

/// A call is never sent more often than its budget allows: from a budget of at
/// least one, sending stops after `budget` failed attempts.
pub proof fn lemma_attempts_bounded(budget: u32, failures: nat)
    requires
        budget >= 1,
    ensures
        failures < budget ==> left_after_failures(budget, failures) == Some((budget - failures) as u32),
        failures >= budget ==> left_after_failures(budget, failures) is None,
    decreases failures,
{
    if failures > 0 {
        lemma_attempts_bounded(budget, (failures - 1) as nat);
    }
}

} // verus!
