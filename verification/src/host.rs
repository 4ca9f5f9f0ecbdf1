//! The functions a script may call: fetching, JSON decoding, and the helpers
//! that read the two-outcome values the fetch functions hand back.
//!
//! Nothing here touches the network. The embedding program performs a fetch
//! and reports what happened as a `FetchOutcome`; these functions decide what
//! the script gets to see.
//!
//! A failed operation is told from a successful one by how its text opens:
//! `Err(` or `Error:` marks a failure, `Ok(` a success that wraps its value.

use crate::json::{json_parse, parse_document, JsonNumber, JsonValue};
use crate::text::{
    decimal_digits, join2, join3, starts_with, strip_prefix, strip_suffix, trim, trimmed,
    unsigned_text, without_prefix, without_suffix,
};
use crate::value::{DynamicValue, Kind, Observation, ScriptKind, ScriptValue};
use vstd::prelude::*;
use vstd::string::StringSliceAdditionalSpecFns;
use vstd::utf8::{
    decode_utf8, encode_utf8, encode_utf8_decode_utf8, encode_utf8_valid_utf8, is_char_boundary,
};

verus! {

/// What became of one GET request.
#[derive(Debug, PartialEq)]
pub enum FetchOutcome {
    /// No response came: the request could not be sent or was not answered.
    /// The text says why.
    RequestFailed(String),
    /// A response came.
    Answered {
        /// The status code of the response.
        status: u16,
        /// The status as it is printed: the code and its reason phrase.
        status_text: String,
        /// The body of the response, or why it could not be read.
        body: Result<String, String>,
    },
}

/// Whether a status code reports success: the codes from 200 to 299.
pub open spec fn is_success(status: u16) -> bool {
    200 <= status <= 299
}

/// The body of a fetch, or the sentence that says what went wrong: no
/// response, a status that reports no success, or a body that could not be
/// read.
pub open spec fn fetched(outcome: FetchOutcome) -> Result<Seq<char>, Seq<char>> {
    match outcome {
        FetchOutcome::RequestFailed(e) => Err("Request error: "@ + e@),
        FetchOutcome::Answered { status, status_text, body } => if !is_success(status) {
            Err("HTTP error: status "@ + status_text@)
        } else {
            match body {
                Ok(text) => Ok(text@),
                Err(e) => Err("Read error: "@ + e@),
            }
        },
    }
}

/// What a script sees of a fetch as one text: the body, or the error marker
/// and the sentence that says what went wrong.
pub open spec fn fetched_text(outcome: FetchOutcome) -> Seq<char> {
    match fetched(outcome) {
        Ok(text) => text,
        Err(message) => "Error: "@ + message,
    }
}

/// Whether a text reports a failure.
pub open spec fn is_failure(text: Seq<char>) -> bool {
    "Err("@.is_prefix_of(text) || "Error:"@.is_prefix_of(text)
}

/// `text` without `closing` at its end, once, where it stands there.
pub open spec fn closed_off(text: Seq<char>, closing: Seq<char>) -> Seq<char> {
    match without_suffix(text, closing) {
        Some(inside) => inside,
        None => text,
    }
}

/// What one wrapper holds: the text between `opening` and the closing
/// bracket at the end. Brackets inside stay. A text that does not open with
/// `opening` is its own inside.
pub open spec fn wrapped(text: Seq<char>, opening: Seq<char>) -> Seq<char> {
    match without_prefix(text, opening) {
        Some(inside) => closed_off(inside, ")"@),
        None => text,
    }
}

/// `text` without one layer of quotes: one quote at the start and one at
/// the end, each where it stands there.
pub open spec fn unquoted(text: Seq<char>) -> Seq<char> {
    match without_prefix(text, "\""@) {
        Some(inside) => closed_off(inside, "\""@),
        None => closed_off(text, "\""@),
    }
}

/// What a failure says: the inside of `Err(..)`, or the whole text where it
/// opens with `Error:`.
pub open spec fn failure_message(text: Seq<char>) -> Seq<char> {
    if "Err("@.is_prefix_of(text) {
        wrapped(text, "Err("@)
    } else {
        text
    }
}

/// The text inside a two-outcome value: for a failure the error marker and
/// its message, for `Ok(..)` the inside without one layer of quotes, for a plain text
/// the text itself, for anything else what the interpreter prints.
pub open spec fn unwrapped_text(value: Observation) -> Seq<char> {
    if is_failure(value.text) {
        "Error: "@ + failure_message(value.text)
    } else if "Ok("@.is_prefix_of(value.text) {
        unquoted(wrapped(value.text, "Ok("@))
    } else {
        plain_text(value)
    }
}

/// A two-outcome text opened up: for `Err(..)` the error marker and the
/// message, for `Ok(..)` the inside as it stands, nothing for any other text.
pub open spec fn opened(text: Seq<char>) -> Option<Seq<char>> {
    if "Err("@.is_prefix_of(text) {
        Some("Error: "@ + wrapped(text, "Err("@))
    } else if "Ok("@.is_prefix_of(text) {
        Some(wrapped(text, "Ok("@))
    } else {
        None
    }
}

/// The message of an `Err(..)`, nothing for any other text.
pub open spec fn error_of(text: Seq<char>) -> Option<Seq<char>> {
    if "Err("@.is_prefix_of(text) {
        Some(wrapped(text, "Err("@))
    } else {
        None
    }
}

/// The text a value holds where it is a text, what the interpreter prints
/// for it where it is not.
pub open spec fn plain_text(value: Observation) -> Seq<char> {
    match value.kind {
        Kind::Text(s) => s,
        _ => value.text,
    }
}

/// The largest index at or below `k` at which a character starts in `bytes`.
pub open spec fn boundary_below(bytes: Seq<u8>, k: int) -> int
    decreases k,
{
    if k <= 0 || is_char_boundary(bytes, k) {
        k
    } else {
        boundary_below(bytes, k - 1)
    }
}

/// A text cut down for quoting: whole where its encoding has at most 200
/// bytes, else the characters that fit into 200 bytes, then three dots.
pub open spec fn preview(text: Seq<char>) -> Seq<char> {
    let bytes = encode_utf8(text);
    if bytes.len() > 200 {
        decode_utf8(bytes.subrange(0, boundary_below(bytes, 200))) + "..."@
    } else {
        text
    }
}

/// Whether `out` is the text `text`.
pub open spec fn is_text(out: DynamicValue, text: Seq<char>) -> bool {
    out matches DynamicValue::Text(t) && t@ == text
}

/// Whether `out` is what a JSON number decodes to: an integer where it is
/// one that the interpreter's integers hold; the decimal text of an integer
/// that they cannot hold, so that none of it is lost; else a number in
/// double precision; else the number as the document writes it.
pub open spec fn number_decodes(number: JsonNumber, out: DynamicValue) -> bool {
    match number.int {
        Some(i) => out == DynamicValue::Int(i),
        None => match number.unsigned {
            Some(n) => is_text(out, decimal_digits(n as nat)),
            None => match number.float {
                Some(bits) => out == DynamicValue::Float(bits),
                None => is_text(out, number.text@),
            },
        },
    }
}

/// Whether `out` is what a JSON document decodes to: null to unit, a truth
/// value, a number and a text to themselves, an array to the sequence of its
/// decoded elements, an object to the table of its decoded members.
pub open spec fn decodes(json: JsonValue, out: DynamicValue) -> bool
    decreases json,
{
    match json {
        JsonValue::Null => out is Unit,
        JsonValue::Bool(b) => out == DynamicValue::Bool(b),
        JsonValue::Number(n) => number_decodes(n, out),
        JsonValue::String(s) => is_text(out, s@),
        JsonValue::Array(items) => out matches DynamicValue::Array(outs) && outs@.len()
            == items@.len() && forall|i: int|
            0 <= i < items@.len() ==> decodes(items@[i], #[trigger] outs@[i]),
        JsonValue::Object(members) => out matches DynamicValue::Object(outs) && outs@.len()
            == members@.len() && forall|i: int|
            0 <= i < members@.len() ==> (#[trigger] outs@[i]).0@ == members@[i].0@ && decodes(
                members@[i].1,
                outs@[i].1,
            ),
    }
}

/// Whether `out` is what a text decodes to: the decoded document, or the
/// error marker with the parser's complaint.
pub open spec fn parse_yields(text: Seq<char>, out: DynamicValue) -> bool {
    match json_parse(text) {
        Ok(document) => decodes(document, out),
        Err(complaint) => is_text(out, "Error: "@ + complaint),
    }
}

/// What a script sees of a fetch checked to be JSON: the body as it came,
/// or a sentence that opens with the error marker.
pub open spec fn validated_json(url: Seq<char>, outcome: FetchOutcome) -> Seq<char> {
    match fetched(outcome) {
        Err(e) => "Error: "@ + e,
        Ok(text) => if trimmed(text).len() == 0 {
            "Error: Empty response from "@ + url
        } else if !"{"@.is_prefix_of(trimmed(text)) && !"["@.is_prefix_of(trimmed(text)) {
            "Error: Non-JSON response from "@ + url + ": "@ + preview(trimmed(text))
        } else {
            match json_parse(trimmed(text)) {
                Ok(_) => text,
                Err(complaint) => "Error: Invalid JSON from "@ + url + ": "@ + complaint,
            }
        },
    }
}

/// Whether `out` is what a script sees of a fetch decoded as JSON.
pub open spec fn fetch_json_yields(url: Seq<char>, outcome: FetchOutcome, out: DynamicValue) -> bool {
    match fetched(outcome) {
        Err(e) => is_text(out, "Error: "@ + e),
        Ok(text) => if trimmed(text).len() == 0 {
            is_text(out, "Error: Empty response from "@ + url)
        } else if !"{"@.is_prefix_of(trimmed(text)) && !"["@.is_prefix_of(trimmed(text)) {
            is_text(out, "Error: Non-JSON response: "@ + preview(trimmed(text)))
        } else {
            match json_parse(trimmed(text)) {
                Ok(document) => decodes(document, out),
                Err(complaint) => is_text(out, "Error: Invalid JSON: "@ + complaint),
            }
        },
    }
}

/// Whether `out` is what the JSON text inside a two-outcome value decodes
/// to. A failure is handed on as the error marker and its message,
/// undecoded.
pub open spec fn unwrapped_parse_yields(value: Observation, out: DynamicValue) -> bool {
    if is_failure(value.text) {
        is_text(out, unwrapped_text(value))
    } else {
        parse_yields(unwrapped_text(value), out)
    }
}

/// The characters of each of some texts.
pub open spec fn texts(parts: Seq<String>) -> Seq<Seq<char>> {
    parts.map_values(|part: String| part@)
}

/// The texts `parts` with `separator` between each two.
pub open spec fn joined(parts: Seq<Seq<char>>, separator: Seq<char>) -> Seq<char>
    decreases parts.len(),
{
    if parts.len() == 0 {
        Seq::empty()
    } else if parts.len() == 1 {
        parts[0]
    } else {
        joined(parts.drop_last(), separator) + separator + parts.last()
    }
}

/// The outcome of a fetch as a two-outcome value: the body, or the sentence
/// that says what went wrong.
pub fn http_get_string(outcome: FetchOutcome) -> (r: Result<String, String>)
    ensures
        match fetched(outcome) {
            Ok(text) => r matches Ok(t) && t@ == text,
            Err(message) => r matches Err(e) && e@ == message,
        },
{
    match outcome {
        FetchOutcome::RequestFailed(e) => Err(join2("Request error: ", e.as_str())),
        FetchOutcome::Answered { status, status_text, body } => {
            if status < 200 || status > 299 {
                Err(join2("HTTP error: status ", status_text.as_str()))
            } else {
                match body {
                    Ok(text) => Ok(text),
                    Err(e) => Err(join2("Read error: ", e.as_str())),
                }
            }
        },
    }
}

/// The outcome of a fetch as one text: the body, or the error marker and
/// the sentence that says what went wrong.
pub fn http_get(outcome: FetchOutcome) -> (r: String)
    ensures
        r@ == fetched_text(outcome),
{
    match http_get_string(outcome) {
        Ok(text) => text,
        Err(e) => join2("Error: ", e.as_str()),
    }
}

/// A text cut down for quoting in an error message.
pub fn preview_of(text: &str) -> (r: String)
    ensures
        r@ == preview(text@),
{
    broadcast use encode_utf8_valid_utf8, encode_utf8_decode_utf8;

    if text.as_bytes().len() > 200 {
        let mut cut: usize = 200;
        while cut > 0 && !text.is_char_boundary(cut)
            invariant
                cut <= 200,
                boundary_below(text.spec_bytes(), 200) == boundary_below(
                    text.spec_bytes(),
                    cut as int,
                ),
            decreases cut,
        {
            cut = cut - 1;
        }
        assert(boundary_below(text.spec_bytes(), cut as int) == cut);
        let (head, _) = text.split_at(cut);
        assert(head.spec_bytes() == text.spec_bytes().subrange(0, cut as int));
        assert(head@ == decode_utf8(encode_utf8(head@)));
        join2(head, "...")
    } else {
        text.to_owned()
    }
}

/// The outcome of a fetch that must be JSON: the body as it came where its
/// trimmed form parses, else a sentence that opens with the error marker and
/// says what is wrong with it.
pub fn http_get_json(url: &str, outcome: FetchOutcome) -> (r: String)
    ensures
        r@ == validated_json(url@, outcome),
{
    match http_get_string(outcome) {
        Ok(text) => {
            let t = trim(text.as_str());
            if t.is_empty() {
                join2("Error: Empty response from ", url)
            } else if !starts_with(t, "{") && !starts_with(t, "[") {
                let shown = preview_of(t);
                let head = join3("Error: Non-JSON response from ", url, ": ");
                join2(head.as_str(), shown.as_str())
            } else {
                match parse_document(t) {
                    Ok(_) => text,
                    Err(e) => {
                        let head = join3("Error: Invalid JSON from ", url, ": ");
                        join2(head.as_str(), e.as_str())
                    },
                }
            }
        },
        Err(e) => join2("Error: ", e.as_str()),
    }
}

/// Decodes a JSON number.
fn number_to_dynamic(number: &JsonNumber) -> (r: DynamicValue)
    ensures
        number_decodes(*number, r),
{
    match number.int {
        Some(i) => DynamicValue::Int(i),
        None => match number.unsigned {
            Some(n) => DynamicValue::Text(unsigned_text(n)),
            None => match number.float {
                Some(bits) => DynamicValue::Float(bits),
                None => DynamicValue::Text(number.text.clone()),
            },
        },
    }
}

/// Decodes a JSON document into the value a script works with.
pub fn json_value_to_dynamic(value: &JsonValue) -> (r: DynamicValue)
    ensures
        decodes(*value, r),
    decreases value,
{
    match value {
        JsonValue::Null => DynamicValue::Unit,
        JsonValue::Bool(b) => DynamicValue::Bool(*b),
        JsonValue::Number(n) => number_to_dynamic(n),
        JsonValue::String(s) => DynamicValue::Text(s.clone()),
        JsonValue::Array(items) => {
            let mut outs: Vec<DynamicValue> = Vec::new();
            let mut i: usize = 0;
            while i < items.len()
                invariant
                    i <= items.len(),
                    outs@.len() == i,
                    *value matches JsonValue::Array(v) && v == *items,
                    forall|k: int| 0 <= k < i ==> decodes(items@[k], #[trigger] outs@[k]),
                decreases items.len() - i,
            {
                assert(decreases_to!(*items => items[i as int]));
                let out = json_value_to_dynamic(&items[i]);
                outs.push(out);
                i = i + 1;
            }
            DynamicValue::Array(outs)
        },
        JsonValue::Object(members) => {
            let mut outs: Vec<(String, DynamicValue)> = Vec::new();
            let mut i: usize = 0;
            while i < members.len()
                invariant
                    i <= members.len(),
                    outs@.len() == i,
                    *value matches JsonValue::Object(v) && v == *members,
                    forall|k: int|
                        0 <= k < i ==> (#[trigger] outs@[k]).0@ == members@[k].0@ && decodes(
                            members@[k].1,
                            outs@[k].1,
                        ),
                decreases members.len() - i,
            {
                assert(decreases_to!(*members => members[i as int]));
                let out = json_value_to_dynamic(&members[i].1);
                outs.push((members[i].0.clone(), out));
                i = i + 1;
            }
            DynamicValue::Object(outs)
        },
    }
}

/// Decodes a JSON text. A text that does not parse gives the error marker
/// and the parser's complaint, as a text.
pub fn parse_json(text: &str) -> (r: DynamicValue)
    ensures
        parse_yields(text@, r),
{
    match parse_document(text) {
        Ok(document) => json_value_to_dynamic(&document),
        Err(e) => DynamicValue::Text(join2("Error: ", e.as_str())),
    }
}

/// Fetches and decodes in one step: the decoded body, or a text that opens
/// with the error marker and says what went wrong.
pub fn fetch_json(url: &str, outcome: FetchOutcome) -> (r: DynamicValue)
    ensures
        fetch_json_yields(url@, outcome, r),
{
    match http_get_string(outcome) {
        Ok(text) => {
            let t = trim(text.as_str());
            if t.is_empty() {
                DynamicValue::Text(join2("Error: Empty response from ", url))
            } else if !starts_with(t, "{") && !starts_with(t, "[") {
                let shown = preview_of(t);
                DynamicValue::Text(join2("Error: Non-JSON response: ", shown.as_str()))
            } else {
                match parse_document(t) {
                    Ok(document) => json_value_to_dynamic(&document),
                    Err(e) => DynamicValue::Text(join2("Error: Invalid JSON: ", e.as_str())),
                }
            }
        },
        Err(e) => DynamicValue::Text(join2("Error: ", e.as_str())),
    }
}

/// `text` without `closing` at its end, once, where it stands there.
fn close_off<'a>(text: &'a str, closing: &str) -> (r: &'a str)
    ensures
        r@ == closed_off(text@, closing@),
{
    match strip_suffix(text, closing) {
        Some(inside) => inside,
        None => text,
    }
}

/// What one wrapper holds.
fn unwrap_between<'a>(text: &'a str, opening: &str) -> (r: &'a str)
    ensures
        r@ == wrapped(text@, opening@),
{
    match strip_prefix(text, opening) {
        Some(inside) => close_off(inside, ")"),
        None => text,
    }
}

/// `text` without one layer of quotes.
fn unquote(text: &str) -> (r: &str)
    ensures
        r@ == unquoted(text@),
{
    match strip_prefix(text, "\"") {
        Some(inside) => close_off(inside, "\""),
        None => close_off(text, "\""),
    }
}

/// Whether a value reports a failure.
pub fn is_err(value: &ScriptValue) -> (b: bool)
    ensures
        b == is_failure(value.text@),
{
    starts_with(value.text.as_str(), "Err(") || starts_with(value.text.as_str(), "Error:")
}

/// Whether a value reports no failure.
pub fn is_ok(value: &ScriptValue) -> (b: bool)
    ensures
        b == !is_failure(value.text@),
{
    !is_err(value)
}

/// The text inside a two-outcome value.
pub fn unwrap_string(value: &ScriptValue) -> (r: String)
    ensures
        r@ == unwrapped_text(value@),
{
    let text = value.text.as_str();
    if starts_with(text, "Err(") {
        join2("Error: ", unwrap_between(text, "Err("))
    } else if starts_with(text, "Error:") {
        join2("Error: ", text)
    } else if starts_with(text, "Ok(") {
        unquote(unwrap_between(text, "Ok(")).to_owned()
    } else {
        to_string(value)
    }
}

/// A two-outcome value opened up: for `Err(..)` the error marker and the
/// message, for `Ok(..)` the inside as it stands, and `None` for a value
/// that is neither, which stays as it is.
pub fn unwrap(value: &ScriptValue) -> (r: Option<String>)
    ensures
        match opened(value.text@) {
            Some(inside) => r matches Some(t) && t@ == inside,
            None => r is None,
        },
{
    let text = value.text.as_str();
    if starts_with(text, "Err(") {
        Some(join2("Error: ", unwrap_between(text, "Err(")))
    } else if starts_with(text, "Ok(") {
        Some(unwrap_between(text, "Ok(").to_owned())
    } else {
        None
    }
}

/// The message of an `Err(..)`, and `None` for any other value.
pub fn err(value: &ScriptValue) -> (r: Option<String>)
    ensures
        match error_of(value.text@) {
            Some(message) => r matches Some(t) && t@ == message,
            None => r is None,
        },
{
    let text = value.text.as_str();
    if starts_with(text, "Err(") {
        Some(unwrap_between(text, "Err(").to_owned())
    } else {
        None
    }
}

/// A value as a text: the text it holds where it is one, what the
/// interpreter prints for it where it is not.
pub fn to_string(value: &ScriptValue) -> (r: String)
    ensures
        r@ == plain_text(value@),
{
    match &value.kind {
        ScriptKind::Text(s) => s.clone(),
        _ => value.text.clone(),
    }
}

/// Decodes the JSON text inside a two-outcome value. A failure is handed on
/// as the error marker and its message, undecoded.
pub fn parse_json_dynamic(value: &ScriptValue) -> (r: DynamicValue)
    ensures
        unwrapped_parse_yields(value@, r),
{
    let inner = unwrap_string(value);
    if is_err(value) {
        DynamicValue::Text(inner)
    } else {
        parse_json(inner.as_str())
    }
}

/// The texts of `parts` with `separator` between each two.
pub fn join(parts: &Vec<String>, separator: &str) -> (r: String)
    ensures
        r@ == joined(texts(parts@), separator@),
{
    let mut out = String::new();
    let mut i: usize = 0;
    while i < parts.len()
        invariant
            i <= parts.len(),
            out@ == joined(texts(parts@).take(i as int), separator@),
        decreases parts.len() - i,
    {
        proof {
            let before = texts(parts@).take(i as int);
            let after = texts(parts@).take(i + 1);
            assert(after.drop_last() =~= before);
            assert(after.last() == parts@[i as int]@);
            if i == 0 {
                assert(out@ =~= Seq::<char>::empty());
                assert(Seq::<char>::empty() + parts@[0]@ =~= parts@[0]@);
            }
        }
        if i > 0 {
            out.append(separator);
        }
        out.append(parts[i].as_str());
        i = i + 1;
    }
    assert(texts(parts@).take(i as int) =~= texts(parts@));
    out
}

} // verus!
