//! The coercion rules: from what a script handed back to the oracle value of
//! the declared shape, or to the reason why there is none.

use crate::binary64::{at_least_zero, display_text, is_at_least_zero, to_text, to_u64, truncated};
use crate::text::{
    decimal_text, is_negative_numeral, lowercase, negative_numeral, parse_u64, parsed_u64,
    same_text, signed_text, starts_with, to_lowercase, trim, trimmed,
};
use crate::types::{EnclaveError, Failure, OracleValue, ResultValue, ReturnType};
use crate::value::{ArrayItem, ScriptKind, ScriptValue};
use vstd::prelude::*;
use vstd::utf8::encode_utf8;

verus! {

/// The bytes that a sequence of elements stands for: one byte for each
/// integer, which must lie in 0..=255, and its UTF-8 encoding for each text.
/// The first element that is out of range or of another kind decides the
/// failure.
pub open spec fn items_bytes(items: Seq<ArrayItem>) -> Result<Seq<u8>, Failure>
    decreases items.len(),
{
    if items.len() == 0 {
        Ok(Seq::empty())
    } else {
        match items.first() {
            ArrayItem::Int(n) => if 0 <= n <= 255 {
                match items_bytes(items.drop_first()) {
                    Ok(rest) => Ok(seq![n as u8] + rest),
                    Err(e) => Err(e),
                }
            } else {
                Err(Failure::ByteOutOfRange(n))
            },
            ArrayItem::Text(s) => match items_bytes(items.drop_first()) {
                Ok(rest) => Ok(encode_utf8(s@) + rest),
                Err(e) => Err(e),
            },
            ArrayItem::Other => Err(Failure::UnsupportedElementType),
        }
    }
}

/// The number that a value stands for. An integer or a number with a
/// fractional part stands for itself, rounded toward zero, unless it is
/// below zero. Any other value is read by its text: a text that opens with
/// the error marker is the script's own report, any other must write an
/// unsigned decimal number.
pub open spec fn coerced_number(value: ScriptValue) -> Result<OracleValue, Failure> {
    match value.kind {
        ScriptKind::Int(n) => if n >= 0 {
            Ok(OracleValue::Number(n as u64))
        } else {
            Err(Failure::NegativeNumber(decimal_text(n as int)))
        },
        ScriptKind::Float(bits) => if at_least_zero(bits) {
            Ok(OracleValue::Number(truncated(bits)))
        } else {
            Err(Failure::NegativeNumber(display_text(bits)))
        },
        _ => number_of_text(value.text@),
    }
}

/// The number that a text stands for, once the white space around it is set
/// aside: a text that opens with the error marker is the script's own
/// report; a minus sign before digits writes a number below zero, which is
/// refused as negative; any other text must write an unsigned decimal
/// number.
pub open spec fn number_of_text(text: Seq<char>) -> Result<OracleValue, Failure> {
    let t = trimmed(text);
    if "Error:"@.is_prefix_of(t) {
        Err(Failure::ScriptReportedError(t))
    } else if negative_numeral(t) {
        Err(Failure::NegativeNumber(t))
    } else {
        match parsed_u64(t) {
            Some(n) => Ok(OracleValue::Number(n)),
            None => Err(Failure::NotANumber(t)),
        }
    }
}

/// The truth value that a text in lower case spells: `true` and `1` spell
/// truth, `false` and `0` falsehood, and nothing else spells either.
pub open spec fn boolean_spelled(lowered: Seq<char>) -> Result<OracleValue, Failure> {
    if lowered == "true"@ || lowered == "1"@ {
        Ok(OracleValue::Flag(true))
    } else if lowered == "false"@ || lowered == "0"@ {
        Ok(OracleValue::Flag(false))
    } else {
        Err(Failure::NotABoolean)
    }
}

/// The truth value that a text spells, in any mix of upper and lower case
/// and with any white space around it.
pub open spec fn boolean_of_text(text: Seq<char>) -> Result<OracleValue, Failure> {
    boolean_spelled(lowercase(trimmed(text)))
}

/// The truth value that a value stands for: itself, or what its trimmed
/// text spells in any mix of upper and lower case.
pub open spec fn coerced_boolean(value: ScriptValue) -> Result<OracleValue, Failure> {
    match value.kind {
        ScriptKind::Bool(b) => Ok(OracleValue::Flag(b)),
        _ => boolean_of_text(value.text@),
    }
}

/// The bytes that a value stands for: those of its elements where it is a
/// sequence, the UTF-8 encoding of its text where it is not.
pub open spec fn coerced_vector(value: ScriptValue) -> Result<OracleValue, Failure> {
    match value.kind {
        ScriptKind::Array(items) => match items_bytes(items@) {
            Ok(bytes) => Ok(OracleValue::Bytes(bytes)),
            Err(e) => Err(e),
        },
        _ => Ok(OracleValue::Bytes(encode_utf8(value.text@))),
    }
}

/// The oracle value of the declared shape that a script's value stands for.
pub open spec fn coerced(value: ScriptValue, expected_type: ReturnType) -> Result<
    OracleValue,
    Failure,
> {
    match expected_type {
        ReturnType::STRING => Ok(OracleValue::Text(trimmed(value.text@))),
        ReturnType::NUMBER => coerced_number(value),
        ReturnType::BOOLEAN => coerced_boolean(value),
        ReturnType::VECTOR => coerced_vector(value),
    }
}

/// Whether `outcome` is what `expected` asks for: the same value, or the
/// same failure.
pub open spec fn agrees(
    outcome: Result<Option<ResultValue>, EnclaveError>,
    expected: Result<OracleValue, Failure>,
) -> bool {
    match expected {
        Ok(v) => outcome matches Ok(Some(x)) && x@ == v,
        Err(e) => outcome matches Err(x) && x@ == e,
    }
}

/// Turns the elements of a sequence into bytes.
fn convert_items(items: &Vec<ArrayItem>) -> (r: Result<Vec<u8>, EnclaveError>)
    ensures
        match items_bytes(items@) {
            Ok(bytes) => r matches Ok(v) && v@ == bytes,
            Err(e) => r matches Err(x) && x@ == e,
        },
{
    let mut bytes: Vec<u8> = Vec::new();
    let mut i: usize = 0;
    proof {
        assert(items@.skip(0) =~= items@);
        if let Ok(rest) = items_bytes(items@) {
            assert(bytes@ + rest =~= rest);
        }
    }
    while i < items.len()
        invariant
            i <= items.len(),
            items_bytes(items@) == match items_bytes(items@.skip(i as int)) {
                Ok(rest) => Ok::<Seq<u8>, Failure>(bytes@ + rest),
                Err(e) => Err(e),
            },
        decreases items.len() - i,
    {
        let ghost rest = items@.skip(i as int);
        assert(rest.first() == items@[i as int]);
        assert(rest.drop_first() == items@.skip(i + 1));
        match &items[i] {
            ArrayItem::Int(n) => {
                if *n >= 0 && *n <= 255 {
                    let ghost before = bytes@;
                    bytes.push(*n as u8);
                    assert forall|tail: Seq<u8>| before + (seq![*n as u8] + tail) == bytes@
                        + tail by {
                        assert(before + (seq![*n as u8] + tail) =~= bytes@ + tail);
                    }
                } else {
                    return Err(EnclaveError::ByteOutOfRange(*n));
                }
            },
            ArrayItem::Text(s) => {
                let ghost before = bytes@;
                let mut encoded = s.as_str().as_bytes_vec();
                bytes.append(&mut encoded);
                assert forall|tail: Seq<u8>| before + (encode_utf8(s@) + tail) == bytes@ + tail by {
                    assert(before + (encode_utf8(s@) + tail) =~= bytes@ + tail);
                }
            },
            ArrayItem::Other => {
                return Err(EnclaveError::UnsupportedElementType);
            },
        }
        i = i + 1;
    }
    assert(items@.skip(i as int) =~= Seq::<ArrayItem>::empty());
    assert(bytes@ + Seq::<u8>::empty() =~= bytes@);
    Ok(bytes)
}

/// Reads a number out of a value's text.
fn number_from_text(text: &str) -> (r: Result<Option<ResultValue>, EnclaveError>)
    ensures
        agrees(r, number_of_text(text@)),
{
    let s = trim(text);
    if starts_with(s, "Error:") {
        Err(EnclaveError::ScriptReportedError(s.to_owned()))
    } else if is_negative_numeral(s) {
        Err(EnclaveError::NegativeNumber(s.to_owned()))
    } else {
        match parse_u64(s) {
            Ok(n) => Ok(Some(ResultValue::NUMBER(n))),
            Err(reason) => Err(EnclaveError::NotANumber { text: s.to_owned(), reason }),
        }
    }
}

/// Reads a truth value out of a text that is already in lower case.
pub fn boolean_from_lowered(lowered: &str) -> (r: Result<Option<ResultValue>, EnclaveError>)
    ensures
        agrees(r, boolean_spelled(lowered@)),
{
    if same_text(lowered, "true") || same_text(lowered, "1") {
        Ok(Some(ResultValue::BOOLEAN(true)))
    } else if same_text(lowered, "false") || same_text(lowered, "0") {
        Ok(Some(ResultValue::BOOLEAN(false)))
    } else {
        Err(EnclaveError::NotABoolean)
    }
}

/// Reads a truth value out of a value's text.
fn boolean_from_text(text: &str) -> (r: Result<Option<ResultValue>, EnclaveError>)
    ensures
        agrees(r, boolean_of_text(text@)),
{
    let lowered = to_lowercase(trim(text));
    boolean_from_lowered(lowered.as_str())
}

/// Coerces what a script handed back into the declared shape.
///
/// A text is always to be had: the value's text without the white space
/// around it. A number, a truth value and a byte sequence are to be had
/// where the value stands for one; where it does not, the failure says why.
/// On success the result is never `None`.
pub fn convert_rhai_result(value: &ScriptValue, expected_type: &ReturnType) -> (r: Result<
    Option<ResultValue>,
    EnclaveError,
>)
    ensures
        agrees(r, coerced(*value, *expected_type)),
{
    match expected_type {
        ReturnType::STRING => {
            let s = trim(value.text.as_str());
            Ok(Some(ResultValue::STRING(s.to_owned())))
        },
        ReturnType::NUMBER => {
            match &value.kind {
                ScriptKind::Int(n) => {
                    if *n >= 0 {
                        Ok(Some(ResultValue::NUMBER(*n as u64)))
                    } else {
                        Err(EnclaveError::NegativeNumber(signed_text(*n)))
                    }
                },
                ScriptKind::Float(bits) => {
                    if is_at_least_zero(*bits) {
                        Ok(Some(ResultValue::NUMBER(to_u64(*bits))))
                    } else {
                        Err(EnclaveError::NegativeNumber(to_text(*bits)))
                    }
                },
                _ => number_from_text(value.text.as_str()),
            }
        },
        ReturnType::BOOLEAN => {
            match &value.kind {
                ScriptKind::Bool(b) => Ok(Some(ResultValue::BOOLEAN(*b))),
                _ => boolean_from_text(value.text.as_str()),
            }
        },
        ReturnType::VECTOR => {
            match &value.kind {
                ScriptKind::Array(items) => {
                    match convert_items(items) {
                        Ok(bytes) => Ok(Some(ResultValue::VECTOR(bytes))),
                        Err(e) => Err(e),
                    }
                },
                _ => Ok(Some(ResultValue::VECTOR(value.text.as_str().as_bytes_vec()))),
            }
        },
    }
}

} // verus!
