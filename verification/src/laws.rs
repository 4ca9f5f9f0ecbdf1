//! What holds of the coercion rules for every value a script can hand back,
//! and of the fetch functions for every fetch that failed.

use crate::binary64::below_zero;
use crate::coerce::{coerced, items_bytes};
use crate::host::{
    fetch_json_yields, fetched, fetched_text, number_decodes, validated_json, FetchOutcome,
};
use crate::json::JsonNumber;
use crate::text::{
    decimal_digits, is_digit, lemma_decimal_digits, lemma_trim_keeps_opening, lemma_trim_leaves,
    negative_numeral, trimmed,
};
use crate::types::{Failure, OracleValue, ReturnType};
use crate::value::{ArrayItem, DynamicValue, ScriptKind, ScriptValue};
use vstd::prelude::*;

verus! {

/// The elements that stand for the bytes `bytes`, one integer for each.
pub open spec fn byte_items(bytes: Seq<u8>) -> Seq<ArrayItem> {
    Seq::new(bytes.len(), |i: int| ArrayItem::Int(bytes[i] as i64))
}

/// Whether an element is an integer that is no byte.
pub open spec fn out_of_byte_range(item: ArrayItem) -> bool {
    item matches ArrayItem::Int(n) && (n < 0 || n > 255)
}

/// An integer that is not below zero, declared a number, is that number.
pub proof fn law_integer_is_its_number(value: ScriptValue, n: i64)
    requires
        value.kind == ScriptKind::Int(n),
        n >= 0,
    ensures
        coerced(value, ReturnType::NUMBER) == Ok::<OracleValue, Failure>(
            OracleValue::Number(n as u64),
        ),
{
}

/// A value that is no number itself and whose text, with the white space
/// around it set aside, is the decimal text of an unsigned 64-bit number,
/// declared a number, is that number.
pub proof fn law_decimal_text_is_its_number(value: ScriptValue, n: u64)
    requires
        !(value.kind is Int),
        !(value.kind is Float),
        trimmed(value.text@) == decimal_digits(n as nat),
    ensures
        coerced(value, ReturnType::NUMBER) == Ok::<OracleValue, Failure>(OracleValue::Number(n)),
{
    lemma_decimal_digits(n as nat);
    reveal_strlit("Error:");
    let digits = decimal_digits(n as nat);
    assert(is_digit(digits[0]));
    assert("Error:"@[0] == 'E');
    assert(!negative_numeral(digits));
}

/// A number below zero, with or without a fractional part, declared a
/// number, is refused as negative; no number comes out in its place.
pub proof fn law_negative_is_refused(value: ScriptValue)
    requires
        (value.kind matches ScriptKind::Int(n) && n < 0) || (value.kind matches ScriptKind::Float(
            bits,
        ) && below_zero(bits)),
    ensures
        coerced(value, ReturnType::NUMBER) matches Err(Failure::NegativeNumber(_)),
{
}

/// A value that is no number itself and whose text, with the white space
/// around it set aside, writes a number below zero, declared a number, is
/// refused as negative.
pub proof fn law_negative_text_is_refused(value: ScriptValue)
    requires
        !(value.kind is Int),
        !(value.kind is Float),
        negative_numeral(trimmed(value.text@)),
    ensures
        coerced(value, ReturnType::NUMBER) == Err::<OracleValue, Failure>(
            Failure::NegativeNumber(trimmed(value.text@)),
        ),
{
    reveal_strlit("Error:");
    assert("Error:"@[0] == 'E');
}

/// A sequence of integers that are all bytes, declared a vector, is exactly
/// those bytes.
pub proof fn law_bytes_are_kept(value: ScriptValue, bytes: Seq<u8>)
    requires
        value.kind matches ScriptKind::Array(items) && items@ == byte_items(bytes),
    ensures
        coerced(value, ReturnType::VECTOR) == Ok::<OracleValue, Failure>(OracleValue::Bytes(bytes)),
{
    lemma_byte_items(bytes);
}

/// A sequence that holds an integer above 255 or below zero, declared a
/// vector, is refused: for an element out of range or for one of another
/// kind, whichever comes first. No byte is cut down or wrapped round.
pub proof fn law_out_of_range_is_refused(value: ScriptValue, at: int)
    requires
        value.kind matches ScriptKind::Array(items) && 0 <= at < items@.len() && out_of_byte_range(
            items@[at],
        ),
    ensures
        coerced(value, ReturnType::VECTOR) matches Err(e) && (e is ByteOutOfRange
            || e is UnsupportedElementType),
{
    if let ScriptKind::Array(items) = value.kind {
        lemma_first_refusal(items@, at);
    }
}

/// A fetch that failed reaches the script as a value, whichever of the
/// fetch functions was called, and that value is a text that opens with the
/// error marker.
pub proof fn law_failed_fetch_is_marked(url: Seq<char>, outcome: FetchOutcome, decoded: DynamicValue)
    requires
        fetched(outcome) is Err,
        fetch_json_yields(url, outcome, decoded),
    ensures
        "Error:"@.is_prefix_of(fetched_text(outcome)),
        "Error:"@.is_prefix_of(validated_json(url, outcome)),
        decoded matches DynamicValue::Text(t) && "Error:"@.is_prefix_of(t@),
{
    reveal_strlit("Error:");
    reveal_strlit("Error: ");
    let message = fetched(outcome)->Err_0;
    assert("Error:"@ =~= ("Error: "@ + message).subrange(0, 6));
}

/// A value whose text opens with the error marker, declared a text, is a
/// text that still opens with the marker: what a failed fetch handed the
/// script reaches the oracle marked, where the script hands it on as it is.
pub proof fn law_marked_text_stays_marked(value: ScriptValue)
    requires
        "Error:"@.is_prefix_of(value.text@),
    ensures
        coerced(value, ReturnType::STRING) matches Ok(OracleValue::Text(t)) && "Error:"@.is_prefix_of(
            t,
        ),
{
    reveal_strlit("Error:");
    let text = value.text@;
    let marker = "Error:"@;
    assert(marker.len() == 6 && marker[0] == 'E' && marker[5] == ':');
    assert(marker == text.subrange(0, 6));
    assert(text[0] == text.subrange(0, 6)[0] && text[5] == text.subrange(0, 6)[5]);
    lemma_trim_keeps_opening(text, 6);
    assert("Error:"@ =~= text.take(6));
    assert("Error:"@ =~= trimmed(text).take(6));
}

/// The decimal text of an unsigned 64-bit number stays as it is when the
/// white space around it is set aside.
pub proof fn lemma_decimal_digits_stay(n: u64)
    ensures
        trimmed(decimal_digits(n as nat)) == decimal_digits(n as nat),
{
    lemma_decimal_digits(n as nat);
    let digits = decimal_digits(n as nat);
    assert(is_digit(digits[0]));
    assert(is_digit(digits[digits.len() - 1]));
    lemma_trim_leaves(digits);
}

/// A JSON integer that the interpreter's integers cannot hold loses nothing
/// on its way: the text it decodes to, handed on by the script as it is and
/// declared a number, is that integer.
pub proof fn law_large_json_integer_is_kept(
    number: JsonNumber,
    decoded: DynamicValue,
    value: ScriptValue,
    n: u64,
)
    requires
        number.int is None,
        number.unsigned == Some(n),
        number_decodes(number, decoded),
        decoded matches DynamicValue::Text(t) && value.text@ == t@,
        !(value.kind is Int),
        !(value.kind is Float),
    ensures
        coerced(value, ReturnType::NUMBER) == Ok::<OracleValue, Failure>(OracleValue::Number(n)),
{
    lemma_decimal_digits_stay(n);
    law_decimal_text_is_its_number(value, n);
}

/// The bytes of the elements that stand for `bytes` are `bytes`.
proof fn lemma_byte_items(bytes: Seq<u8>)
    ensures
        items_bytes(byte_items(bytes)) == Ok::<Seq<u8>, Failure>(bytes),
    decreases bytes.len(),
{
    let items = byte_items(bytes);
    if bytes.len() == 0 {
        assert(bytes =~= Seq::<u8>::empty());
    } else {
        lemma_byte_items(bytes.drop_first());
        assert(items.drop_first() =~= byte_items(bytes.drop_first()));
        assert(items.first() == ArrayItem::Int(bytes[0] as i64));
        assert(seq![(bytes[0] as i64) as u8] + bytes.drop_first() =~= bytes);
    }
}

/// Elements with an integer out of range among them have no bytes.
proof fn lemma_first_refusal(items: Seq<ArrayItem>, at: int)
    requires
        0 <= at < items.len(),
        out_of_byte_range(items[at]),
    ensures
        items_bytes(items) matches Err(e) && (e is ByteOutOfRange || e is UnsupportedElementType),
    decreases items.len(),
{
    if at > 0 {
        assert(items.drop_first()[at - 1] == items[at]);
        lemma_first_refusal(items.drop_first(), at - 1);
    }
}

} // verus!
