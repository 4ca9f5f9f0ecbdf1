use coeus_oracle::binary64::{is_at_least_zero, to_u64};
use coeus_oracle::coerce::{boolean_from_lowered, convert_rhai_result};
use coeus_oracle::text::is_negative_numeral;
use coeus_oracle::types::{EnclaveError, ResultValue, ReturnType};
use coeus_oracle::value::{ArrayItem, ScriptKind, ScriptValue};

fn value(kind: ScriptKind, text: &str) -> ScriptValue {
    ScriptValue { kind, text: text.to_string() }
}

fn text_value(text: &str) -> ScriptValue {
    value(ScriptKind::Text(text.to_string()), text)
}

fn float_value(x: f64, text: &str) -> ScriptValue {
    value(ScriptKind::Float(x.to_bits()), text)
}

#[test]
fn string_is_the_trimmed_text_of_any_value() {
    let cases = vec![
        (text_value("Hello World"), "Hello World"),
        (text_value("  Test String  "), "Test String"),
        (text_value("\t\n x y \r\n"), "x y"),
        (text_value("\u{a0}\u{2003}wide\u{3000}"), "wide"),
        (text_value(""), ""),
        (text_value("   "), ""),
        (value(ScriptKind::Int(-7), "-7"), "-7"),
        (value(ScriptKind::Bool(true), "true"), "true"),
        (value(ScriptKind::Unit, ""), ""),
        (float_value(1.5, "1.5"), "1.5"),
        (value(ScriptKind::Array(vec![ArrayItem::Int(1), ArrayItem::Int(2)]), "[1, 2]"), "[1, 2]"),
        (value(ScriptKind::Other, " #{} "), "#{}"),
    ];
    for (input, expected) in cases {
        assert_eq!(
            convert_rhai_result(&input, &ReturnType::STRING),
            Ok(Some(ResultValue::STRING(expected.to_string())))
        );
    }
}

#[test]
fn number_of_an_integer_is_the_integer() {
    for n in [0i64, 1, 42, 255, 256, 999999, i64::MAX - 1, i64::MAX] {
        let input = value(ScriptKind::Int(n), "this text is not read");
        assert_eq!(
            convert_rhai_result(&input, &ReturnType::NUMBER),
            Ok(Some(ResultValue::NUMBER(n as u64)))
        );
    }
}

#[test]
fn number_of_a_negative_integer_is_refused() {
    for n in [-1i64, -42, i64::MIN + 1, i64::MIN] {
        let input = value(ScriptKind::Int(n), "0");
        assert_eq!(
            convert_rhai_result(&input, &ReturnType::NUMBER),
            Err(EnclaveError::NegativeNumber(n.to_string()))
        );
    }
    let refused = convert_rhai_result(&value(ScriptKind::Int(-42), "-42"), &ReturnType::NUMBER);
    assert_eq!(refused.unwrap_err().to_string(), "Negative number not supported: -42");
}

#[test]
fn number_of_a_fraction_is_cut_toward_zero() {
    let cases: Vec<(f64, u64)> = vec![
        (0.0, 0),
        (-0.0, 0),
        (0.4, 0),
        (0.999999, 0),
        (1.0, 1),
        (1.23, 1),
        (1.5, 1),
        (1.999, 1),
        (2.5, 2),
        (123.0, 123),
        (4503599627370495.5, 4503599627370495),
        (9007199254740992.0, 9007199254740992),
        (9007199254740993.0, 9007199254740992),
        (1e19, 10000000000000000000),
        (18446744073709549568.0, 18446744073709549568),
        (18446744073709551615.0, u64::MAX),
        (1e20, u64::MAX),
        (1e300, u64::MAX),
        (f64::MAX, u64::MAX),
        (f64::INFINITY, u64::MAX),
        (f64::MIN_POSITIVE, 0),
        (5e-324, 0),
    ];
    for (x, expected) in cases {
        assert_eq!(x as u64, expected);
        assert_eq!(
            convert_rhai_result(&float_value(x, "unread"), &ReturnType::NUMBER),
            Ok(Some(ResultValue::NUMBER(expected)))
        );
    }
}

#[test]
fn number_of_a_fraction_below_zero_is_refused() {
    for x in [-0.5, -1.0, -42.0, -1e300, f64::NEG_INFINITY, -5e-324] {
        assert_eq!(
            convert_rhai_result(&float_value(x, "unread"), &ReturnType::NUMBER),
            Err(EnclaveError::NegativeNumber(format!("{}", x)))
        );
    }
    let refused = convert_rhai_result(&float_value(-1.5, "-1.5"), &ReturnType::NUMBER);
    assert_eq!(refused.unwrap_err().to_string(), "Negative number not supported: -1.5");
}

#[test]
fn number_that_is_no_number_is_refused_as_negative() {
    let refused = convert_rhai_result(&float_value(f64::NAN, "NaN"), &ReturnType::NUMBER);
    assert_eq!(refused, Err(EnclaveError::NegativeNumber("NaN".to_string())));
}

#[test]
fn whole_part_agrees_with_the_machine() {
    let mut patterns: Vec<u64> = vec![0, 1, u64::MAX, 1 << 63, (1 << 63) | 1, 0x7ff0_0000_0000_0000];
    for exponent in 0..2048u64 {
        for fraction in [0u64, 1, 0x8_0000_0000_0000, 0xf_ffff_ffff_ffff, 0x5_5555_5555_5555] {
            patterns.push((exponent << 52) | fraction);
            patterns.push((1 << 63) | (exponent << 52) | fraction);
        }
    }
    let mut seed: u64 = 0x9e37_79b9_7f4a_7c15;
    for _ in 0..20000 {
        seed = seed.wrapping_mul(6364136223846793005).wrapping_add(1442695040888963407);
        patterns.push(seed);
    }
    for bits in patterns {
        let x = f64::from_bits(bits);
        assert_eq!(to_u64(bits), x as u64, "whole part of {:e}", x);
        assert_eq!(is_at_least_zero(bits), x >= 0.0, "sign of {:e}", x);
    }
}

#[test]
fn fraction_is_printed_by_the_standard_formatter() {
    let refused = convert_rhai_result(&float_value(-42.0, "-42.0"), &ReturnType::NUMBER);
    assert_eq!(refused, Err(EnclaveError::NegativeNumber("-42".to_string())));
    let refused = convert_rhai_result(&float_value(-0.1, "-0.1"), &ReturnType::NUMBER);
    assert_eq!(refused, Err(EnclaveError::NegativeNumber("-0.1".to_string())));
}

#[test]
fn number_of_a_text_is_what_it_writes() {
    let cases: Vec<(&str, u64)> = vec![
        ("123", 123),
        ("0", 0),
        ("  42  ", 42),
        ("+7", 7),
        ("007", 7),
        ("18446744073709551615", u64::MAX),
        ("\n9\t", 9),
    ];
    for (text, expected) in cases {
        assert_eq!(
            convert_rhai_result(&text_value(text), &ReturnType::NUMBER),
            Ok(Some(ResultValue::NUMBER(expected)))
        );
    }
    // The text decides for every kind that is neither kind of number.
    assert_eq!(
        convert_rhai_result(&value(ScriptKind::Other, "15"), &ReturnType::NUMBER),
        Ok(Some(ResultValue::NUMBER(15)))
    );
}

#[test]
fn number_of_a_text_that_writes_none_is_refused() {
    for text in ["not a number", "", "   ", "-", "-1.5", "--1", "-1a", "- 1", "+-1", "1.5", "12a", "+", "18446744073709551616", "1 2", "true"] {
        let refused = convert_rhai_result(&text_value(text), &ReturnType::NUMBER);
        match refused {
            Err(EnclaveError::NotANumber { text: kept, reason }) => {
                assert_eq!(kept, text.trim());
                assert_eq!(reason, text.trim().parse::<u64>().unwrap_err().to_string());
            }
            other => panic!("{:?} for {:?}", other, text),
        }
    }
    let refused = convert_rhai_result(&text_value("abc"), &ReturnType::NUMBER);
    assert_eq!(
        refused.unwrap_err().to_string(),
        "Cannot convert to NUMBER: string 'abc' is not a valid number: invalid digit found in string"
    );
    assert_eq!(
        convert_rhai_result(&value(ScriptKind::Unit, ""), &ReturnType::NUMBER)
            .unwrap_err()
            .to_string(),
        "Cannot convert to NUMBER: string '' is not a valid number: cannot parse integer from empty string"
    );
}

#[test]
fn number_of_a_text_that_writes_a_negative_number_is_refused_as_negative() {
    for text in ["-5", "-42", "  -42 \n", "-0", "-007", "-18446744073709551616", "-9223372036854775808"] {
        let refused = convert_rhai_result(&text_value(text), &ReturnType::NUMBER);
        assert_eq!(
            refused,
            Err(EnclaveError::NegativeNumber(text.trim().to_string())),
            "{:?}",
            text
        );
    }
    let refused = convert_rhai_result(&text_value("-5"), &ReturnType::NUMBER);
    assert_eq!(refused.unwrap_err().to_string(), "Negative number not supported: -5");
    // The kind does not matter where the text decides.
    assert_eq!(
        convert_rhai_result(&value(ScriptKind::Other, "-5"), &ReturnType::NUMBER),
        Err(EnclaveError::NegativeNumber("-5".to_string()))
    );
}

#[test]
fn negative_numeral_is_a_minus_sign_before_digits() {
    for text in ["-5", "-0", "-0123456789", "-99999999999999999999999999"] {
        assert!(is_negative_numeral(text), "{:?}", text);
    }
    for text in ["", "-", "5", "+5", "-5 ", " -5", "-5.0", "--5", "-a", "-5a", "\u{2212}5", "-\u{0665}", "-5\u{e9}"] {
        assert!(!is_negative_numeral(text), "{:?}", text);
    }
}

#[test]
fn white_space_is_what_the_standard_says() {
    let spaces = [
        '\u{9}', '\u{a}', '\u{b}', '\u{c}', '\u{d}', ' ', '\u{85}', '\u{a0}', '\u{1680}', '\u{2000}',
        '\u{2001}', '\u{2002}', '\u{2003}', '\u{2004}', '\u{2005}', '\u{2006}', '\u{2007}',
        '\u{2008}', '\u{2009}', '\u{200a}', '\u{2028}', '\u{2029}', '\u{202f}', '\u{205f}',
        '\u{3000}',
    ];
    for c in spaces {
        let text = format!("{}x{}", c, c);
        assert_eq!(
            convert_rhai_result(&text_value(&text), &ReturnType::STRING),
            Ok(Some(ResultValue::STRING("x".to_string()))),
            "{:?}",
            c
        );
    }
    let others = [
        '\u{8}', '\u{e}', '\u{1f}', '!', '\u{84}', '\u{86}', '\u{9f}', '\u{a1}', '\u{167f}', '\u{1681}',
        '\u{180e}', '\u{1fff}', '\u{200b}', '\u{200c}', '\u{200d}', '\u{2027}', '\u{202a}', '\u{202e}',
        '\u{2030}', '\u{205e}', '\u{2060}', '\u{2fff}', '\u{3001}', '\u{feff}', '\0',
    ];
    for c in others {
        let text = format!("{}x{}", c, c);
        assert_eq!(
            convert_rhai_result(&text_value(&text), &ReturnType::STRING),
            Ok(Some(ResultValue::STRING(text.clone()))),
            "{:?}",
            c
        );
    }
    // Every character, against the machine.
    for code in 0..=0x10ffffu32 {
        if let Some(c) = char::from_u32(code) {
            let listed = spaces.contains(&c);
            assert_eq!(c.is_whitespace(), listed, "{:x}", code);
        }
    }
}

#[test]
fn boolean_of_a_lowered_text() {
    assert_eq!(boolean_from_lowered("true"), Ok(Some(ResultValue::BOOLEAN(true))));
    assert_eq!(boolean_from_lowered("1"), Ok(Some(ResultValue::BOOLEAN(true))));
    assert_eq!(boolean_from_lowered("false"), Ok(Some(ResultValue::BOOLEAN(false))));
    assert_eq!(boolean_from_lowered("0"), Ok(Some(ResultValue::BOOLEAN(false))));
    for text in ["", "maybe", "TRUE", " true", "true ", "10", "yes", "truefalse"] {
        assert_eq!(boolean_from_lowered(text), Err(EnclaveError::NotABoolean), "{:?}", text);
    }
}

#[test]
fn number_of_a_reported_error_is_the_report() {
    let refused = convert_rhai_result(&text_value("  Error: host down \n"), &ReturnType::NUMBER);
    assert_eq!(
        refused,
        Err(EnclaveError::ScriptReportedError("Error: host down".to_string()))
    );
    assert_eq!(
        refused.unwrap_err().to_string(),
        "Rhai code execution failed: Error: host down"
    );
    // The marker is told by its exact spelling.
    assert!(matches!(
        convert_rhai_result(&text_value("error: x"), &ReturnType::NUMBER),
        Err(EnclaveError::NotANumber { .. })
    ));
    assert!(matches!(
        convert_rhai_result(&text_value("Error"), &ReturnType::NUMBER),
        Err(EnclaveError::NotANumber { .. })
    ));
    assert!(matches!(
        convert_rhai_result(&text_value("Error:"), &ReturnType::NUMBER),
        Err(EnclaveError::ScriptReportedError(_))
    ));
}

#[test]
fn boolean_of_a_truth_value_is_itself() {
    for b in [true, false] {
        let input = value(ScriptKind::Bool(b), "maybe");
        assert_eq!(
            convert_rhai_result(&input, &ReturnType::BOOLEAN),
            Ok(Some(ResultValue::BOOLEAN(b)))
        );
    }
}

#[test]
fn boolean_of_a_text_is_what_it_spells() {
    let cases: Vec<(&str, bool)> = vec![
        ("true", true),
        ("1", true),
        ("false", false),
        ("0", false),
        ("TRUE", true),
        ("True", true),
        ("FaLsE", false),
        ("  true \n", true),
        ("\t0", false),
    ];
    for (text, expected) in cases {
        assert_eq!(
            convert_rhai_result(&text_value(text), &ReturnType::BOOLEAN),
            Ok(Some(ResultValue::BOOLEAN(expected)))
        );
    }
    assert_eq!(
        convert_rhai_result(&value(ScriptKind::Int(1), "1"), &ReturnType::BOOLEAN),
        Ok(Some(ResultValue::BOOLEAN(true)))
    );
    assert_eq!(
        convert_rhai_result(&value(ScriptKind::Int(0), "0"), &ReturnType::BOOLEAN),
        Ok(Some(ResultValue::BOOLEAN(false)))
    );
}

#[test]
fn boolean_of_any_other_text_is_refused() {
    for text in ["maybe", "", "yes", "no", "2", "tru", "truee", "t rue", "01", "1.0", "Error: x"] {
        let refused = convert_rhai_result(&text_value(text), &ReturnType::BOOLEAN);
        assert_eq!(refused, Err(EnclaveError::NotABoolean));
    }
    assert_eq!(EnclaveError::NotABoolean.to_string(), "Cannot convert to BOOLEAN");
    assert_eq!(
        convert_rhai_result(&float_value(1.0, "1.0"), &ReturnType::BOOLEAN),
        Err(EnclaveError::NotABoolean)
    );
}

#[test]
fn vector_of_bytes_is_those_bytes() {
    let all: Vec<u8> = (0..=255u8).collect();
    let items: Vec<ArrayItem> = all.iter().map(|b| ArrayItem::Int(*b as i64)).collect();
    assert_eq!(
        convert_rhai_result(&value(ScriptKind::Array(items), "unread"), &ReturnType::VECTOR),
        Ok(Some(ResultValue::VECTOR(all)))
    );
    assert_eq!(
        convert_rhai_result(&value(ScriptKind::Array(vec![]), "[]"), &ReturnType::VECTOR),
        Ok(Some(ResultValue::VECTOR(vec![])))
    );
}

#[test]
fn vector_takes_texts_as_their_encoding() {
    let items = vec![
        ArrayItem::Text("hello".to_string()),
        ArrayItem::Int(0),
        ArrayItem::Text("".to_string()),
        ArrayItem::Text("h\u{e9}\u{20ac}\u{1f600}".to_string()),
        ArrayItem::Int(255),
    ];
    let mut expected: Vec<u8> = b"hello".to_vec();
    expected.push(0);
    expected.extend_from_slice("h\u{e9}\u{20ac}\u{1f600}".as_bytes());
    expected.push(255);
    assert_eq!(
        convert_rhai_result(&value(ScriptKind::Array(items), "unread"), &ReturnType::VECTOR),
        Ok(Some(ResultValue::VECTOR(expected)))
    );
}

#[test]
fn vector_refuses_an_integer_that_is_no_byte() {
    for n in [256i64, -1, 1000, i64::MAX, i64::MIN] {
        let items = vec![ArrayItem::Int(1), ArrayItem::Int(n), ArrayItem::Int(2)];
        let refused =
            convert_rhai_result(&value(ScriptKind::Array(items), "unread"), &ReturnType::VECTOR);
        assert_eq!(refused, Err(EnclaveError::ByteOutOfRange(n)));
        assert_eq!(
            refused.unwrap_err().to_string(),
            format!("Value {} out of u8 range", n)
        );
    }
}

#[test]
fn vector_refuses_an_element_of_another_kind() {
    let items = vec![ArrayItem::Int(1), ArrayItem::Other, ArrayItem::Int(300)];
    let refused =
        convert_rhai_result(&value(ScriptKind::Array(items), "unread"), &ReturnType::VECTOR);
    assert_eq!(refused, Err(EnclaveError::UnsupportedElementType));
    assert_eq!(refused.unwrap_err().to_string(), "Unsupported array element type");
}

#[test]
fn vector_reports_the_first_element_it_cannot_take() {
    let items = vec![ArrayItem::Int(300), ArrayItem::Other, ArrayItem::Int(-1)];
    assert_eq!(
        convert_rhai_result(&value(ScriptKind::Array(items), "unread"), &ReturnType::VECTOR),
        Err(EnclaveError::ByteOutOfRange(300))
    );
}

#[test]
fn vector_of_what_is_no_sequence_is_its_text() {
    assert_eq!(
        convert_rhai_result(&text_value("test"), &ReturnType::VECTOR),
        Ok(Some(ResultValue::VECTOR(b"test".to_vec())))
    );
    assert_eq!(
        convert_rhai_result(&text_value("  t\u{e9} "), &ReturnType::VECTOR),
        Ok(Some(ResultValue::VECTOR("  t\u{e9} ".as_bytes().to_vec())))
    );
    assert_eq!(
        convert_rhai_result(&value(ScriptKind::Int(42), "42"), &ReturnType::VECTOR),
        Ok(Some(ResultValue::VECTOR(b"42".to_vec())))
    );
    assert_eq!(
        convert_rhai_result(&value(ScriptKind::Unit, ""), &ReturnType::VECTOR),
        Ok(Some(ResultValue::VECTOR(vec![])))
    );
}
