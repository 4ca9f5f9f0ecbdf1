use coeus_oracle::host::{
    err, fetch_json, http_get, http_get_json, http_get_string, is_err, is_ok, join,
    json_value_to_dynamic, parse_json, parse_json_dynamic, preview_of, to_string, unwrap,
    unwrap_string, FetchOutcome,
};
use coeus_oracle::json::{JsonNumber, JsonValue};
use coeus_oracle::value::{DynamicValue, ScriptKind, ScriptValue};

fn answered(status: u16, status_text: &str, body: Result<&str, &str>) -> FetchOutcome {
    FetchOutcome::Answered {
        status,
        status_text: status_text.to_string(),
        body: body.map(|t| t.to_string()).map_err(|e| e.to_string()),
    }
}

fn body(text: &str) -> FetchOutcome {
    answered(200, "200 OK", Ok(text))
}

fn printed(text: &str) -> ScriptValue {
    ScriptValue { kind: ScriptKind::Other, text: text.to_string() }
}

fn held(text: &str) -> ScriptValue {
    ScriptValue { kind: ScriptKind::Text(text.to_string()), text: text.to_string() }
}

fn text(s: &str) -> DynamicValue {
    DynamicValue::Text(s.to_string())
}

#[test]
fn fetch_outcomes_as_two_outcome_values() {
    assert_eq!(http_get_string(body("hello")), Ok("hello".to_string()));
    assert_eq!(http_get_string(body("")), Ok("".to_string()));
    assert_eq!(
        http_get_string(answered(404, "404 Not Found", Ok("ignored"))),
        Err("HTTP error: status 404 Not Found".to_string())
    );
    assert_eq!(
        http_get_string(answered(200, "200 OK", Err("connection reset"))),
        Err("Read error: connection reset".to_string())
    );
    assert_eq!(
        http_get_string(FetchOutcome::RequestFailed("dns error".to_string())),
        Err("Request error: dns error".to_string())
    );
}

#[test]
fn fetch_outcomes_as_one_text() {
    assert_eq!(http_get(body(" raw body ")), " raw body ");
    assert_eq!(
        http_get(answered(500, "500 Internal Server Error", Ok("ignored"))),
        "Error: HTTP error: status 500 Internal Server Error"
    );
    assert_eq!(
        http_get(answered(200, "200 OK", Err("eof"))),
        "Error: Read error: eof"
    );
    assert_eq!(
        http_get(FetchOutcome::RequestFailed("refused".to_string())),
        "Error: Request error: refused"
    );
}

#[test]
fn validated_fetch_hands_on_a_body_that_parses() {
    assert_eq!(http_get_json("http://h/x", body("{\"a\": 1}")), "{\"a\": 1}");
    assert_eq!(http_get_json("http://h/x", body("  [1, 2]\n")), "  [1, 2]\n");
    assert_eq!(http_get_json("http://h/x", body("{}")), "{}");
}

#[test]
fn validated_fetch_refuses_an_empty_body() {
    assert_eq!(
        http_get_json("http://h/x", body("")),
        "Error: Empty response from http://h/x"
    );
    assert_eq!(
        http_get_json("http://h/x", body(" \n\t ")),
        "Error: Empty response from http://h/x"
    );
}

#[test]
fn validated_fetch_refuses_a_body_that_is_no_document() {
    assert_eq!(
        http_get_json("http://h/x", body("<html>no</html>")),
        "Error: Non-JSON response from http://h/x: <html>no</html>"
    );
    assert_eq!(
        http_get_json("http://h/x", body("42")),
        "Error: Non-JSON response from http://h/x: 42"
    );
    let long = "x".repeat(201);
    assert_eq!(
        http_get_json("u", body(&long)),
        format!("Error: Non-JSON response from u: {}...", "x".repeat(200))
    );
}

#[test]
fn validated_fetch_refuses_a_body_that_does_not_parse() {
    let refused = http_get_json("http://h/x", body(" {\"a\": "));
    let complaint = serde_json::from_str::<serde_json::Value>("{\"a\":")
        .unwrap_err()
        .to_string();
    assert_eq!(
        refused,
        format!("Error: Invalid JSON from http://h/x: {}", complaint)
    );
    assert!(http_get_json("u", body("[1, 2")).starts_with("Error: Invalid JSON from u: "));
}

#[test]
fn validated_fetch_hands_on_a_failure() {
    assert_eq!(
        http_get_json("u", FetchOutcome::RequestFailed("refused".to_string())),
        "Error: Request error: refused"
    );
    assert_eq!(
        http_get_json("u", answered(503, "503 Service Unavailable", Ok("ignored"))),
        "Error: HTTP error: status 503 Service Unavailable"
    );
}

#[test]
fn preview_keeps_short_texts_and_cuts_long_ones() {
    assert_eq!(preview_of(""), "");
    assert_eq!(preview_of("short"), "short");
    let exactly = "a".repeat(200);
    assert_eq!(preview_of(&exactly), exactly);
    let over = "a".repeat(250);
    assert_eq!(preview_of(&over), format!("{}...", "a".repeat(200)));
}

#[test]
fn preview_never_cuts_inside_a_character() {
    // 199 one-byte characters, then a two-byte character that straddles byte 200.
    let straddling = format!("{}\u{e9}{}", "a".repeat(199), "b".repeat(10));
    assert_eq!(preview_of(&straddling), format!("{}...", "a".repeat(199)));
    // A four-byte character that straddles byte 200 the same way.
    let wide = format!("{}\u{1f600}{}", "a".repeat(197), "b".repeat(10));
    assert_eq!(preview_of(&wide), format!("{}...", "a".repeat(197)));
    // A character that ends at byte 200 is kept.
    let fitting = format!("{}\u{e9}{}", "a".repeat(198), "b".repeat(10));
    assert_eq!(preview_of(&fitting), format!("{}\u{e9}...", "a".repeat(198)));
    // Counted in bytes, not in characters.
    let many = "\u{e9}".repeat(101);
    assert_eq!(preview_of(&many), format!("{}...", "\u{e9}".repeat(100)));
}

#[test]
fn json_decodes_kind_by_kind() {
    assert_eq!(json_value_to_dynamic(&JsonValue::Null), DynamicValue::Unit);
    assert_eq!(json_value_to_dynamic(&JsonValue::Bool(true)), DynamicValue::Bool(true));
    assert_eq!(json_value_to_dynamic(&JsonValue::String("s".to_string())), text("s"));
    let whole = JsonNumber {
        int: Some(-5),
        unsigned: None,
        float: Some((-5.0f64).to_bits()),
        text: "-5".to_string(),
    };
    assert_eq!(json_value_to_dynamic(&JsonValue::Number(whole)), DynamicValue::Int(-5));
    let fraction = JsonNumber {
        int: None,
        unsigned: None,
        float: Some(1.5f64.to_bits()),
        text: "1.5".to_string(),
    };
    assert_eq!(
        json_value_to_dynamic(&JsonValue::Number(fraction)),
        DynamicValue::Float(1.5f64.to_bits())
    );
    let neither = JsonNumber { int: None, unsigned: None, float: None, text: "1e999".to_string() };
    assert_eq!(json_value_to_dynamic(&JsonValue::Number(neither)), text("1e999"));
    let beyond = JsonNumber {
        int: None,
        unsigned: Some(18446744073709551614),
        float: Some(18446744073709551614.0f64.to_bits()),
        text: "unread".to_string(),
    };
    assert_eq!(
        json_value_to_dynamic(&JsonValue::Number(beyond)),
        text("18446744073709551614")
    );
    let both = JsonNumber {
        int: Some(7),
        unsigned: Some(7),
        float: Some(7.0f64.to_bits()),
        text: "7".to_string(),
    };
    assert_eq!(json_value_to_dynamic(&JsonValue::Number(both)), DynamicValue::Int(7));
}

#[test]
fn json_decodes_arrays_and_objects_member_by_member() {
    let document = JsonValue::Object(vec![
        ("a".to_string(), JsonValue::Array(vec![JsonValue::Null, JsonValue::Bool(false)])),
        ("b".to_string(), JsonValue::Object(vec![("c".to_string(), JsonValue::String("d".to_string()))])),
    ]);
    let expected = DynamicValue::Object(vec![
        ("a".to_string(), DynamicValue::Array(vec![DynamicValue::Unit, DynamicValue::Bool(false)])),
        ("b".to_string(), DynamicValue::Object(vec![("c".to_string(), text("d"))])),
    ]);
    assert_eq!(json_value_to_dynamic(&document), expected);
    assert_eq!(json_value_to_dynamic(&JsonValue::Array(vec![])), DynamicValue::Array(vec![]));
}

#[test]
fn parse_json_reads_a_document() {
    assert_eq!(parse_json("null"), DynamicValue::Unit);
    assert_eq!(parse_json("true"), DynamicValue::Bool(true));
    assert_eq!(parse_json("42"), DynamicValue::Int(42));
    assert_eq!(parse_json("-42"), DynamicValue::Int(-42));
    assert_eq!(parse_json("9223372036854775807"), DynamicValue::Int(i64::MAX));
    assert_eq!(parse_json("1.23"), DynamicValue::Float(1.23f64.to_bits()));
    assert_eq!(parse_json("1e2"), DynamicValue::Float(100.0f64.to_bits()));
    assert_eq!(parse_json("\"x\""), text("x"));
    assert_eq!(
        parse_json(" [1, \"a\", [2.5], {}] "),
        DynamicValue::Array(vec![
            DynamicValue::Int(1),
            text("a"),
            DynamicValue::Array(vec![DynamicValue::Float(2.5f64.to_bits())]),
            DynamicValue::Object(vec![]),
        ])
    );
    assert_eq!(
        parse_json("{\"name\": \"test\", \"value\": 42}"),
        DynamicValue::Object(vec![
            ("name".to_string(), text("test")),
            ("value".to_string(), DynamicValue::Int(42)),
        ])
    );
}

#[test]
fn parse_json_keeps_an_integer_beyond_the_signed_range_as_its_decimal_text() {
    assert_eq!(parse_json("9223372036854775808"), text("9223372036854775808"));
    assert_eq!(parse_json("18446744073709551614"), text("18446744073709551614"));
    assert_eq!(parse_json("18446744073709551615"), text("18446744073709551615"));
    // Beyond 64 bits there is no integer reading left.
    assert_eq!(
        parse_json("18446744073709551616"),
        DynamicValue::Float(18446744073709551616.0f64.to_bits())
    );
    assert_eq!(parse_json("-9223372036854775808"), DynamicValue::Int(i64::MIN));
}

#[test]
fn parse_json_keeps_one_member_for_each_key() {
    assert_eq!(
        parse_json("{\"k\": 1, \"k\": 2}"),
        DynamicValue::Object(vec![("k".to_string(), DynamicValue::Int(2))])
    );
}

#[test]
fn parse_json_reports_what_does_not_parse() {
    for broken in ["", "{", "[1,", "nul", "{\"a\" 1}", "1 2", "'x'"] {
        let complaint = serde_json::from_str::<serde_json::Value>(broken)
            .unwrap_err()
            .to_string();
        assert_eq!(parse_json(broken), text(&format!("Error: {}", complaint)));
    }
}

#[test]
fn fetch_json_decodes_the_body() {
    assert_eq!(
        fetch_json("u", body(" {\"sui\": {\"usd\": 1.23}} ")),
        DynamicValue::Object(vec![(
            "sui".to_string(),
            DynamicValue::Object(vec![("usd".to_string(), DynamicValue::Float(1.23f64.to_bits()))])
        )])
    );
    assert_eq!(fetch_json("u", body("[]")), DynamicValue::Array(vec![]));
}

#[test]
fn fetch_json_reports_every_failure_as_a_marked_text() {
    assert_eq!(fetch_json("u", body("  ")), text("Error: Empty response from u"));
    assert_eq!(fetch_json("u", body("oops")), text("Error: Non-JSON response: oops"));
    assert_eq!(
        fetch_json("u", body(&"y".repeat(300))),
        text(&format!("Error: Non-JSON response: {}...", "y".repeat(200)))
    );
    let complaint = serde_json::from_str::<serde_json::Value>("[1,").unwrap_err().to_string();
    assert_eq!(
        fetch_json("u", body("[1,")),
        text(&format!("Error: Invalid JSON: {}", complaint))
    );
    assert_eq!(
        fetch_json("u", FetchOutcome::RequestFailed("refused".to_string())),
        text("Error: Request error: refused")
    );
    assert_eq!(
        fetch_json("u", answered(404, "404 Not Found", Ok("ignored"))),
        text("Error: HTTP error: status 404 Not Found")
    );
    assert_eq!(
        fetch_json("u", answered(200, "200 OK", Err("eof"))),
        text("Error: Read error: eof")
    );
}

#[test]
fn failures_are_told_by_how_the_text_opens() {
    for failing in ["Err(boom)", "Err(", "Error: boom", "Error:", "Err(\"x\")"] {
        assert!(is_err(&printed(failing)), "{}", failing);
        assert!(!is_ok(&printed(failing)), "{}", failing);
        assert!(is_err(&held(failing)), "{}", failing);
    }
    for fine in ["Ok(1)", "", "err(x)", "Error", "error: x", " Err(x)", "Er", "hello", "42"] {
        assert!(!is_err(&printed(fine)), "{}", fine);
        assert!(is_ok(&printed(fine)), "{}", fine);
    }
}

#[test]
fn unwrap_opens_a_two_outcome_value() {
    assert_eq!(unwrap(&printed("Err(boom)")), Some("Error: boom".to_string()));
    assert_eq!(unwrap(&printed("Ok(fine)")), Some("fine".to_string()));
    assert_eq!(unwrap(&printed("Ok(\"quoted\")")), Some("\"quoted\"".to_string()));
    assert_eq!(unwrap(&printed("Ok(f(x))")), Some("f(x)".to_string()));
    assert_eq!(unwrap(&printed("Ok(Ok(nested))")), Some("Ok(nested)".to_string()));
    assert_eq!(unwrap(&printed("Err(Err(x))")), Some("Error: Err(x)".to_string()));
    assert_eq!(unwrap(&printed("Ok(open")), Some("open".to_string()));
    assert_eq!(unwrap(&printed("Ok(")), Some("".to_string()));
    assert_eq!(unwrap(&printed("Ok()")), Some("".to_string()));
    assert_eq!(unwrap(&printed("Error: as it is")), None);
    assert_eq!(unwrap(&printed("plain")), None);
    assert_eq!(unwrap(&printed("")), None);
}

#[test]
fn unwrap_string_gives_the_text_inside() {
    assert_eq!(unwrap_string(&printed("Err(boom)")), "Error: boom");
    assert_eq!(unwrap_string(&printed("Error: boom")), "Error: Error: boom");
    assert_eq!(unwrap_string(&printed("Ok(fine)")), "fine");
    assert_eq!(unwrap_string(&printed("Ok(\"quoted\")")), "quoted");
    assert_eq!(unwrap_string(&printed("Ok(\"\"twice\"\")")), "\"twice\"");
    assert_eq!(unwrap_string(&printed("Ok(\"f(x)\")")), "f(x)");
    assert_eq!(unwrap_string(&printed("Ok(\"open)")), "open");
    assert_eq!(unwrap_string(&printed("Ok(shut\")")), "shut");
    assert_eq!(unwrap_string(&printed("Ok(\")")), "");
    assert_eq!(unwrap_string(&printed("Err(f(x))")), "Error: f(x)");
    assert_eq!(unwrap_string(&held("plain")), "plain");
    assert_eq!(unwrap_string(&printed("[1, 2]")), "[1, 2]");
    // A text is taken as it is held, not as it is printed.
    let differing = ScriptValue { kind: ScriptKind::Text("held".to_string()), text: "printed".to_string() };
    assert_eq!(unwrap_string(&differing), "held");
}

#[test]
fn err_gives_the_message_of_a_failure() {
    assert_eq!(err(&printed("Err(boom)")), Some("boom".to_string()));
    assert_eq!(err(&printed("Err(a(b))")), Some("a(b)".to_string()));
    assert_eq!(err(&printed("Err(a))")), Some("a)".to_string()));
    assert_eq!(err(&printed("Err(open")), Some("open".to_string()));
    assert_eq!(err(&printed("Err()")), Some("".to_string()));
    assert_eq!(err(&printed("Error: boom")), None);
    assert_eq!(err(&printed("Ok(1)")), None);
    assert_eq!(err(&printed("")), None);
}

#[test]
fn to_string_prefers_the_text_a_value_holds() {
    assert_eq!(to_string(&held("x")), "x");
    assert_eq!(to_string(&printed("42")), "42");
    let differing = ScriptValue { kind: ScriptKind::Text("held".to_string()), text: "printed".to_string() };
    assert_eq!(to_string(&differing), "held");
    let number = ScriptValue { kind: ScriptKind::Int(7), text: "7".to_string() };
    assert_eq!(to_string(&number), "7");
}

#[test]
fn parse_json_on_a_value_unwraps_it_first() {
    assert_eq!(parse_json_dynamic(&held("{\"a\": 1}")),
        DynamicValue::Object(vec![("a".to_string(), DynamicValue::Int(1))]));
    assert_eq!(parse_json_dynamic(&printed("Ok(\"[1]\")")),
        DynamicValue::Array(vec![DynamicValue::Int(1)]));
    assert_eq!(parse_json_dynamic(&printed("Ok(7)")), DynamicValue::Int(7));
    assert_eq!(parse_json_dynamic(&printed("Err(boom)")), text("Error: boom"));
    assert_eq!(parse_json_dynamic(&printed("Error: boom")), text("Error: Error: boom"));
    let complaint = serde_json::from_str::<serde_json::Value>("nope").unwrap_err().to_string();
    assert_eq!(parse_json_dynamic(&held("nope")), text(&format!("Error: {}", complaint)));
}

#[test]
fn join_puts_the_separator_between_each_two() {
    let parts = vec!["a".to_string(), "b".to_string(), "c".to_string()];
    assert_eq!(join(&parts, ", "), "a, b, c");
    assert_eq!(join(&parts, ""), "abc");
    assert_eq!(join(&vec!["only".to_string()], "-"), "only");
    assert_eq!(join(&vec![], "-"), "");
    assert_eq!(join(&vec!["".to_string(), "".to_string()], "-"), "-");
}

#[test]
fn success_is_a_status_from_200_to_299() {
    for status in [200u16, 201, 204, 250, 299] {
        assert_eq!(
            http_get_string(answered(status, "as printed", Ok("the body"))),
            Ok("the body".to_string())
        );
    }
    for status in [0u16, 100, 199, 300, 301, 404, 500, 599, u16::MAX] {
        assert_eq!(
            http_get_string(answered(status, "as printed", Ok("the body"))),
            Err("HTTP error: status as printed".to_string())
        );
    }
    // A body that could not be read matters only where the status is a success.
    assert_eq!(
        http_get_string(answered(404, "404 Not Found", Err("eof"))),
        Err("HTTP error: status 404 Not Found".to_string())
    );
}
