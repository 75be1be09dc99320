use texttool::json::parse_request;

fn accepted(s: &str) -> bool {
    parse_request(s).is_some()
}

#[test]
fn accepts_well_formed_envelopes() {
    assert!(accepted("{\"input\":\"a\"}"));
    assert!(accepted("  { \"input\" : \"a\" }  "));
    assert!(accepted("{\"input\":\"\"}"));
    assert!(accepted("{\"input\":\"a\",\"options\":null}"));
    assert!(accepted("{\"input\":\"a\",\"options\":{}}"));
    assert!(accepted("{\"input\":\"a\",\"options\":{\"uppercase\":null}}"));
    assert!(accepted("{\"input\":\"a\",\"options\":{\"reverse\":false}}"));
    assert!(accepted("{\"options\":{\"uppercase\":true},\"input\":\"a\"}"));
}

#[test]
fn accepts_unknown_members_of_any_shape() {
    assert!(accepted("{\"input\":\"a\",\"extra\":[1,-2.5,1e3,true,null,\"s\"]}"));
    assert!(accepted("{\"input\":\"a\",\"extra\":{\"nested\":{\"deep\":[{}]}}}"));
    assert!(accepted("{\"input\":\"a\",\"x\":1,\"x\":2}"));
    assert!(accepted("{\"input\":\"a\",\"options\":{\"junk\":1.5e-3,\"reverse\":true}}"));
}

#[test]
fn accepts_escaped_keys_and_strings() {
    // An escaped key still names the member.
    let r = parse_request("{\"\\u0069nput\":\"a\"}").unwrap();
    assert_eq!(r.input, "a");
    let r2 = parse_request("{\"input\":\"a\\n\\u0041\\\\\\\"\\/\\b\\f\\r\\t\"}").unwrap();
    assert_eq!(r2.input, "a\nA\\\"/\u{8}\u{c}\r\t");
}

#[test]
fn resolves_flags_and_defaults() {
    let r = parse_request("{\"input\":\"a\"}").unwrap();
    assert!(!r.uppercase && !r.reverse);
    let r2 = parse_request("{\"input\":\"a\",\"options\":{\"uppercase\":true}}").unwrap();
    assert!(r2.uppercase && !r2.reverse);
    let r3 = parse_request(
        "{\"input\":\"a\",\"options\":{\"uppercase\":null,\"reverse\":true}}",
    )
    .unwrap();
    assert!(!r3.uppercase && r3.reverse);
}

#[test]
fn rejects_malformed_syntax() {
    assert!(!accepted(""));
    assert!(!accepted("   "));
    assert!(!accepted("not json"));
    assert!(!accepted("{"));
    assert!(!accepted("{\"input\":\"a\""));
    assert!(!accepted("{\"input\":\"a\",}"));
    assert!(!accepted("{\"input\":\"a\" \"b\":1}"));
    assert!(!accepted("{\"input\":\"a\"} trailing"));
    assert!(!accepted("{'input':'a'}"));
    assert!(!accepted("{\"input\":\"a\\x\"}"));
    assert!(!accepted("{\"input\":\"a\t\"}"));
}

#[test]
fn rejects_wrong_shape() {
    assert!(!accepted("{}"));
    assert!(!accepted("[]"));
    assert!(!accepted("\"input\""));
    assert!(!accepted("null"));
    assert!(!accepted("{\"options\":{\"uppercase\":true}}"));
    assert!(!accepted("{\"input\":5}"));
    assert!(!accepted("{\"input\":null}"));
    assert!(!accepted("{\"input\":[\"a\"]}"));
    assert!(!accepted("{\"input\":\"a\",\"options\":[]}"));
    assert!(!accepted("{\"input\":\"a\",\"options\":\"x\"}"));
    assert!(!accepted("{\"input\":\"a\",\"options\":{\"uppercase\":1}}"));
    assert!(!accepted("{\"input\":\"a\",\"options\":{\"uppercase\":\"true\"}}"));
}

#[test]
fn rejects_repeated_known_members() {
    assert!(!accepted("{\"input\":\"a\",\"input\":\"b\"}"));
    assert!(!accepted("{\"input\":\"a\",\"options\":null,\"options\":null}"));
    assert!(!accepted(
        "{\"input\":\"a\",\"options\":{\"uppercase\":true,\"uppercase\":true}}"
    ));
    assert!(!accepted(
        "{\"input\":\"a\",\"options\":{\"reverse\":true,\"reverse\":false}}"
    ));
}

#[test]
fn rejects_bad_unicode_escapes() {
    assert!(!accepted("{\"input\":\"\\u12\"}"));
    assert!(!accepted("{\"input\":\"\\u12g4\"}"));
    // A lone or ill-paired surrogate is rejected.
    assert!(!accepted("{\"input\":\"\\ud800\"}"));
    assert!(!accepted("{\"input\":\"\\ud800x\"}"));
    assert!(!accepted("{\"input\":\"\\ud800\\u0041\"}"));
    assert!(!accepted("{\"input\":\"\\ude00\"}"));
}

#[test]
fn number_grammar_in_skipped_members() {
    assert!(accepted("{\"input\":\"a\",\"n\":0}"));
    assert!(accepted("{\"input\":\"a\",\"n\":-0.5}"));
    assert!(accepted("{\"input\":\"a\",\"n\":12.75e+2}"));
    assert!(accepted("{\"input\":\"a\",\"n\":3E-1}"));
    assert!(!accepted("{\"input\":\"a\",\"n\":01}"));
    assert!(!accepted("{\"input\":\"a\",\"n\":1.}"));
    assert!(!accepted("{\"input\":\"a\",\"n\":.5}"));
    assert!(!accepted("{\"input\":\"a\",\"n\":1e}"));
    assert!(!accepted("{\"input\":\"a\",\"n\":-}"));
}

#[test]
fn agreement_with_reference_parser_on_plain_documents() {
    // On documents without repeated members, acceptance agrees with a
    // reference JSON parser applied to the same shape conditions.
    let cases = [
        "{\"input\":\"a\"}",
        "{\"input\":\"a\",\"options\":{\"uppercase\":true,\"reverse\":false}}",
        "{\"input\":\"a\",\"extra\":[1,2,3]}",
        "{\"input\":\"a\",",
        "{\"input\":\"a\"}}",
        "{\"input\" \"a\"}",
        "nope",
        "42",
    ];
    for c in cases {
        let reference: Result<serde_json::Value, _> = serde_json::from_str(c);
        let reference_ok = match reference {
            Err(_) => false,
            Ok(v) => match v.get("input") {
                Some(serde_json::Value::String(_)) => true,
                _ => false,
            },
        };
        assert_eq!(accepted(c), reference_ok, "disagreement on {:?}", c);
    }
}
