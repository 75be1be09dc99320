use texttool::{greet, process_tool};
use texttool::timefmt::iso8601_utc;
use texttool::transform::transform;

#[test]
fn no_options_returns_input_unchanged() {
    let r = process_tool("{\"input\":\"hello\"}", 0);
    assert_eq!(
        r,
        "{\"output\":\"hello\",\"processed\":true,\"timestamp\":\"1970-01-01T00:00:00.000Z\"}"
    );
}

#[test]
fn empty_options_returns_input_unchanged() {
    let r = process_tool("{\"input\":\"hello\",\"options\":{}}", 0);
    assert_eq!(
        r,
        "{\"output\":\"hello\",\"processed\":true,\"timestamp\":\"1970-01-01T00:00:00.000Z\"}"
    );
}

#[test]
fn uppercase_only() {
    let r = process_tool("{\"input\":\"hello\",\"options\":{\"uppercase\":true}}", 0);
    assert_eq!(
        r,
        "{\"output\":\"HELLO\",\"processed\":true,\"timestamp\":\"1970-01-01T00:00:00.000Z\"}"
    );
}

#[test]
fn reverse_only() {
    let r = process_tool("{\"input\":\"abc\",\"options\":{\"reverse\":true}}", 0);
    assert_eq!(
        r,
        "{\"output\":\"cba\",\"processed\":true,\"timestamp\":\"1970-01-01T00:00:00.000Z\"}"
    );
}

#[test]
fn both_flags_uppercase_first_then_reverse() {
    let r = process_tool(
        "{\"input\":\"stra\u{df}e\",\"options\":{\"uppercase\":true,\"reverse\":true}}",
        0,
    );
    assert_eq!(
        r,
        "{\"output\":\"ESSARTS\",\"processed\":true,\"timestamp\":\"1970-01-01T00:00:00.000Z\"}"
    );
}

#[test]
fn transform_pipeline_direct() {
    assert_eq!(transform("hello", false, false), "hello");
    assert_eq!(transform("hello", true, false), "HELLO");
    assert_eq!(transform("abc", false, true), "cba");
    assert_eq!(transform("h\u{e9}llo", false, true), "oll\u{e9}h");
    assert_eq!(transform("stra\u{df}e", true, true), "ESSARTS");
}

#[test]
fn transform_order_is_not_interchangeable() {
    // The ligature expands under uppercasing, so uppercase-then-reverse and
    // reverse-then-uppercase differ.
    let upper_then_reverse = transform("a\u{fb01}", true, true);
    let reverse_then_upper = transform(&transform("a\u{fb01}", false, true), true, false);
    assert_eq!(upper_then_reverse, "IFA");
    assert_eq!(reverse_then_upper, "FIA");
    assert_ne!(upper_then_reverse, reverse_then_upper);
}

#[test]
fn uppercase_is_idempotent_here() {
    for s in ["hello", "stra\u{df}e", "MIXED case 123", "a\u{fb01}"] {
        let once = transform(s, true, false);
        let twice = transform(&once, true, false);
        assert_eq!(once, twice);
    }
}

#[test]
fn reverse_twice_restores_input() {
    for s in ["", "a", "abc", "h\u{e9}llo \u{1F600}"] {
        let back = transform(&transform(s, false, true), false, true);
        assert_eq!(back, s);
    }
}

#[test]
fn reverse_twice_through_the_envelope() {
    let first = process_tool("{\"input\":\"abc\",\"options\":{\"reverse\":true}}", 7);
    let v: serde_json::Value = serde_json::from_str(&first).unwrap();
    let out = v.get("output").unwrap().as_str().unwrap();
    assert_eq!(out, "cba");
    let again = format!(
        "{{\"input\":{},\"options\":{{\"reverse\":true}}}}",
        serde_json::to_string(out).unwrap()
    );
    let second = process_tool(&again, 7);
    let v2: serde_json::Value = serde_json::from_str(&second).unwrap();
    assert_eq!(v2.get("output").unwrap().as_str().unwrap(), "abc");
}

#[test]
fn malformed_json_gives_fixed_error_envelope() {
    let r = process_tool("not json", 123456789);
    assert_eq!(
        r,
        "{\"output\":\"Invalid input JSON\",\"processed\":false,\"timestamp\":\"\"}"
    );
}

#[test]
fn missing_input_gives_fixed_error_envelope() {
    let r = process_tool("{\"options\":{\"uppercase\":true}}", 123456789);
    assert_eq!(
        r,
        "{\"output\":\"Invalid input JSON\",\"processed\":false,\"timestamp\":\"\"}"
    );
}

#[test]
fn greet_formats_fixed_greeting() {
    assert_eq!(greet("World"), "Hello, World!");
    assert_eq!(greet(""), "Hello, !");
}

#[test]
fn output_is_json_escaped() {
    let r = process_tool("{\"input\":\"a\\\"b\\\\c\\nd\"}", 0);
    assert_eq!(
        r,
        "{\"output\":\"a\\\"b\\\\c\\nd\",\"processed\":true,\"timestamp\":\"1970-01-01T00:00:00.000Z\"}"
    );
}

#[test]
fn control_characters_escape_as_hex() {
    let r = process_tool("{\"input\":\"x\\u0001y\"}", 0);
    assert_eq!(
        r,
        "{\"output\":\"x\\u0001y\",\"processed\":true,\"timestamp\":\"1970-01-01T00:00:00.000Z\"}"
    );
}

#[test]
fn surrogate_pair_decodes_to_code_point() {
    let r = process_tool("{\"input\":\"\\ud83d\\ude00\"}", 0);
    let v: serde_json::Value = serde_json::from_str(&r).unwrap();
    assert_eq!(v.get("output").unwrap().as_str().unwrap(), "\u{1F600}");
}

#[test]
fn response_is_well_formed_json() {
    for (req, ok) in [
        ("{\"input\":\"hi\"}", true),
        ("garbage", false),
        ("{\"input\":\"\\t\\r\\n\"}", true),
    ] {
        let r = process_tool(req, 1700000000000);
        let v: serde_json::Value = serde_json::from_str(&r).unwrap();
        assert_eq!(v.get("processed").unwrap().as_bool().unwrap(), ok);
    }
}

#[test]
fn timestamp_present_only_on_success() {
    let ok = process_tool("{\"input\":\"hi\"}", 1700000000000);
    let v: serde_json::Value = serde_json::from_str(&ok).unwrap();
    let ts = v.get("timestamp").unwrap().as_str().unwrap();
    assert_eq!(ts, "2023-11-14T22:13:20.000Z");
    assert!(!ts.is_empty());

    let bad = process_tool("{\"input\":5}", 1700000000000);
    let v2: serde_json::Value = serde_json::from_str(&bad).unwrap();
    assert_eq!(v2.get("timestamp").unwrap().as_str().unwrap(), "");
}

#[test]
fn timestamp_shape_is_iso8601() {
    let ts = iso8601_utc(1700000000000);
    let cs: Vec<char> = ts.chars().collect();
    assert_eq!(cs.len(), 24);
    for (i, c) in cs.iter().enumerate() {
        match i {
            4 | 7 => assert_eq!(*c, '-'),
            10 => assert_eq!(*c, 'T'),
            13 | 16 => assert_eq!(*c, ':'),
            19 => assert_eq!(*c, '.'),
            23 => assert_eq!(*c, 'Z'),
            _ => assert!(c.is_ascii_digit()),
        }
    }
}

#[test]
fn timestamp_known_values() {
    assert_eq!(iso8601_utc(0), "1970-01-01T00:00:00.000Z");
    assert_eq!(iso8601_utc(1), "1970-01-01T00:00:00.001Z");
    assert_eq!(iso8601_utc(951782400000), "2000-02-29T00:00:00.000Z");
    assert_eq!(iso8601_utc(951868799999), "2000-02-29T23:59:59.999Z");
    assert_eq!(iso8601_utc(1700000000000), "2023-11-14T22:13:20.000Z");
    // 28 February of a century year that is not a leap year.
    assert_eq!(iso8601_utc(4107456000000), "2100-02-28T00:00:00.000Z");
    assert_eq!(iso8601_utc(4107542400000), "2100-03-01T00:00:00.000Z");
}
