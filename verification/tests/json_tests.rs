use proxy_detector::json::{json_i64, parse_json, JsonValue};
use proxy_detector::result::{parse_result, DetectionResult};

#[test]
fn parse_json_shapes() {
    assert!(matches!(parse_json("null"), Some(JsonValue::Null)));
    assert!(matches!(parse_json("true"), Some(JsonValue::Bool(true))));
    match parse_json("\"hi\"") {
        Some(JsonValue::Str(s)) => assert_eq!(s, "hi"),
        other => panic!("unexpected shape: {:?}", other.is_some()),
    }
    match parse_json("[1, \"a\", false]") {
        Some(JsonValue::Arr(items)) => {
            assert_eq!(items.len(), 3);
            assert!(matches!(items[2], JsonValue::Bool(false)));
        },
        _ => panic!("expected an array"),
    }
    match parse_json(r#"{"k": 42}"#) {
        Some(JsonValue::Obj(entries)) => {
            assert_eq!(entries.len(), 1);
            assert_eq!(entries[0].0, "k");
            assert_eq!(json_i64(&entries[0].1), Some(42));
        },
        _ => panic!("expected an object"),
    }
    assert!(parse_json("{not json").is_none());
    assert!(parse_json("").is_none());
}

#[test]
fn json_i64_reads_integers_only() {
    let num = |s: &str| JsonValue::Num(String::from(s));
    assert_eq!(json_i64(&num("42")), Some(42));
    assert_eq!(json_i64(&num("0")), Some(0));
    assert_eq!(json_i64(&num("-7")), Some(-7));
    assert_eq!(json_i64(&num("9223372036854775807")), Some(i64::MAX));
    assert_eq!(json_i64(&num("-9223372036854775808")), Some(i64::MIN));
    assert_eq!(json_i64(&num("9223372036854775808")), None);
    assert_eq!(json_i64(&num("-9223372036854775809")), None);
    assert_eq!(json_i64(&num("1.5")), None);
    assert_eq!(json_i64(&num("1e3")), None);
    assert_eq!(json_i64(&num("")), None);
    assert_eq!(json_i64(&JsonValue::Str(String::from("42"))), None);
    assert_eq!(json_i64(&JsonValue::Null), None);
}

#[test]
fn parse_result_splits_finished_from_tests() {
    let body = r#"{"finished":true,"proxy":{"isProxy":false},"meta":{"region":"eu"}}"#;
    let r = parse_result(body).unwrap();
    assert!(r.finished);
    assert_eq!(r.tests.len(), 2);
    assert!(r.tests.iter().all(|(k, _)| k != "finished"));
    assert_eq!(r.raw_body, body);
    assert_eq!(r.bandwidth_bytes, 0);
    assert_eq!(r.exit_ip, "");
}

#[test]
fn parse_result_without_finished_flag() {
    let r = parse_result(r#"{"proxy":{}}"#).unwrap();
    assert!(!r.finished);
    assert_eq!(r.tests.len(), 1);
}

#[test]
fn parse_result_non_boolean_finished_reads_false() {
    let r = parse_result(r#"{"finished":"yes"}"#).unwrap();
    assert!(!r.finished);
}

#[test]
fn parse_result_non_object_has_no_tests() {
    let r = parse_result("[1,2,3]").unwrap();
    assert!(!r.finished);
    assert_eq!(r.tests.len(), 0);
}

#[test]
fn parse_result_rejects_invalid_json() {
    assert!(parse_result("{oops").is_none());
}

#[test]
fn default_result_is_empty() {
    let d = DetectionResult::default();
    assert!(!d.finished);
    assert_eq!(d.tests.len(), 0);
    assert_eq!(d.raw_body, "");
    assert_eq!(d.exit_ip, "");
    assert_eq!(d.bandwidth_bytes, 0);
}
