use proxy_detector::output::{
    bool_flag, classify_result, csv_error_row, csv_header, csv_quote, csv_row, determine_verdict,
    extract_verdict, format_verdict_field, value_or_unknown, BulkStatus,
};
use proxy_detector::ipapi::parse_response;
use proxy_detector::json::parse_json;
use proxy_detector::result::parse_result;

fn detected_result() -> proxy_detector::result::DetectionResult {
    let body = r#"{"finished":true,"proxy":{"isProxy":true,"numPositiveTests":3,"numTests":10,"score":3},"vpn":{"isVpn":false,"numPositiveTests":0,"numTests":5,"score":0}}"#;
    let mut r = parse_result(body).unwrap();
    r.exit_ip = String::from("9.9.9.9");
    r
}

fn clean_result() -> proxy_detector::result::DetectionResult {
    let mut r = parse_result(r#"{"finished":true,"proxy":{"isProxy":false}}"#).unwrap();
    r.exit_ip = String::from("9.9.9.9");
    r
}

#[test]
fn determine_verdict_branches() {
    assert_eq!(determine_verdict(Some(true), Some(true)), ("PROXY+VPN DETECTED", "[!!]"));
    assert_eq!(determine_verdict(Some(true), None), ("PROXY DETECTED", "[!!]"));
    assert_eq!(determine_verdict(None, Some(true)), ("VPN DETECTED", "[!!]"));
    assert_eq!(determine_verdict(None, None), ("N/A", "[ ]"));
    assert_eq!(determine_verdict(Some(false), None), ("clean", "[ok]"));
    assert_eq!(determine_verdict(None, Some(false)), ("clean", "[ok]"));
}

#[test]
fn format_verdict_field_cases() {
    assert_eq!(format_verdict_field("clean", true, 3, 10), "DETECTED(3/10)");
    assert_eq!(format_verdict_field("clean", false, 3, 10), "clean");
    assert_eq!(format_verdict_field("x", true, 0, 0), "DETECTED(0/0)");
}

#[test]
fn extract_verdict_reads_counts() {
    let r = detected_result();
    let v = extract_verdict(&r.tests);
    assert!(v.proxy_detected);
    assert!(!v.vpn_detected);
    assert_eq!(v.proxy_positive, 3);
    assert_eq!(v.proxy_total, 10);
    assert_eq!(v.vpn_positive, 0);
    assert_eq!(v.vpn_total, 5);
}

#[test]
fn classify_detected_and_clean() {
    assert_eq!(classify_result(&detected_result()), BulkStatus::Detected);
    assert_eq!(classify_result(&clean_result()), BulkStatus::Clean);
}

#[test]
fn csv_quote_doubles_quotes() {
    assert_eq!(csv_quote("plain"), "\"plain\"");
    assert_eq!(csv_quote("say \"hi\""), "\"say \"\"hi\"\"\"");
    assert_eq!(csv_quote(""), "\"\"");
}

#[test]
fn csv_header_columns() {
    assert_eq!(
        csv_header(false),
        "proxy,exit_ip,status,proxy_detected,vpn_detected,proxy_score,vpn_score,proxy_positive_tests,proxy_total_tests,vpn_positive_tests,vpn_total_tests,error"
    );
    assert_eq!(
        csv_header(true),
        "proxy,exit_ip,status,proxy_detected,vpn_detected,proxy_score,vpn_score,proxy_positive_tests,proxy_total_tests,vpn_positive_tests,vpn_total_tests,error,ipapi_proxy,ipapi_vpn,ipapi_datacenter,ipapi_abuser,abuser_score,company,company_type,asn_org,country,city"
    );
}

#[test]
fn csv_row_exact() {
    let r = detected_result();
    let row = csv_row("http://u:p@h:80", &r, None, false);
    assert_eq!(row, "\"http://u:p@h:80\",\"9.9.9.9\",detected,true,false,3,0,3,10,0,5,");
}

#[test]
fn csv_row_with_reputation_columns() {
    let body = r#"{"ip":"9.9.9.9","is_proxy":true,"is_vpn":false,"is_datacenter":true,"is_tor":false,"is_abuser":false,"company":{"name":"ExampleCo","type":"hosting","abuser_score":"0.0042 (Low)"},"asn":{"org":"EXAMPLE-AS"},"location":{"country":"DE","city":"Berlin"}}"#;
    let node = parse_json(body).unwrap();
    let info = parse_response(&node);
    let r = clean_result();
    let row = csv_row("direct", &r, Some(&info), true);
    assert_eq!(
        row,
        "\"direct\",\"9.9.9.9\",clean,false,false,0,0,0,0,0,0,,true,false,true,false,0.0042,\"ExampleCo\",\"hosting\",\"EXAMPLE-AS\",\"DE\",\"Berlin\""
    );
}

#[test]
fn csv_error_row_exact() {
    assert_eq!(
        csv_error_row("bad-proxy", "connect timeout", false),
        "\"bad-proxy\",,error,,,,,,,,,\"connect timeout\""
    );
    assert_eq!(
        csv_error_row("bad-proxy", "x", true),
        "\"bad-proxy\",,error,,,,,,,,,\"x\",,,,,,,,,,"
    );
}

#[test]
fn small_render_helpers() {
    assert_eq!(bool_flag(true), "Y");
    assert_eq!(bool_flag(false), "N");
    assert_eq!(value_or_unknown(""), "unknown");
    assert_eq!(value_or_unknown("ACME"), "ACME");
}
