use proxy_detector::ipapi::{parse_abuser_score, parse_response};
use proxy_detector::json::parse_json;

#[test]
fn abuser_score_with_label() {
    let (score, label) = parse_abuser_score("0.0042 (Low)");
    assert_eq!(score, "0.0042");
    assert_eq!(label, "Low");
}

#[test]
fn abuser_score_without_label() {
    let (score, label) = parse_abuser_score("0.9");
    assert_eq!(score, "0.9");
    assert_eq!(label, "");
}

#[test]
fn abuser_score_trims_everything() {
    let (score, label) = parse_abuser_score("  1 ( Elevated )  ");
    assert_eq!(score, "1");
    assert_eq!(label, "Elevated");
}

#[test]
fn abuser_score_mismatched_parens_kept_whole() {
    let (score, label) = parse_abuser_score(")(");
    assert_eq!(score, ")(");
    assert_eq!(label, "");
}

#[test]
fn abuser_score_empty() {
    let (score, label) = parse_abuser_score("");
    assert_eq!(score, "");
    assert_eq!(label, "");
}

#[test]
fn parse_response_flattens_fields() {
    let body = r#"{"ip":"5.6.7.8","is_proxy":true,"is_vpn":false,"is_datacenter":true,"is_tor":false,"is_abuser":true,"company":{"name":"HostCo","type":"hosting","abuser_score":"0.31 (High)"},"asn":{"org":"HOST-AS"},"location":{"country":"NL","city":"Amsterdam"}}"#;
    let node = parse_json(body).unwrap();
    let info = parse_response(&node);
    assert_eq!(info.ip, "5.6.7.8");
    assert!(info.is_proxy);
    assert!(!info.is_vpn);
    assert!(info.is_datacenter);
    assert!(!info.is_tor);
    assert!(info.is_abuser);
    assert_eq!(info.abuser_score, "0.31");
    assert_eq!(info.abuser_label, "High");
    assert_eq!(info.company, "HostCo");
    assert_eq!(info.company_type, "hosting");
    assert_eq!(info.asn_org, "HOST-AS");
    assert_eq!(info.country, "NL");
    assert_eq!(info.city, "Amsterdam");
}

#[test]
fn parse_response_missing_fields_read_as_defaults() {
    let node = parse_json("{}").unwrap();
    let info = parse_response(&node);
    assert_eq!(info.ip, "");
    assert!(!info.is_proxy);
    assert_eq!(info.abuser_score, "");
    assert_eq!(info.abuser_label, "");
    assert_eq!(info.company, "");
}

#[test]
fn parse_response_wrong_types_read_as_defaults() {
    let node = parse_json(r#"{"ip":7,"is_proxy":"yes","company":"flat"}"#).unwrap();
    let info = parse_response(&node);
    assert_eq!(info.ip, "");
    assert!(!info.is_proxy);
    assert_eq!(info.company, "");
}
