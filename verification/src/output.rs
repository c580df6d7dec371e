//! Classification of a finished run and CSV row rendering. Terminal
//! rendering with its alignment and float formatting is plain output and
//! lives outside the library; everything that decides or formats a value
//! is here, pinned by contracts.

use crate::ipapi::IpInfo;
use crate::json::{entries_lookup, spec_bool_or, spec_field, spec_i64_or, JsonValue};
use crate::result::DetectionResult;
use crate::textfmt::{bool_chars, bool_to_str, dec_int, i64_to_string, push_char, str_to_chars};
use vstd::prelude::*;

verus! {

/// Aggregate verdict for a single scanned path.
#[derive(Clone, Copy, Debug, PartialEq, Eq, Structural)]
pub enum BulkStatus {
    Clean,
    Detected,
}

/// Extracted verdict fields from a detection result.
#[derive(Debug)]
pub struct Verdict {
    pub proxy_detected: bool,
    pub vpn_detected: bool,
    pub proxy_positive: i64,
    pub proxy_total: i64,
    pub vpn_positive: i64,
    pub vpn_total: i64,
}

/// The field `field` of the sub-test named `key`, if both exist.
pub open spec fn test_field(
    tests: Seq<(String, JsonValue)>,
    key: Seq<char>,
    field: Seq<char>,
) -> Option<JsonValue> {
    match entries_lookup(tests, key) {
        Some(v) => spec_field(v, field),
        None => None,
    }
}

/// The verdict a sub-test mapping yields: the `isProxy` / `isVpn` flags
/// of the `proxy` and `vpn` sub-tests (absent reads as false) and their
/// positive/total test counts (absent reads as zero).
pub open spec fn spec_verdict(tests: Seq<(String, JsonValue)>) -> Verdict {
    Verdict {
        proxy_detected: spec_bool_or(test_field(tests, "proxy"@, "isProxy"@), false),
        vpn_detected: spec_bool_or(test_field(tests, "vpn"@, "isVpn"@), false),
        proxy_positive: spec_i64_or(test_field(tests, "proxy"@, "numPositiveTests"@), 0),
        proxy_total: spec_i64_or(test_field(tests, "proxy"@, "numTests"@), 0),
        vpn_positive: spec_i64_or(test_field(tests, "vpn"@, "numPositiveTests"@), 0),
        vpn_total: spec_i64_or(test_field(tests, "vpn"@, "numTests"@), 0),
    }
}

fn test_field_get<'a>(tests: &'a Vec<(String, JsonValue)>, key: &str, field: &str) -> (r: Option<
    &'a JsonValue,
>)
    ensures
        match r {
            Some(v) => test_field(tests@, key@, field@) == Some(*v),
            None => test_field(tests@, key@, field@) is None,
        },
{
    match crate::json::entries_get(tests, key) {
        Some(sub) => crate::json::get_field(sub, field),
        None => None,
    }
}

fn test_field_bool(tests: &Vec<(String, JsonValue)>, key: &str, field: &str) -> (r: bool)
    ensures
        r == spec_bool_or(test_field(tests@, key@, field@), false),
{
    match test_field_get(tests, key, field) {
        Some(JsonValue::Bool(b)) => *b,
        _ => false,
    }
}

fn test_field_i64(tests: &Vec<(String, JsonValue)>, key: &str, field: &str) -> (r: i64)
    ensures
        r == spec_i64_or(test_field(tests@, key@, field@), 0),
{
    match test_field_get(tests, key, field) {
        Some(v) => match crate::json::json_i64(v) {
            Some(n) => n,
            None => 0,
        },
        None => 0,
    }
}

/// Read the proxy/VPN verdict fields out of a sub-test mapping.
pub fn extract_verdict(tests: &Vec<(String, JsonValue)>) -> (r: Verdict)
    ensures
        r == spec_verdict(tests@),
{
    Verdict {
        proxy_detected: test_field_bool(tests, "proxy", "isProxy"),
        vpn_detected: test_field_bool(tests, "vpn", "isVpn"),
        proxy_positive: test_field_i64(tests, "proxy", "numPositiveTests"),
        proxy_total: test_field_i64(tests, "proxy", "numTests"),
        vpn_positive: test_field_i64(tests, "vpn", "numPositiveTests"),
        vpn_total: test_field_i64(tests, "vpn", "numTests"),
    }
}

/// The verdict line and icon for one sub-test's proxy/VPN flags.
pub open spec fn spec_verdict_text(is_proxy: Option<bool>, is_vpn: Option<bool>) -> (
    Seq<char>,
    Seq<char>,
) {
    let pd = is_proxy == Some(true);
    let vd = is_vpn == Some(true);
    if pd && vd {
        ("PROXY+VPN DETECTED"@, "[!!]"@)
    } else if pd {
        ("PROXY DETECTED"@, "[!!]"@)
    } else if vd {
        ("VPN DETECTED"@, "[!!]"@)
    } else if is_proxy is None && is_vpn is None {
        ("N/A"@, "[ ]"@)
    } else if is_proxy == Some(false) || is_vpn == Some(false) {
        ("clean"@, "[ok]"@)
    } else {
        ("inconclusive"@, "[? ]"@)
    }
}

/// The verdict text and icon for one sub-test: detected flags beat
/// everything, two absent flags read as not applicable, an explicit
/// false reads as clean, and the rest is inconclusive.
pub fn determine_verdict(is_proxy: Option<bool>, is_vpn: Option<bool>) -> (r: (
    &'static str,
    &'static str,
))
    ensures
        (r.0@, r.1@) == spec_verdict_text(is_proxy, is_vpn),
{
    let proxy_detected = matches!(is_proxy, Some(true));
    let vpn_detected = matches!(is_vpn, Some(true));
    if proxy_detected && vpn_detected {
        ("PROXY+VPN DETECTED", "[!!]")
    } else if proxy_detected {
        ("PROXY DETECTED", "[!!]")
    } else if vpn_detected {
        ("VPN DETECTED", "[!!]")
    } else if matches!(is_proxy, None) && matches!(is_vpn, None) {
        ("N/A", "[ ]")
    } else if matches!(is_proxy, Some(false)) || matches!(is_vpn, Some(false)) {
        ("clean", "[ok]")
    } else {
        ("inconclusive", "[? ]")
    }
}

/// What one verdict column shows: the positive and total counts when
/// the verdict flags the path, the plain label when it does not.
pub open spec fn spec_verdict_field(
    label: Seq<char>,
    detected: bool,
    positive: int,
    total: int,
) -> Seq<char> {
    if detected {
        "DETECTED("@ + dec_int(positive) + "/"@ + dec_int(total) + ")"@
    } else {
        label
    }
}

/// Render one verdict column: the counts when detected, the label
/// otherwise.
pub fn format_verdict_field(label: &str, detected: bool, positive: i64, total: i64) -> (r: String)
    ensures
        r@ == spec_verdict_field(label@, detected, positive as int, total as int),
{
    if detected {
        let mut s = "DETECTED(".to_owned();
        s.append(i64_to_string(positive).as_str());
        s.append("/");
        s.append(i64_to_string(total).as_str());
        s.append(")");
        proof {
            assert(s@ =~= spec_verdict_field(label@, detected, positive as int, total as int));
        }
        s
    } else {
        label.to_owned()
    }
}

/// Whether a result classifies as detected: its verdict flags either
/// proxy or VPN use.
pub open spec fn spec_detected(tests: Seq<(String, JsonValue)>) -> bool {
    spec_verdict(tests).proxy_detected || spec_verdict(tests).vpn_detected
}

/// Classify a detection result as clean or detected.
pub fn classify_result(result: &DetectionResult) -> (r: BulkStatus)
    ensures
        (r is Detected) == spec_detected(result.tests@),
        (r is Clean) == !spec_detected(result.tests@),
{
    let verdict = extract_verdict(&result.tests);
    if verdict.proxy_detected || verdict.vpn_detected {
        BulkStatus::Detected
    } else {
        BulkStatus::Clean
    }
}

/// A field with its quotes doubled, escaped character by character.
pub open spec fn csv_escape(s: Seq<char>) -> Seq<char>
    decreases s.len(),
{
    if s.len() == 0 {
        Seq::empty()
    } else {
        csv_escape(s.drop_last()) + (if s.last() == '"' {
            seq!['"', '"']
        } else {
            seq![s.last()]
        })
    }
}

/// A field wrapped in quotes, with internal quotes doubled.
pub open spec fn spec_csv_quote(s: Seq<char>) -> Seq<char> {
    seq!['"'] + csv_escape(s) + seq!['"']
}

/// Quote a CSV field: double any internal quotes, wrap in quotes.
#[verifier::loop_isolation(false)]
pub fn csv_quote(field: &str) -> (r: String)
    ensures
        r@ == spec_csv_quote(field@),
{
    let chars = str_to_chars(field);
    let mut s = String::new();
    push_char(&mut s, '"');
    let n = chars.len();
    proof {
        assert(chars@.subrange(0, 0) =~= Seq::<char>::empty());
        assert(s@ =~= seq!['"'] + csv_escape(chars@.subrange(0, 0)));
    }
    let mut i: usize = 0;
    while i < n
        invariant
            0 <= i <= n == chars@.len(),
            s@ == seq!['"'] + csv_escape(chars@.subrange(0, i as int)),
        decreases n - i,
    {
        let c = chars[i];
        proof {
            assert(chars@.subrange(0, i + 1).drop_last() =~= chars@.subrange(0, i as int));
            assert(chars@.subrange(0, i + 1).last() == chars@[i as int]);
        }
        if c == '"' {
            push_char(&mut s, '"');
            push_char(&mut s, '"');
        } else {
            push_char(&mut s, c);
        }
        proof {
            assert(s@ =~= seq!['"'] + csv_escape(chars@.subrange(0, i + 1)));
        }
        i += 1;
    }
    push_char(&mut s, '"');
    proof {
        assert(chars@.subrange(0, n as int) =~= chars@);
        assert(s@ =~= spec_csv_quote(field@));
    }
    s
}

/// The CSV header row for the chosen column set.
pub open spec fn spec_csv_header(include_ipapi: bool) -> Seq<char> {
    if include_ipapi {
        "proxy,exit_ip,status,proxy_detected,vpn_detected,proxy_score,vpn_score,proxy_positive_tests,proxy_total_tests,vpn_positive_tests,vpn_total_tests,error"@
            + ",ipapi_proxy,ipapi_vpn,ipapi_datacenter,ipapi_abuser,abuser_score,company,company_type,asn_org,country,city"@
    } else {
        "proxy,exit_ip,status,proxy_detected,vpn_detected,proxy_score,vpn_score,proxy_positive_tests,proxy_total_tests,vpn_positive_tests,vpn_total_tests,error"@
    }
}

/// The CSV header row, with the reputation columns when asked for.
pub fn csv_header(include_ipapi: bool) -> (r: String)
    ensures
        r@ == spec_csv_header(include_ipapi),
{
    let mut base =
        "proxy,exit_ip,status,proxy_detected,vpn_detected,proxy_score,vpn_score,proxy_positive_tests,proxy_total_tests,vpn_positive_tests,vpn_total_tests,error".to_owned();
    if include_ipapi {
        base.append(
            ",ipapi_proxy,ipapi_vpn,ipapi_datacenter,ipapi_abuser,abuser_score,company,company_type,asn_org,country,city",
        );
    }
    base
}

/// The reputation columns of a row: the threat booleans, the score text,
/// and the quoted provenance fields; all empty without a record.
pub open spec fn spec_ipapi_columns(info: Option<IpInfo>) -> Seq<char> {
    match info {
        Some(i) => bool_chars(i.is_proxy) + ","@ + bool_chars(i.is_vpn) + ","@ + bool_chars(
            i.is_datacenter,
        ) + ","@ + bool_chars(i.is_abuser) + ","@ + i.abuser_score@ + ","@ + spec_csv_quote(
            i.company@,
        ) + ","@ + spec_csv_quote(i.company_type@) + ","@ + spec_csv_quote(i.asn_org@) + ","@
            + spec_csv_quote(i.country@) + ","@ + spec_csv_quote(i.city@),
        None => ",,,,,,,,,"@,
    }
}

/// A spec view of an optional borrowed record.
pub open spec fn opt_info(info: Option<&IpInfo>) -> Option<IpInfo> {
    match info {
        Some(i) => Some(*i),
        None => None,
    }
}

fn csv_ipapi_columns(ip_info: Option<&IpInfo>) -> (r: String)
    ensures
        r@ == spec_ipapi_columns(opt_info(ip_info)),
{
    match ip_info {
        Some(info) => {
            let mut s = String::new();
            s.append(bool_to_str(info.is_proxy));
            s.append(",");
            s.append(bool_to_str(info.is_vpn));
            s.append(",");
            s.append(bool_to_str(info.is_datacenter));
            s.append(",");
            s.append(bool_to_str(info.is_abuser));
            s.append(",");
            s.append(info.abuser_score.as_str());
            s.append(",");
            s.append(csv_quote(info.company.as_str()).as_str());
            s.append(",");
            s.append(csv_quote(info.company_type.as_str()).as_str());
            s.append(",");
            s.append(csv_quote(info.asn_org.as_str()).as_str());
            s.append(",");
            s.append(csv_quote(info.country.as_str()).as_str());
            s.append(",");
            s.append(csv_quote(info.city.as_str()).as_str());
            proof {
                assert(s@ =~= spec_ipapi_columns(opt_info(ip_info)));
            }
            s
        },
        None => ",,,,,,,,,".to_owned(),
    }
}

/// A successful scan's CSV row: the quoted path and exit IP, the
/// clean/detected status, the verdict flags and counts, an empty error
/// column, and the reputation columns when asked for.
pub open spec fn spec_csv_row(
    display: Seq<char>,
    exit_ip: Seq<char>,
    tests: Seq<(String, JsonValue)>,
    info: Option<IpInfo>,
    include_ipapi: bool,
) -> Seq<char> {
    let v = spec_verdict(tests);
    let status: Seq<char> = if v.proxy_detected || v.vpn_detected {
        "detected"@
    } else {
        "clean"@
    };
    let base = spec_csv_quote(display) + ","@ + spec_csv_quote(exit_ip) + ","@ + status + ","@
        + bool_chars(v.proxy_detected) + ","@ + bool_chars(v.vpn_detected) + ","@ + dec_int(
        spec_i64_or(test_field(tests, "proxy"@, "score"@), 0) as int,
    ) + ","@ + dec_int(spec_i64_or(test_field(tests, "vpn"@, "score"@), 0) as int) + ","@ + dec_int(
        v.proxy_positive as int,
    ) + ","@ + dec_int(v.proxy_total as int) + ","@ + dec_int(v.vpn_positive as int) + ","@
        + dec_int(v.vpn_total as int) + ","@;
    if include_ipapi {
        base + ","@ + spec_ipapi_columns(info)
    } else {
        base
    }
}

/// Format a successful result as a CSV row.
pub fn csv_row(
    proxy_display: &str,
    result: &DetectionResult,
    ip_info: Option<&IpInfo>,
    include_ipapi: bool,
) -> (r: String)
    ensures
        r@ == spec_csv_row(
            proxy_display@,
            result.exit_ip@,
            result.tests@,
            opt_info(ip_info),
            include_ipapi,
        ),
{
    let verdict = extract_verdict(&result.tests);
    let status = if verdict.proxy_detected || verdict.vpn_detected {
        "detected"
    } else {
        "clean"
    };
    let proxy_score = test_field_i64(&result.tests, "proxy", "score");
    let vpn_score = test_field_i64(&result.tests, "vpn", "score");

    let mut row = csv_quote(proxy_display);
    row.append(",");
    row.append(csv_quote(result.exit_ip.as_str()).as_str());
    row.append(",");
    row.append(status);
    row.append(",");
    row.append(bool_to_str(verdict.proxy_detected));
    row.append(",");
    row.append(bool_to_str(verdict.vpn_detected));
    row.append(",");
    row.append(i64_to_string(proxy_score).as_str());
    row.append(",");
    row.append(i64_to_string(vpn_score).as_str());
    row.append(",");
    row.append(i64_to_string(verdict.proxy_positive).as_str());
    row.append(",");
    row.append(i64_to_string(verdict.proxy_total).as_str());
    row.append(",");
    row.append(i64_to_string(verdict.vpn_positive).as_str());
    row.append(",");
    row.append(i64_to_string(verdict.vpn_total).as_str());
    row.append(",");

    if include_ipapi {
        // Keep the error column explicitly empty before the reputation columns.
        row.append(",");
        row.append(csv_ipapi_columns(ip_info).as_str());
    }
    proof {
        assert(row@ =~= spec_csv_row(
            proxy_display@,
            result.exit_ip@,
            result.tests@,
            opt_info(ip_info),
            include_ipapi,
        ));
    }
    row
}

/// A failed scan's CSV row: the quoted path, an `error` status, empty
/// verdict columns, the quoted error text, and empty reputation columns
/// when asked for.
pub open spec fn spec_csv_error_row(
    display: Seq<char>,
    err: Seq<char>,
    include_ipapi: bool,
) -> Seq<char> {
    let base = spec_csv_quote(display) + ",,error,,,,,,,,,"@ + spec_csv_quote(err);
    if include_ipapi {
        base + ","@ + ",,,,,,,,,"@
    } else {
        base
    }
}

/// Format an error as a CSV row.
pub fn csv_error_row(proxy_display: &str, err: &str, include_ipapi: bool) -> (r: String)
    ensures
        r@ == spec_csv_error_row(proxy_display@, err@, include_ipapi),
{
    let mut row = csv_quote(proxy_display);
    row.append(",,error,,,,,,,,,");
    row.append(csv_quote(err).as_str());
    if include_ipapi {
        row.append(",");
        row.append(csv_ipapi_columns(None).as_str());
    }
    proof {
        assert(row@ =~= spec_csv_error_row(proxy_display@, err@, include_ipapi));
    }
    row
}

/// "Y" or "N" for a threat flag column.
pub fn bool_flag(value: bool) -> (r: &'static str)
    ensures
        r@ == (if value {
            "Y"@
        } else {
            "N"@
        }),
{
    if value {
        "Y"
    } else {
        "N"
    }
}

/// The value itself, or "unknown" in place of empty text.
pub fn value_or_unknown<'a>(value: &'a str) -> (r: &'a str)
    ensures
        r@ == (if value@.len() == 0 {
            "unknown"@
        } else {
            value@
        }),
{
    if value.unicode_len() == 0 {
        "unknown"
    } else {
        value
    }
}

} // verus!
