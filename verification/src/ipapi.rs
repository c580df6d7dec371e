//! Reading the IP-reputation response: flattening the provider's JSON into
//! plain threat flags, and splitting its `"<score> (<label>)"` abuser-score
//! text into the score's decimal text and the label. The network fetch
//! itself is plain I/O and lives outside the library.

use crate::json::{spec_field, JsonValue};
use crate::textfmt::{chars_to_string, find_char, first_pos, last_pos, rfind_char, str_to_chars,
    trim_chars, trim_vec, vec_range};
use vstd::prelude::*;

verus! {

/// Flattened IP-reputation facts. The abuser score is kept as decimal
/// text; rendering and numeric comparison are the caller's business.
#[derive(Debug)]
pub struct IpInfo {
    pub ip: String,
    pub is_proxy: bool,
    pub is_vpn: bool,
    pub is_datacenter: bool,
    pub is_tor: bool,
    pub is_abuser: bool,
    pub abuser_score: String,
    pub abuser_label: String,
    pub company: String,
    pub company_type: String,
    pub asn_org: String,
    pub country: String,
    pub city: String,
}

/// How an abuser-score text splits into score text and label: the text is
/// trimmed; when it holds a `(`, and a `)` somewhere after the first `(`,
/// the part between them (trimmed) is the label and the part before the
/// `(` (trimmed) is the score text; otherwise the whole trimmed text is
/// the score text and the label is empty.
pub open spec fn spec_abuser_score(s: Seq<char>) -> (Seq<char>, Seq<char>) {
    let t = trim_chars(s);
    match first_pos(t, '(', 0) {
        Some(o) => match last_pos(t, ')', t.len() as int) {
            Some(c) => if c > o {
                (trim_chars(t.subrange(0, o)), trim_chars(t.subrange(o + 1, c)))
            } else {
                (t, Seq::empty())
            },
            None => (t, Seq::empty()),
        },
        None => (t, Seq::empty()),
    }
}

/// Split an abuser-score text such as `0.0042 (Low)` into the score's
/// decimal text and the parenthesized label, as [`spec_abuser_score`]
/// lays down.
pub fn parse_abuser_score(input: &str) -> (r: (String, String))
    ensures
        (r.0@, r.1@) == spec_abuser_score(input@),
{
    let chars = str_to_chars(input);
    let t = trim_vec(&chars);
    match find_char(&t, '(') {
        Some(o) => match rfind_char(&t, ')') {
            Some(c) => {
                if c > o {
                    let score = trim_vec(&vec_range(&t, 0, o));
                    let label = trim_vec(&vec_range(&t, o + 1, c));
                    let score_s = chars_to_string(&score, 0, score.len());
                    let label_s = chars_to_string(&label, 0, label.len());
                    proof {
                        assert(score@.subrange(0, score@.len() as int) =~= score@);
                        assert(label@.subrange(0, label@.len() as int) =~= label@);
                    }
                    (score_s, label_s)
                } else {
                    (chars_to_string(&t, 0, t.len()), String::new())
                }
            },
            None => (chars_to_string(&t, 0, t.len()), String::new()),
        },
        None => (chars_to_string(&t, 0, t.len()), String::new()),
    }
}

/// The value a path of keys leads to, walking nested objects.
pub open spec fn spec_path(v: JsonValue, path: Seq<Seq<char>>) -> Option<JsonValue>
    decreases path.len(),
{
    if path.len() == 0 {
        Some(v)
    } else {
        match spec_field(v, path[0]) {
            Some(w) => spec_path(w, path.drop_first()),
            None => None,
        }
    }
}

/// The boolean at `path`, or false.
pub open spec fn spec_get_bool(v: JsonValue, path: Seq<Seq<char>>) -> bool {
    match spec_path(v, path) {
        Some(JsonValue::Bool(b)) => b,
        _ => false,
    }
}

/// The text at `path`, or empty.
pub open spec fn spec_get_string(v: JsonValue, path: Seq<Seq<char>>) -> Seq<char> {
    match spec_path(v, path) {
        Some(JsonValue::Str(s)) => s@,
        _ => Seq::empty(),
    }
}

/// Walking a one-key path reads the one field.
pub proof fn lemma_path1(v: JsonValue, key: Seq<char>)
    ensures
        spec_path(v, seq![key]) == (match spec_field(v, key) {
            Some(w) => Some(w),
            None => None::<JsonValue>,
        }),
{
    let path = seq![key];
    assert(path[0] == key);
    assert(path.drop_first() =~= Seq::<Seq<char>>::empty());
    match spec_field(v, key) {
        Some(w) => {
            assert(spec_path(w, path.drop_first()) == Some(w));
        },
        None => {},
    }
}

/// Walking a two-key path reads the nested field.
pub proof fn lemma_path2(v: JsonValue, key1: Seq<char>, key2: Seq<char>)
    ensures
        spec_path(v, seq![key1, key2]) == (match spec_field(v, key1) {
            Some(w) => spec_path(w, seq![key2]),
            None => None::<JsonValue>,
        }),
{
    let path = seq![key1, key2];
    assert(path[0] == key1);
    assert(path.drop_first() =~= seq![key2]);
}

/// The boolean field under `key`; anything else reads as false.
pub fn field_bool(json: &JsonValue, key: &str) -> (r: bool)
    ensures
        r == spec_get_bool(*json, seq![key@]),
{
    proof {
        lemma_path1(*json, key@);
    }
    match crate::json::get_field(json, key) {
        Some(JsonValue::Bool(b)) => *b,
        _ => false,
    }
}

/// The string field under `key`; anything else reads as empty text.
pub fn field_str(json: &JsonValue, key: &str) -> (r: String)
    ensures
        r@ == spec_get_string(*json, seq![key@]),
{
    proof {
        lemma_path1(*json, key@);
    }
    match crate::json::get_field(json, key) {
        Some(JsonValue::Str(s)) => s.clone(),
        _ => String::new(),
    }
}

/// The string field under `key1.key2`; anything else reads as empty text.
pub fn field_str2(json: &JsonValue, key1: &str, key2: &str) -> (r: String)
    ensures
        r@ == spec_get_string(*json, seq![key1@, key2@]),
{
    proof {
        lemma_path2(*json, key1@, key2@);
    }
    match crate::json::get_field(json, key1) {
        Some(inner) => {
            proof {
                lemma_path1(*inner, key2@);
            }
            match crate::json::get_field(inner, key2) {
                Some(JsonValue::Str(s)) => s.clone(),
                _ => String::new(),
            }
        },
        _ => String::new(),
    }
}

/// Flatten a reputation response tree into an [`IpInfo`] record: the
/// threat booleans and text fields at their fixed paths, and the abuser
/// score text split from `company.abuser_score`.
pub fn parse_response(json: &JsonValue) -> (r: IpInfo)
    ensures
        r.ip@ == spec_get_string(*json, seq!["ip"@]),
        r.is_proxy == spec_get_bool(*json, seq!["is_proxy"@]),
        r.is_vpn == spec_get_bool(*json, seq!["is_vpn"@]),
        r.is_datacenter == spec_get_bool(*json, seq!["is_datacenter"@]),
        r.is_tor == spec_get_bool(*json, seq!["is_tor"@]),
        r.is_abuser == spec_get_bool(*json, seq!["is_abuser"@]),
        (r.abuser_score@, r.abuser_label@) == spec_abuser_score(
            spec_get_string(*json, seq!["company"@, "abuser_score"@]),
        ),
        r.company@ == spec_get_string(*json, seq!["company"@, "name"@]),
        r.company_type@ == spec_get_string(*json, seq!["company"@, "type"@]),
        r.asn_org@ == spec_get_string(*json, seq!["asn"@, "org"@]),
        r.country@ == spec_get_string(*json, seq!["location"@, "country"@]),
        r.city@ == spec_get_string(*json, seq!["location"@, "city"@]),
{
    let score_raw = field_str2(json, "company", "abuser_score");
    let (abuser_score, abuser_label) = parse_abuser_score(score_raw.as_str());
    IpInfo {
        ip: field_str(json, "ip"),
        is_proxy: field_bool(json, "is_proxy"),
        is_vpn: field_bool(json, "is_vpn"),
        is_datacenter: field_bool(json, "is_datacenter"),
        is_tor: field_bool(json, "is_tor"),
        is_abuser: field_bool(json, "is_abuser"),
        abuser_score,
        abuser_label,
        company: field_str2(json, "company", "name"),
        company_type: field_str2(json, "company", "type"),
        asn_org: field_str2(json, "asn", "org"),
        country: field_str2(json, "location", "country"),
        city: field_str2(json, "location", "city"),
    }
}

} // verus!
