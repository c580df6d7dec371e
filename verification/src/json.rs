//! A generic JSON value tree. The remote analysis server's response schema
//! is open-ended, so responses are read into this loosely-typed tree and
//! every field access is verified against it. Parsing the text itself is
//! delegated to serde_json behind a trusted boundary; numbers are kept as
//! their decimal text so the tree holds plain values only.

use vstd::prelude::*;

verus! {

/// A loosely-typed JSON value: the sub-test mapping of a verdict is read
/// generically since the server may add fields at any time.
#[derive(Debug)]
pub enum JsonValue {
    Null,
    Bool(bool),
    /// A number, kept as its decimal text.
    Num(String),
    Str(String),
    Arr(Vec<JsonValue>),
    Obj(Vec<(String, JsonValue)>),
}

#[verifier::external_type_specification]
#[verifier::external_body]
pub struct ExValue(serde_json::Value);

/// The tree that parsing a text as JSON yields, or `None` when the text is
/// not valid JSON. Parsing is deterministic: the tree depends on the text
/// alone (object entries come out ordered by key, as serde_json's default
/// map iterates them).
pub uninterp spec fn json_of(text: Seq<char>) -> Option<JsonValue>;

/// Relies on the `serde_json::Value` data model: each variant is carried
/// over one-to-one, a number as its decimal text via `Number::to_string`,
/// an object in its map's iteration order.
#[verifier::external_body]
fn value_to_json(v: &serde_json::Value) -> JsonValue {
    match v {
        serde_json::Value::Null => JsonValue::Null,
        serde_json::Value::Bool(b) => JsonValue::Bool(*b),
        serde_json::Value::Number(n) => JsonValue::Num(n.to_string()),
        serde_json::Value::String(s) => JsonValue::Str(s.clone()),
        serde_json::Value::Array(a) => JsonValue::Arr(a.iter().map(value_to_json).collect()),
        serde_json::Value::Object(m) => JsonValue::Obj(
            m.iter().map(|(k, val)| (k.clone(), value_to_json(val))).collect(),
        ),
    }
}

/// Relies on `serde_json::from_str`: whether a text parses, and the
/// value it parses to, are functions of the text alone.
#[verifier::external_body]
pub fn parse_json(text: &str) -> (r: Option<JsonValue>)
    ensures
        r == json_of(text@),
{
    match serde_json::from_str::<serde_json::Value>(text) {
        Ok(v) => Some(value_to_json(&v)),
        Err(_) => None,
    }
}

/// The value under `key` in an object's entry list: the first entry with
/// that exact key, if any.
pub open spec fn entries_lookup(entries: Seq<(String, JsonValue)>, key: Seq<char>) -> Option<
    JsonValue,
>
    decreases entries.len(),
{
    if entries.len() == 0 {
        None
    } else if entries[0].0@ == key {
        Some(entries[0].1)
    } else {
        entries_lookup(entries.drop_first(), key)
    }
}

/// Look up `key` among an object's entries.
pub fn entries_get<'a>(entries: &'a Vec<(String, JsonValue)>, key: &str) -> (r: Option<
    &'a JsonValue,
>)
    ensures
        match r {
            Some(v) => entries_lookup(entries@, key@) == Some(*v),
            None => entries_lookup(entries@, key@) is None,
        },
{
    let n = entries.len();
    proof {
        assert(entries@.skip(0) =~= entries@);
    }
    for i in 0..n
        invariant
            n == entries@.len(),
            entries_lookup(entries@, key@) == entries_lookup(entries@.skip(i as int), key@),
    {
        proof {
            assert(entries@.skip(i as int)[0] == entries@[i as int]);
            assert(entries@.skip(i as int).drop_first() =~= entries@.skip(i + 1));
        }
        let pair = &entries[i];
        if crate::textfmt::str_eq(pair.0.as_str(), key) {
            return Some(&pair.1);
        }
    }
    proof {
        assert(entries@.skip(n as int).len() == 0);
    }
    None
}

/// The value under `key` of a JSON object; `None` on any other shape.
pub open spec fn spec_field(v: JsonValue, key: Seq<char>) -> Option<JsonValue> {
    match v {
        JsonValue::Obj(es) => entries_lookup(es@, key),
        _ => None,
    }
}

/// Look up `key` in a JSON value that may be an object.
pub fn get_field<'a>(v: &'a JsonValue, key: &str) -> (r: Option<&'a JsonValue>)
    ensures
        match r {
            Some(f) => spec_field(*v, key@) == Some(*f),
            None => spec_field(*v, key@) is None,
        },
{
    match v {
        JsonValue::Obj(es) => entries_get(es, key),
        _ => None,
    }
}

/// Whether `c` is a decimal digit.
pub open spec fn dec_digit(c: char) -> bool {
    ('0' as u32) <= (c as u32) && (c as u32) <= ('9' as u32)
}

/// Whether every character of `s` is a decimal digit.
pub open spec fn all_digits(s: Seq<char>) -> bool {
    forall|i: int| 0 <= i < s.len() ==> dec_digit(#[trigger] s[i])
}

/// The integer value of a digit string, most significant digit first.
pub open spec fn digits_val(s: Seq<char>) -> int
    decreases s.len(),
{
    if s.len() == 0 {
        0
    } else {
        digits_val(s.drop_last()) * 10 + ((s.last() as u32) - ('0' as u32))
    }
}

/// The 64-bit signed integer a number's text denotes: an optional minus
/// sign followed by decimal digits only, in range; anything else (a
/// fraction, an exponent, an out-of-range value) denotes no integer.
pub open spec fn json_int_of(s: Seq<char>) -> Option<i64> {
    if s.len() > 0 && s[0] == '-' {
        let d = s.subrange(1, s.len() as int);
        if d.len() > 0 && all_digits(d) && -digits_val(d) >= i64::MIN {
            Some((-digits_val(d)) as i64)
        } else {
            None
        }
    } else if s.len() > 0 && all_digits(s) && digits_val(s) <= i64::MAX {
        Some(digits_val(s) as i64)
    } else {
        None
    }
}

proof fn lemma_digits_val_nonneg(s: Seq<char>)
    requires
        all_digits(s),
    ensures
        digits_val(s) >= 0,
    decreases s.len(),
{
    if s.len() > 0 {
        assert(all_digits(s.drop_last())) by {
            assert(forall|i: int|
                0 <= i < s.len() - 1 ==> s.drop_last()[i] == #[trigger] s[i]);
        }
        lemma_digits_val_nonneg(s.drop_last());
    }
}

proof fn lemma_digits_prefix(s: Seq<char>, k: int)
    requires
        all_digits(s),
        0 <= k <= s.len(),
    ensures
        digits_val(s.subrange(0, k)) <= digits_val(s),
    decreases s.len(),
{
    if k == s.len() {
        assert(s.subrange(0, k) =~= s);
    } else {
        let t = s.drop_last();
        assert(all_digits(t)) by {
            assert(forall|i: int| 0 <= i < t.len() ==> t[i] == #[trigger] s[i]);
        }
        assert(s.subrange(0, k) =~= t.subrange(0, k));
        lemma_digits_prefix(t, k);
        lemma_digits_val_nonneg(t);
    }
}

/// The value of a digit string, when it is one and fits the range the
/// callers test against.
#[verifier::loop_isolation(false)]
pub fn digits_to_u64(d: &Vec<char>) -> (r: Option<u64>)
    ensures
        match r {
            Some(n) => all_digits(d@) && d@.len() > 0 && n == digits_val(d@) && n
                <= 0x8000_0000_0000_0000u64,
            None => d@.len() == 0 || !all_digits(d@) || digits_val(d@)
                > 0x8000_0000_0000_0000u64,
        },
{
    let n = d.len();
    if n == 0 {
        return None;
    }
    let mut acc: u64 = 0;
    proof {
        assert(d@.subrange(0, 0) =~= Seq::<char>::empty());
    }
    let mut i: usize = 0;
    while i < n
        invariant
            0 <= i <= n == d@.len(),
            acc == digits_val(d@.subrange(0, i as int)),
            acc <= 0x8000_0000_0000_0000u64,
            forall|k: int| 0 <= k < i ==> dec_digit(#[trigger] d@[k]),
        decreases n - i,
    {
        let c = d[i];
        let cu = c as u32;
        if !(cu >= 48 && cu <= 57) {
            proof {
                assert(('0' as u32) == 48 && ('9' as u32) == 57);
                assert(!dec_digit(d@[i as int]));
            }
            return None;
        }
        let dig: u64 = (cu - 48) as u64;
        proof {
            assert(('0' as u32) == 48 && ('9' as u32) == 57);
            assert(d@.subrange(0, i + 1).drop_last() =~= d@.subrange(0, i as int));
            assert(d@.subrange(0, i + 1).last() == d@[i as int]);
            assert(digits_val(d@.subrange(0, i + 1)) == digits_val(d@.subrange(0, i as int)) * 10
                + dig);
        }
        if acc > 922337203685477580u64 {
            proof {
                if all_digits(d@) {
                    lemma_digits_val_nonneg(d@.subrange(0, i + 1));
                    lemma_digits_prefix(d@, i + 1);
                }
            }
            return None;
        }
        acc = acc * 10 + dig;
        if acc > 0x8000_0000_0000_0000u64 {
            proof {
                if all_digits(d@) {
                    lemma_digits_prefix(d@, i + 1);
                }
            }
            return None;
        }
        i += 1;
    }
    proof {
        assert(d@.subrange(0, n as int) =~= d@);
    }
    Some(acc)
}

/// The 64-bit integer a number value denotes, if its text denotes one.
pub open spec fn spec_json_i64(v: JsonValue) -> Option<i64> {
    match v {
        JsonValue::Num(s) => json_int_of(s@),
        _ => None,
    }
}

/// Read a JSON value as a 64-bit signed integer: a number whose text is
/// an optionally-signed string of digits in range, and nothing else.
pub fn json_i64(v: &JsonValue) -> (r: Option<i64>)
    ensures
        r == spec_json_i64(*v),
{
    match v {
        JsonValue::Num(s) => {
            let chars = crate::textfmt::str_to_chars(s.as_str());
            if chars.len() > 0 && chars[0] == '-' {
                let mut digits: Vec<char> = Vec::new();
                let n = chars.len();
                proof {
                    assert(chars@.subrange(1, 1) =~= Seq::<char>::empty());
                }
                let mut i: usize = 1;
                while i < n
                    invariant
                        1 <= i <= n == chars@.len(),
                        digits@ =~= chars@.subrange(1, i as int),
                    decreases n - i,
                {
                    digits.push(chars[i]);
                    proof {
                        assert(digits@ =~= chars@.subrange(1, i + 1));
                    }
                    i += 1;
                }
                proof {
                    assert(digits@ =~= chars@.subrange(1, chars@.len() as int));
                }
                match digits_to_u64(&digits) {
                    Some(mag) => {
                        proof {
                            lemma_digits_val_nonneg(digits@);
                        }
                        Some((-(mag as i128)) as i64)
                    },
                    None => None,
                }
            } else {
                match digits_to_u64(&chars) {
                    Some(mag) => {
                        if mag <= 0x7fff_ffff_ffff_ffffu64 {
                            Some(mag as i64)
                        } else {
                            None
                        }
                    },
                    None => None,
                }
            }
        },
        _ => None,
    }
}

/// The boolean a JSON value carries, or `d` when it is not a boolean.
pub open spec fn spec_bool_or(v: Option<JsonValue>, d: bool) -> bool {
    match v {
        Some(JsonValue::Bool(b)) => b,
        _ => d,
    }
}

/// The integer a JSON value denotes, or `d` when it denotes none.
pub open spec fn spec_i64_or(v: Option<JsonValue>, d: i64) -> i64 {
    match v {
        Some(n) => match spec_json_i64(n) {
            Some(x) => x,
            None => d,
        },
        None => d,
    }
}

} // verus!
