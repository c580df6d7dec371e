//! Session configuration extracted from the session-init script body: the
//! session token (16 lowercase-hex characters after `uuid:"`) and the exit
//! IP address (the text after `rip:"` up to the next quote).

use crate::textfmt::{chars_to_string, str_to_chars};
use vstd::prelude::*;

verus! {

/// Server config extracted from the session-init script.
#[derive(Debug)]
pub struct ServerConfig {
    pub uuid: String,
    pub rip: String,
}

/// Why the session-init body could not be parsed.
#[derive(Clone, Copy, Debug, PartialEq, Eq, Structural)]
pub enum ConfigError {
    /// No session token pattern was found in the body.
    MissingUuid,
    /// No exit IP pattern was found in the body.
    MissingExitIp,
}

impl ConfigError {
    /// A human-readable description of the failure.
    pub fn message(&self) -> (r: &'static str)
        ensures
            r@ == (match *self {
                ConfigError::MissingUuid => "failed to extract UUID from session script"@,
                ConfigError::MissingExitIp => "failed to extract exit IP from session script"@,
            }),
    {
        match *self {
            ConfigError::MissingUuid => "failed to extract UUID from session script",
            ConfigError::MissingExitIp => "failed to extract exit IP from session script",
        }
    }
}

/// Whether `c` is a lowercase hexadecimal digit.
pub open spec fn hex_char(c: char) -> bool {
    (('0' as u32) <= (c as u32) && (c as u32) <= ('9' as u32)) || (('a' as u32) <= (c as u32) && (
    c as u32) <= ('f' as u32))
}

/// Whether the token pattern `uuid:"` + 16 lowercase-hex characters + `"`
/// matches in `s` starting at position `i`.
pub open spec fn uuid_match_at(s: Seq<char>, i: int) -> bool {
    &&& 0 <= i
    &&& i + 23 <= s.len()
    &&& s.subrange(i, i + 6) == "uuid:\""@
    &&& (forall|j: int| i + 6 <= j < i + 22 ==> hex_char(#[trigger] s[j]))
    &&& s[i + 22] == '"'
}

/// The first position at or after `i` where the token pattern matches.
pub open spec fn first_uuid_match(s: Seq<char>, i: int) -> Option<int>
    decreases s.len() - i,
{
    if i < 0 || i + 23 > s.len() {
        None
    } else if uuid_match_at(s, i) {
        Some(i)
    } else {
        first_uuid_match(s, i + 1)
    }
}

/// The first position at or after `i` holding a double quote.
pub open spec fn first_quote(s: Seq<char>, i: int) -> Option<int>
    decreases s.len() - i,
{
    if i < 0 || i >= s.len() {
        None
    } else if s[i] == '"' {
        Some(i)
    } else {
        first_quote(s, i + 1)
    }
}

/// Whether the exit IP pattern `rip:"` + one or more non-quote characters
/// + `"` matches in `s` starting at position `i`.
pub open spec fn rip_match_at(s: Seq<char>, i: int) -> bool {
    &&& 0 <= i
    &&& i + 7 <= s.len()
    &&& s.subrange(i, i + 5) == "rip:\""@
    &&& s[i + 5] != '"'
    &&& first_quote(s, i + 6) is Some
}

/// The first position at or after `i` where the exit IP pattern matches.
pub open spec fn first_rip_match(s: Seq<char>, i: int) -> Option<int>
    decreases s.len() - i,
{
    if i < 0 || i + 7 > s.len() {
        None
    } else if rip_match_at(s, i) {
        Some(i)
    } else {
        first_rip_match(s, i + 1)
    }
}

/// The session token the body yields: the 16 hex characters of the
/// leftmost token pattern match.
pub open spec fn spec_uuid(s: Seq<char>) -> Option<Seq<char>> {
    match first_uuid_match(s, 0) {
        Some(i) => Some(s.subrange(i + 6, i + 22)),
        None => None,
    }
}

/// The exit IP the body yields: the text of the leftmost exit IP pattern
/// match, up to the next quote.
pub open spec fn spec_rip(s: Seq<char>) -> Option<Seq<char>> {
    match first_rip_match(s, 0) {
        Some(i) => Some(s.subrange(i + 5, first_quote(s, i + 6)->Some_0)),
        None => None,
    }
}

#[verifier::loop_isolation(false)]
fn match_uuid_at(v: &Vec<char>, i: usize) -> (r: bool)
    requires
        i + 23 <= v@.len(),
    ensures
        r == uuid_match_at(v@, i as int),
{
    let _n = v.len();
    proof {
        reveal_strlit("uuid:\"");
        let s = v@.subrange(i as int, i as int + 6);
        assert(s[0] == v@[i as int] && s[1] == v@[i as int + 1] && s[2] == v@[i as int + 2] && s[3]
            == v@[i as int + 3] && s[4] == v@[i as int + 4] && s[5] == v@[i as int + 5]);
        assert((s == "uuid:\""@) <==> (v@[i as int] == 'u' && v@[i as int + 1] == 'u' && v@[i
            as int + 2] == 'i' && v@[i as int + 3] == 'd' && v@[i as int + 4] == ':' && v@[i
            as int + 5] == '"')) by {
            if v@[i as int] == 'u' && v@[i as int + 1] == 'u' && v@[i as int + 2] == 'i' && v@[i
                as int + 3] == 'd' && v@[i as int + 4] == ':' && v@[i as int + 5] == '"' {
                assert(s =~= "uuid:\""@);
            }
        }
    }
    if !(v[i] == 'u' && v[i + 1] == 'u' && v[i + 2] == 'i' && v[i + 3] == 'd' && v[i + 4] == ':'
        && v[i + 5] == '"') {
        return false;
    }
    if v[i + 22] != '"' {
        return false;
    }
    let mut j = i + 6;
    while j < i + 22
        invariant
            i + 6 <= j <= i + 22,
            i + 23 <= v@.len(),
            forall|k: int| i + 6 <= k < j ==> hex_char(#[trigger] v@[k]),
        decreases i + 22 - j,
    {
        let c = v[j];
        let cu = c as u32;
        if !((cu >= 48 && cu <= 57) || (cu >= 97 && cu <= 102)) {
            proof {
                assert(('0' as u32) == 48 && ('9' as u32) == 57 && ('a' as u32) == 97 && ('f'
                    as u32) == 102);
                assert(!hex_char(v@[j as int]));
            }
            return false;
        }
        proof {
            assert(('0' as u32) == 48 && ('9' as u32) == 57 && ('a' as u32) == 97 && ('f' as u32)
                == 102);
            assert(hex_char(v@[j as int]));
        }
        j += 1;
    }
    true
}

#[verifier::loop_isolation(false)]
fn match_rip_at(v: &Vec<char>, i: usize) -> (r: Option<usize>)
    requires
        i + 7 <= v@.len(),
    ensures
        match r {
            Some(q) => rip_match_at(v@, i as int) && first_quote(v@, i as int + 6) == Some(
                q as int,
            ) && i + 6 <= q < v@.len(),
            None => !rip_match_at(v@, i as int),
        },
{
    let n = v.len();
    proof {
        reveal_strlit("rip:\"");
        let s = v@.subrange(i as int, i as int + 5);
        assert(s[0] == v@[i as int] && s[1] == v@[i as int + 1] && s[2] == v@[i as int + 2] && s[3]
            == v@[i as int + 3] && s[4] == v@[i as int + 4]);
        assert((s == "rip:\""@) <==> (v@[i as int] == 'r' && v@[i as int + 1] == 'i' && v@[i as int
            + 2] == 'p' && v@[i as int + 3] == ':' && v@[i as int + 4] == '"')) by {
            if v@[i as int] == 'r' && v@[i as int + 1] == 'i' && v@[i as int + 2] == 'p' && v@[i
                as int + 3] == ':' && v@[i as int + 4] == '"' {
                assert(s =~= "rip:\""@);
            }
        }
    }
    if !(v[i] == 'r' && v[i + 1] == 'i' && v[i + 2] == 'p' && v[i + 3] == ':' && v[i + 4] == '"') {
        return None;
    }
    if v[i + 5] == '"' {
        return None;
    }
    let mut j = i + 6;
    while j < n
        invariant
            i + 6 <= j <= n == v@.len(),
            forall|k: int| i + 6 <= k < j ==> v@[k] != '"',
        decreases n - j,
    {
        if v[j] == '"' {
            proof {
                lemma_first_quote_found(v@, i as int + 6, j as int);
            }
            return Some(j);
        }
        j += 1;
    }
    proof {
        lemma_first_quote_none(v@, i as int + 6);
    }
    None
}

proof fn lemma_first_quote_found(s: Seq<char>, i: int, q: int)
    requires
        0 <= i <= q < s.len(),
        s[q] == '"',
        forall|k: int| i <= k < q ==> s[k] != '"',
    ensures
        first_quote(s, i) == Some(q),
    decreases q - i,
{
    if i < q {
        lemma_first_quote_found(s, i + 1, q);
    }
}

proof fn lemma_first_quote_none(s: Seq<char>, i: int)
    requires
        0 <= i,
        forall|k: int| i <= k < s.len() ==> s[k] != '"',
    ensures
        first_quote(s, i) is None,
    decreases s.len() - i,
{
    if i < s.len() {
        lemma_first_quote_none(s, i + 1);
    }
}

proof fn lemma_first_uuid_found(s: Seq<char>, i: int)
    requires
        0 <= i,
        uuid_match_at(s, i),
        forall|k: int| 0 <= k < i ==> !uuid_match_at(s, k),
    ensures
        first_uuid_match(s, 0) == Some(i),
{
    lemma_first_uuid_from(s, 0, i);
}

proof fn lemma_first_uuid_from(s: Seq<char>, j: int, i: int)
    requires
        0 <= j <= i,
        uuid_match_at(s, i),
        forall|k: int| j <= k < i ==> !uuid_match_at(s, k),
    ensures
        first_uuid_match(s, j) == Some(i),
    decreases i - j,
{
    if j < i {
        lemma_first_uuid_from(s, j + 1, i);
    }
}

proof fn lemma_first_uuid_none(s: Seq<char>, j: int)
    requires
        0 <= j,
        forall|k: int| j <= k ==> !uuid_match_at(s, k),
    ensures
        first_uuid_match(s, j) is None,
    decreases s.len() - j,
{
    if j + 23 <= s.len() {
        lemma_first_uuid_none(s, j + 1);
    }
}

proof fn lemma_first_rip_from(s: Seq<char>, j: int, i: int)
    requires
        0 <= j <= i,
        rip_match_at(s, i),
        forall|k: int| j <= k < i ==> !rip_match_at(s, k),
    ensures
        first_rip_match(s, j) == Some(i),
    decreases i - j,
{
    if j < i {
        lemma_first_rip_from(s, j + 1, i);
    }
}

proof fn lemma_first_rip_none(s: Seq<char>, j: int)
    requires
        0 <= j,
        forall|k: int| j <= k ==> !rip_match_at(s, k),
    ensures
        first_rip_match(s, j) is None,
    decreases s.len() - j,
{
    if j + 7 <= s.len() {
        lemma_first_rip_none(s, j + 1);
    }
}

#[verifier::loop_isolation(false)]
fn find_uuid(v: &Vec<char>) -> (r: Option<(usize, String)>)
    ensures
        match r {
            Some((i, u)) => first_uuid_match(v@, 0) == Some(i as int) && Some(u@) == spec_uuid(v@),
            None => spec_uuid(v@) is None,
        },
{
    let n = v.len();
    if n < 23 {
        proof {
            lemma_first_uuid_none(v@, 0);
        }
        return None;
    }
    let mut i: usize = 0;
    while i <= n - 23
        invariant
            n == v@.len(),
            23 <= n,
            0 <= i <= n - 23 + 1,
            forall|k: int| 0 <= k < i ==> !uuid_match_at(v@, k),
        decreases n - i,
    {
        if match_uuid_at(v, i) {
            proof {
                lemma_first_uuid_found(v@, i as int);
            }
            let u = chars_to_string(v, i + 6, i + 22);
            return Some((i, u));
        }
        i += 1;
    }
    proof {
        lemma_first_uuid_none(v@, 0);
    }
    None
}

#[verifier::loop_isolation(false)]
fn find_rip(v: &Vec<char>) -> (r: Option<String>)
    ensures
        match r {
            Some(p) => Some(p@) == spec_rip(v@),
            None => spec_rip(v@) is None,
        },
{
    let n = v.len();
    if n < 7 {
        proof {
            lemma_first_rip_none(v@, 0);
        }
        return None;
    }
    let mut i: usize = 0;
    while i <= n - 7
        invariant
            n == v@.len(),
            7 <= n,
            0 <= i <= n - 7 + 1,
            forall|k: int| 0 <= k < i ==> !rip_match_at(v@, k),
        decreases n - i,
    {
        match match_rip_at(v, i) {
            Some(q) => {
                proof {
                    lemma_first_rip_from(v@, 0, i as int);
                }
                let p = chars_to_string(v, i + 5, q);
                return Some(p);
            },
            None => {},
        }
        i += 1;
    }
    proof {
        lemma_first_rip_none(v@, 0);
    }
    None
}

/// Parse the session token and exit IP out of the session-init script
/// body. Yields the leftmost match of each pattern; a body missing the
/// token pattern is rejected as [`ConfigError::MissingUuid`], one missing
/// only the exit IP pattern as [`ConfigError::MissingExitIp`].
pub fn parse_config(script_body: &str) -> (r: Result<ServerConfig, ConfigError>)
    ensures
        match r {
            Ok(cfg) => Some(cfg.uuid@) == spec_uuid(script_body@) && Some(cfg.rip@) == spec_rip(
                script_body@,
            ),
            Err(e) => match e {
                ConfigError::MissingUuid => spec_uuid(script_body@) is None,
                ConfigError::MissingExitIp => spec_uuid(script_body@) is Some && spec_rip(
                    script_body@,
                ) is None,
            },
        },
{
    let v = str_to_chars(script_body);
    let uuid = match find_uuid(&v) {
        Some((_, u)) => u,
        None => {
            return Err(ConfigError::MissingUuid);
        },
    };
    let rip = match find_rip(&v) {
        Some(p) => p,
        None => {
            return Err(ConfigError::MissingExitIp);
        },
    };
    Ok(ServerConfig { uuid, rip })
}

} // verus!
