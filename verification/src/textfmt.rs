//! Verified decimal and boolean rendering used by the fingerprint string,
//! the date/time strings and the CSV rows.

use vstd::prelude::*;

verus! {

/// The decimal digit character for `d` (defined for 0 through 9).
pub open spec fn digit_char(d: int) -> char {
    if d == 0 {
        '0'
    } else if d == 1 {
        '1'
    } else if d == 2 {
        '2'
    } else if d == 3 {
        '3'
    } else if d == 4 {
        '4'
    } else if d == 5 {
        '5'
    } else if d == 6 {
        '6'
    } else if d == 7 {
        '7'
    } else if d == 8 {
        '8'
    } else {
        '9'
    }
}

/// The decimal rendering of a non-negative integer, without sign or padding.
pub open spec fn dec_nat(n: int) -> Seq<char>
    decreases n,
{
    if n < 10 {
        seq![digit_char(n)]
    } else {
        dec_nat(n / 10) + seq![digit_char(n % 10)]
    }
}

/// The decimal rendering of an integer, with a leading minus sign when negative.
pub open spec fn dec_int(n: int) -> Seq<char> {
    if n < 0 {
        seq!['-'] + dec_nat(-n)
    } else {
        dec_nat(n)
    }
}

/// The decimal rendering of `n`, left-padded with '0' to two characters.
pub open spec fn dec_pad2(n: int) -> Seq<char> {
    if 0 <= n < 10 {
        seq!['0'] + dec_nat(n)
    } else {
        dec_int(n)
    }
}

/// "true" or "false", as JavaScript renders a boolean.
pub open spec fn bool_chars(b: bool) -> Seq<char> {
    if b {
        "true"@
    } else {
        "false"@
    }
}

/// The one-character text of a decimal digit.
pub fn digit_str(d: u64) -> (r: &'static str)
    requires
        d < 10,
    ensures
        r@ == seq![digit_char(d as int)],
{
    let r = match d {
        0 => "0",
        1 => "1",
        2 => "2",
        3 => "3",
        4 => "4",
        5 => "5",
        6 => "6",
        7 => "7",
        8 => "8",
        _ => "9",
    };
    proof {
        reveal_strlit("0");
        reveal_strlit("1");
        reveal_strlit("2");
        reveal_strlit("3");
        reveal_strlit("4");
        reveal_strlit("5");
        reveal_strlit("6");
        reveal_strlit("7");
        reveal_strlit("8");
        reveal_strlit("9");
        assert(r@ =~= seq![digit_char(d as int)]);
    }
    r
}

/// Render a non-negative 64-bit integer in decimal.
pub fn u64_to_string(n: u64) -> (r: String)
    ensures
        r@ == dec_nat(n as int),
    decreases n,
{
    if n < 10 {
        digit_str(n).to_owned()
    } else {
        let mut s = u64_to_string(n / 10);
        s.append(digit_str(n % 10));
        proof {
            assert(s@ =~= dec_nat(n as int));
        }
        s
    }
}

/// Render a signed 64-bit integer in decimal with a sign when negative.
pub fn i64_to_string(n: i64) -> (r: String)
    ensures
        r@ == dec_int(n as int),
{
    if n >= 0 {
        u64_to_string(n as u64)
    } else {
        let mag: u64 = ((-(n as i128)) as u64);
        let mut s = "-".to_owned();
        let digits = u64_to_string(mag);
        s.append(digits.as_str());
        proof {
            reveal_strlit("-");
            assert(s@ =~= dec_int(n as int));
        }
        s
    }
}

/// Render `n` in decimal, left-padded with '0' to two characters.
pub fn u64_to_string_pad2(n: u64) -> (r: String)
    ensures
        r@ == dec_pad2(n as int),
{
    if n < 10 {
        let mut s = "0".to_owned();
        s.append(digit_str(n));
        proof {
            reveal_strlit("0");
            assert(s@ =~= dec_pad2(n as int));
        }
        s
    } else {
        u64_to_string(n)
    }
}

/// Render a boolean as "true" or "false".
pub fn bool_to_str(b: bool) -> (r: &'static str)
    ensures
        r@ == bool_chars(b),
{
    if b {
        "true"
    } else {
        "false"
    }
}

/// Relies on String::push, which appends exactly the one character.
#[verifier::external_body]
pub fn push_char(s: &mut String, c: char)
    ensures
        final(s)@ == old(s)@ + seq![c],
{
    s.push(c);
}

/// The characters of a string slice, one vector element per character.
pub fn str_to_chars(s: &str) -> (r: Vec<char>)
    ensures
        r@ == s@,
{
    let n = s.unicode_len();
    let mut v: Vec<char> = Vec::new();
    for i in 0..n
        invariant
            n == s@.len(),
            v@ =~= s@.subrange(0, i as int),
    {
        v.push(s.get_char(i));
    }
    proof {
        assert(v@ =~= s@);
    }
    v
}

/// The characters `from..to` of `v`, gathered into a string.
pub fn chars_to_string(v: &Vec<char>, from: usize, to: usize) -> (r: String)
    requires
        from <= to <= v@.len(),
    ensures
        r@ == v@.subrange(from as int, to as int),
{
    let mut s = String::new();
    for i in from..to
        invariant
            from <= i <= to <= v@.len(),
            s@ =~= v@.subrange(from as int, i as int),
    {
        push_char(&mut s, v[i]);
        proof {
            assert(s@ =~= v@.subrange(from as int, i + 1));
        }
    }
    s
}

/// Whether two string slices hold the same characters.
pub fn str_eq(a: &str, b: &str) -> (r: bool)
    ensures
        r == (a@ == b@),
{
    let x: String = a.to_owned();
    let y: String = b.to_owned();
    x == y
}

/// The first position at or after `i` holding `c`.
pub open spec fn first_pos(s: Seq<char>, c: char, i: int) -> Option<int>
    decreases s.len() - i,
{
    if i < 0 || i >= s.len() {
        None
    } else if s[i] == c {
        Some(i)
    } else {
        first_pos(s, c, i + 1)
    }
}

/// The last position before `i` holding `c`.
pub open spec fn last_pos(s: Seq<char>, c: char, i: int) -> Option<int>
    decreases i,
{
    if i <= 0 || i > s.len() {
        None
    } else if s[i - 1] == c {
        Some(i - 1)
    } else {
        last_pos(s, c, i - 1)
    }
}

proof fn lemma_first_pos_found(s: Seq<char>, c: char, i: int, p: int)
    requires
        0 <= i <= p < s.len(),
        s[p] == c,
        forall|k: int| i <= k < p ==> s[k] != c,
    ensures
        first_pos(s, c, i) == Some(p),
    decreases p - i,
{
    if i < p {
        lemma_first_pos_found(s, c, i + 1, p);
    }
}

proof fn lemma_first_pos_none(s: Seq<char>, c: char, i: int)
    requires
        0 <= i,
        forall|k: int| i <= k < s.len() ==> s[k] != c,
    ensures
        first_pos(s, c, i) is None,
    decreases s.len() - i,
{
    if i < s.len() {
        lemma_first_pos_none(s, c, i + 1);
    }
}

proof fn lemma_last_pos_found(s: Seq<char>, c: char, i: int, p: int)
    requires
        0 <= p < i <= s.len(),
        s[p] == c,
        forall|k: int| p < k < i ==> s[k] != c,
    ensures
        last_pos(s, c, i) == Some(p),
    decreases i - p,
{
    if p < i - 1 {
        lemma_last_pos_found(s, c, i - 1, p);
    }
}

proof fn lemma_last_pos_none(s: Seq<char>, c: char, i: int)
    requires
        i <= s.len(),
    ensures
        (forall|k: int| 0 <= k < i ==> s[k] != c) ==> last_pos(s, c, i) is None,
    decreases i,
{
    if i > 0 {
        lemma_last_pos_none(s, c, i - 1);
    }
}

/// Find the first `c` at or after `from`.
#[verifier::loop_isolation(false)]
pub fn find_char_from(v: &Vec<char>, c: char, from: usize) -> (r: Option<usize>)
    ensures
        match r {
            Some(p) => first_pos(v@, c, from as int) == Some(p as int) && from <= p < v@.len(),
            None => first_pos(v@, c, from as int) is None,
        },
{
    let n = v.len();
    if from > n {
        return None;
    }
    let mut i: usize = from;
    while i < n
        invariant
            from <= i <= n == v@.len(),
            forall|k: int| from <= k < i ==> v@[k] != c,
        decreases n - i,
    {
        if v[i] == c {
            proof {
                lemma_first_pos_found(v@, c, from as int, i as int);
            }
            return Some(i);
        }
        i += 1;
    }
    proof {
        lemma_first_pos_none(v@, c, from as int);
    }
    None
}

/// Find the first `c` in `v`.
pub fn find_char(v: &Vec<char>, c: char) -> (r: Option<usize>)
    ensures
        match r {
            Some(p) => first_pos(v@, c, 0) == Some(p as int) && p < v@.len(),
            None => first_pos(v@, c, 0) is None,
        },
{
    find_char_from(v, c, 0)
}

/// Find the last `c` in `v`.
#[verifier::loop_isolation(false)]
pub fn rfind_char(v: &Vec<char>, c: char) -> (r: Option<usize>)
    ensures
        match r {
            Some(p) => last_pos(v@, c, v@.len() as int) == Some(p as int) && p < v@.len(),
            None => last_pos(v@, c, v@.len() as int) is None,
        },
{
    let n = v.len();
    let mut i: usize = n;
    while i > 0
        invariant
            0 <= i <= n == v@.len(),
            forall|k: int| i <= k < n ==> v@[k] != c,
        decreases i,
    {
        if v[i - 1] == c {
            proof {
                lemma_last_pos_found(v@, c, n as int, i - 1);
            }
            return Some(i - 1);
        }
        i -= 1;
    }
    proof {
        lemma_last_pos_none(v@, c, n as int);
    }
    None
}


/// Whether `c` is blank space for the purposes of score trimming.
pub open spec fn is_space(c: char) -> bool {
    c == ' ' || c == '\t' || c == '\n' || c == '\r'
}

/// `s` without leading blank space.
pub open spec fn trim_front(s: Seq<char>) -> Seq<char>
    decreases s.len(),
{
    if s.len() > 0 && is_space(s[0]) {
        trim_front(s.drop_first())
    } else {
        s
    }
}

/// `s` without trailing blank space.
pub open spec fn trim_back(s: Seq<char>) -> Seq<char>
    decreases s.len(),
{
    if s.len() > 0 && is_space(s.last()) {
        trim_back(s.drop_last())
    } else {
        s
    }
}

/// `s` without leading or trailing blank space.
pub open spec fn trim_chars(s: Seq<char>) -> Seq<char> {
    trim_back(trim_front(s))
}

proof fn lemma_trim_front_range(s: Seq<char>, lo: int)
    requires
        0 <= lo <= s.len(),
        forall|k: int| 0 <= k < lo ==> is_space(#[trigger] s[k]),
        lo < s.len() ==> !is_space(s[lo]),
    ensures
        trim_front(s) == s.subrange(lo, s.len() as int),
    decreases lo,
{
    if lo == 0 {
        assert(s.subrange(0, s.len() as int) =~= s);
    } else {
        let t = s.drop_first();
        assert(forall|k: int| 0 <= k < lo - 1 ==> is_space(#[trigger] t[k]));
        lemma_trim_front_range(t, lo - 1);
        assert(t.subrange(lo - 1, t.len() as int) =~= s.subrange(lo, s.len() as int));
    }
}

proof fn lemma_trim_back_range(s: Seq<char>, hi: int)
    requires
        0 <= hi <= s.len(),
        forall|k: int| hi <= k < s.len() ==> is_space(#[trigger] s[k]),
        hi > 0 ==> !is_space(s[hi - 1]),
    ensures
        trim_back(s) == s.subrange(0, hi),
    decreases s.len() - hi,
{
    if hi == s.len() {
        assert(s.subrange(0, hi) =~= s);
    } else {
        let t = s.drop_last();
        assert(forall|k: int| hi <= k < t.len() ==> is_space(#[trigger] t[k]));
        lemma_trim_back_range(t, hi);
        assert(t.subrange(0, hi) =~= s.subrange(0, hi));
    }
}

/// The characters of `v` from `from` to `to`, as their own vector.
#[verifier::loop_isolation(false)]
pub fn vec_range(v: &Vec<char>, from: usize, to: usize) -> (r: Vec<char>)
    requires
        from <= to <= v@.len(),
    ensures
        r@ == v@.subrange(from as int, to as int),
{
    let mut out: Vec<char> = Vec::new();
    proof {
        assert(out@ =~= v@.subrange(from as int, from as int));
    }
    let mut i = from;
    while i < to
        invariant
            from <= i <= to,
            out@ =~= v@.subrange(from as int, i as int),
        decreases to - i,
    {
        out.push(v[i]);
        proof {
            assert(out@ =~= v@.subrange(from as int, i + 1));
        }
        i += 1;
    }
    out
}

/// Whether `c` is blank space, decided at run time.
pub fn space_char(c: char) -> (r: bool)
    ensures
        r == is_space(c),
{
    c == ' ' || c == '\t' || c == '\n' || c == '\r'
}

/// `v` without leading or trailing blank space.
#[verifier::loop_isolation(false)]
pub fn trim_vec(v: &Vec<char>) -> (r: Vec<char>)
    ensures
        r@ == trim_chars(v@),
{
    let n = v.len();
    let mut lo: usize = 0;
    while lo < n && space_char(v[lo])
        invariant
            0 <= lo <= n == v@.len(),
            forall|k: int| 0 <= k < lo ==> is_space(#[trigger] v@[k]),
        decreases n - lo,
    {
        lo += 1;
    }
    proof {
        lemma_trim_front_range(v@, lo as int);
    }
    let mut hi: usize = n;
    while hi > lo && space_char(v[hi - 1])
        invariant
            lo <= hi <= n,
            forall|k: int| hi <= k < n ==> is_space(#[trigger] v@[k]),
        decreases hi,
    {
        hi -= 1;
    }
    proof {
        let t = trim_front(v@);
        assert(t == v@.subrange(lo as int, n as int));
        assert(forall|k: int|
            hi - lo <= k < t.len() ==> is_space(#[trigger] t[k]));
        if hi > lo {
            assert(t[hi - lo - 1] == v@[hi - 1]);
        }
        lemma_trim_back_range(t, hi - lo);
        assert(t.subrange(0, hi - lo) =~= v@.subrange(lo as int, hi as int));
    }
    vec_range(v, lo, hi)
}


} // verus!
