//! The analysis verdict read back from the polling endpoint: a completion
//! flag plus an open-ended mapping of named sub-test results. Each poll
//! response fully replaces the previous partial result.

use crate::json::{entries_lookup, json_of, parse_json, JsonValue};
use vstd::prelude::*;

verus! {

/// Detection result from the polling endpoint.
#[derive(Debug)]
pub struct DetectionResult {
    /// Whether the server reported the analysis as finished.
    pub finished: bool,
    /// The named sub-test results: every top-level object entry except
    /// `finished`, in the order the parsed object yields them.
    pub tests: Vec<(String, JsonValue)>,
    /// The unmodified response text, kept for pass-through rendering.
    pub raw_body: String,
    /// The exit IP of the run this result belongs to.
    pub exit_ip: String,
    /// Total bandwidth used (bytes sent + received, framing included).
    pub bandwidth_bytes: u64,
}

impl Default for DetectionResult {
    /// An empty result: nothing finished, no tests, no bandwidth.
    fn default() -> (r: DetectionResult)
        ensures
            !r.finished,
            r.tests@ =~= Seq::<(String, JsonValue)>::empty(),
            r.raw_body@ =~= Seq::<char>::empty(),
            r.exit_ip@ =~= Seq::<char>::empty(),
            r.bandwidth_bytes == 0,
    {
        DetectionResult {
            finished: false,
            tests: Vec::new(),
            raw_body: String::new(),
            exit_ip: String::new(),
            bandwidth_bytes: 0,
        }
    }
}

/// The completion flag a parsed response carries: the value of a
/// top-level boolean `finished` entry, false in every other case.
pub open spec fn spec_finished(node: JsonValue) -> bool {
    match node {
        JsonValue::Obj(es) => match entries_lookup(es@, "finished"@) {
            Some(JsonValue::Bool(b)) => b,
            _ => false,
        },
        _ => false,
    }
}

/// The sub-test entries a parsed response carries: the top-level object's
/// entries without any `finished` entry, in order; an empty mapping when
/// the response is not an object.
pub open spec fn spec_tests(node: JsonValue) -> Seq<(String, JsonValue)>
    decreases node,
{
    match node {
        JsonValue::Obj(es) => strip_finished(es@),
        _ => Seq::empty(),
    }
}

/// `entries` without the entries keyed `finished`, in order.
pub open spec fn strip_finished(entries: Seq<(String, JsonValue)>) -> Seq<(String, JsonValue)>
    decreases entries.len(),
{
    if entries.len() == 0 {
        Seq::empty()
    } else if entries[0].0@ == "finished"@ {
        strip_finished(entries.drop_first())
    } else {
        seq![entries[0]] + strip_finished(entries.drop_first())
    }
}

/// Split a parsed response into its completion flag and sub-test entries.
#[verifier::loop_isolation(false)]
pub fn result_parts(node: JsonValue) -> (r: (bool, Vec<(String, JsonValue)>))
    ensures
        r.0 == spec_finished(node),
        r.1@ == spec_tests(node),
{
    match node {
        JsonValue::Obj(mut es) => {
            let ghost all = es@;
            let finished = match crate::json::entries_get(&es, "finished") {
                Some(JsonValue::Bool(b)) => *b,
                _ => false,
            };
            let mut tests: Vec<(String, JsonValue)> = Vec::new();
            while es.len() > 0
                invariant
                    tests@ + strip_finished(es@) =~= strip_finished(all),
                decreases es@.len(),
            {
                let ghost before = es@;
                let p = es.remove(0);
                proof {
                    assert(es@ =~= before.drop_first());
                }
                if !crate::textfmt::str_eq(p.0.as_str(), "finished") {
                    tests.push(p);
                }
            }
            proof {
                assert(tests@ =~= strip_finished(all));
            }
            (finished, tests)
        },
        _ => (false, Vec::new()),
    }
}

/// Parse one polling response body. A valid JSON body yields its
/// completion flag and sub-test entries plus the unmodified text; a body
/// that is not valid JSON yields `None`, and the caller keeps its previous
/// partial result.
pub fn parse_result(body: &str) -> (r: Option<DetectionResult>)
    ensures
        match r {
            Some(d) => {
                &&& json_of(body@) is Some
                &&& d.finished == spec_finished(json_of(body@)->Some_0)
                &&& d.tests@ == spec_tests(json_of(body@)->Some_0)
                &&& d.raw_body@ == body@
                &&& d.exit_ip@ == Seq::<char>::empty()
                &&& d.bandwidth_bytes == 0
            },
            None => json_of(body@) is None,
        },
{
    match parse_json(body) {
        Some(node) => {
            let (finished, tests) = result_parts(node);
            Some(
                DetectionResult {
                    finished,
                    tests,
                    raw_body: body.to_owned(),
                    exit_ip: String::new(),
                    bandwidth_bytes: 0,
                },
            )
        },
        None => None,
    }
}

} // verus!
