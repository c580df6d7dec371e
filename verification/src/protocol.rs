//! The detection protocol's decisions: the four-phase engine's retry
//! policy, poll schedule, latency fallback and byte accounting, each as a
//! pure function or a small state machine with an exact contract. The
//! network calls around them are plain I/O and live outside the library.

use crate::result::DetectionResult;
use crate::textfmt::{dec_nat, u64_to_string};
use vstd::prelude::*;

verus! {

/// Why a detection run fails, by phase.
pub enum EngineError {
    /// The session-init body misses a required field; fatal.
    ConfigParse(crate::config::ConfigError),
    /// Connection, DNS or proxy failure where the phase cannot degrade;
    /// fatal for session init and telemetry.
    Transport(String),
    /// The server answered telemetry with a client error; fatal, never
    /// retried.
    ServerRejected { status: u16, body: String },
    /// Telemetry kept failing with server errors through every attempt.
    SubmissionExhausted,
    /// The timezone-by-IP lookup failed; recovered by falling back to UTC.
    LookupFailed,
    /// The requested timezone override is not a recognized zone name;
    /// fatal, since the caller asked for that zone and no other.
    UnknownZone,
    /// The poll schedule ran out without a finished verdict; recovered by
    /// returning the best partial result.
    PollTimeout,
}

impl EngineError {
    /// The error's one-line description, with the phase context its
    /// variant carries.
    pub fn message(&self) -> (r: String)
        ensures
            r@ == (match *self {
                EngineError::ConfigParse(c) => (match c {
                    crate::config::ConfigError::MissingUuid => "failed to extract UUID from session script"@,
                    crate::config::ConfigError::MissingExitIp => "failed to extract exit IP from session script"@,
                }),
                EngineError::Transport(ref s) => "transport failure: "@ + s@,
                EngineError::ServerRejected { status, ref body } => "server rejected telemetry (status "@
                    + crate::textfmt::dec_nat(status as int) + "): "@ + body@,
                EngineError::SubmissionExhausted => "telemetry submission failed after all retry attempts"@,
                EngineError::LookupFailed => "timezone lookup failed"@,
                EngineError::UnknownZone => "unknown timezone override"@,
                EngineError::PollTimeout => "poll schedule exhausted before the analysis finished"@,
            }),
    {
        match self {
            EngineError::ConfigParse(c) => c.message().to_owned(),
            EngineError::Transport(s) => {
                let mut m = "transport failure: ".to_owned();
                m.append(s.as_str());
                m
            },
            EngineError::ServerRejected { status, body } => {
                let mut m = "server rejected telemetry (status ".to_owned();
                m.append(u64_to_string(*status as u64).as_str());
                m.append("): ");
                m.append(body.as_str());
                proof {
                    assert(m@ =~= "server rejected telemetry (status "@ + crate::textfmt::dec_nat(
                        *status as int,
                    ) + "): "@ + body@);
                }
                m
            },
            EngineError::SubmissionExhausted => {
                "telemetry submission failed after all retry attempts".to_owned()
            },
            EngineError::LookupFailed => "timezone lookup failed".to_owned(),
            EngineError::UnknownZone => "unknown timezone override".to_owned(),
            EngineError::PollTimeout => {
                "poll schedule exhausted before the analysis finished".to_owned()
            },
        }
    }
}

/// Detection run options: the target path, the claimed browser
/// identity, an optional zone override, and output switches.
pub struct Options {
    /// The proxy URL to route through, or none for a direct run.
    pub proxy_url: Option<String>,
    /// The browser preset name; an unknown name selects the default.
    pub browser_name: String,
    /// An IANA zone name that overrides the exit-IP lookup.
    pub timezone_iana: Option<String>,
    pub verbose: bool,
    pub json_output: bool,
}

/// Approximate HTTP overhead per request (headers, TLS record framing).
pub const HTTP_OVERHEAD_PER_REQUEST: u64 = 500;

/// Sum that stops at the top of the range instead of wrapping.
pub open spec fn sat_add(a: u64, b: u64) -> u64 {
    if a + b > u64::MAX {
        u64::MAX
    } else {
        (a + b) as u64
    }
}

/// Add with saturation at the top of the range.
pub fn add_sat(a: u64, b: u64) -> (r: u64)
    ensures
        r == sat_add(a, b),
{
    if a > u64::MAX - b {
        u64::MAX
    } else {
        a + b
    }
}

/// What one request costs in the bandwidth account: the per-request
/// overhead plus the body bytes that travelled.
pub open spec fn spec_request_cost(body_len: u64) -> u64 {
    sat_add(HTTP_OVERHEAD_PER_REQUEST, body_len)
}

/// The bandwidth cost of one request with a body of `body_len` bytes.
pub fn request_cost(body_len: u64) -> (r: u64)
    ensures
        r == spec_request_cost(body_len),
{
    add_sat(HTTP_OVERHEAD_PER_REQUEST, body_len)
}

// ── Telemetry retry policy ───────────────────────────────────────────

/// How many telemetry attempts are allowed in all.
pub const SUBMIT_MAX_ATTEMPTS: u32 = 4;

/// What to do with one telemetry response.
#[derive(Clone, Copy, Debug, PartialEq, Eq, Structural)]
pub enum SubmitDecision {
    /// The server accepted the payload; the phase is done.
    Success,
    /// A server error with attempts left: wait this many base
    /// milliseconds (jitter comes on top) and try again.
    RetryAfter(u64),
    /// A client error: fatal at once, never retried.
    Rejected,
    /// A server error on the last attempt: the phase is exhausted.
    Exhausted,
}

/// The retry policy for one telemetry response: a server error (500 and
/// up) retries while attempts remain, waiting 2000 ms before the second
/// attempt and 4000 ms before later ones; a client error (400 to 499) is
/// fatal at once; anything below 400 is success.
pub open spec fn spec_submit_decision(attempt: u32, status: u16) -> SubmitDecision {
    if status >= 500 {
        if attempt + 1 < SUBMIT_MAX_ATTEMPTS {
            SubmitDecision::RetryAfter(
                if attempt == 0 {
                    2000u64
                } else {
                    4000u64
                },
            )
        } else {
            SubmitDecision::Exhausted
        }
    } else if status >= 400 {
        SubmitDecision::Rejected
    } else {
        SubmitDecision::Success
    }
}

/// Decide what one telemetry response means on attempt `attempt`
/// (counted from zero).
pub fn submit_decision(attempt: u32, status: u16) -> (r: SubmitDecision)
    requires
        attempt < SUBMIT_MAX_ATTEMPTS,
    ensures
        r == spec_submit_decision(attempt, status),
{
    if status >= 500 {
        if attempt + 1 < SUBMIT_MAX_ATTEMPTS {
            SubmitDecision::RetryAfter(
                if attempt == 0 {
                    2000
                } else {
                    4000
                },
            )
        } else {
            SubmitDecision::Exhausted
        }
    } else if status >= 400 {
        SubmitDecision::Rejected
    } else {
        SubmitDecision::Success
    }
}

/// The wait before the next telemetry attempt: the decision's base delay
/// plus the random jitter the caller drew (1000 to 2999 ms).
pub fn retry_delay(base: u64, jitter: u64) -> (r: u64)
    requires
        base <= 4000,
        1000 <= jitter < 3000,
    ensures
        r == base + jitter,
{
    base + jitter
}

/// The telemetry phase's outcome for a given run of responses, one
/// status per attempt, starting at attempt `attempt`.
pub open spec fn spec_submit_outcome(statuses: Seq<u16>, attempt: int) -> SubmitDecision
    decreases SUBMIT_MAX_ATTEMPTS - attempt,
{
    if attempt < 0 || attempt >= SUBMIT_MAX_ATTEMPTS || attempt >= statuses.len() {
        SubmitDecision::Exhausted
    } else {
        match spec_submit_decision(attempt as u32, statuses[attempt]) {
            SubmitDecision::RetryAfter(_) => spec_submit_outcome(statuses, attempt + 1),
            d => d,
        }
    }
}

/// Repeated server errors stop after exactly [`SUBMIT_MAX_ATTEMPTS`]
/// attempts and surface as exhaustion: with every response a 5xx, the
/// phase retries through all four attempts and ends exhausted.
pub proof fn lemma_submission_exhausted(statuses: Seq<u16>)
    requires
        statuses.len() == SUBMIT_MAX_ATTEMPTS,
        forall|i: int| 0 <= i < statuses.len() ==> #[trigger] statuses[i] >= 500,
    ensures
        spec_submit_outcome(statuses, 0) is Exhausted,
{
    assert(spec_submit_outcome(statuses, 3) is Exhausted);
    assert(spec_submit_outcome(statuses, 2) is Exhausted);
    assert(spec_submit_outcome(statuses, 1) is Exhausted);
}

/// A client error on the first attempt never retries: the outcome is an
/// immediate rejection, whatever would have come later.
pub proof fn lemma_client_error_never_retries(statuses: Seq<u16>)
    requires
        statuses.len() > 0,
        400 <= statuses[0] < 500,
    ensures
        spec_submit_outcome(statuses, 0) is Rejected,
{
}

// ── Result polling ───────────────────────────────────────────────────

/// The poll schedule: the wait in milliseconds before each check,
/// front-loaded to catch fast completions cheaply, then coarse.
pub open spec fn spec_poll_schedule() -> Seq<u64> {
    seq![
        0u64,
        200u64,
        400u64,
        650u64,
        900u64,
        1200u64,
        1600u64,
        2100u64,
        2700u64,
        3500u64,
        4500u64,
        6000u64,
        8000u64,
        10000u64,
        12000u64,
    ] + Seq::new(10, |i: int| 12000u64)
}

/// The sum of a schedule's waits.
pub open spec fn sum_of(s: Seq<u64>) -> int
    decreases s.len(),
{
    if s.len() == 0 {
        0
    } else {
        sum_of(s.drop_last()) + s.last()
    }
}

/// Build the poll schedule: the fifteen front-loaded waits, then ten
/// more checks of 12000 ms each — 25 checks in all.
pub fn poll_schedule() -> (r: Vec<u64>)
    ensures
        r@ == spec_poll_schedule(),
        r@.len() == 25,
{
    let mut v: Vec<u64> = Vec::new();
    v.push(0);
    v.push(200);
    v.push(400);
    v.push(650);
    v.push(900);
    v.push(1200);
    v.push(1600);
    v.push(2100);
    v.push(2700);
    v.push(3500);
    v.push(4500);
    v.push(6000);
    v.push(8000);
    v.push(10000);
    v.push(12000);
    let mut i: u64 = 0;
    while i < 10
        invariant
            0 <= i <= 10,
            v@.len() == 15 + i,
            forall|k: int| 0 <= k < 15 ==> v@[k] == spec_poll_schedule()[k],
            forall|k: int| 15 <= k < v@.len() ==> v@[k] == 12000u64,
        decreases 10 - i,
    {
        v.push(12000);
        i += 1;
    }
    proof {
        assert(v@ =~= spec_poll_schedule());
    }
    v
}

/// The poll schedule holds exactly 25 checks, and sitting through all of
/// them (the case where no response ever reports the analysis finished)
/// sleeps for the fixed total of 173750 ms.
pub proof fn lemma_poll_schedule_totals()
    ensures
        spec_poll_schedule().len() == 25,
        sum_of(spec_poll_schedule()) == 173750,
{
    reveal_with_fuel(sum_of, 26);
    assert(sum_of(spec_poll_schedule()) == 173750) by {
        let s = spec_poll_schedule();
        assert(s.len() == 25);
        assert forall|k: int| 15 <= k < 25 implies #[trigger] s[k] == 12000u64 by {}
        lemma_sum_concrete(s);
    }
}

proof fn lemma_sum_prefix(s: Seq<u64>, k: int)
    requires
        0 <= k <= s.len(),
    ensures
        sum_of(s.subrange(0, k)) + sum_of_from(s, k) == sum_of(s),
    decreases s.len() - k,
{
    if k == s.len() {
        assert(s.subrange(0, k) =~= s);
    } else {
        assert(s.subrange(0, k + 1).drop_last() =~= s.subrange(0, k));
        lemma_sum_prefix(s, k + 1);
    }
}

/// The sum of the waits from position `k` on.
pub open spec fn sum_of_from(s: Seq<u64>, k: int) -> int
    decreases s.len() - k,
{
    if k < 0 || k >= s.len() {
        0
    } else {
        s[k] + sum_of_from(s, k + 1)
    }
}

proof fn lemma_sum_concrete(s: Seq<u64>)
    requires
        s.len() == 25,
        s[0] == 0u64,
        s[1] == 200u64,
        s[2] == 400u64,
        s[3] == 650u64,
        s[4] == 900u64,
        s[5] == 1200u64,
        s[6] == 1600u64,
        s[7] == 2100u64,
        s[8] == 2700u64,
        s[9] == 3500u64,
        s[10] == 4500u64,
        s[11] == 6000u64,
        s[12] == 8000u64,
        s[13] == 10000u64,
        s[14] == 12000u64,
        forall|k: int| 15 <= k < 25 ==> #[trigger] s[k] == 12000u64,
    ensures
        sum_of(s) == 173750,
{
    reveal_with_fuel(sum_of_from, 27);
    lemma_sum_prefix(s, 0);
    assert(s.subrange(0, 0) =~= Seq::<u64>::empty());
    assert(sum_of_from(s, 0) == 173750);
}

/// What one poll check brought back.
pub enum PollEvent {
    /// The request or the read of its body failed.
    RequestFailed,
    /// A body came back, valid JSON or not.
    Body(String),
}

/// The running state of the poll phase.
#[derive(Debug)]
pub struct PollState {
    /// The last successfully parsed (possibly partial) result.
    pub last: DetectionResult,
    /// Bytes accounted to the poll phase so far.
    pub bytes: u64,
}

/// Fold one poll check's outcome into the state. A failed request or an
/// unparseable body is skipped: the previous partial result stays, only
/// the bandwidth account moves, and the loop goes on. A parsed body
/// replaces the previous result whole, and the phase stops exactly when
/// it reports the analysis finished.
pub fn poll_step(state: &mut PollState, event: PollEvent) -> (stop: bool)
    ensures
        match event {
            PollEvent::RequestFailed => {
                &&& final(state).last == old(state).last
                &&& final(state).bytes == sat_add(old(state).bytes, spec_request_cost(0))
                &&& !stop
            },
            PollEvent::Body(b) => {
                &&& final(state).bytes == sat_add(
                    old(state).bytes,
                    spec_request_cost((vstd::utf8::encode_utf8(b@).len() as usize) as u64),
                )
                &&& match crate::json::json_of(b@) {
                    Some(node) => {
                        &&& final(state).last.finished == crate::result::spec_finished(node)
                        &&& final(state).last.tests@ == crate::result::spec_tests(node)
                        &&& final(state).last.raw_body@ == b@
                        &&& stop == final(state).last.finished
                    },
                    None => final(state).last == old(state).last && !stop,
                }
            },
        },
        stop == spec_poll_stop(event),
{
    match event {
        PollEvent::RequestFailed => {
            state.bytes = add_sat(state.bytes, request_cost(0));
            false
        },
        PollEvent::Body(b) => {
            let blen = b.as_str().len() as u64;
            state.bytes = add_sat(state.bytes, request_cost(blen));
            match crate::result::parse_result(b.as_str()) {
                Some(parsed) => {
                    let finished = parsed.finished;
                    state.last = parsed;
                    finished
                },
                None => false,
            }
        },
    }
}

/// Whether one check's outcome stops the poll phase: only a body that
/// parses and reports the analysis finished does.
pub open spec fn spec_poll_stop(e: PollEvent) -> bool {
    match e {
        PollEvent::RequestFailed => false,
        PollEvent::Body(b) => match crate::json::json_of(b@) {
            Some(node) => crate::result::spec_finished(node),
            None => false,
        },
    }
}

/// How many checks the poll phase makes over a run of outcomes: one per
/// schedule slot, stopping with the first outcome that reports the
/// analysis finished.
pub open spec fn spec_checks_made(events: Seq<PollEvent>) -> int
    decreases events.len(),
{
    if events.len() == 0 {
        0
    } else if spec_poll_stop(events[0]) {
        1
    } else {
        1 + spec_checks_made(events.drop_first())
    }
}

proof fn lemma_checks_without_stop(events: Seq<PollEvent>)
    requires
        forall|i: int| 0 <= i < events.len() ==> !spec_poll_stop(#[trigger] events[i]),
    ensures
        spec_checks_made(events) == events.len(),
    decreases events.len(),
{
    if events.len() > 0 {
        assert(forall|i: int|
            0 <= i < events.drop_first().len() ==> !spec_poll_stop(
                #[trigger] events.drop_first()[i],
            ));
        lemma_checks_without_stop(events.drop_first());
    }
}

/// When no response over the whole schedule reports the analysis
/// finished, the poll phase makes exactly 25 checks — one per slot —
/// and the waits before them add up to the schedule's fixed total.
pub proof fn lemma_poll_exhausts_schedule(events: Seq<PollEvent>)
    requires
        events.len() == spec_poll_schedule().len(),
        forall|i: int| 0 <= i < events.len() ==> !spec_poll_stop(#[trigger] events[i]),
    ensures
        spec_checks_made(events) == 25,
        sum_of(spec_poll_schedule()) == 173750,
{
    lemma_poll_schedule_totals();
    lemma_checks_without_stop(events);
}

// ── Latency fallback ─────────────────────────────────────────────────

/// The latency evidence for the payload: the socket samples when there
/// are any, the image-probe samples as fallback when the socket yielded
/// none.
pub fn choose_ws_latencies(image: &Vec<u64>, ws: &Vec<u64>) -> (r: Vec<u64>)
    ensures
        ws@.len() == 0 ==> r@ == image@,
        ws@.len() > 0 ==> r@ == ws@,
{
    let src = if ws.len() == 0 {
        image
    } else {
        ws
    };
    let mut out: Vec<u64> = Vec::new();
    let n = src.len();
    for i in 0..n
        invariant
            n == src@.len(),
            out@ =~= src@.subrange(0, i as int),
            src == (if ws@.len() == 0 {
                image
            } else {
                ws
            }),
        decreases n - i,
    {
        out.push(src[i]);
        proof {
            assert(out@ =~= src@.subrange(0, i + 1));
        }
    }
    proof {
        assert(out@ =~= src@);
    }
    out
}

// ── Socket probe accounting ──────────────────────────────────────────

/// How many ping/pong rounds the socket probe attempts at most.
pub const WS_ROUNDS: usize = 5;

/// Frame overhead per client-to-server text frame (masking included).
pub const WS_FRAME_OVERHEAD_SEND: u64 = 6;

/// Frame overhead per server-to-client frame.
pub const WS_FRAME_OVERHEAD_RECV: u64 = 2;

/// Bytes of the close frame the probe sends at the end.
pub const WS_CLOSE_FRAME_BYTES: u64 = 4;

/// Socket probe outcome: round-trip samples and byte accounting.
#[derive(Debug)]
pub struct WsLatencyResult {
    /// Round-trip times in milliseconds, one per completed round.
    pub latencies: Vec<u64>,
    /// Bytes sent, framing overhead included.
    pub bytes_sent: u64,
    /// Bytes received, framing overhead included.
    pub bytes_received: u64,
}

impl WsLatencyResult {
    /// An account with no samples and no bytes.
    pub fn empty() -> (r: WsLatencyResult)
        ensures
            r.latencies@ =~= Seq::<u64>::empty(),
            r.bytes_sent == 0,
            r.bytes_received == 0,
    {
        WsLatencyResult { latencies: Vec::new(), bytes_sent: 0, bytes_received: 0 }
    }

    /// Account one ping sent: the message's bytes plus the send-side
    /// frame overhead.
    pub fn ping_sent(&mut self, msg_len: u64)
        ensures
            final(self).latencies == old(self).latencies,
            final(self).bytes_sent == sat_add(old(self).bytes_sent, sat_add(msg_len, WS_FRAME_OVERHEAD_SEND)),
            final(self).bytes_received == old(self).bytes_received,
    {
        self.bytes_sent = add_sat(self.bytes_sent, add_sat(msg_len, WS_FRAME_OVERHEAD_SEND));
    }

    /// Account one reply: keep its round-trip time and add the reply's
    /// bytes plus the receive-side frame overhead.
    pub fn pong_received(&mut self, rtt_ms: u64, reply_len: u64)
        ensures
            final(self).latencies@ == old(self).latencies@.push(rtt_ms),
            final(self).bytes_sent == old(self).bytes_sent,
            final(self).bytes_received == sat_add(
                old(self).bytes_received,
                sat_add(reply_len, WS_FRAME_OVERHEAD_RECV),
            ),
    {
        self.latencies.push(rtt_ms);
        self.bytes_received = add_sat(
            self.bytes_received,
            add_sat(reply_len, WS_FRAME_OVERHEAD_RECV),
        );
    }

    /// Account the close frame that ends the exchange.
    pub fn close_sent(&mut self)
        ensures
            final(self).latencies == old(self).latencies,
            final(self).bytes_sent == sat_add(old(self).bytes_sent, WS_CLOSE_FRAME_BYTES),
            final(self).bytes_received == old(self).bytes_received,
    {
        self.bytes_sent = add_sat(self.bytes_sent, WS_CLOSE_FRAME_BYTES);
    }
}

/// The text frame the socket probe sends: the session token wrapped as
/// a small JSON object.
pub open spec fn spec_ws_message(uuid: Seq<char>) -> Seq<char> {
    "{\"uuid\":\""@ + uuid + "\"}"@
}

/// Build the probe's ping message for a session token.
pub fn ws_uuid_message(uuid: &str) -> (r: String)
    ensures
        r@ == spec_ws_message(uuid@),
{
    let mut s = "{\"uuid\":\"".to_owned();
    s.append(uuid);
    s.append("\"}");
    proof {
        assert(s@ =~= spec_ws_message(uuid@));
    }
    s
}

// ── Request URLs ─────────────────────────────────────────────────────

/// The session-init URL.
pub fn session_url() -> (r: String)
    ensures
        r@ == "https://engine.proxydetect.live/pd-lib.js"@,
{
    "https://engine.proxydetect.live/pd-lib.js".to_owned()
}

/// The telemetry submission URL.
pub fn telemetry_url() -> (r: String)
    ensures
        r@ == "https://engine.proxydetect.live/s"@,
{
    "https://engine.proxydetect.live/s".to_owned()
}

/// The poll URL for a session token.
pub fn poll_url(uuid: &str) -> (r: String)
    ensures
        r@ == "https://engine.proxydetect.live/i?&uuid="@ + uuid@,
{
    let mut s = "https://engine.proxydetect.live/i?&uuid=".to_owned();
    s.append(uuid);
    s
}

/// An image-probe URL: the probe index and a caller-drawn cache-busting
/// token, so no two probes hit a cached response.
pub fn image_probe_url(idx: u64, cache_buster: &str) -> (r: String)
    ensures
        r@ == "https://engine.proxydetect.live/images/small.png?n="@ + dec_nat(idx as int) + "&r="@
            + cache_buster@,
{
    let mut s = "https://engine.proxydetect.live/images/small.png?n=".to_owned();
    s.append(u64_to_string(idx).as_str());
    s.append("&r=");
    s.append(cache_buster);
    proof {
        assert(s@ =~= "https://engine.proxydetect.live/images/small.png?n="@ + dec_nat(idx as int)
            + "&r="@ + cache_buster@);
    }
    s
}

/// How many image probes one run makes.
pub const IMAGE_PROBE_COUNT: usize = 3;

/// The lowercase-hex rendering of a value, without leading zeros.
pub open spec fn hex_nat(n: int) -> Seq<char>
    decreases n,
{
    if n < 16 {
        seq![hex_digit_char(n)]
    } else {
        hex_nat(n / 16) + seq![hex_digit_char(n % 16)]
    }
}

/// The lowercase hexadecimal digit character for `d`.
pub open spec fn hex_digit_char(d: int) -> char {
    if d < 10 {
        crate::textfmt::digit_char(d)
    } else if d == 10 {
        'a'
    } else if d == 11 {
        'b'
    } else if d == 12 {
        'c'
    } else if d == 13 {
        'd'
    } else if d == 14 {
        'e'
    } else {
        'f'
    }
}

fn hex_digit_str(d: u64) -> (r: &'static str)
    requires
        d < 16,
    ensures
        r@ == seq![hex_digit_char(d as int)],
{
    if d < 10 {
        crate::textfmt::digit_str(d)
    } else {
        let r = match d {
            10 => "a",
            11 => "b",
            12 => "c",
            13 => "d",
            14 => "e",
            _ => "f",
        };
        proof {
            reveal_strlit("a");
            reveal_strlit("b");
            reveal_strlit("c");
            reveal_strlit("d");
            reveal_strlit("e");
            reveal_strlit("f");
            assert(r@ =~= seq![hex_digit_char(d as int)]);
        }
        r
    }
}

/// Render a value in lowercase hexadecimal, as the cache-busting token
/// is rendered from a random draw.
pub fn u64_to_hex(n: u64) -> (r: String)
    ensures
        r@ == hex_nat(n as int),
    decreases n,
{
    if n < 16 {
        hex_digit_str(n).to_owned()
    } else {
        let mut s = u64_to_hex(n / 16);
        s.append(hex_digit_str(n % 16));
        proof {
            assert(s@ =~= hex_nat(n as int));
        }
        s
    }
}

} // verus!
