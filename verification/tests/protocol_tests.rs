use proxy_detector::config::ConfigError;
use proxy_detector::protocol::{
    choose_ws_latencies, image_probe_url, poll_schedule, poll_step, poll_url, request_cost,
    retry_delay, session_url, submit_decision, telemetry_url, u64_to_hex, ws_uuid_message,
    EngineError, PollEvent, PollState, SubmitDecision, WsLatencyResult,
};
use proxy_detector::result::DetectionResult;

#[test]
fn poll_schedule_has_25_checks() {
    let s = poll_schedule();
    assert_eq!(s.len(), 25);
    assert_eq!(
        &s[..15],
        &[0, 200, 400, 650, 900, 1200, 1600, 2100, 2700, 3500, 4500, 6000, 8000, 10000, 12000]
    );
    for i in 15..25 {
        assert_eq!(s[i], 12000);
    }
    let total: u64 = s.iter().sum();
    assert_eq!(total, 173750);
}

#[test]
fn repeated_5xx_stops_after_exactly_four_attempts() {
    let mut attempts = 0u32;
    let outcome = loop {
        let d = submit_decision(attempts, 503);
        attempts += 1;
        match d {
            SubmitDecision::RetryAfter(_) => continue,
            other => break other,
        }
    };
    assert_eq!(attempts, 4);
    assert_eq!(outcome, SubmitDecision::Exhausted);
}

#[test]
fn client_error_on_first_attempt_never_retries() {
    assert_eq!(submit_decision(0, 404), SubmitDecision::Rejected);
    assert_eq!(submit_decision(0, 400), SubmitDecision::Rejected);
    assert_eq!(submit_decision(0, 499), SubmitDecision::Rejected);
}

#[test]
fn retry_backoff_bases() {
    assert_eq!(submit_decision(0, 500), SubmitDecision::RetryAfter(2000));
    assert_eq!(submit_decision(1, 500), SubmitDecision::RetryAfter(4000));
    assert_eq!(submit_decision(2, 599), SubmitDecision::RetryAfter(4000));
    assert_eq!(submit_decision(3, 500), SubmitDecision::Exhausted);
}

#[test]
fn success_statuses_accepted() {
    assert_eq!(submit_decision(0, 200), SubmitDecision::Success);
    assert_eq!(submit_decision(2, 204), SubmitDecision::Success);
    assert_eq!(submit_decision(3, 399), SubmitDecision::Success);
}

#[test]
fn retry_delay_adds_jitter() {
    assert_eq!(retry_delay(2000, 1000), 3000);
    assert_eq!(retry_delay(4000, 2999), 6999);
}

#[test]
fn poll_step_malformed_body_keeps_partial_result() {
    let mut state = PollState { last: DetectionResult::default(), bytes: 0 };
    // A first valid partial result.
    let stop = poll_step(
        &mut state,
        PollEvent::Body(String::from(r#"{"finished":false,"proxy":{"isProxy":true}}"#)),
    );
    assert!(!stop);
    assert_eq!(state.last.tests.len(), 1);
    let bytes_after_first = state.bytes;

    // A malformed body is skipped: the partial result stays, only the
    // bandwidth account moves, and the loop would go on.
    let stop = poll_step(&mut state, PollEvent::Body(String::from("not json at all {")));
    assert!(!stop);
    assert_eq!(state.last.tests.len(), 1);
    assert_eq!(state.last.raw_body, r#"{"finished":false,"proxy":{"isProxy":true}}"#);
    assert_eq!(state.bytes, bytes_after_first + 500 + "not json at all {".len() as u64);
}

#[test]
fn poll_step_stops_exactly_on_finished() {
    let mut state = PollState { last: DetectionResult::default(), bytes: 0 };
    assert!(!poll_step(&mut state, PollEvent::Body(String::from(r#"{"finished":false}"#))));
    assert!(!poll_step(&mut state, PollEvent::Body(String::from(r#"{"a":1}"#))));
    assert!(poll_step(&mut state, PollEvent::Body(String::from(r#"{"finished":true}"#))));
    assert!(state.last.finished);
}

#[test]
fn poll_step_request_failure_counts_overhead() {
    let mut state = PollState { last: DetectionResult::default(), bytes: 7 };
    let stop = poll_step(&mut state, PollEvent::RequestFailed);
    assert!(!stop);
    assert_eq!(state.bytes, 507);
    assert!(!state.last.finished);
}

#[test]
fn socket_fallback_substitutes_image_latencies() {
    let image: Vec<u64> = vec![31, 47, 29];
    let empty: Vec<u64> = Vec::new();
    let chosen = choose_ws_latencies(&image, &empty);
    assert_eq!(chosen, image);

    let ws: Vec<u64> = vec![5, 6];
    let chosen = choose_ws_latencies(&image, &ws);
    assert_eq!(chosen, ws);
}

#[test]
fn socket_accounting() {
    let mut acc = WsLatencyResult::empty();
    let msg = ws_uuid_message("abcdef0123456789");
    assert_eq!(msg, r#"{"uuid":"abcdef0123456789"}"#);
    acc.ping_sent(msg.len() as u64);
    assert_eq!(acc.bytes_sent, 27 + 6);
    acc.pong_received(12, 27);
    assert_eq!(acc.latencies, vec![12]);
    assert_eq!(acc.bytes_received, 27 + 2);
    acc.close_sent();
    assert_eq!(acc.bytes_sent, 27 + 6 + 4);
}

#[test]
fn request_urls() {
    assert_eq!(session_url(), "https://engine.proxydetect.live/pd-lib.js");
    assert_eq!(telemetry_url(), "https://engine.proxydetect.live/s");
    assert_eq!(
        poll_url("abcdef0123456789"),
        "https://engine.proxydetect.live/i?&uuid=abcdef0123456789"
    );
    assert_eq!(
        image_probe_url(2, "deadbeef"),
        "https://engine.proxydetect.live/images/small.png?n=2&r=deadbeef"
    );
}

#[test]
fn hex_rendering() {
    assert_eq!(u64_to_hex(0), "0");
    assert_eq!(u64_to_hex(255), "ff");
    assert_eq!(u64_to_hex(3735928559), "deadbeef");
    assert_eq!(u64_to_hex(u64::MAX), "ffffffffffffffff");
}

#[test]
fn engine_error_messages() {
    assert_eq!(
        EngineError::ConfigParse(ConfigError::MissingUuid).message(),
        "failed to extract UUID from session script"
    );
    assert_eq!(
        EngineError::Transport(String::from("connection refused")).message(),
        "transport failure: connection refused"
    );
    assert_eq!(
        EngineError::ServerRejected { status: 403, body: String::from("denied") }.message(),
        "server rejected telemetry (status 403): denied"
    );
    assert_eq!(
        EngineError::SubmissionExhausted.message(),
        "telemetry submission failed after all retry attempts"
    );
    assert_eq!(EngineError::LookupFailed.message(), "timezone lookup failed");
    assert_eq!(EngineError::UnknownZone.message(), "unknown timezone override");
    assert_eq!(
        EngineError::PollTimeout.message(),
        "poll schedule exhausted before the analysis finished"
    );
}

#[test]
fn request_cost_saturates() {
    assert_eq!(request_cost(100), 600);
    assert_eq!(request_cost(u64::MAX), u64::MAX);
}
