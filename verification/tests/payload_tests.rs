use proxy_detector::config::parse_config;
use proxy_detector::fingerprint::compute_fingerprint;
use proxy_detector::payload::build_payload;
use proxy_detector::preset::get_preset;
use proxy_detector::protocol::choose_ws_latencies;
use proxy_detector::timezone::resolve;

#[test]
fn payload_carries_everything_gathered() {
    let cfg = parse_config(r#"uuid:"abcdef0123456789" rip:"1.2.3.4""#).unwrap();
    let preset = get_preset("firefox-133");
    let tz = resolve("UTC").unwrap();
    let image: Vec<u64> = vec![31, 47, 29];
    let ws: Vec<u64> = vec![5, 6, 7, 8, 9];
    let p = build_payload(&cfg, &preset, &tz, &image, &ws, 120, 4800);

    assert_eq!(p.uuid, "abcdef0123456789");
    assert_eq!(p.idx, 1);
    assert_eq!(p.loaded, 120);
    assert_eq!(p.elapsed, 4800);
    assert_eq!(p.location, "https://proxydetect.live/");
    assert_eq!(p.user_agent, preset.user_agent);
    assert_eq!(p.time.time_zone, "UTC");
    assert_eq!(p.time.timestamp, tz.timestamp_millis);
    assert_eq!(p.net.dns_resolving.res, 0);
    assert_eq!(p.net.dns_resolving.perf, 215);
    assert_eq!(p.net.uncommon_port.res, 1);
    assert_eq!(p.net.uncommon_port.perf, 622);
    assert_eq!(p.timezone_details.zone, "UTC");
    assert_eq!(p.timezone_details.reported_offset, 0);
    assert_eq!(p.timezone_details.computed_offset, 0);
    assert_eq!(p.timezone_details.reported_location, "UTC");
    assert_eq!(p.timezone_details.resolved_epoch, p.timezone_details.system_epoch);
    assert!(p.timezone_details.valid.time && p.timezone_details.valid.utc_time);
    assert!(p.webrtc.ips.is_empty());
    assert_eq!(p.webrtc.finish_event, "notSupported");
    assert_eq!(p.webrtc.elapsed, 0);
    assert!(!p.machine.gpu && !p.machine.core);
    assert_eq!(p.image_latencies, image);
    assert_eq!(p.ws_latencies, ws);
    assert_eq!(p.fp, compute_fingerprint("firefox-133"));
}

#[test]
fn payload_socket_fallback_is_byte_for_byte() {
    let cfg = parse_config(r#"uuid:"abcdef0123456789" rip:"1.2.3.4""#).unwrap();
    let preset = get_preset("chrome-143");
    let tz = resolve("UTC").unwrap();
    let image: Vec<u64> = vec![31, 47, 29];
    let no_ws: Vec<u64> = Vec::new();
    let ws_for_payload = choose_ws_latencies(&image, &no_ws);
    let p = build_payload(&cfg, &preset, &tz, &image, &ws_for_payload, 1, 2);
    assert_eq!(p.ws_latencies, p.image_latencies);
    assert_eq!(p.ws_latencies, image);
}
