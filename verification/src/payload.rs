//! The telemetry payload: everything gathered in the first two phases,
//! assembled once immediately before submission. Timings and latencies
//! are whole milliseconds.

use crate::config::ServerConfig;
use crate::fingerprint::{compute_fingerprint, fingerprint_of};
use crate::preset::Preset;
use crate::timezone::Info as TzInfo;
use vstd::prelude::*;

verus! {

/// Client telemetry payload for the submission phase.
pub struct ClientPayload {
    pub uuid: String,
    pub idx: i32,
    /// Milliseconds from run start to the session script's arrival.
    pub loaded: u64,
    /// Milliseconds from run start to payload construction.
    pub elapsed: u64,
    pub location: String,
    pub user_agent: String,
    pub time: TimeData,
    pub net: NetData,
    pub timezone_details: TZDetails,
    pub webrtc: WebRTCData,
    pub machine: MachineData,
    pub image_latencies: Vec<u64>,
    pub ws_latencies: Vec<u64>,
    /// The navigator-fingerprint hash of the preset.
    pub fp: u32,
}

/// The local clock as the payload reports it.
pub struct TimeData {
    pub timestamp: i64,
    pub time_str: String,
    pub time_zone: String,
}

/// The simulated client-side network tests.
pub struct NetData {
    pub dns_resolving: NetTestResult,
    pub uncommon_port: NetTestResult,
}

/// One simulated network test: a result code and a timing in
/// milliseconds.
pub struct NetTestResult {
    pub res: i32,
    pub perf: u64,
}

/// The timezone block of the payload.
pub struct TZDetails {
    pub valid: TZValid,
    pub date: String,
    pub time: String,
    pub zone: String,
    pub reported_offset: i32,
    pub computed_offset: i32,
    pub reported_location: String,
    pub resolved_epoch: i64,
    pub system_epoch: i64,
}

/// The timezone validity flags a real browser's checks would set; all
/// reported as passing.
pub struct TZValid {
    pub time: bool,
    pub clock: bool,
    pub date: bool,
    pub invalid_date: bool,
    pub offset: bool,
    pub matching_offset: bool,
    pub now_time: bool,
    pub utc_time: bool,
}

/// WebRTC findings; always reported as unsupported, with no addresses.
pub struct WebRTCData {
    pub ips: Vec<String>,
    pub finish_event: String,
    pub elapsed: u64,
}

/// Machine-consistency flags; all reported as clear.
pub struct MachineData {
    pub ua_identifiers: bool,
    pub core: bool,
    pub system: bool,
    pub device: bool,
    pub platform: bool,
    pub speech_synthesis: bool,
    pub device_memory: bool,
    pub hardware_concurrency: bool,
    pub gpu: bool,
}

impl Default for MachineData {
    /// Every machine-consistency flag clear.
    fn default() -> (r: MachineData)
        ensures
            !r.ua_identifiers && !r.core && !r.system && !r.device && !r.platform
                && !r.speech_synthesis && !r.device_memory && !r.hardware_concurrency && !r.gpu,
    {
        MachineData {
            ua_identifiers: false,
            core: false,
            system: false,
            device: false,
            platform: false,
            speech_synthesis: false,
            device_memory: false,
            hardware_concurrency: false,
            gpu: false,
        }
    }
}

/// Build the telemetry payload from everything the run has gathered.
/// Every field is pinned: the session token and zone fields come over
/// unchanged, the reported and computed offsets are the same value, the
/// two epochs are the zone's probe instant, the network tests and
/// WebRTC block carry their fixed simulated values, and the fingerprint
/// is the preset's hash.
pub fn build_payload(
    cfg: &ServerConfig,
    preset: &Preset,
    tz_info: &TzInfo,
    image_latencies: &Vec<u64>,
    ws_latencies: &Vec<u64>,
    loaded_ms: u64,
    elapsed_ms: u64,
) -> (r: ClientPayload)
    ensures
        r.uuid@ == cfg.uuid@,
        r.idx == 1,
        r.loaded == loaded_ms,
        r.elapsed == elapsed_ms,
        r.location@ == "https://proxydetect.live/"@,
        r.user_agent@ == preset.user_agent@,
        r.time.timestamp == tz_info.timestamp_millis,
        r.time.time_str@ == tz_info.date_string@,
        r.time.time_zone@ == tz_info.iana_name@,
        r.net.dns_resolving.res == 0 && r.net.dns_resolving.perf == 215,
        r.net.uncommon_port.res == 1 && r.net.uncommon_port.perf == 622,
        r.timezone_details.valid.time && r.timezone_details.valid.clock
            && r.timezone_details.valid.date && r.timezone_details.valid.invalid_date
            && r.timezone_details.valid.offset && r.timezone_details.valid.matching_offset
            && r.timezone_details.valid.now_time && r.timezone_details.valid.utc_time,
        r.timezone_details.date@ == tz_info.date_string@,
        r.timezone_details.time@ == tz_info.time_string@,
        r.timezone_details.zone@ == tz_info.windows_zone@,
        r.timezone_details.reported_offset == tz_info.offset_minutes,
        r.timezone_details.computed_offset == tz_info.offset_minutes,
        r.timezone_details.reported_location@ == tz_info.iana_name@,
        r.timezone_details.resolved_epoch == tz_info.resolved_epoch,
        r.timezone_details.system_epoch == tz_info.system_epoch,
        r.webrtc.ips@.len() == 0,
        r.webrtc.finish_event@ == "notSupported"@,
        r.webrtc.elapsed == 0,
        !r.machine.ua_identifiers && !r.machine.core && !r.machine.system && !r.machine.device
            && !r.machine.platform && !r.machine.speech_synthesis && !r.machine.device_memory
            && !r.machine.hardware_concurrency && !r.machine.gpu,
        r.image_latencies@ == image_latencies@,
        r.ws_latencies@ == ws_latencies@,
        r.fp == fingerprint_of(preset.name@),
{
    ClientPayload {
        uuid: cfg.uuid.clone(),
        idx: 1,
        loaded: loaded_ms,
        elapsed: elapsed_ms,
        location: "https://proxydetect.live/".to_owned(),
        user_agent: preset.user_agent.to_owned(),
        time: TimeData {
            timestamp: tz_info.timestamp_millis,
            time_str: tz_info.date_string.clone(),
            time_zone: tz_info.iana_name.clone(),
        },
        net: NetData {
            dns_resolving: NetTestResult { res: 0, perf: 215 },
            uncommon_port: NetTestResult { res: 1, perf: 622 },
        },
        timezone_details: TZDetails {
            valid: TZValid {
                time: true,
                clock: true,
                date: true,
                invalid_date: true,
                offset: true,
                matching_offset: true,
                now_time: true,
                utc_time: true,
            },
            date: tz_info.date_string.clone(),
            time: tz_info.time_string.clone(),
            zone: tz_info.windows_zone.clone(),
            reported_offset: tz_info.offset_minutes,
            computed_offset: tz_info.offset_minutes,
            reported_location: tz_info.iana_name.clone(),
            resolved_epoch: tz_info.resolved_epoch,
            system_epoch: tz_info.system_epoch,
        },
        webrtc: WebRTCData {
            ips: Vec::new(),
            finish_event: "notSupported".to_owned(),
            elapsed: 0,
        },
        machine: MachineData::default(),
        image_latencies: copy_samples(image_latencies),
        ws_latencies: copy_samples(ws_latencies),
        fp: compute_fingerprint(preset.name),
    }
}

/// A copy of a latency sample sequence.
fn copy_samples(v: &Vec<u64>) -> (r: Vec<u64>)
    ensures
        r@ == v@,
{
    let mut out: Vec<u64> = Vec::new();
    let n = v.len();
    for i in 0..n
        invariant
            n == v@.len(),
            out@ =~= v@.subrange(0, i as int),
        decreases n - i,
    {
        out.push(v[i]);
        proof {
            assert(out@ =~= v@.subrange(0, i + 1));
        }
    }
    proof {
        assert(out@ =~= v@);
    }
    out
}

} // verus!
