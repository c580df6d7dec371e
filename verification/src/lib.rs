//! A verified client engine for a remote bot/proxy-detection check: the
//! browser identity (headers and navigator-fingerprint hash), the
//! four-phase detection protocol's decisions, the latency probes'
//! accounting, the timezone resolver, and the campaign orchestrator's
//! bookkeeping. The network transport, the clock and the JSON parser are
//! outside collaborators, used behind small trusted boundaries; every
//! decision and every formatted byte in between is specified and proved.

pub mod campaign;
pub mod config;
pub mod fingerprint;
pub mod headers;
pub mod ipapi;
pub mod json;
pub mod output;
pub mod payload;
pub mod preset;
pub mod protocol;
pub mod result;
pub mod textfmt;
pub mod timezone;

pub use config::{parse_config, ServerConfig};
pub use fingerprint::compute_fingerprint;
pub use preset::get_preset;
pub use result::{parse_result, DetectionResult};
pub use timezone::resolve;
