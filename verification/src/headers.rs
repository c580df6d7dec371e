//! Per-preset, per-phase HTTP header sets. Every combination of browser
//! family and protocol phase yields one fixed ordered list of header
//! name/value pairs; the values are literal, since the remote server
//! correlates header shape against the claimed TLS identity. The
//! transport layer outside the library turns these pairs into its own
//! header map.

use crate::preset::Preset;
use crate::textfmt::str_eq;
use vstd::prelude::*;

verus! {

/// One HTTP header: a name and its literal value.
#[derive(Debug)]
pub struct HeaderPair {
    pub name: &'static str,
    pub value: &'static str,
}

/// The character-level view of a header list.
pub open spec fn header_views(h: Seq<HeaderPair>) -> Seq<(Seq<char>, Seq<char>)> {
    h.map_values(|p: HeaderPair| (p.name@, p.value@))
}

/// Whether a preset name belongs to the Chrome family.
pub open spec fn is_chrome_name(name: Seq<char>) -> bool {
    name == "chrome-143"@ || name == "chrome-131"@
}

/// Whether a preset name is the Firefox preset.
pub open spec fn is_firefox_name(name: Seq<char>) -> bool {
    name == "firefox-133"@
}

/// Whether a preset name is the Safari preset.
pub open spec fn is_safari_name(name: Seq<char>) -> bool {
    name == "safari-18"@
}

/// The Chrome client-hint identity line for a preset name.
pub open spec fn sec_ch_ua_of(name: Seq<char>) -> Seq<char> {
    if name == "chrome-143"@ {
        "\"Chromium\";v=\"143\", \"Not/A)Brand\";v=\"24\", \"Google Chrome\";v=\"143\""@
    } else {
        "\"Chromium\";v=\"131\", \"Not/A)Brand\";v=\"24\", \"Google Chrome\";v=\"131\""@
    }
}

fn is_chrome(preset: &Preset) -> (r: bool)
    ensures
        r == is_chrome_name(preset.name@),
{
    str_eq(preset.name, "chrome-143") || str_eq(preset.name, "chrome-131")
}

fn is_firefox(preset: &Preset) -> (r: bool)
    ensures
        r == is_firefox_name(preset.name@),
{
    str_eq(preset.name, "firefox-133")
}

fn is_safari(preset: &Preset) -> (r: bool)
    ensures
        r == is_safari_name(preset.name@),
{
    str_eq(preset.name, "safari-18")
}

fn chrome_sec_ch_ua(preset: &Preset) -> (r: &'static str)
    ensures
        r@ == sec_ch_ua_of(preset.name@),
{
    if str_eq(preset.name, "chrome-143") {
        "\"Chromium\";v=\"143\", \"Not/A)Brand\";v=\"24\", \"Google Chrome\";v=\"143\""
    } else {
        "\"Chromium\";v=\"131\", \"Not/A)Brand\";v=\"24\", \"Google Chrome\";v=\"131\""
    }
}

fn push_header(v: &mut Vec<HeaderPair>, name: &'static str, value: &'static str)
    ensures
        header_views(final(v)@) == header_views(old(v)@) + seq![(name@, value@)],
{
    v.push(HeaderPair { name, value });
    proof {
        assert(header_views(v@) =~= header_views(old(v)@) + seq![(name@, value@)]);
    }
}

/// The header list the `script` phase sends for a preset name, given
/// the preset's user-agent text.
pub open spec fn spec_script_headers(name: Seq<char>, ua: Seq<char>) -> Seq<(Seq<char>, Seq<char>)> {
    if is_chrome_name(name) {
        seq![
        ("Accept"@, "*/*"@),
        ("Accept-Encoding"@, "gzip, deflate, br, zstd"@),
        ("Accept-Language"@, "en-US,en;q=0.9"@),
        ("Origin"@, "https://proxydetect.live"@),
        ("Referer"@, "https://proxydetect.live/"@),
        ("Sec-Ch-Ua"@, sec_ch_ua_of(name)),
        ("Sec-Ch-Ua-Mobile"@, "?0"@),
        ("Sec-Ch-Ua-Platform"@, "\"Windows\""@),
        ("Sec-Fetch-Dest"@, "script"@),
        ("Sec-Fetch-Mode"@, "cors"@),
        ("Sec-Fetch-Site"@, "same-site"@),
        ("User-Agent"@, ua),
        ]
    } else if is_firefox_name(name) {
        seq![
        ("Accept"@, "*/*"@),
        ("Accept-Encoding"@, "gzip, deflate, br, zstd"@),
        ("Accept-Language"@, "en-US,en;q=0.5"@),
        ("Origin"@, "https://proxydetect.live"@),
        ("Referer"@, "https://proxydetect.live/"@),
        ("Sec-Fetch-Dest"@, "script"@),
        ("Sec-Fetch-Mode"@, "cors"@),
        ("Sec-Fetch-Site"@, "same-site"@),
        ("User-Agent"@, ua),
        ]
    } else if is_safari_name(name) {
        seq![
        ("Accept"@, "*/*"@),
        ("Accept-Encoding"@, "gzip, deflate, br"@),
        ("Accept-Language"@, "en-US,en;q=0.9"@),
        ("Origin"@, "https://proxydetect.live"@),
        ("Referer"@, "https://proxydetect.live/"@),
        ("Sec-Fetch-Dest"@, "script"@),
        ("Sec-Fetch-Mode"@, "cors"@),
        ("Sec-Fetch-Site"@, "same-site"@),
        ("User-Agent"@, ua),
        ]
    } else {
        Seq::empty()
    }
}

/// Headers for the session-init script fetch (script loading context).
#[verifier::rlimit(60)]
pub fn script_headers(preset: &Preset) -> (r: Vec<HeaderPair>)
    ensures
        header_views(r@) == spec_script_headers(preset.name@, preset.user_agent@),
{
    let mut v: Vec<HeaderPair> = Vec::new();
    if is_chrome(preset) {
        push_header(&mut v, "Accept", "*/*");
        push_header(&mut v, "Accept-Encoding", "gzip, deflate, br, zstd");
        push_header(&mut v, "Accept-Language", "en-US,en;q=0.9");
        push_header(&mut v, "Origin", "https://proxydetect.live");
        push_header(&mut v, "Referer", "https://proxydetect.live/");
        push_header(&mut v, "Sec-Ch-Ua", chrome_sec_ch_ua(preset));
        push_header(&mut v, "Sec-Ch-Ua-Mobile", "?0");
        push_header(&mut v, "Sec-Ch-Ua-Platform", "\"Windows\"");
        push_header(&mut v, "Sec-Fetch-Dest", "script");
        push_header(&mut v, "Sec-Fetch-Mode", "cors");
        push_header(&mut v, "Sec-Fetch-Site", "same-site");
        push_header(&mut v, "User-Agent", preset.user_agent);
    } else if is_firefox(preset) {
        push_header(&mut v, "Accept", "*/*");
        push_header(&mut v, "Accept-Encoding", "gzip, deflate, br, zstd");
        push_header(&mut v, "Accept-Language", "en-US,en;q=0.5");
        push_header(&mut v, "Origin", "https://proxydetect.live");
        push_header(&mut v, "Referer", "https://proxydetect.live/");
        push_header(&mut v, "Sec-Fetch-Dest", "script");
        push_header(&mut v, "Sec-Fetch-Mode", "cors");
        push_header(&mut v, "Sec-Fetch-Site", "same-site");
        push_header(&mut v, "User-Agent", preset.user_agent);
    } else if is_safari(preset) {
        push_header(&mut v, "Accept", "*/*");
        push_header(&mut v, "Accept-Encoding", "gzip, deflate, br");
        push_header(&mut v, "Accept-Language", "en-US,en;q=0.9");
        push_header(&mut v, "Origin", "https://proxydetect.live");
        push_header(&mut v, "Referer", "https://proxydetect.live/");
        push_header(&mut v, "Sec-Fetch-Dest", "script");
        push_header(&mut v, "Sec-Fetch-Mode", "cors");
        push_header(&mut v, "Sec-Fetch-Site", "same-site");
        push_header(&mut v, "User-Agent", preset.user_agent);
    }
    proof {
        assert(header_views(v@) =~= spec_script_headers(preset.name@, preset.user_agent@));
    }
    v
}

/// The header list the `image` phase sends for a preset name, given
/// the preset's user-agent text.
pub open spec fn spec_image_headers(name: Seq<char>, ua: Seq<char>) -> Seq<(Seq<char>, Seq<char>)> {
    if is_chrome_name(name) {
        seq![
        ("Accept"@, "image/avif,image/webp,image/apng,image/svg+xml,image/*,*/*;q=0.8"@),
        ("Accept-Encoding"@, "gzip, deflate, br, zstd"@),
        ("Accept-Language"@, "en-US,en;q=0.9"@),
        ("Referer"@, "https://proxydetect.live/"@),
        ("Sec-Ch-Ua"@, sec_ch_ua_of(name)),
        ("Sec-Ch-Ua-Mobile"@, "?0"@),
        ("Sec-Ch-Ua-Platform"@, "\"Windows\""@),
        ("Sec-Fetch-Dest"@, "image"@),
        ("Sec-Fetch-Mode"@, "no-cors"@),
        ("Sec-Fetch-Site"@, "same-site"@),
        ("User-Agent"@, ua),
        ]
    } else if is_firefox_name(name) {
        seq![
        ("Accept"@, "image/avif,image/webp,image/png,image/svg+xml,image/*;q=0.8,*/*;q=0.5"@),
        ("Accept-Encoding"@, "gzip, deflate, br, zstd"@),
        ("Accept-Language"@, "en-US,en;q=0.5"@),
        ("Referer"@, "https://proxydetect.live/"@),
        ("Sec-Fetch-Dest"@, "image"@),
        ("Sec-Fetch-Mode"@, "no-cors"@),
        ("Sec-Fetch-Site"@, "same-site"@),
        ("User-Agent"@, ua),
        ]
    } else if is_safari_name(name) {
        seq![
        ("Accept"@, "image/webp,image/avif,image/jxl,image/heic,image/heic-sequence,video/*;q=0.8,image/png,image/svg+xml,image/*;q=0.8,*/*;q=0.5"@),
        ("Accept-Encoding"@, "gzip, deflate, br"@),
        ("Accept-Language"@, "en-US,en;q=0.9"@),
        ("Referer"@, "https://proxydetect.live/"@),
        ("Sec-Fetch-Dest"@, "image"@),
        ("Sec-Fetch-Mode"@, "no-cors"@),
        ("Sec-Fetch-Site"@, "same-site"@),
        ("User-Agent"@, ua),
        ]
    } else {
        Seq::empty()
    }
}

/// Headers for the image latency probes (image fetch context).
#[verifier::rlimit(60)]
pub fn image_headers(preset: &Preset) -> (r: Vec<HeaderPair>)
    ensures
        header_views(r@) == spec_image_headers(preset.name@, preset.user_agent@),
{
    let mut v: Vec<HeaderPair> = Vec::new();
    if is_chrome(preset) {
        push_header(&mut v, "Accept", "image/avif,image/webp,image/apng,image/svg+xml,image/*,*/*;q=0.8");
        push_header(&mut v, "Accept-Encoding", "gzip, deflate, br, zstd");
        push_header(&mut v, "Accept-Language", "en-US,en;q=0.9");
        push_header(&mut v, "Referer", "https://proxydetect.live/");
        push_header(&mut v, "Sec-Ch-Ua", chrome_sec_ch_ua(preset));
        push_header(&mut v, "Sec-Ch-Ua-Mobile", "?0");
        push_header(&mut v, "Sec-Ch-Ua-Platform", "\"Windows\"");
        push_header(&mut v, "Sec-Fetch-Dest", "image");
        push_header(&mut v, "Sec-Fetch-Mode", "no-cors");
        push_header(&mut v, "Sec-Fetch-Site", "same-site");
        push_header(&mut v, "User-Agent", preset.user_agent);
    } else if is_firefox(preset) {
        push_header(&mut v, "Accept", "image/avif,image/webp,image/png,image/svg+xml,image/*;q=0.8,*/*;q=0.5");
        push_header(&mut v, "Accept-Encoding", "gzip, deflate, br, zstd");
        push_header(&mut v, "Accept-Language", "en-US,en;q=0.5");
        push_header(&mut v, "Referer", "https://proxydetect.live/");
        push_header(&mut v, "Sec-Fetch-Dest", "image");
        push_header(&mut v, "Sec-Fetch-Mode", "no-cors");
        push_header(&mut v, "Sec-Fetch-Site", "same-site");
        push_header(&mut v, "User-Agent", preset.user_agent);
    } else if is_safari(preset) {
        push_header(&mut v, "Accept", "image/webp,image/avif,image/jxl,image/heic,image/heic-sequence,video/*;q=0.8,image/png,image/svg+xml,image/*;q=0.8,*/*;q=0.5");
        push_header(&mut v, "Accept-Encoding", "gzip, deflate, br");
        push_header(&mut v, "Accept-Language", "en-US,en;q=0.9");
        push_header(&mut v, "Referer", "https://proxydetect.live/");
        push_header(&mut v, "Sec-Fetch-Dest", "image");
        push_header(&mut v, "Sec-Fetch-Mode", "no-cors");
        push_header(&mut v, "Sec-Fetch-Site", "same-site");
        push_header(&mut v, "User-Agent", preset.user_agent);
    }
    proof {
        assert(header_views(v@) =~= spec_image_headers(preset.name@, preset.user_agent@));
    }
    v
}

/// The header list the `beacon` phase sends for a preset name, given
/// the preset's user-agent text.
pub open spec fn spec_beacon_headers(name: Seq<char>, ua: Seq<char>) -> Seq<(Seq<char>, Seq<char>)> {
    if is_chrome_name(name) {
        seq![
        ("Accept"@, "*/*"@),
        ("Accept-Encoding"@, "gzip, deflate, br, zstd"@),
        ("Accept-Language"@, "en-US,en;q=0.9"@),
        ("Content-Type"@, "text/plain;charset=UTF-8"@),
        ("Origin"@, "https://proxydetect.live"@),
        ("Referer"@, "https://proxydetect.live/"@),
        ("Sec-Ch-Ua"@, sec_ch_ua_of(name)),
        ("Sec-Ch-Ua-Mobile"@, "?0"@),
        ("Sec-Ch-Ua-Platform"@, "\"Windows\""@),
        ("Sec-Fetch-Dest"@, "empty"@),
        ("Sec-Fetch-Mode"@, "no-cors"@),
        ("Sec-Fetch-Site"@, "same-site"@),
        ("User-Agent"@, ua),
        ]
    } else if is_firefox_name(name) {
        seq![
        ("Accept"@, "*/*"@),
        ("Accept-Encoding"@, "gzip, deflate, br, zstd"@),
        ("Accept-Language"@, "en-US,en;q=0.5"@),
        ("Content-Type"@, "text/plain;charset=UTF-8"@),
        ("Origin"@, "https://proxydetect.live"@),
        ("Referer"@, "https://proxydetect.live/"@),
        ("Sec-Fetch-Dest"@, "empty"@),
        ("Sec-Fetch-Mode"@, "no-cors"@),
        ("Sec-Fetch-Site"@, "same-site"@),
        ("User-Agent"@, ua),
        ]
    } else if is_safari_name(name) {
        seq![
        ("Accept"@, "*/*"@),
        ("Accept-Encoding"@, "gzip, deflate, br"@),
        ("Accept-Language"@, "en-US,en;q=0.9"@),
        ("Content-Type"@, "text/plain;charset=UTF-8"@),
        ("Origin"@, "https://proxydetect.live"@),
        ("Referer"@, "https://proxydetect.live/"@),
        ("Sec-Fetch-Dest"@, "empty"@),
        ("Sec-Fetch-Mode"@, "no-cors"@),
        ("Sec-Fetch-Site"@, "same-site"@),
        ("User-Agent"@, ua),
        ]
    } else {
        Seq::empty()
    }
}

/// Headers for the telemetry submission (beacon-style POST context).
#[verifier::rlimit(60)]
pub fn beacon_headers(preset: &Preset) -> (r: Vec<HeaderPair>)
    ensures
        header_views(r@) == spec_beacon_headers(preset.name@, preset.user_agent@),
{
    let mut v: Vec<HeaderPair> = Vec::new();
    if is_chrome(preset) {
        push_header(&mut v, "Accept", "*/*");
        push_header(&mut v, "Accept-Encoding", "gzip, deflate, br, zstd");
        push_header(&mut v, "Accept-Language", "en-US,en;q=0.9");
        push_header(&mut v, "Content-Type", "text/plain;charset=UTF-8");
        push_header(&mut v, "Origin", "https://proxydetect.live");
        push_header(&mut v, "Referer", "https://proxydetect.live/");
        push_header(&mut v, "Sec-Ch-Ua", chrome_sec_ch_ua(preset));
        push_header(&mut v, "Sec-Ch-Ua-Mobile", "?0");
        push_header(&mut v, "Sec-Ch-Ua-Platform", "\"Windows\"");
        push_header(&mut v, "Sec-Fetch-Dest", "empty");
        push_header(&mut v, "Sec-Fetch-Mode", "no-cors");
        push_header(&mut v, "Sec-Fetch-Site", "same-site");
        push_header(&mut v, "User-Agent", preset.user_agent);
    } else if is_firefox(preset) {
        push_header(&mut v, "Accept", "*/*");
        push_header(&mut v, "Accept-Encoding", "gzip, deflate, br, zstd");
        push_header(&mut v, "Accept-Language", "en-US,en;q=0.5");
        push_header(&mut v, "Content-Type", "text/plain;charset=UTF-8");
        push_header(&mut v, "Origin", "https://proxydetect.live");
        push_header(&mut v, "Referer", "https://proxydetect.live/");
        push_header(&mut v, "Sec-Fetch-Dest", "empty");
        push_header(&mut v, "Sec-Fetch-Mode", "no-cors");
        push_header(&mut v, "Sec-Fetch-Site", "same-site");
        push_header(&mut v, "User-Agent", preset.user_agent);
    } else if is_safari(preset) {
        push_header(&mut v, "Accept", "*/*");
        push_header(&mut v, "Accept-Encoding", "gzip, deflate, br");
        push_header(&mut v, "Accept-Language", "en-US,en;q=0.9");
        push_header(&mut v, "Content-Type", "text/plain;charset=UTF-8");
        push_header(&mut v, "Origin", "https://proxydetect.live");
        push_header(&mut v, "Referer", "https://proxydetect.live/");
        push_header(&mut v, "Sec-Fetch-Dest", "empty");
        push_header(&mut v, "Sec-Fetch-Mode", "no-cors");
        push_header(&mut v, "Sec-Fetch-Site", "same-site");
        push_header(&mut v, "User-Agent", preset.user_agent);
    }
    proof {
        assert(header_views(v@) =~= spec_beacon_headers(preset.name@, preset.user_agent@));
    }
    v
}

/// The header list the `ipapi` phase sends for a preset name, given
/// the preset's user-agent text.
pub open spec fn spec_ipapi_headers(name: Seq<char>, ua: Seq<char>) -> Seq<(Seq<char>, Seq<char>)> {
    if is_chrome_name(name) {
        seq![
        ("Sec-Ch-Ua-Platform"@, "\"Windows\""@),
        ("User-Agent"@, ua),
        ("Sec-Ch-Ua"@, sec_ch_ua_of(name)),
        ("Sec-Ch-Ua-Mobile"@, "?0"@),
        ("Accept"@, "*/*"@),
        ("Origin"@, "https://ipapi.is"@),
        ("Sec-Fetch-Site"@, "same-site"@),
        ("Sec-Fetch-Mode"@, "cors"@),
        ("Sec-Fetch-Dest"@, "empty"@),
        ("Referer"@, "https://ipapi.is/"@),
        ("Accept-Language"@, "en-US,en;q=0.9"@),
        ("Priority"@, "u=1, i"@),
        ]
    } else if is_firefox_name(name) {
        seq![
        ("User-Agent"@, ua),
        ("Accept"@, "*/*"@),
        ("Origin"@, "https://ipapi.is"@),
        ("Sec-Fetch-Site"@, "same-site"@),
        ("Sec-Fetch-Mode"@, "cors"@),
        ("Sec-Fetch-Dest"@, "empty"@),
        ("Referer"@, "https://ipapi.is/"@),
        ("Accept-Language"@, "en-US,en;q=0.5"@),
        ]
    } else if is_safari_name(name) {
        seq![
        ("User-Agent"@, ua),
        ("Accept"@, "*/*"@),
        ("Origin"@, "https://ipapi.is"@),
        ("Sec-Fetch-Site"@, "same-site"@),
        ("Sec-Fetch-Mode"@, "cors"@),
        ("Sec-Fetch-Dest"@, "empty"@),
        ("Referer"@, "https://ipapi.is/"@),
        ("Accept-Language"@, "en-US,en;q=0.9"@),
        ]
    } else {
        Seq::empty()
    }
}

/// Headers for the IP-reputation fetch (the provider's frontend context).
#[verifier::rlimit(60)]
pub fn ipapi_headers(preset: &Preset) -> (r: Vec<HeaderPair>)
    ensures
        header_views(r@) == spec_ipapi_headers(preset.name@, preset.user_agent@),
{
    let mut v: Vec<HeaderPair> = Vec::new();
    if is_chrome(preset) {
        push_header(&mut v, "Sec-Ch-Ua-Platform", "\"Windows\"");
        push_header(&mut v, "User-Agent", preset.user_agent);
        push_header(&mut v, "Sec-Ch-Ua", chrome_sec_ch_ua(preset));
        push_header(&mut v, "Sec-Ch-Ua-Mobile", "?0");
        push_header(&mut v, "Accept", "*/*");
        push_header(&mut v, "Origin", "https://ipapi.is");
        push_header(&mut v, "Sec-Fetch-Site", "same-site");
        push_header(&mut v, "Sec-Fetch-Mode", "cors");
        push_header(&mut v, "Sec-Fetch-Dest", "empty");
        push_header(&mut v, "Referer", "https://ipapi.is/");
        push_header(&mut v, "Accept-Language", "en-US,en;q=0.9");
        push_header(&mut v, "Priority", "u=1, i");
    } else if is_firefox(preset) {
        push_header(&mut v, "User-Agent", preset.user_agent);
        push_header(&mut v, "Accept", "*/*");
        push_header(&mut v, "Origin", "https://ipapi.is");
        push_header(&mut v, "Sec-Fetch-Site", "same-site");
        push_header(&mut v, "Sec-Fetch-Mode", "cors");
        push_header(&mut v, "Sec-Fetch-Dest", "empty");
        push_header(&mut v, "Referer", "https://ipapi.is/");
        push_header(&mut v, "Accept-Language", "en-US,en;q=0.5");
    } else if is_safari(preset) {
        push_header(&mut v, "User-Agent", preset.user_agent);
        push_header(&mut v, "Accept", "*/*");
        push_header(&mut v, "Origin", "https://ipapi.is");
        push_header(&mut v, "Sec-Fetch-Site", "same-site");
        push_header(&mut v, "Sec-Fetch-Mode", "cors");
        push_header(&mut v, "Sec-Fetch-Dest", "empty");
        push_header(&mut v, "Referer", "https://ipapi.is/");
        push_header(&mut v, "Accept-Language", "en-US,en;q=0.9");
    }
    proof {
        assert(header_views(v@) =~= spec_ipapi_headers(preset.name@, preset.user_agent@));
    }
    v
}

/// The header list the `poll` phase sends for a preset name, given
/// the preset's user-agent text.
pub open spec fn spec_poll_headers(name: Seq<char>, ua: Seq<char>) -> Seq<(Seq<char>, Seq<char>)> {
    if is_chrome_name(name) {
        seq![
        ("Accept"@, "*/*"@),
        ("Accept-Encoding"@, "gzip, deflate, br, zstd"@),
        ("Accept-Language"@, "en-US,en;q=0.9"@),
        ("Cache-Control"@, "no-cache"@),
        ("Origin"@, "https://proxydetect.live"@),
        ("Pragma"@, "no-cache"@),
        ("Referer"@, "https://proxydetect.live/"@),
        ("Sec-Ch-Ua"@, sec_ch_ua_of(name)),
        ("Sec-Ch-Ua-Mobile"@, "?0"@),
        ("Sec-Ch-Ua-Platform"@, "\"Windows\""@),
        ("Sec-Fetch-Dest"@, "empty"@),
        ("Sec-Fetch-Mode"@, "cors"@),
        ("Sec-Fetch-Site"@, "same-site"@),
        ("User-Agent"@, ua),
        ]
    } else if is_firefox_name(name) {
        seq![
        ("Accept"@, "*/*"@),
        ("Accept-Encoding"@, "gzip, deflate, br, zstd"@),
        ("Accept-Language"@, "en-US,en;q=0.5"@),
        ("Cache-Control"@, "no-cache"@),
        ("Origin"@, "https://proxydetect.live"@),
        ("Pragma"@, "no-cache"@),
        ("Referer"@, "https://proxydetect.live/"@),
        ("Sec-Fetch-Dest"@, "empty"@),
        ("Sec-Fetch-Mode"@, "cors"@),
        ("Sec-Fetch-Site"@, "same-site"@),
        ("User-Agent"@, ua),
        ]
    } else if is_safari_name(name) {
        seq![
        ("Accept"@, "*/*"@),
        ("Accept-Encoding"@, "gzip, deflate, br"@),
        ("Accept-Language"@, "en-US,en;q=0.9"@),
        ("Cache-Control"@, "no-cache"@),
        ("Origin"@, "https://proxydetect.live"@),
        ("Pragma"@, "no-cache"@),
        ("Referer"@, "https://proxydetect.live/"@),
        ("Sec-Fetch-Dest"@, "empty"@),
        ("Sec-Fetch-Mode"@, "cors"@),
        ("Sec-Fetch-Site"@, "same-site"@),
        ("User-Agent"@, ua),
        ]
    } else {
        Seq::empty()
    }
}

/// Headers for the result polling checks.
#[verifier::rlimit(60)]
pub fn poll_headers(preset: &Preset) -> (r: Vec<HeaderPair>)
    ensures
        header_views(r@) == spec_poll_headers(preset.name@, preset.user_agent@),
{
    let mut v: Vec<HeaderPair> = Vec::new();
    if is_chrome(preset) {
        push_header(&mut v, "Accept", "*/*");
        push_header(&mut v, "Accept-Encoding", "gzip, deflate, br, zstd");
        push_header(&mut v, "Accept-Language", "en-US,en;q=0.9");
        push_header(&mut v, "Cache-Control", "no-cache");
        push_header(&mut v, "Origin", "https://proxydetect.live");
        push_header(&mut v, "Pragma", "no-cache");
        push_header(&mut v, "Referer", "https://proxydetect.live/");
        push_header(&mut v, "Sec-Ch-Ua", chrome_sec_ch_ua(preset));
        push_header(&mut v, "Sec-Ch-Ua-Mobile", "?0");
        push_header(&mut v, "Sec-Ch-Ua-Platform", "\"Windows\"");
        push_header(&mut v, "Sec-Fetch-Dest", "empty");
        push_header(&mut v, "Sec-Fetch-Mode", "cors");
        push_header(&mut v, "Sec-Fetch-Site", "same-site");
        push_header(&mut v, "User-Agent", preset.user_agent);
    } else if is_firefox(preset) {
        push_header(&mut v, "Accept", "*/*");
        push_header(&mut v, "Accept-Encoding", "gzip, deflate, br, zstd");
        push_header(&mut v, "Accept-Language", "en-US,en;q=0.5");
        push_header(&mut v, "Cache-Control", "no-cache");
        push_header(&mut v, "Origin", "https://proxydetect.live");
        push_header(&mut v, "Pragma", "no-cache");
        push_header(&mut v, "Referer", "https://proxydetect.live/");
        push_header(&mut v, "Sec-Fetch-Dest", "empty");
        push_header(&mut v, "Sec-Fetch-Mode", "cors");
        push_header(&mut v, "Sec-Fetch-Site", "same-site");
        push_header(&mut v, "User-Agent", preset.user_agent);
    } else if is_safari(preset) {
        push_header(&mut v, "Accept", "*/*");
        push_header(&mut v, "Accept-Encoding", "gzip, deflate, br");
        push_header(&mut v, "Accept-Language", "en-US,en;q=0.9");
        push_header(&mut v, "Cache-Control", "no-cache");
        push_header(&mut v, "Origin", "https://proxydetect.live");
        push_header(&mut v, "Pragma", "no-cache");
        push_header(&mut v, "Referer", "https://proxydetect.live/");
        push_header(&mut v, "Sec-Fetch-Dest", "empty");
        push_header(&mut v, "Sec-Fetch-Mode", "cors");
        push_header(&mut v, "Sec-Fetch-Site", "same-site");
        push_header(&mut v, "User-Agent", preset.user_agent);
    }
    proof {
        assert(header_views(v@) =~= spec_poll_headers(preset.name@, preset.user_agent@));
    }
    v
}

} // verus!
