//! Navigator-fingerprint hashing: a 32-bit block hash over the serialized
//! preset properties, with JavaScript-style 32-bit wrapping multiplication.

use crate::textfmt::{
    bool_chars, bool_to_str, dec_int, dec_nat, i64_to_string, str_eq, u64_to_string,
};
use vstd::prelude::*;
use vstd::utf8::encode_utf8;

verus! {

/// Browser navigator properties for fingerprint generation.
pub struct BrowserProperties {
    pub boolean_fingerprint: u32,
    pub hardware_concurrency: i32,
    pub device_memory: Option<&'static str>,
    pub platform: &'static str,
    pub oscpu: Option<&'static str>,
    pub cpu_class: Option<&'static str>,
    pub vendor: &'static str,
    pub build_id: Option<&'static str>,
    pub product: &'static str,
    pub product_sub: &'static str,
    pub plugins_support: bool,
    pub max_touch_points: i32,
    pub language: &'static str,
    pub languages: &'static str,
    pub session_storage: bool,
    pub local_storage: bool,
    pub indexed_db: bool,
    pub open_database: bool,
    pub cookie_enabled: bool,
    pub do_not_track: &'static str,
    pub sayswho: &'static str,
    pub load_purpose: &'static str,
    pub webdriver: bool,
    pub dimensions: &'static str,
    pub geolocation: bool,
    pub vibrate: bool,
    pub get_battery: bool,
    pub webrtc_key: bool,
    pub phantom: bool,
    pub window_webdriver: bool,
    pub dom_automation: bool,
    pub auto: bool,
    pub wd1: bool,
    pub xpath_result: bool,
    pub wd2: bool,
    pub selenium: bool,
}

/// One `key:value;` entry of the serialized property string; the colon is
/// part of the key literal.
pub open spec fn entry(key: Seq<char>, value: Seq<char>) -> Seq<char> {
    key + value + ";"@
}

/// The characters an optional property contributes: its text, or nothing.
pub open spec fn opt_chars(o: Option<&str>) -> Seq<char> {
    match o {
        Some(s) => s@,
        None => ""@,
    }
}

/// The serialized property string: every navigator property as a
/// `key:value;` pair in one fixed order. The `webdriver` key appears twice
/// on purpose: once for the navigator flag and once for the window-level
/// automation flag.
pub open spec fn fp_string(p: BrowserProperties) -> Seq<char> {
    entry("booleanFingerprint:"@, dec_nat(p.boolean_fingerprint as int)) + entry(
        "hardwareConcurrency:"@,
        dec_int(p.hardware_concurrency as int),
    ) + entry("deviceMemory:"@, opt_chars(p.device_memory)) + entry("platform:"@, p.platform@)
        + entry("oscpu:"@, opt_chars(p.oscpu)) + entry("cpuClass:"@, opt_chars(p.cpu_class))
        + entry("vendor:"@, p.vendor@) + entry("buildID:"@, opt_chars(p.build_id)) + entry(
        "product:"@,
        p.product@,
    ) + entry("productSub:"@, p.product_sub@) + entry(
        "pluginsSupport:"@,
        bool_chars(p.plugins_support),
    ) + entry("maxTouchPoints:"@, dec_int(p.max_touch_points as int)) + entry(
        "language:"@,
        p.language@,
    ) + entry("languages:"@, p.languages@) + entry(
        "sessionStorage:"@,
        bool_chars(p.session_storage),
    ) + entry("localStorage:"@, bool_chars(p.local_storage)) + entry(
        "indexedDB:"@,
        bool_chars(p.indexed_db),
    ) + entry("openDatabase:"@, bool_chars(p.open_database)) + entry(
        "navigatorCookieEnabled:"@,
        bool_chars(p.cookie_enabled),
    ) + entry("doNotTrack:"@, p.do_not_track@) + entry("sayswho:"@, p.sayswho@) + entry(
        "loadPurpose:"@,
        p.load_purpose@,
    ) + entry("webdriver:"@, bool_chars(p.webdriver)) + entry("dimensions:"@, p.dimensions@)
        + entry("geolocation:"@, bool_chars(p.geolocation)) + entry(
        "vibrate:"@,
        bool_chars(p.vibrate),
    ) + entry("getBattery:"@, bool_chars(p.get_battery)) + entry(
        "webrtcKey:"@,
        bool_chars(p.webrtc_key),
    ) + entry("_phantom:"@, bool_chars(p.phantom)) + entry(
        "webdriver:"@,
        bool_chars(p.window_webdriver),
    ) + entry("domAutomation:"@, bool_chars(p.dom_automation)) + entry(
        "auto:"@,
        bool_chars(p.auto),
    ) + entry("wd1:"@, bool_chars(p.wd1)) + entry("XPathResult:"@, bool_chars(p.xpath_result))
        + entry("wd2:"@, bool_chars(p.wd2)) + entry("selenium:"@, bool_chars(p.selenium))
}

/// Product of two 32-bit values, wrapped to 32 bits (Math.imul semantics).
pub open spec fn mul32(a: u32, b: u32) -> u32 {
    (((a as int) * (b as int)) % 0x1_0000_0000) as u32
}

/// Sum of two 32-bit values, wrapped to 32 bits.
pub open spec fn add32(a: u32, b: u32) -> u32 {
    (((a as int) + (b as int)) % 0x1_0000_0000) as u32
}

/// Little-endian 32-bit block read at byte offset `idx`.
pub open spec fn le_block(data: Seq<u8>, idx: int) -> u32 {
    (data[idx] as u32) | ((data[idx + 1] as u32) << 8) | ((data[idx + 2] as u32) << 16) | ((data[
        idx + 3
    ] as u32) << 24)
}

/// Per-block mixing: multiply, rotate left by 15, multiply.
pub open spec fn mix_block(k: u32) -> u32 {
    let k1 = mul32(k, 0xcc9e2d51);
    let k2 = (k1 << 15) | (k1 >> 17);
    mul32(k2, 0x1b873593)
}

/// Fold one mixed block into the running hash state.
pub open spec fn mix_hash(h: u32, k: u32) -> u32 {
    let h1 = h ^ mix_block(k);
    let h2 = (h1 << 13) | (h1 >> 19);
    add32(mul32(h2, 5), 0xe6546b64)
}

/// Hash state after folding the first `n` four-byte blocks of `data`.
pub open spec fn body_hash(data: Seq<u8>, seed: u32, n: int) -> u32
    decreases n,
{
    if n <= 0 {
        seed
    } else {
        mix_hash(body_hash(data, seed, n - 1), le_block(data, (n - 1) * 4))
    }
}

/// The partial block left after the last full four-byte block, read
/// little-endian; zero when the length is a multiple of four.
pub open spec fn tail_block(data: Seq<u8>) -> u32 {
    let base = (data.len() as int / 4) * 4;
    let rem = data.len() as int - base;
    if rem == 3 {
        (data[base] as u32) | ((data[base + 1] as u32) << 8) | ((data[base + 2] as u32) << 16)
    } else if rem == 2 {
        (data[base] as u32) | ((data[base + 1] as u32) << 8)
    } else if rem == 1 {
        data[base] as u32
    } else {
        0
    }
}

/// Final avalanche: xor in the length, then two multiply/shift rounds.
pub open spec fn fmix32(h: u32, len: u32) -> u32 {
    let h1 = h ^ len;
    let h2 = h1 ^ (h1 >> 16);
    let h3 = mul32(h2, 0x85ebca6b);
    let h4 = h3 ^ (h3 >> 13);
    let h5 = mul32(h4, 0xc2b2ae35);
    h5 ^ (h5 >> 16)
}

/// The 32-bit block hash of `data` under `seed`: fold every full block,
/// mix in the partial tail if any, then avalanche with the byte length
/// (truncated to 32 bits).
pub open spec fn murmur3(data: Seq<u8>, seed: u32) -> u32 {
    let nblocks = data.len() as int / 4;
    let h_body = body_hash(data, seed, nblocks);
    let h_tail = if data.len() as int % 4 == 0 {
        h_body
    } else {
        h_body ^ mix_block(tail_block(data))
    };
    fmix32(h_tail, (data.len() as int % 0x1_0000_0000) as u32)
}

/// JavaScript-style 32-bit integer multiplication (Math.imul equivalent):
/// the full product reduced modulo 2^32, which is exactly what the
/// 16x16-split multiply-and-combine formulation computes.
pub fn imul32(val: u32, mul: u32) -> (r: u32)
    ensures
        r == mul32(val, mul),
{
    proof {
        assert((val as int) * (mul as int) < 0x1_0000_0000_0000_0000 && (val as int) * (
        mul as int) >= 0) by (nonlinear_arith)
            requires
                0 <= (val as int) < 0x1_0000_0000,
                0 <= (mul as int) < 0x1_0000_0000,
        ;
    }
    (((val as u64) * (mul as u64)) % 0x1_0000_0000) as u32
}

fn add_wrap32(a: u32, b: u32) -> (r: u32)
    ensures
        r == add32(a, b),
{
    (((a as u64) + (b as u64)) % 0x1_0000_0000) as u32
}

/// 32-bit variant-3 block hash of `data` seeded with `seed`.
pub fn murmur_hash3_v3(data: &[u8], seed: u32) -> (r: u32)
    ensures
        r == murmur3(data@, seed),
{
    let length = data.len();
    let nblocks = length / 4;
    let mut hash = seed;

    for i in 0..nblocks
        invariant
            nblocks == data@.len() / 4,
            data@.len() == length,
            hash == body_hash(data@, seed, i as int),
    {
        let idx = i * 4;
        let mut block = (data[idx] as u32) | ((data[idx + 1] as u32) << 8) | ((data[idx
            + 2] as u32) << 16) | ((data[idx + 3] as u32) << 24);

        block = imul32(block, 0xcc9e2d51);
        block = (block << 15) | (block >> 17);
        block = imul32(block, 0x1b873593);

        hash = hash ^ block;
        hash = (hash << 13) | (hash >> 19);
        hash = add_wrap32(imul32(hash, 5), 0xe6546b64);
    }

    let tail_start = nblocks * 4;
    let tail_len = length - tail_start;
    if tail_len > 0 {
        let mut tail_block_val: u32 = data[tail_start] as u32;
        if tail_len >= 2 {
            tail_block_val = tail_block_val | ((data[tail_start + 1] as u32) << 8);
        }
        if tail_len == 3 {
            tail_block_val = tail_block_val | ((data[tail_start + 2] as u32) << 16);
        }
        assert(tail_block_val == tail_block(data@));
        tail_block_val = imul32(tail_block_val, 0xcc9e2d51);
        tail_block_val = (tail_block_val << 15) | (tail_block_val >> 17);
        tail_block_val = imul32(tail_block_val, 0x1b873593);
        hash = hash ^ tail_block_val;
    }

    hash = hash ^ (((length as u64) % 0x1_0000_0000) as u32);
    hash = hash ^ (hash >> 16);
    hash = imul32(hash, 0x85ebca6b);
    hash = hash ^ (hash >> 13);
    hash = imul32(hash, 0xc2b2ae35);
    hash = hash ^ (hash >> 16);

    hash
}

fn opt_str(o: Option<&'static str>) -> (r: &'static str)
    ensures
        r@ == opt_chars(o),
{
    match o {
        Some(s) => s,
        None => "",
    }
}

fn push_entry(s: &mut String, key: &str, value: &str)
    ensures
        final(s)@ == old(s)@ + entry(key@, value@),
{
    s.append(key);
    s.append(value);
    s.append(";");
    proof {
        assert(s@ =~= old(s)@ + entry(key@, value@));
    }
}

/// Serialize the navigator properties as `key:value;` pairs in the fixed
/// order given by [`fp_string`].
#[verifier::rlimit(100)]
pub fn build_fingerprint_string(props: &BrowserProperties) -> (r: String)
    ensures
        r@ == fp_string(*props),
{
    let mut s = String::new();

    push_entry(&mut s, "booleanFingerprint:", u64_to_string(props.boolean_fingerprint as u64).as_str());
    push_entry(&mut s, "hardwareConcurrency:", i64_to_string(props.hardware_concurrency as i64).as_str());
    push_entry(&mut s, "deviceMemory:", opt_str(props.device_memory));
    push_entry(&mut s, "platform:", props.platform);
    push_entry(&mut s, "oscpu:", opt_str(props.oscpu));
    push_entry(&mut s, "cpuClass:", opt_str(props.cpu_class));
    push_entry(&mut s, "vendor:", props.vendor);
    push_entry(&mut s, "buildID:", opt_str(props.build_id));
    push_entry(&mut s, "product:", props.product);
    push_entry(&mut s, "productSub:", props.product_sub);
    push_entry(&mut s, "pluginsSupport:", bool_to_str(props.plugins_support));
    push_entry(&mut s, "maxTouchPoints:", i64_to_string(props.max_touch_points as i64).as_str());
    push_entry(&mut s, "language:", props.language);
    push_entry(&mut s, "languages:", props.languages);
    push_entry(&mut s, "sessionStorage:", bool_to_str(props.session_storage));
    push_entry(&mut s, "localStorage:", bool_to_str(props.local_storage));
    push_entry(&mut s, "indexedDB:", bool_to_str(props.indexed_db));
    push_entry(&mut s, "openDatabase:", bool_to_str(props.open_database));
    push_entry(&mut s, "navigatorCookieEnabled:", bool_to_str(props.cookie_enabled));
    push_entry(&mut s, "doNotTrack:", props.do_not_track);
    push_entry(&mut s, "sayswho:", props.sayswho);
    push_entry(&mut s, "loadPurpose:", props.load_purpose);
    push_entry(&mut s, "webdriver:", bool_to_str(props.webdriver));
    push_entry(&mut s, "dimensions:", props.dimensions);
    push_entry(&mut s, "geolocation:", bool_to_str(props.geolocation));
    push_entry(&mut s, "vibrate:", bool_to_str(props.vibrate));
    push_entry(&mut s, "getBattery:", bool_to_str(props.get_battery));
    push_entry(&mut s, "webrtcKey:", bool_to_str(props.webrtc_key));
    push_entry(&mut s, "_phantom:", bool_to_str(props.phantom));
    push_entry(&mut s, "webdriver:", bool_to_str(props.window_webdriver));
    push_entry(&mut s, "domAutomation:", bool_to_str(props.dom_automation));
    push_entry(&mut s, "auto:", bool_to_str(props.auto));
    push_entry(&mut s, "wd1:", bool_to_str(props.wd1));
    push_entry(&mut s, "XPathResult:", bool_to_str(props.xpath_result));
    push_entry(&mut s, "wd2:", bool_to_str(props.wd2));
    push_entry(&mut s, "selenium:", bool_to_str(props.selenium));

    proof {
        assert(s@ =~= fp_string(*props));
    }
    s
}

/// The Chrome-family navigator property set.
pub open spec fn chrome_props() -> BrowserProperties {
    BrowserProperties {
        boolean_fingerprint: 25952189,
        hardware_concurrency: 16,
        device_memory: Some("8"),
        platform: "Win32",
        oscpu: None,
        cpu_class: None,
        vendor: "Google Inc.",
        build_id: None,
        product: "Gecko",
        product_sub: "20030107",
        plugins_support: true,
        max_touch_points: 0,
        language: "en-US",
        languages: "en-US,en",
        session_storage: true,
        local_storage: true,
        indexed_db: true,
        open_database: false,
        cookie_enabled: true,
        do_not_track: "",
        sayswho: "",
        load_purpose: "",
        webdriver: false,
        dimensions: "1920,1080",
        geolocation: true,
        vibrate: true,
        get_battery: true,
        webrtc_key: true,
        phantom: false,
        window_webdriver: false,
        dom_automation: false,
        auto: false,
        wd1: false,
        xpath_result: true,
        wd2: false,
        selenium: false,
    }
}

/// The Firefox-family navigator property set.
pub open spec fn firefox_props() -> BrowserProperties {
    BrowserProperties {
        boolean_fingerprint: 26066385,
        hardware_concurrency: 16,
        device_memory: None,
        platform: "Win32",
        oscpu: Some("Windows NT 10.0; Win64; x64"),
        cpu_class: None,
        vendor: "",
        build_id: Some("20181001000000"),
        product: "Gecko",
        product_sub: "20100101",
        plugins_support: true,
        max_touch_points: 0,
        language: "en-US",
        languages: "en-US,en",
        session_storage: true,
        local_storage: true,
        indexed_db: true,
        open_database: false,
        cookie_enabled: true,
        do_not_track: "unspecified",
        sayswho: "",
        load_purpose: "",
        webdriver: false,
        dimensions: "1920,1080",
        geolocation: true,
        vibrate: true,
        get_battery: true,
        webrtc_key: true,
        phantom: false,
        window_webdriver: false,
        dom_automation: false,
        auto: false,
        wd1: false,
        xpath_result: true,
        wd2: false,
        selenium: false,
    }
}

/// The Safari-family navigator property set.
pub open spec fn safari_props() -> BrowserProperties {
    BrowserProperties {
        boolean_fingerprint: 25969049,
        hardware_concurrency: 8,
        device_memory: None,
        platform: "MacIntel",
        oscpu: None,
        cpu_class: None,
        vendor: "Apple Computer, Inc.",
        build_id: None,
        product: "Gecko",
        product_sub: "20030107",
        plugins_support: true,
        max_touch_points: 0,
        language: "en-US",
        languages: "en-US,en",
        session_storage: true,
        local_storage: true,
        indexed_db: true,
        open_database: true,
        cookie_enabled: true,
        do_not_track: "",
        sayswho: "",
        load_purpose: "",
        webdriver: false,
        dimensions: "1920,1080",
        geolocation: true,
        vibrate: false,
        get_battery: false,
        webrtc_key: true,
        phantom: false,
        window_webdriver: false,
        dom_automation: false,
        auto: false,
        wd1: false,
        xpath_result: true,
        wd2: false,
        selenium: false,
    }
}

/// Navigator properties for the Chrome presets.
pub fn chrome_properties() -> (r: BrowserProperties)
    ensures
        r == chrome_props(),
{
    BrowserProperties {
        boolean_fingerprint: 25952189,
        hardware_concurrency: 16,
        device_memory: Some("8"),
        platform: "Win32",
        oscpu: None,
        cpu_class: None,
        vendor: "Google Inc.",
        build_id: None,
        product: "Gecko",
        product_sub: "20030107",
        plugins_support: true,
        max_touch_points: 0,
        language: "en-US",
        languages: "en-US,en",
        session_storage: true,
        local_storage: true,
        indexed_db: true,
        open_database: false,
        cookie_enabled: true,
        do_not_track: "",
        sayswho: "",
        load_purpose: "",
        webdriver: false,
        dimensions: "1920,1080",
        geolocation: true,
        vibrate: true,
        get_battery: true,
        webrtc_key: true,
        phantom: false,
        window_webdriver: false,
        dom_automation: false,
        auto: false,
        wd1: false,
        xpath_result: true,
        wd2: false,
        selenium: false,
    }
}

/// Navigator properties for the Firefox preset.
pub fn firefox_properties() -> (r: BrowserProperties)
    ensures
        r == firefox_props(),
{
    BrowserProperties {
        boolean_fingerprint: 26066385,
        hardware_concurrency: 16,
        device_memory: None,
        platform: "Win32",
        oscpu: Some("Windows NT 10.0; Win64; x64"),
        cpu_class: None,
        vendor: "",
        build_id: Some("20181001000000"),
        product: "Gecko",
        product_sub: "20100101",
        plugins_support: true,
        max_touch_points: 0,
        language: "en-US",
        languages: "en-US,en",
        session_storage: true,
        local_storage: true,
        indexed_db: true,
        open_database: false,
        cookie_enabled: true,
        do_not_track: "unspecified",
        sayswho: "",
        load_purpose: "",
        webdriver: false,
        dimensions: "1920,1080",
        geolocation: true,
        vibrate: true,
        get_battery: true,
        webrtc_key: true,
        phantom: false,
        window_webdriver: false,
        dom_automation: false,
        auto: false,
        wd1: false,
        xpath_result: true,
        wd2: false,
        selenium: false,
    }
}

/// Navigator properties for the Safari preset.
pub fn safari_properties() -> (r: BrowserProperties)
    ensures
        r == safari_props(),
{
    BrowserProperties {
        boolean_fingerprint: 25969049,
        hardware_concurrency: 8,
        device_memory: None,
        platform: "MacIntel",
        oscpu: None,
        cpu_class: None,
        vendor: "Apple Computer, Inc.",
        build_id: None,
        product: "Gecko",
        product_sub: "20030107",
        plugins_support: true,
        max_touch_points: 0,
        language: "en-US",
        languages: "en-US,en",
        session_storage: true,
        local_storage: true,
        indexed_db: true,
        open_database: true,
        cookie_enabled: true,
        do_not_track: "",
        sayswho: "",
        load_purpose: "",
        webdriver: false,
        dimensions: "1920,1080",
        geolocation: true,
        vibrate: false,
        get_battery: false,
        webrtc_key: true,
        phantom: false,
        window_webdriver: false,
        dom_automation: false,
        auto: false,
        wd1: false,
        xpath_result: true,
        wd2: false,
        selenium: false,
    }
}

/// The property set a preset name selects: Firefox and Safari by their
/// exact names, the Chrome set for every other name.
pub open spec fn props_for_name(name: Seq<char>) -> BrowserProperties {
    if name == "firefox-133"@ {
        firefox_props()
    } else if name == "safari-18"@ {
        safari_props()
    } else {
        chrome_props()
    }
}

/// The navigator-fingerprint hash of a preset name: the block hash, seeded
/// with zero, of the UTF-8 bytes of the serialized property string.
pub open spec fn fingerprint_of(name: Seq<char>) -> u32 {
    murmur3(encode_utf8(fp_string(props_for_name(name))), 0)
}

/// Compute the navigator-fingerprint hash for a browser preset name.
/// An unknown name falls back to the Chrome property set.
pub fn compute_fingerprint(preset_name: &str) -> (r: u32)
    ensures
        r == fingerprint_of(preset_name@),
{
    let props = if str_eq(preset_name, "firefox-133") {
        firefox_properties()
    } else if str_eq(preset_name, "safari-18") {
        safari_properties()
    } else {
        chrome_properties()
    };
    let input = build_fingerprint_string(&props);
    murmur_hash3_v3(input.as_str().as_bytes(), 0)
}

/// Hashing a preset name is deterministic: two hashes of the same name are
/// always the same value.
pub proof fn lemma_fingerprint_deterministic(name: Seq<char>, a: u32, b: u32)
    requires
        a == fingerprint_of(name),
        b == fingerprint_of(name),
    ensures
        a == b,
{
}

} // verus!
