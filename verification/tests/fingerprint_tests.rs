use proxy_detector::fingerprint::{
    build_fingerprint_string, chrome_properties, compute_fingerprint, firefox_properties, imul32,
    murmur_hash3_v3, safari_properties,
};

#[test]
fn fingerprint_deterministic_for_all_presets() {
    for name in ["chrome-143", "firefox-133", "safari-18"] {
        let a = compute_fingerprint(name);
        let b = compute_fingerprint(name);
        assert_eq!(a, b);
    }
}

#[test]
fn fingerprint_reference_chrome() {
    // Reference value from an independent implementation of the same
    // 32-bit block hash over the same ordered property string.
    assert_eq!(compute_fingerprint("chrome-143"), 875165095);
}

#[test]
fn fingerprint_reference_firefox() {
    assert_eq!(compute_fingerprint("firefox-133"), 3415757352);
}

#[test]
fn fingerprint_reference_safari() {
    assert_eq!(compute_fingerprint("safari-18"), 654656079);
}

#[test]
fn fingerprint_unknown_name_falls_back_to_chrome() {
    assert_eq!(compute_fingerprint("no-such-browser"), compute_fingerprint("chrome-143"));
    assert_eq!(compute_fingerprint(""), compute_fingerprint("chrome-143"));
}

#[test]
fn murmur_known_vectors() {
    assert_eq!(murmur_hash3_v3(b"", 0), 0);
    assert_eq!(murmur_hash3_v3(b"test", 0), 3127628307);
}

#[test]
fn murmur_tail_lengths() {
    // 1-, 2- and 3-byte tails all mix in; distinct inputs should not
    // collide on these tiny vectors.
    let h1 = murmur_hash3_v3(b"a", 0);
    let h2 = murmur_hash3_v3(b"ab", 0);
    let h3 = murmur_hash3_v3(b"abc", 0);
    let h4 = murmur_hash3_v3(b"abcd", 0);
    assert_ne!(h1, h2);
    assert_ne!(h2, h3);
    assert_ne!(h3, h4);
}

#[test]
fn imul32_matches_wrapping_multiplication() {
    let samples: [(u32, u32); 6] = [
        (0, 0),
        (1, 0xffff_ffff),
        (0xffff_ffff, 0xffff_ffff),
        (0xcc9e2d51, 0x1b873593),
        (123456789, 987654321),
        (0x8000_0000, 2),
    ];
    for (a, b) in samples {
        assert_eq!(imul32(a, b), a.wrapping_mul(b));
    }
}

#[test]
fn chrome_property_string_exact() {
    let props = chrome_properties();
    let s = build_fingerprint_string(&props);
    assert_eq!(
        s,
        "booleanFingerprint:25952189;hardwareConcurrency:16;deviceMemory:8;platform:Win32;oscpu:;cpuClass:;vendor:Google Inc.;buildID:;product:Gecko;productSub:20030107;pluginsSupport:true;maxTouchPoints:0;language:en-US;languages:en-US,en;sessionStorage:true;localStorage:true;indexedDB:true;openDatabase:false;navigatorCookieEnabled:true;doNotTrack:;sayswho:;loadPurpose:;webdriver:false;dimensions:1920,1080;geolocation:true;vibrate:true;getBattery:true;webrtcKey:true;_phantom:false;webdriver:false;domAutomation:false;auto:false;wd1:false;XPathResult:true;wd2:false;selenium:false;"
    );
}

#[test]
fn property_sets_differ_between_families() {
    let c = chrome_properties();
    let f = firefox_properties();
    let s = safari_properties();
    assert_ne!(
        build_fingerprint_string(&c),
        build_fingerprint_string(&f)
    );
    assert_ne!(
        build_fingerprint_string(&f),
        build_fingerprint_string(&s)
    );
}
