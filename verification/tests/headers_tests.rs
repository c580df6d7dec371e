use proxy_detector::headers::{
    beacon_headers, image_headers, ipapi_headers, poll_headers, script_headers,
};
use proxy_detector::preset::get_preset;

fn names(h: &[proxy_detector::headers::HeaderPair]) -> Vec<&'static str> {
    h.iter().map(|p| p.name).collect()
}

fn value_of(h: &[proxy_detector::headers::HeaderPair], name: &str) -> Option<&'static str> {
    h.iter().find(|p| p.name == name).map(|p| p.value)
}

#[test]
fn script_headers_chrome() {
    let preset = get_preset("chrome-143");
    let h = script_headers(&preset);
    assert_eq!(
        names(&h),
        vec![
            "Accept",
            "Accept-Encoding",
            "Accept-Language",
            "Origin",
            "Referer",
            "Sec-Ch-Ua",
            "Sec-Ch-Ua-Mobile",
            "Sec-Ch-Ua-Platform",
            "Sec-Fetch-Dest",
            "Sec-Fetch-Mode",
            "Sec-Fetch-Site",
            "User-Agent",
        ]
    );
    assert_eq!(value_of(&h, "Accept"), Some("*/*"));
    assert_eq!(value_of(&h, "Sec-Fetch-Dest"), Some("script"));
    assert_eq!(
        value_of(&h, "Sec-Ch-Ua"),
        Some(r#""Chromium";v="143", "Not/A)Brand";v="24", "Google Chrome";v="143""#)
    );
    assert_eq!(value_of(&h, "User-Agent"), Some(preset.user_agent));
}

#[test]
fn script_headers_firefox_has_no_client_hints() {
    let preset = get_preset("firefox-133");
    let h = script_headers(&preset);
    assert_eq!(h.len(), 9);
    assert_eq!(value_of(&h, "Sec-Ch-Ua"), None);
    assert_eq!(value_of(&h, "Accept-Language"), Some("en-US,en;q=0.5"));
}

#[test]
fn safari_accept_encoding_has_no_zstd() {
    let preset = get_preset("safari-18");
    for h in [
        script_headers(&preset),
        image_headers(&preset),
        beacon_headers(&preset),
        poll_headers(&preset),
    ] {
        assert_eq!(value_of(&h, "Accept-Encoding"), Some("gzip, deflate, br"));
    }
}

#[test]
fn image_headers_fetch_context() {
    let preset = get_preset("chrome-143");
    let h = image_headers(&preset);
    assert_eq!(value_of(&h, "Sec-Fetch-Dest"), Some("image"));
    assert_eq!(value_of(&h, "Sec-Fetch-Mode"), Some("no-cors"));
    assert_eq!(value_of(&h, "Origin"), None);
    assert_eq!(
        value_of(&h, "Accept"),
        Some("image/avif,image/webp,image/apng,image/svg+xml,image/*,*/*;q=0.8")
    );
}

#[test]
fn beacon_headers_carry_content_type() {
    for name in ["chrome-143", "firefox-133", "safari-18"] {
        let preset = get_preset(name);
        let h = beacon_headers(&preset);
        assert_eq!(value_of(&h, "Content-Type"), Some("text/plain;charset=UTF-8"));
        assert_eq!(value_of(&h, "Sec-Fetch-Dest"), Some("empty"));
    }
}

#[test]
fn poll_headers_disable_caching() {
    let preset = get_preset("firefox-133");
    let h = poll_headers(&preset);
    assert_eq!(value_of(&h, "Cache-Control"), Some("no-cache"));
    assert_eq!(value_of(&h, "Pragma"), Some("no-cache"));
    assert_eq!(value_of(&h, "Sec-Fetch-Mode"), Some("cors"));
}

#[test]
fn ipapi_headers_point_at_the_provider() {
    let preset = get_preset("chrome-143");
    let h = ipapi_headers(&preset);
    assert_eq!(value_of(&h, "Origin"), Some("https://ipapi.is"));
    assert_eq!(value_of(&h, "Referer"), Some("https://ipapi.is/"));
    assert_eq!(value_of(&h, "Priority"), Some("u=1, i"));
    assert_eq!(h[0].name, "Sec-Ch-Ua-Platform");

    let firefox = get_preset("firefox-133");
    let hf = ipapi_headers(&firefox);
    assert_eq!(value_of(&hf, "Priority"), None);
    assert_eq!(hf[0].name, "User-Agent");
}
