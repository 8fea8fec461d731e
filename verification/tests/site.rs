use leptos_browser_test::{format_base_url, loopback_addr, SiteScheme};

#[test]
fn formats_http_base_url() {
    assert_eq!(format_base_url(SiteScheme::Http, "127.0.0.1:3000"), "http://127.0.0.1:3000");
}

#[test]
fn formats_https_base_url() {
    assert_eq!(format_base_url(SiteScheme::Https, "127.0.0.1:3000"), "https://127.0.0.1:3000");
}

#[test]
fn scheme_names() {
    assert_eq!(SiteScheme::Http.as_str(), "http");
    assert_eq!(SiteScheme::Https.as_str(), "https");
}

#[test]
fn formats_ipv6_base_url() {
    assert_eq!(format_base_url(SiteScheme::Http, "[::1]:8080"), "http://[::1]:8080");
}

#[test]
fn loopback_addr_renders_port_in_decimal() {
    assert_eq!(loopback_addr(3000), "127.0.0.1:3000");
    assert_eq!(loopback_addr(0), "127.0.0.1:0");
    assert_eq!(loopback_addr(65535), "127.0.0.1:65535");
    assert_eq!(loopback_addr(7), "127.0.0.1:7");
}
