//! The browser-facing URL of the app.
use vstd::prelude::*;

use crate::text::{concat, decimal, push_decimal};

verus! {

/// URL scheme used for the browser-facing Leptos app URL.
#[derive(Debug, Clone, Copy, PartialEq, Eq, Structural)]
pub enum SiteScheme {
    /// Use `http://`.
    Http,
    /// Use `https://`.
    Https,
}

impl SiteScheme {
    /// The scheme's name, as it stands before `://`.
    pub open spec fn name(self) -> Seq<char> {
        match self {
            SiteScheme::Http => "http"@,
            SiteScheme::Https => "https"@,
        }
    }

    /// The scheme's name: `http` or `https`.
    pub fn as_str(self) -> (r: &'static str)
        ensures
            r@ == self.name(),
    {
        match self {
            SiteScheme::Http => "http",
            SiteScheme::Https => "https",
        }
    }
}

/// `scheme://site_addr`.
pub open spec fn base_url(site_scheme: SiteScheme, site_addr: Seq<char>) -> Seq<char> {
    site_scheme.name() + "://"@ + site_addr
}

/// The base URL under which the app is reached, such as `http://127.0.0.1:3000`.
pub fn format_base_url(site_scheme: SiteScheme, site_addr: &str) -> (r: String)
    ensures
        r@ == base_url(site_scheme, site_addr@),
{
    let mut url = concat(site_scheme.as_str(), "://");
    url.append(site_addr);
    url
}

/// The loopback site address `127.0.0.1:port`.
pub open spec fn loopback_site_addr(port: u16) -> Seq<char> {
    "127.0.0.1:"@ + decimal(port as nat)
}

/// The loopback site address for `port`.
pub fn loopback_addr(port: u16) -> (r: String)
    ensures
        r@ == loopback_site_addr(port),
{
    let mut addr = "127.0.0.1:".to_owned();
    push_decimal(&mut addr, port as u64);
    addr
}

} // verus!
