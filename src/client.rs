//! The per-request decisions of the HTTP client: cookie, site headers and
//! redirects.

use crate::text::{contains_str, has_infix, push_str};
use vstd::prelude::*;

verus! {

/// The cookie sent with a request to `url`: episode and season pages also
/// get the stream-format setting.
pub open spec fn cookie_for(url: Seq<char>, cookie: Seq<char>) -> Seq<char> {
    if has_infix(url, "/ep"@) || has_infix(url, "/ss"@) {
        cookie + ";CURRENT_FNVAL=4048;"@
    } else {
        cookie
    }
}

/// The cookie sent with a request to `url`.
pub fn request_cookie(url: &str, cookie: &str) -> (r: String)
    ensures
        r@ == cookie_for(url@, cookie@),
{
    let mut r = String::new();
    push_str(&mut r, cookie);
    if contains_str(url, "/ep") || contains_str(url, "/ss") {
        push_str(&mut r, ";CURRENT_FNVAL=4048;");
    }
    r
}

/// The extra header that a request carries, by the site it goes to.
#[derive(Clone, Copy, Debug, PartialEq, Eq, Structural)]
pub enum SiteHeader {
    /// The main site's API: a `Referer` of the main site.
    Referer,
    /// The global site's API: browser client hints (`sec-ch-ua`).
    ClientHints,
    /// Anything else: no extra header.
    Nothing,
}

/// The extra header for a request to `url`.
pub fn site_header(url: &str) -> (r: SiteHeader)
    ensures
        r == (if has_infix(url@, "api.bilibili.com"@) {
            SiteHeader::Referer
        } else if has_infix(url@, "api.bilibili.tv"@) {
            SiteHeader::ClientHints
        } else {
            SiteHeader::Nothing
        }),
{
    if contains_str(url, "api.bilibili.com") {
        SiteHeader::Referer
    } else if contains_str(url, "api.bilibili.tv") {
        SiteHeader::ClientHints
    } else {
        SiteHeader::Nothing
    }
}

/// Where a response redirects to: its `location` header when the status is
/// a redirection (3xx), nothing otherwise.
pub fn redirect_location(status: u16, location: Option<String>) -> (r: Option<String>)
    ensures
        r == (if 300 <= status <= 399 {
            location
        } else {
            None
        }),
{
    if 300 <= status && status <= 399 {
        location
    } else {
        None
    }
}

} // verus!
