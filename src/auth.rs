//! Logging in by scanning a QR code.

use crate::text::push_str;
use vstd::prelude::*;

verus! {

/// A login QR code: the URL it encodes and the key to poll it with.
#[derive(Clone, Debug, Default, PartialEq, Eq)]
pub struct WebLoginQRData {
    pub url: String,
    pub qrcode_key: String,
}

/// The answer to a poll of a login QR code.
#[derive(Clone, Debug, Default, PartialEq, Eq)]
pub struct WebLoginQRVerifyData {
    pub url: String,
    pub refresh_token: String,
    pub timestamp: i64,
    pub code: i32,
    pub message: String,
}

/// Where a QR login stands after a poll.
#[derive(Clone, Copy, Debug, PartialEq, Eq, Structural)]
pub enum LoginPoll {
    /// Not scanned yet, or scanned and not confirmed: poll again.
    Waiting,
    /// Confirmed: the answer carries the login.
    Success,
    /// The code expired or the login was refused.
    Failed,
}

/// What a poll answer's code means: 86101 (not scanned) and 86090 (scanned,
/// not confirmed) ask for another poll, 0 is a login, anything else a
/// failure.
pub fn login_poll(code: i32) -> (r: LoginPoll)
    ensures
        r == (if code == 86101 || code == 86090 {
            LoginPoll::Waiting
        } else if code == 0 {
            LoginPoll::Success
        } else {
            LoginPoll::Failed
        }),
{
    if code == 86101 || code == 86090 {
        LoginPoll::Waiting
    } else if code == 0 {
        LoginPoll::Success
    } else {
        LoginPoll::Failed
    }
}

/// The address that polls the QR code with key `key`.
pub open spec fn poll_address(key: Seq<char>) -> Seq<char> {
    "https://passport.bilibili.com/x/passport-login/web/qrcode/poll?qrcode_key="@ + key
        + "&source=main-fe-header"@
}

/// The address that polls the QR code with key `qrcode_key`.
pub fn verify_url(qrcode_key: &str) -> (r: String)
    ensures
        r@ == poll_address(qrcode_key@),
{
    let mut r = String::new();
    push_str(&mut r, "https://passport.bilibili.com/x/passport-login/web/qrcode/poll?qrcode_key=");
    push_str(&mut r, qrcode_key);
    push_str(&mut r, "&source=main-fe-header");
    r
}

} // verus!
