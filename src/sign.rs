//! Addresses of the play-URL service, signed with an MD5 digest of their
//! query.

use crate::text::{int_digits, push_i64, push_str};
use vstd::prelude::*;

verus! {

/// What `md5::compute` returns for `data`: its 16-byte MD5 digest.
pub uninterp spec fn md5_of(data: Seq<u8>) -> Seq<u8>;

/// Relies on `md5::compute`: the MD5 digest of the bytes, 16 bytes long.
#[verifier::external_body]
fn md5_digest(data: &[u8]) -> (r: Vec<u8>)
    ensures
        r@ == md5_of(data@),
        r@.len() == 16,
{
    md5::compute(data).0.to_vec()
}

/// The lowercase hexadecimal digit for `n < 16`.
pub open spec fn hex_digit(n: int) -> char {
    if n < 10 {
        crate::text::digit_char(n as nat)
    } else if n == 10 {
        'a'
    } else if n == 11 {
        'b'
    } else if n == 12 {
        'c'
    } else if n == 13 {
        'd'
    } else if n == 14 {
        'e'
    } else {
        'f'
    }
}

/// Bytes written as lowercase hexadecimal, two digits per byte, the high
/// digit first.
pub open spec fn hex_lower(b: Seq<u8>) -> Seq<char>
    decreases b.len(),
{
    if b.len() == 0 {
        Seq::empty()
    } else {
        seq![hex_digit(b[0] as int / 16), hex_digit(b[0] as int % 16)] + hex_lower(b.drop_first())
    }
}

/// Relies on `hex::encode`: each byte as two lowercase hexadecimal digits,
/// the high digit first.
#[verifier::external_body]
fn to_hex(b: &[u8]) -> (r: String)
    ensures
        r@ == hex_lower(b@),
{
    hex::encode(b)
}

/// Relies on `chrono::Utc::now` and its `timestamp`: the whole seconds
/// since the Unix epoch at the time of the call, never negative.
#[verifier::external_body]
fn unix_now() -> (r: i64)
    ensures
        r >= 0,
{
    chrono::Utc::now().timestamp()
}

/// The query of a video's play-URL request at time `wts`.
pub open spec fn video_query(aid: i64, cid: i64, wts: i64) -> Seq<char> {
    "support_multi_audio=true&from_client=BROWSER&avid="@ + int_digits(aid as int) + "&cid="@
        + int_digits(cid as int) + "&fnval=4048&fnver=0&fourk=1&wts="@ + int_digits(wts as int)
}

/// The service address of a video's play URLs.
pub open spec fn video_play_prefix() -> Seq<char> {
    "https://api.bilibili.com/x/player/wbi/playurl?"@
}

/// A query signed with a digest: the address, the query, and the digest in
/// hexadecimal as `w_rid`.
pub open spec fn signed_address(query: Seq<char>, digest: Seq<u8>) -> Seq<char> {
    video_play_prefix() + query + "&w_rid="@ + hex_lower(digest)
}

/// The signed address of a video's play URLs at time `wts`.
pub open spec fn video_play_address(aid: i64, cid: i64, wts: i64) -> Seq<char> {
    signed_address(
        video_query(aid, cid, wts),
        md5_of(vstd::utf8::encode_utf8(video_query(aid, cid, wts))),
    )
}

/// The query of a video's play-URL request at time `wts`.
pub fn video_play_query(aid: i64, cid: i64, wts: i64) -> (r: String)
    ensures
        r@ == video_query(aid, cid, wts),
{
    let mut r = String::new();
    push_str(&mut r, "support_multi_audio=true&from_client=BROWSER&avid=");
    push_i64(&mut r, aid);
    push_str(&mut r, "&cid=");
    push_i64(&mut r, cid);
    push_str(&mut r, "&fnval=4048&fnver=0&fourk=1&wts=");
    push_i64(&mut r, wts);
    r
}

/// The address for `query` signed with `digest`, the digest of the query.
pub fn sign_query(query: &String, digest: &[u8]) -> (r: String)
    ensures
        r@ == signed_address(query@, digest@),
{
    let mut r = String::new();
    push_str(&mut r, "https://api.bilibili.com/x/player/wbi/playurl?");
    push_str(&mut r, query.as_str());
    push_str(&mut r, "&w_rid=");
    let h = to_hex(digest);
    push_str(&mut r, h.as_str());
    r
}

/// The signed address of a video's play URLs at time `wts` (seconds since
/// the Unix epoch).
pub fn play_url_at(aid: i64, cid: i64, wts: i64) -> (r: String)
    ensures
        r@ == video_play_address(aid, cid, wts),
{
    let q = video_play_query(aid, cid, wts);
    let digest = md5_digest(q.as_str().as_bytes());
    sign_query(&q, digest.as_slice())
}

/// The signed address of a video's play URLs now.
pub fn play_url_address(aid: i64, cid: i64) -> (r: String)
    ensures
        exists|wts: i64| wts >= 0 && r@ == video_play_address(aid, cid, wts),
{
    let wts = unix_now();
    play_url_at(aid, cid, wts)
}

/// The address of an episode's play URLs at time `wts`.
pub open spec fn episode_play_address(aid: i64, cid: i64, ep_id: i64, wts: i64) -> Seq<char> {
    "https://api.bilibili.com/pgc/player/web/v2/playurl?support_multi_audio=true&from_client=BROWSER&avid="@
        + int_digits(aid as int) + "&cid="@ + int_digits(cid as int)
        + "&fnval=4048&fnver=0&fourk=1&module=bangumi&ep_id="@ + int_digits(ep_id as int)
        + "&session=&wts="@ + int_digits(wts as int)
}

/// The address of an episode's play URLs at time `wts`.
pub fn episode_play_url_at(aid: i64, cid: i64, ep_id: i64, wts: i64) -> (r: String)
    ensures
        r@ == episode_play_address(aid, cid, ep_id, wts),
{
    let mut r = String::new();
    push_str(
        &mut r,
        "https://api.bilibili.com/pgc/player/web/v2/playurl?support_multi_audio=true&from_client=BROWSER&avid=",
    );
    push_i64(&mut r, aid);
    push_str(&mut r, "&cid=");
    push_i64(&mut r, cid);
    push_str(&mut r, "&fnval=4048&fnver=0&fourk=1&module=bangumi&ep_id=");
    push_i64(&mut r, ep_id);
    push_str(&mut r, "&session=&wts=");
    push_i64(&mut r, wts);
    r
}

/// The address of an episode's play URLs now.
pub fn episode_play_url_address(aid: i64, cid: i64, ep_id: i64) -> (r: String)
    ensures
        exists|wts: i64| wts >= 0 && r@ == episode_play_address(aid, cid, ep_id, wts),
{
    let wts = unix_now();
    episode_play_url_at(aid, cid, ep_id, wts)
}

} // verus!
