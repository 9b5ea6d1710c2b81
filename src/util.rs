//! Cookies, quality names and the user agent.

use crate::error::BBDDError;
use crate::session::texts;
use crate::text::{
    contains_str, has_infix, int_digits, nat_digits, owned, push_char, push_i64, push_str, push_u64,
};
use vstd::prelude::*;

verus! {

/// The text after the last `?` of `s` (all of `s` when it has none), with
/// each `&` turned into `;`.
pub open spec fn cookie_text(s: Seq<char>) -> Seq<char>
    decreases s.len(),
{
    if s.len() == 0 {
        Seq::empty()
    } else if s.last() == '?' {
        Seq::empty()
    } else {
        cookie_text(s.drop_last()).push(
            if s.last() == '&' {
                ';'
            } else {
                s.last()
            },
        )
    }
}

/// The cookie carried by a login URL: its query, with `;` between the
/// pairs. A URL without `?` is taken as a query as a whole.
pub fn url_to_cookie(url: &str) -> (r: Result<String, BBDDError>)
    ensures
        r matches Ok(c) && c@ == cookie_text(url@),
{
    let mut r = String::new();
    for c in it: url.chars()
        invariant
            it.seq() == url@,
            r@ == cookie_text(url@.take(it.index() as int)),
    {
        proof {
            let p = url@.take(it.index() + 1);
            assert(p.drop_last() =~= url@.take(it.index() as int));
            assert(p.last() == c);
        }
        if c == '?' {
            r = String::new();
        } else if c == '&' {
            push_char(&mut r, ';');
        } else {
            push_char(&mut r, c);
        }
    }
    proof {
        assert(url@.take(url@.len() as int) =~= url@);
    }
    Ok(r)
}

/// The name of a video quality identifier.
pub open spec fn video_quality_name(quality: i32) -> Seq<char> {
    if quality == 127 {
        "8K 超高清"@
    } else if quality == 126 {
        "杜比视界"@
    } else if quality == 125 {
        "HDR 真彩"@
    } else if quality == 120 {
        "4K 超清"@
    } else if quality == 116 {
        "1080P 高帧率"@
    } else if quality == 112 {
        "1080P 高码率"@
    } else if quality == 100 {
        "智能修复"@
    } else if quality == 80 {
        "1080P 高清"@
    } else if quality == 74 {
        "720P 高帧率"@
    } else if quality == 64 {
        "720P 高清"@
    } else if quality == 48 {
        "720P 高清"@
    } else if quality == 32 {
        "480P 清晰"@
    } else if quality == 16 {
        "360P 流畅"@
    } else if quality == 5 {
        "144P 流畅"@
    } else if quality == 6 {
        "240P 流畅"@
    } else {
        "QUALITY-"@ + int_digits(quality as int)
    }
}

/// The name of a video quality identifier; `QUALITY-<n>` for one that has
/// no name.
pub fn video_quality_to_string(quality: i32) -> (r: String)
    ensures
        r@ == video_quality_name(quality),
{
    match quality {
        127 => owned("8K 超高清"),
        126 => owned("杜比视界"),
        125 => owned("HDR 真彩"),
        120 => owned("4K 超清"),
        116 => owned("1080P 高帧率"),
        112 => owned("1080P 高码率"),
        100 => owned("智能修复"),
        80 => owned("1080P 高清"),
        74 => owned("720P 高帧率"),
        64 => owned("720P 高清"),
        48 => owned("720P 高清"),
        32 => owned("480P 清晰"),
        16 => owned("360P 流畅"),
        5 => owned("144P 流畅"),
        6 => owned("240P 流畅"),
        _ => {
            let mut r = owned("QUALITY-");
            push_i64(&mut r, quality as i64);
            r
        },
    }
}

/// The name of an audio quality identifier.
pub open spec fn audio_quality_name(quality: i32) -> Seq<char> {
    if quality == 30216 {
        "64K"@
    } else if quality == 30232 {
        "132K"@
    } else if quality == 30280 {
        "192K"@
    } else {
        "AUDIO-"@ + int_digits(quality as int)
    }
}

/// The name of an audio quality identifier; `AUDIO-<n>` for one that has
/// no name.
pub fn audio_quality_to_string(quality: i32) -> (r: String)
    ensures
        r@ == audio_quality_name(quality),
{
    match quality {
        30216 => owned("64K"),
        30232 => owned("132K"),
        30280 => owned("192K"),
        _ => {
            let mut r = owned("AUDIO-");
            push_i64(&mut r, quality as i64);
            r
        },
    }
}

/// The user agent that names browser major version `version`.
pub open spec fn user_agent(version: u64) -> Seq<char> {
    "Mozilla/5.0 (Windows NT 10.0; Win64; x64) AppleWebKit/537.36 (KHTML, like Gecko) Chrome/"@
        + nat_digits(version as nat) + " Safari/537.36"@
}

/// The user agent that names browser major version `version`.
pub fn user_agent_for(version: u64) -> (r: String)
    ensures
        r@ == user_agent(version),
{
    let mut r = owned(
        "Mozilla/5.0 (Windows NT 10.0; Win64; x64) AppleWebKit/537.36 (KHTML, like Gecko) Chrome/",
    );
    push_u64(&mut r, version);
    push_str(&mut r, " Safari/537.36");
    r
}

/// Relies on `rand::random::<u8>`: a byte drawn at random, of which nothing
/// is known.
#[verifier::external_body]
fn random_byte() -> u8 {
    rand::random::<u8>()
}

/// A user agent naming a browser major version drawn at random from 80 to
/// 110.
pub fn random_user_agent() -> (r: String)
    ensures
        exists|v: u64| 80 <= v <= 110 && r@ == user_agent(v),
{
    let b = random_byte();
    let v: u64 = (b % 31) as u64 + 80;
    user_agent_for(v)
}

/// The hint for one login field of a cookie: none when the cookie sets it
/// (holds `probe`), otherwise `hint`.
pub open spec fn hint_if_missing(cookie: Seq<char>, probe: Seq<char>, hint: Seq<char>) -> Seq<
    Seq<char>,
> {
    if has_infix(cookie, probe) {
        Seq::empty()
    } else {
        seq![hint]
    }
}

/// The hints for the login fields that a cookie lacks, in a fixed order.
pub open spec fn missing_hints(cookie: Seq<char>) -> Seq<Seq<char>> {
    hint_if_missing(cookie, "SESSDATA="@, "SESSDATA(通常决定登录态/会员清晰度)"@) + hint_if_missing(
        cookie,
        "bili_jct="@,
        "bili_jct(部分接口可能需要)"@,
    ) + hint_if_missing(cookie, "DedeUserID="@, "DedeUserID(账号标识)"@)
}

/// Texts joined with `sep` between neighbours.
pub open spec fn joined(items: Seq<Seq<char>>, sep: Seq<char>) -> Seq<char>
    decreases items.len(),
{
    if items.len() == 0 {
        Seq::empty()
    } else if items.len() == 1 {
        items[0]
    } else {
        joined(items.drop_last(), sep) + sep + items.last()
    }
}

fn push_hint_if_missing(hints: &mut Vec<String>, cookie: &str, probe: &str, hint: &str)
    ensures
        texts(final(hints)@) == texts(old(hints)@) + hint_if_missing(cookie@, probe@, hint@),
{
    let ghost before = hints@;
    if !contains_str(cookie, probe) {
        hints.push(owned(hint));
        assert(texts(hints@) =~= texts(before) + hint_if_missing(cookie@, probe@, hint@));
    } else {
        assert(texts(hints@) =~= texts(before) + hint_if_missing(cookie@, probe@, hint@));
    }
}

/// The hints for the login fields (`SESSDATA`, `bili_jct`, `DedeUserID`)
/// that a cookie lacks.
pub fn missing_cookie_hints(cookie: &str) -> (r: Vec<String>)
    ensures
        texts(r@) == missing_hints(cookie@),
{
    let mut r: Vec<String> = Vec::new();
    push_hint_if_missing(&mut r, cookie, "SESSDATA=", "SESSDATA(通常决定登录态/会员清晰度)");
    push_hint_if_missing(&mut r, cookie, "bili_jct=", "bili_jct(部分接口可能需要)");
    push_hint_if_missing(&mut r, cookie, "DedeUserID=", "DedeUserID(账号标识)");
    assert(texts(r@) =~= missing_hints(cookie@));
    r
}

/// The warning for an incomplete cookie: none for an empty cookie (no
/// login) or one with every login field, otherwise the missing fields with
/// their purpose, separated by `, `.
pub fn cookie_hint(cookie: &str) -> (r: Option<String>)
    ensures
        cookie@.len() == 0 || missing_hints(cookie@).len() == 0 ==> r is None,
        cookie@.len() != 0 && missing_hints(cookie@).len() != 0 ==> (r matches Some(h) && h@
            == "cookie 可能不完整，缺少: "@ + joined(missing_hints(cookie@), ", "@)),
{
    if cookie.is_empty() {
        return None;
    }
    let hints = missing_cookie_hints(cookie);
    if hints.len() == 0 {
        return None;
    }
    let mut r = owned("cookie 可能不完整，缺少: ");
    let ghost head = r@;
    let mut i: usize = 0;
    while i < hints.len()
        invariant
            i <= hints.len(),
            texts(hints@) == missing_hints(cookie@),
            r@ == head + joined(texts(hints@).take(i as int), ", "@),
        decreases hints.len() - i,
    {
        let ghost prev = r@;
        if i > 0 {
            push_str(&mut r, ", ");
        }
        push_str(&mut r, hints[i].as_str());
        proof {
            let t = texts(hints@);
            assert(t.take(i + 1).drop_last() =~= t.take(i as int));
            assert(t.take(i + 1).last() == hints@[i as int]@);
            if i == 0 {
                assert(t.take(1).len() == 1);
                assert(r@ =~= head + joined(t.take(i + 1), ", "@));
            } else {
                assert(r@ =~= head + joined(t.take(i + 1), ", "@));
            }
        }
        i = i + 1;
    }
    proof {
        assert(texts(hints@).take(i as int) =~= texts(hints@));
    }
    Some(r)
}

} // verus!
