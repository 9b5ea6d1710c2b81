//! Resolving what the user typed (an id or a page address) into the
//! content it names.
//!
//! Some inputs can be resolved from their text alone; others need the
//! service: where a short link or a video page redirects, which episode a
//! season or media entry starts with, or what a page says. [`route`] says
//! which, and the functions after it finish the work with the service's
//! answers.

use crate::parse::{VideoType, VideoTypeView};
use crate::text::{
    contains_str, has_infix, owned, push_str, same_text, skip_chars, starts_with_str,
};
use vstd::prelude::*;

verus! {

/// Group `group` of the first match of the regular expression `pattern` in
/// `text`, as `regex::Regex::captures` finds it; none when nothing matches,
/// the group took no part in the match, or `pattern` is not a valid
/// expression.
pub uninterp spec fn regex_group(pattern: Seq<char>, text: Seq<char>, group: nat) -> Option<
    Seq<char>,
>;

/// Relies on `regex::Regex::new` and `Regex::captures`: the text of group
/// `group` of the first match of `pattern` in `text`; none when nothing
/// matches or the group took no part in the match.
#[verifier::external_body]
fn capture(pattern: &str, text: &str, group: usize) -> (r: Option<String>)
    ensures
        r matches Some(g) ==> regex_group(pattern@, text@, group as nat) == Some(g@),
        r is None ==> regex_group(pattern@, text@, group as nat) is None,
{
    regex::Regex::new(pattern).ok()?.captures(text)?.get(group).map(|m| m.as_str().to_string())
}

/// What `abv::bv2av` returns for `bv`: the video's numeric id, or the text
/// of its error.
pub uninterp spec fn bv2av_of(bv: Seq<char>) -> Result<u64, Seq<char>>;

/// Relies on `abv::bv2av`: the numeric id (below 2^51) that a BV id stands
/// for, or the text of the error.
#[verifier::external_body]
fn bv_to_av(bv: &str) -> (r: Result<u64, String>)
    ensures
        r matches Ok(v) ==> bv2av_of(bv@) is Ok && bv2av_of(bv@)->Ok_0 == v,
        r matches Ok(v) ==> v < 0x8_0000_0000_0000,
        r matches Err(e) ==> bv2av_of(bv@) is Err && bv2av_of(bv@)->Err_0 == e@,
{
    abv::bv2av(bv).map_err(|e| e.to_string())
}

/// What `str::to_lowercase` returns for `s`.
pub uninterp spec fn lower_of(s: Seq<char>) -> Seq<char>;

/// Relies on `str::to_lowercase`: the lowercase form of the text.
#[verifier::external_body]
fn lowercase(s: &str) -> (r: String)
    ensures
        r@ == lower_of(s@),
{
    s.to_lowercase()
}

/// Whether `c` is an ASCII decimal digit.
pub open spec fn is_digit(c: char) -> bool {
    48 <= c as u32 <= 57
}

/// The value of a run of decimal digits.
pub open spec fn digits_value(s: Seq<char>) -> int
    decreases s.len(),
{
    if s.len() == 0 {
        0
    } else {
        10 * digits_value(s.drop_last()) + (s.last() as u32 - 48)
    }
}

/// The `i64` that `s` spells in decimal: an optional sign, then one or more
/// ASCII digits, the value in range; none otherwise.
pub open spec fn decimal_i64(s: Seq<char>) -> Option<i64> {
    let signed = s.len() > 0 && (s[0] == '-' || s[0] == '+');
    let body = if signed {
        s.drop_first()
    } else {
        s
    };
    let v = if s.len() > 0 && s[0] == '-' {
        -digits_value(body)
    } else {
        digits_value(body)
    };
    if body.len() > 0 && (forall|i: int| 0 <= i < body.len() ==> is_digit(body[i])) && i64::MIN
        <= v <= i64::MAX {
        Some(v as i64)
    } else {
        None
    }
}

/// The text of the error that `str::parse::<i64>` gives for `s`.
pub uninterp spec fn int_error_of(s: Seq<char>) -> Seq<char>;

/// Relies on `str::parse::<i64>`: an optional `+` or `-` followed by ASCII
/// digits, in range, is read as that number; anything else is an error,
/// given as its text.
#[verifier::external_body]
fn parse_i64(s: &str) -> (r: Result<i64, String>)
    ensures
        r matches Ok(v) ==> decimal_i64(s@) == Some(v),
        r matches Err(e) ==> e@ == int_error_of(s@),
        r is Err ==> decimal_i64(s@) is None,
{
    s.parse::<i64>().map_err(|e| e.to_string())
}

/// A number captured by a pattern.
#[derive(Clone, Debug, PartialEq, Eq)]
pub enum NumberCapture {
    /// The pattern did not match.
    Missing,
    /// The capture is not a number; the text of the parse error.
    Bad(String),
    /// The number.
    Number(i64),
}

/// A number captured by a pattern, as text.
pub enum NumberCaptureView {
    Missing,
    Bad(Seq<char>),
    Number(i64),
}

impl View for NumberCapture {
    type V = NumberCaptureView;

    open spec fn view(&self) -> NumberCaptureView {
        match self {
            NumberCapture::Missing => NumberCaptureView::Missing,
            NumberCapture::Bad(e) => NumberCaptureView::Bad(e@),
            NumberCapture::Number(v) => NumberCaptureView::Number(*v),
        }
    }
}

/// Group 1 of the first match of `pattern` in `text`, read as a number.
pub open spec fn number_in(pattern: Seq<char>, text: Seq<char>) -> NumberCaptureView {
    match regex_group(pattern, text, 1) {
        None => NumberCaptureView::Missing,
        Some(d) => match decimal_i64(d) {
            Some(v) => NumberCaptureView::Number(v),
            None => NumberCaptureView::Bad(int_error_of(d)),
        },
    }
}

/// Group 1 of the first match of `pattern` in `text`, read as a number.
pub fn capture_number(pattern: &str, text: &str) -> (r: NumberCapture)
    ensures
        r@ == number_in(pattern@, text@),
{
    match capture(pattern, text, 1) {
        None => NumberCapture::Missing,
        Some(d) => match parse_i64(d.as_str()) {
            Ok(v) => NumberCapture::Number(v),
            Err(e) => NumberCapture::Bad(e),
        },
    }
}

/// Where resolving an input stands.
#[derive(Clone, Debug, PartialEq, Eq)]
pub enum Route {
    /// Resolved.
    Found(VideoType),
    /// The input cannot be resolved; why.
    Invalid(String),
    /// A short link: ask where the input redirects, then continue with
    /// [`route_redirected`].
    FollowRedirect,
    /// A video: ask where its page redirects (an episode's page, maybe),
    /// then finish with [`video_page_route`].
    CheckVideoPage(i64),
    /// A course season: its first episode is the course episode meant.
    CourseSeason(i64),
    /// A bangumi season: its first episode is the episode meant.
    BangumiSeason(i64),
    /// A media entry: its newest episode is the episode meant.
    MediaEpisode(String),
    /// Fetch the page, read the first episode in its initial state, then
    /// finish with [`page_route`].
    ReadPage,
}

/// Where resolving an input stands, as text.
pub enum RouteView {
    Found(VideoTypeView),
    Invalid(Seq<char>),
    FollowRedirect,
    CheckVideoPage(i64),
    CourseSeason(i64),
    BangumiSeason(i64),
    MediaEpisode(Seq<char>),
    ReadPage,
}

impl View for Route {
    type V = RouteView;

    open spec fn view(&self) -> RouteView {
        match self {
            Route::Found(t) => RouteView::Found(t@),
            Route::Invalid(m) => RouteView::Invalid(m@),
            Route::FollowRedirect => RouteView::FollowRedirect,
            Route::CheckVideoPage(v) => RouteView::CheckVideoPage(*v),
            Route::CourseSeason(v) => RouteView::CourseSeason(*v),
            Route::BangumiSeason(v) => RouteView::BangumiSeason(*v),
            Route::MediaEpisode(m) => RouteView::MediaEpisode(m@),
            Route::ReadPage => RouteView::ReadPage,
        }
    }
}

/// The route of a BV id.
pub open spec fn bv_route_spec(bv: Seq<char>) -> RouteView {
    match bv2av_of(bv) {
        Ok(v) => RouteView::Found(VideoTypeView::Video(v as i64)),
        Err(e) => RouteView::Invalid("bv号解析错误: "@ + e),
    }
}

fn bv_route(bv: &str) -> (r: Route)
    ensures
        r@ == bv_route_spec(bv@),
{
    match bv_to_av(bv) {
        Ok(v) => Route::Found(VideoType::AVID(v as i64)),
        Err(e) => {
            let mut m = owned("bv号解析错误: ");
            push_str(&mut m, e.as_str());
            Route::Invalid(m)
        },
    }
}

/// The route of a video number captured by `pattern` (`av<digits>`).
pub open spec fn av_route_spec(pattern: Seq<char>, input: Seq<char>) -> RouteView {
    match number_in(pattern, input) {
        NumberCaptureView::Number(v) => RouteView::CheckVideoPage(v),
        NumberCaptureView::Bad(e) => RouteView::Invalid("av号解析错误: "@ + e),
        NumberCaptureView::Missing => RouteView::Invalid("无法解析av号"@),
    }
}

fn av_route(pattern: &str, input: &str) -> (r: Route)
    ensures
        r@ == av_route_spec(pattern@, input@),
{
    match capture_number(pattern, input) {
        NumberCapture::Number(v) => Route::CheckVideoPage(v),
        NumberCapture::Bad(e) => {
            let mut m = owned("av号解析错误: ");
            push_str(&mut m, e.as_str());
            Route::Invalid(m)
        },
        NumberCapture::Missing => Route::Invalid(owned("无法解析av号")),
    }
}

/// The route of a course address or id: an episode (`/ep<digits>`) or a
/// season (`/ss<digits>`).
pub open spec fn course_route_spec(
    input: Seq<char>,
    ep_pattern: Seq<char>,
    ss_pattern: Seq<char>,
    ss_bad: Seq<char>,
) -> RouteView {
    if has_infix(input, "/ep"@) {
        match number_in(ep_pattern, input) {
            NumberCaptureView::Number(v) => RouteView::Found(VideoTypeView::Course(v)),
            _ => RouteView::Invalid("无法解析ep_id"@),
        }
    } else if has_infix(input, "/ss"@) {
        match number_in(ss_pattern, input) {
            NumberCaptureView::Number(v) => RouteView::CourseSeason(v),
            NumberCaptureView::Bad(_) => RouteView::Invalid(ss_bad),
            NumberCaptureView::Missing => RouteView::Invalid("无法解析ss_id"@),
        }
    } else {
        RouteView::Invalid("无法解析cheese链接"@)
    }
}

fn course_route(input: &str, ep_pattern: &str, ss_pattern: &str, ss_bad: &str) -> (r: Route)
    ensures
        r@ == course_route_spec(input@, ep_pattern@, ss_pattern@, ss_bad@),
{
    if contains_str(input, "/ep") {
        match capture_number(ep_pattern, input) {
            NumberCapture::Number(v) => Route::Found(VideoType::CHEESE(v)),
            _ => Route::Invalid(owned("无法解析ep_id")),
        }
    } else if contains_str(input, "/ss") {
        match capture_number(ss_pattern, input) {
            NumberCapture::Number(v) => Route::CourseSeason(v),
            NumberCapture::Bad(_) => Route::Invalid(owned(ss_bad)),
            NumberCapture::Missing => Route::Invalid(owned("无法解析ss_id")),
        }
    } else {
        Route::Invalid(owned("无法解析cheese链接"))
    }
}

/// An episode number captured by `pattern`, with the messages for a
/// capture that is not a number and for no match.
pub open spec fn episode_route_spec(
    pattern: Seq<char>,
    input: Seq<char>,
    bad: Seq<char>,
    missing: Seq<char>,
) -> RouteView {
    match number_in(pattern, input) {
        NumberCaptureView::Number(v) => RouteView::Found(VideoTypeView::Episode(v)),
        NumberCaptureView::Bad(_) => RouteView::Invalid(bad),
        NumberCaptureView::Missing => RouteView::Invalid(missing),
    }
}

fn episode_route(pattern: &str, input: &str, bad: &str, missing: &str) -> (r: Route)
    ensures
        r@ == episode_route_spec(pattern@, input@, bad@, missing@),
{
    match capture_number(pattern, input) {
        NumberCapture::Number(v) => Route::Found(VideoType::EPID(v)),
        NumberCapture::Bad(_) => Route::Invalid(owned(bad)),
        NumberCapture::Missing => Route::Invalid(owned(missing)),
    }
}

/// A text captured by `pattern` (group 1), or the message for no match.
pub open spec fn text_in(pattern: Seq<char>, input: Seq<char>, missing: Seq<char>) -> Result<
    Seq<char>,
    Seq<char>,
> {
    match regex_group(pattern, input, 1) {
        Some(g) => Ok(g),
        None => Err(missing),
    }
}

fn capture_text(pattern: &str, input: &str, missing: &str) -> (r: Result<String, String>)
    ensures
        r matches Ok(g) ==> text_in(pattern@, input@, missing@) == Ok::<Seq<char>, Seq<char>>(g@),
        r matches Err(m) ==> text_in(pattern@, input@, missing@) == Err::<Seq<char>, Seq<char>>(m@),
{
    match capture(pattern, input, 1) {
        Some(g) => Ok(g),
        None => Err(owned(missing)),
    }
}

/// The route of a page address, by the first rule that fits it.
pub open spec fn address_route(input: Seq<char>) -> RouteView {
    if has_infix(input, "video/av"@) {
        av_route_spec(r"av(\d+)"@, input)
    } else if has_infix(lower_of(input), "video/bv"@) {
        match regex_group(r"[Bb][Vv]1(\w+)"@, input, 0) {
            Some(bv) => bv_route_spec(bv),
            None => RouteView::Invalid("无法解析bv号"@),
        }
    } else if has_infix(input, "/cheese/"@) {
        course_route_spec(input, r"/ep(\d+)"@, r"/ss(\d+)"@, "无法解析ss_id"@)
    } else if has_infix(input, "/ep"@) {
        episode_route_spec(r"/ep(\d+)"@, input, "ep_id 不是数字"@, "无法解析ep_id"@)
    } else if has_infix(input, "/ss"@) {
        match number_in(r"/ss(\d+)"@, input) {
            NumberCaptureView::Number(v) => RouteView::BangumiSeason(v),
            NumberCaptureView::Bad(_) => RouteView::Invalid("ss_id 不是数字"@),
            NumberCaptureView::Missing => RouteView::Invalid("无法解析ss_id"@),
        }
    } else {
        list_route(input)
    }
}

/// The route of a page address of a list, a user or an episode elsewhere.
pub open spec fn list_route(input: Seq<char>) -> RouteView {
    if has_infix(input, "/medialist/"@) && has_infix(input, "business_id="@) && has_infix(
        input,
        "business=space_collection"@,
    ) {
        match text_in(r"business_id=([^&]+)"@, input, "无法解析business_id"@) {
            Ok(g) => RouteView::Found(VideoTypeView::Collection(g)),
            Err(m) => RouteView::Invalid(m),
        }
    } else if has_infix(input, "/medialist/"@) && has_infix(input, "business_id="@) && has_infix(
        input,
        "business=space_series"@,
    ) {
        match text_in(r"business_id=([^&]+)"@, input, "无法解析business_id"@) {
            Ok(g) => RouteView::Found(VideoTypeView::Series(g)),
            Err(m) => RouteView::Invalid(m),
        }
    } else if has_infix(input, "/channel/collectiondetail?sid="@) {
        match text_in(r"sid=([^&]+)"@, input, "无法解析sid"@) {
            Ok(g) => RouteView::Found(VideoTypeView::Collection(g)),
            Err(m) => RouteView::Invalid(m),
        }
    } else if has_infix(input, "/channel/seriesdetail?sid="@) {
        match text_in(r"sid=([^&]+)"@, input, "无法解析sid"@) {
            Ok(g) => RouteView::Found(VideoTypeView::Series(g)),
            Err(m) => RouteView::Invalid(m),
        }
    } else if has_infix(input, "/space.bilibili.com/"@) && has_infix(input, "/favlist"@) {
        match text_in(r"space\.bilibili\.com/(\d+)"@, input, "无法解析mid"@) {
            Err(m) => RouteView::Invalid(m),
            Ok(mid) => match text_in(r"fid=([^&]+)"@, input, "无法解析fid"@) {
                Err(m) => RouteView::Invalid(m),
                Ok(fid) => RouteView::Found(VideoTypeView::Favourites { fid, mid }),
            },
        }
    } else if has_infix(input, "/space.bilibili.com/"@) {
        match text_in(r"space\.bilibili\.com/(\d+)"@, input, "无法解析mid"@) {
            Ok(g) => RouteView::Found(VideoTypeView::Uploader(g)),
            Err(m) => RouteView::Invalid(m),
        }
    } else if has_infix(input, "ep_id="@) {
        episode_route_spec(r"ep_id=([^&]+)"@, input, "ep_id 不是数字"@, "无法解析ep_id"@)
    } else {
        match number_in(r"\.bilibili\.tv\/\w+\/play\/\d+\/(\d+)"@, input) {
            NumberCaptureView::Number(v) => RouteView::Found(VideoTypeView::Episode(v)),
            NumberCaptureView::Bad(_) => RouteView::Invalid("ep_id 不是数字"@),
            NumberCaptureView::Missing => match regex_group(r"bangumi/media/(md\d+)"@, input, 1) {
                Some(md) => RouteView::MediaEpisode(md),
                None => RouteView::ReadPage,
            },
        }
    }
}

/// The route of an input that is not a page address, by its prefix.
pub open spec fn id_route(input: Seq<char>) -> RouteView {
    if "bv"@.is_prefix_of(lower_of(input)) {
        bv_route_spec(input)
    } else if "av"@.is_prefix_of(lower_of(input)) {
        av_route_spec(r"av(\d+)"@, input)
    } else if "cheese/"@.is_prefix_of(input) {
        course_route_spec(input, r"cheese/ep(\d+)"@, r"cheese/ss(\d+)"@, "ss_id 不是数字"@)
    } else if "ep"@.is_prefix_of(input) {
        match decimal_i64(input.skip(2)) {
            Some(v) => RouteView::Found(VideoTypeView::Episode(v)),
            None => RouteView::Invalid("ep_id 不是数字"@),
        }
    } else if "ss"@.is_prefix_of(input) {
        match decimal_i64(input.skip(2)) {
            Some(v) => RouteView::BangumiSeason(v),
            None => RouteView::Invalid("ss_id 不是数字"@),
        }
    } else if "md"@.is_prefix_of(input) {
        match regex_group(r"md(\d+)"@, input, 1) {
            Some(g) => RouteView::MediaEpisode(g),
            None => RouteView::Invalid("无法解析md_id"@),
        }
    } else {
        RouteView::Invalid("无法解析用户输入"@)
    }
}

/// The route of an input: addresses (starting with `http`) by their form,
/// short links first redirected; anything else by its prefix.
pub open spec fn route_spec(input: Seq<char>) -> RouteView {
    if "http"@.is_prefix_of(input) {
        if has_infix(input, "b23.tv"@) {
            RouteView::FollowRedirect
        } else {
            address_route(input)
        }
    } else {
        id_route(input)
    }
}

fn text_route(pattern: &str, input: &str, missing: &str, series: bool) -> (r: Route)
    ensures
        r@ == match text_in(pattern@, input@, missing@) {
            Ok(g) => RouteView::Found(
                if series {
                    VideoTypeView::Series(g)
                } else {
                    VideoTypeView::Collection(g)
                },
            ),
            Err(m) => RouteView::Invalid(m),
        },
{
    match capture_text(pattern, input, missing) {
        Ok(g) => if series {
            Route::Found(VideoType::SERIESBIZID(g))
        } else {
            Route::Found(VideoType::LISTBIZID(g))
        },
        Err(m) => Route::Invalid(m),
    }
}

fn list_route_exec(input: &str) -> (r: Route)
    ensures
        r@ == list_route(input@),
{
    if contains_str(input, "/medialist/") && contains_str(input, "business_id=") && contains_str(
        input,
        "business=space_collection",
    ) {
        text_route(r"business_id=([^&]+)", input, "无法解析business_id", false)
    } else if contains_str(input, "/medialist/") && contains_str(input, "business_id=")
        && contains_str(input, "business=space_series") {
        text_route(r"business_id=([^&]+)", input, "无法解析business_id", true)
    } else if contains_str(input, "/channel/collectiondetail?sid=") {
        text_route(r"sid=([^&]+)", input, "无法解析sid", false)
    } else if contains_str(input, "/channel/seriesdetail?sid=") {
        text_route(r"sid=([^&]+)", input, "无法解析sid", true)
    } else if contains_str(input, "/space.bilibili.com/") && contains_str(input, "/favlist") {
        match capture_text(r"space\.bilibili\.com/(\d+)", input, "无法解析mid") {
            Err(m) => Route::Invalid(m),
            Ok(mid) => match capture_text(r"fid=([^&]+)", input, "无法解析fid") {
                Err(m) => Route::Invalid(m),
                Ok(fid) => Route::Found(VideoType::FAVID { fid, mid }),
            },
        }
    } else if contains_str(input, "/space.bilibili.com/") {
        match capture_text(r"space\.bilibili\.com/(\d+)", input, "无法解析mid") {
            Ok(g) => Route::Found(VideoType::MID(g)),
            Err(m) => Route::Invalid(m),
        }
    } else if contains_str(input, "ep_id=") {
        episode_route(r"ep_id=([^&]+)", input, "ep_id 不是数字", "无法解析ep_id")
    } else {
        match capture_number(r"\.bilibili\.tv\/\w+\/play\/\d+\/(\d+)", input) {
            NumberCapture::Number(v) => Route::Found(VideoType::EPID(v)),
            NumberCapture::Bad(_) => Route::Invalid(owned("ep_id 不是数字")),
            NumberCapture::Missing => match capture(r"bangumi/media/(md\d+)", input, 1) {
                Some(md) => Route::MediaEpisode(md),
                None => Route::ReadPage,
            },
        }
    }
}

fn address_route_exec(input: &str) -> (r: Route)
    ensures
        r@ == address_route(input@),
{
    if contains_str(input, "video/av") {
        av_route(r"av(\d+)", input)
    } else if contains_str(lowercase(input).as_str(), "video/bv") {
        match capture(r"[Bb][Vv]1(\w+)", input, 0) {
            Some(bv) => bv_route(bv.as_str()),
            None => Route::Invalid(owned("无法解析bv号")),
        }
    } else if contains_str(input, "/cheese/") {
        course_route(input, r"/ep(\d+)", r"/ss(\d+)", "无法解析ss_id")
    } else if contains_str(input, "/ep") {
        episode_route(r"/ep(\d+)", input, "ep_id 不是数字", "无法解析ep_id")
    } else if contains_str(input, "/ss") {
        match capture_number(r"/ss(\d+)", input) {
            NumberCapture::Number(v) => Route::BangumiSeason(v),
            NumberCapture::Bad(_) => Route::Invalid(owned("ss_id 不是数字")),
            NumberCapture::Missing => Route::Invalid(owned("无法解析ss_id")),
        }
    } else {
        list_route_exec(input)
    }
}

fn id_route_exec(input: &str) -> (r: Route)
    ensures
        r@ == id_route(input@),
{
    let lower = lowercase(input);
    if starts_with_str(lower.as_str(), "bv") {
        bv_route(input)
    } else if starts_with_str(lower.as_str(), "av") {
        av_route(r"av(\d+)", input)
    } else if starts_with_str(input, "cheese/") {
        course_route(input, r"cheese/ep(\d+)", r"cheese/ss(\d+)", "ss_id 不是数字")
    } else if starts_with_str(input, "ep") {
        proof {
            reveal_strlit("ep");
        }
        let rest = skip_chars(input, 2);
        match parse_i64(rest.as_str()) {
            Ok(v) => Route::Found(VideoType::EPID(v)),
            Err(_) => Route::Invalid(owned("ep_id 不是数字")),
        }
    } else if starts_with_str(input, "ss") {
        proof {
            reveal_strlit("ss");
        }
        let rest = skip_chars(input, 2);
        match parse_i64(rest.as_str()) {
            Ok(v) => Route::BangumiSeason(v),
            Err(_) => Route::Invalid(owned("ss_id 不是数字")),
        }
    } else if starts_with_str(input, "md") {
        match capture(r"md(\d+)", input, 1) {
            Some(g) => Route::MediaEpisode(g),
            None => Route::Invalid(owned("无法解析md_id")),
        }
    } else {
        Route::Invalid(owned("无法解析用户输入"))
    }
}

/// How to resolve an input (already trimmed).
pub fn route(input: &str) -> (r: Route)
    ensures
        r@ == route_spec(input@),
{
    if starts_with_str(input, "http") {
        if contains_str(input, "b23.tv") {
            Route::FollowRedirect
        } else {
            address_route_exec(input)
        }
    } else {
        id_route_exec(input)
    }
}

/// Where a short link leads, from the `location` of its redirect: the
/// target, unless there is none or it is the link itself.
pub fn redirect_target(input: &str, location: Option<String>) -> (r: Result<String, String>)
    ensures
        location is None ==> (r matches Err(m) && m@ == "无法解析b23.tv链接"@),
        location matches Some(t) ==> (t@ == input@ ==> (r matches Err(m) && m@ == "无限重定向"@)),
        location matches Some(t) ==> (t@ != input@ ==> (r matches Ok(u) && u@ == t@)),
{
    match location {
        None => Err(owned("无法解析b23.tv链接")),
        Some(t) => if same_text(t.as_str(), input) {
            Err(owned("无限重定向"))
        } else {
            Ok(t)
        },
    }
}

/// How to resolve the target of a short link: as a page address.
pub fn route_redirected(target: &str) -> (r: Route)
    ensures
        r@ == address_route(target@),
{
    address_route_exec(target)
}

/// A video, once the redirect of its page is known: the episode that the
/// page redirects to (`/ep<digits>`), otherwise the video itself.
pub fn video_page_route(avid: i64, location: Option<String>) -> (r: Route)
    ensures
        r@ == match location {
            Some(loc) => if has_infix(loc@, "/ep"@) {
                match number_in(r"/ep(\d+)"@, loc@) {
                    NumberCaptureView::Number(v) => RouteView::Found(VideoTypeView::Episode(v)),
                    NumberCaptureView::Bad(_) => RouteView::Invalid("ep_id 不是数字"@),
                    NumberCaptureView::Missing => RouteView::Found(VideoTypeView::Video(avid)),
                }
            } else {
                RouteView::Found(VideoTypeView::Video(avid))
            },
            None => RouteView::Found(VideoTypeView::Video(avid)),
        },
{
    match location {
        Some(loc) => if contains_str(loc.as_str(), "/ep") {
            match capture_number(r"/ep(\d+)", loc.as_str()) {
                NumberCapture::Number(v) => Route::Found(VideoType::EPID(v)),
                NumberCapture::Bad(_) => Route::Invalid(owned("ep_id 不是数字")),
                NumberCapture::Missing => Route::Found(VideoType::AVID(avid)),
            }
        } else {
            Route::Found(VideoType::AVID(avid))
        },
        None => Route::Found(VideoType::AVID(avid)),
    }
}

/// The initial-state document embedded in a page, if any.
pub fn page_state(page: &str) -> (r: Option<String>)
    ensures
        r matches Some(g) ==> regex_group(
            r"window.__INITIAL_STATE__=([\s\S].*?);\(function\(\)"@,
            page@,
            1,
        ) == Some(g@),
        r is None ==> regex_group(
            r"window.__INITIAL_STATE__=([\s\S].*?);\(function\(\)"@,
            page@,
            1,
        ) is None,
{
    capture(r"window.__INITIAL_STATE__=([\s\S].*?);\(function\(\)", page, 1)
}

/// A page address, once its page was read: the first episode the page
/// lists; with none, the input's prefix decides.
pub fn page_route(input: &str, first_episode: Option<i64>) -> (r: Route)
    ensures
        r@ == match first_episode {
            Some(id) => RouteView::Found(VideoTypeView::Episode(id)),
            None => id_route(input@),
        },
{
    match first_episode {
        Some(id) => Route::Found(VideoType::EPID(id)),
        None => id_route_exec(input),
    }
}

/// What a season or media lookup resolves to, given the episode it found:
/// a course episode for a course season, an episode otherwise; none for a
/// route that needs no lookup.
pub fn looked_up(route: &Route, episode: i64) -> (r: Option<VideoType>)
    ensures
        route is CourseSeason ==> (r matches Some(t) && t@ == VideoTypeView::Course(episode)),
        route is BangumiSeason || route is MediaEpisode ==> (r matches Some(t) && t@
            == VideoTypeView::Episode(episode)),
        !(route is CourseSeason || route is BangumiSeason || route is MediaEpisode) ==> r is None,
{
    match route {
        Route::CourseSeason(_) => Some(VideoType::CHEESE(episode)),
        Route::BangumiSeason(_) => Some(VideoType::EPID(episode)),
        Route::MediaEpisode(_) => Some(VideoType::EPID(episode)),
        _ => None,
    }
}

/// Whether a video's redirect address leads to a bangumi page, and the
/// episode id it then names (group 1 of `ep(\d+)`), if any.
pub fn bangumi_redirect(redirect_url: &str) -> (r: (bool, Option<String>))
    ensures
        r.0 == has_infix(redirect_url@, "bangumi"@),
        !r.0 ==> r.1 is None,
        r.0 ==> (r.1 matches Some(e) ==> regex_group(r"ep(\d+)"@, redirect_url@, 1) == Some(e@)),
        r.0 ==> (r.1 is None ==> regex_group(r"ep(\d+)"@, redirect_url@, 1) is None),
{
    if contains_str(redirect_url, "bangumi") {
        (true, capture(r"ep(\d+)", redirect_url, 1))
    } else {
        (false, None)
    }
}

} // verus!
