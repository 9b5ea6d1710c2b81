//! Descriptions of videos, episodes and their media streams.

use crate::resolve::{bangumi_redirect, regex_group};
use crate::text::{has_infix, int_digits, push_char, push_i64};
use vstd::prelude::*;

verus! {

/// The uploader of a video.
#[derive(Clone, Debug, Default, PartialEq, Eq)]
pub struct VideoInfoOwner {
    pub mid: i64,
    pub name: String,
}

/// The frame size of a video.
#[derive(Clone, Copy, Debug, Default, PartialEq, Eq, Structural)]
pub struct VideoDimension {
    pub width: i64,
    pub height: i64,
}

impl VideoDimension {
    /// The frame size written as `<width>x<height>`.
    pub fn resolution(&self) -> (r: String)
        ensures
            r@ == int_digits(self.width as int) + seq!['x'] + int_digits(self.height as int),
    {
        let mut r = String::new();
        push_i64(&mut r, self.width);
        push_char(&mut r, 'x');
        push_i64(&mut r, self.height);
        r
    }
}

/// One part of a video.
#[derive(Clone, Debug, Default, PartialEq, Eq)]
pub struct VideoPage {
    pub page: i64,
    pub aid: i64,
    pub cid: i64,
    pub epid: String,
    pub part: String,
    pub duration: i64,
    pub dimension: VideoDimension,
    pub pubdate: i64,
    pub cover: String,
    pub desc: String,
    pub owner: VideoInfoOwner,
}

/// A video and its parts.
#[derive(Clone, Debug, Default, PartialEq, Eq)]
pub struct VideoInfo {
    pub bvid: String,
    pub cid: i64,
    pub title: String,
    pub desc: String,
    pub pic: String,
    pub owner: VideoInfoOwner,
    pub pubdate: i64,
    pub is_bangumi: bool,
    pub is_cheese: bool,
    pub is_bangumi_end: bool,
    pub index: i64,
    pub pages: Vec<VideoPage>,
    pub is_stein_gate: i64,
}

/// One media stream of a video: its quality identifier and where it is
/// served.
#[derive(Clone, Debug, Default, PartialEq, Eq)]
pub struct VideoMedia {
    pub id: i64,
    pub base_url: String,
    pub backup_url: Vec<String>,
    pub bandwidth: i64,
    pub mime_type: String,
    pub codecs: String,
    pub width: i64,
    pub height: i64,
    pub frame_rate: String,
    pub sar: String,
    pub start_with_sap: i64,
    pub codecid: i64,
}

/// A season of episodes.
#[derive(Clone, Debug, Default, PartialEq, Eq)]
pub struct EpInfo {
    pub actors: String,
    pub alias: String,
    pub cover: String,
    pub delivery_fragment_video: bool,
    pub enable_vt: bool,
    pub evaluate: String,
    pub record: String,
    pub episodes: Vec<EpisodeInfo>,
    pub season_id: i64,
    pub season_title: String,
    pub seasons: Vec<SeasonInfo>,
}

/// One episode of a season.
#[derive(Clone, Debug, Default, PartialEq, Eq)]
pub struct EpisodeInfo {
    pub aid: i64,
    pub badge: String,
    pub bvid: String,
    pub cid: i64,
    pub cover: String,
    pub dimension: VideoDimension,
    pub duration: i64,
    pub enable_vt: bool,
    pub ep_id: i64,
    pub from: String,
    pub id: i64,
    pub long_title: String,
    pub pub_time: i64,
    pub pv: i64,
    pub section_type: i64,
    pub share_copy: String,
    pub share_url: String,
    pub short_link: String,
    pub show_title: String,
    pub title: String,
}

/// A related season.
#[derive(Clone, Debug, Default, PartialEq, Eq)]
pub struct SeasonInfo {
    pub season_id: i64,
    pub season_title: String,
    pub season_type: i64,
    pub media_id: i64,
}

/// The video stream to download, among streams listed best first: with a
/// preferred quality, the first stream whose quality identifier does not
/// exceed it; otherwise, or when there is none such, the first stream;
/// none when the list is empty.
pub fn select_video(video: &Vec<VideoMedia>, quality: Option<i64>) -> (r: Option<usize>)
    ensures
        video@.len() == 0 <==> r is None,
        r matches Some(i) ==> i < video@.len(),
        r matches Some(i) ==> match quality {
            Some(q) => if exists|k: int| 0 <= k < video@.len() && video@[k].id <= q {
                video@[i as int].id <= q && forall|j: int| 0 <= j < i ==> video@[j].id > q
            } else {
                i == 0
            },
            None => i == 0,
        },
{
    if video.len() == 0 {
        return None;
    }
    match quality {
        None => Some(0),
        Some(q) => {
            let mut i: usize = 0;
            while i < video.len()
                invariant
                    i <= video.len(),
                    quality == Some(q),
                    forall|j: int| 0 <= j < i ==> video@[j].id > q,
                decreases video.len() - i,
            {
                if video[i].id <= q {
                    assert(video@[i as int].id <= q);
                    return Some(i);
                }
                i = i + 1;
            }
            Some(0)
        },
    }
}

/// The audio stream to download: the first listed, none when there is none.
pub fn select_audio(audio: &Vec<VideoMedia>) -> (r: Option<usize>)
    ensures
        r == (if audio@.len() == 0 {
            None
        } else {
            Some(0usize)
        }),
{
    if audio.len() == 0 {
        None
    } else {
        Some(0)
    }
}

/// What `str::trim` returns for `s`.
pub uninterp spec fn trimmed(s: Seq<char>) -> Seq<char>;

/// Relies on `str::trim`: the text without its leading and trailing
/// whitespace.
#[verifier::external_body]
fn trim(s: &str) -> (r: String)
    ensures
        r@ == trimmed(s@),
{
    s.trim().to_string()
}

/// What the service reports of one part of a video.
pub struct PageFields {
    pub page: i64,
    pub cid: i64,
    pub part: String,
    pub duration: i64,
    pub dimension: VideoDimension,
}

/// What the service reports of a video.
pub struct VideoFields {
    pub bvid: String,
    pub cid: i64,
    pub title: String,
    pub desc: String,
    pub pic: String,
    pub pubdate: i64,
    pub owner: VideoInfoOwner,
    /// The interactive-video flag, when reported.
    pub is_stein_gate: Option<i64>,
    /// Where the video's page redirects, when it does.
    pub redirect_url: Option<String>,
    pub pages: Vec<PageFields>,
}

/// Whether a video's reported redirect leads to a bangumi page.
pub open spec fn redirects_to_bangumi(redirect_url: Option<String>) -> bool {
    redirect_url matches Some(u) && has_infix(u@, "bangumi"@)
}

/// The episode id that a video's part carries: the one its bangumi
/// redirect names (`ep<digits>`), for a video of exactly one part.
pub open spec fn page_epid(f: VideoFields) -> Seq<char> {
    if f.pages@.len() == 1 && redirects_to_bangumi(f.redirect_url) {
        match regex_group(r"ep(\d+)"@, f.redirect_url->Some_0@, 1) {
            Some(e) => e,
            None => Seq::empty(),
        }
    } else {
        Seq::empty()
    }
}

/// The part `p` of video `aid`, in the form the library keeps.
pub open spec fn page_matches(r: VideoPage, p: PageFields, aid: i64, f: VideoFields) -> bool {
    &&& r.page == p.page
    &&& r.aid == aid
    &&& r.cid == p.cid
    &&& r.epid@ == page_epid(f)
    &&& r.part@ == trimmed(p.part@)
    &&& r.duration == p.duration
    &&& r.dimension == p.dimension
    &&& r.pubdate == f.pubdate
    &&& r.cover@.len() == 0
    &&& r.desc@.len() == 0
    &&& r.owner.mid == f.owner.mid
    &&& r.owner.name@ == f.owner.name@
}

fn copy_owner(o: &VideoInfoOwner) -> (r: VideoInfoOwner)
    ensures
        r.mid == o.mid,
        r.name@ == o.name@,
{
    VideoInfoOwner { mid: o.mid, name: o.name.clone() }
}

/// A video in the form the library keeps, from what the service reports of
/// video `aid`: titles and descriptions trimmed, each part with the video's
/// owner and publication time, a missing interactive flag as 0, and the
/// bangumi flag and episode id taken from the redirect.
pub fn video_info(aid: i64, f: VideoFields) -> (r: VideoInfo)
    ensures
        r.bvid@ == f.bvid@,
        r.cid == f.cid,
        r.title@ == trimmed(f.title@),
        r.desc@ == trimmed(f.desc@),
        r.pic@ == f.pic@,
        r.owner.mid == f.owner.mid,
        r.owner.name@ == f.owner.name@,
        r.pubdate == f.pubdate,
        r.is_bangumi == redirects_to_bangumi(f.redirect_url),
        !r.is_cheese,
        !r.is_bangumi_end,
        r.index == 0,
        r.is_stein_gate == match f.is_stein_gate {
            Some(v) => v,
            None => 0,
        },
        r.pages@.len() == f.pages@.len(),
        forall|i: int| 0 <= i < f.pages@.len() ==> page_matches(r.pages@[i], f.pages@[i], aid, f),
{
    let (is_bangumi, epid) = match &f.redirect_url {
        Some(u) => bangumi_redirect(u.as_str()),
        None => (false, None),
    };
    let single = f.pages.len() == 1;
    let mut pages: Vec<VideoPage> = Vec::new();
    let mut i: usize = 0;
    while i < f.pages.len()
        invariant
            i <= f.pages@.len(),
            pages@.len() == i,
            single == (f.pages@.len() == 1),
            is_bangumi == redirects_to_bangumi(f.redirect_url),
            is_bangumi ==> (epid matches Some(e) ==> regex_group(
                r"ep(\d+)"@,
                f.redirect_url->Some_0@,
                1,
            ) == Some(e@)),
            is_bangumi ==> (epid is None ==> regex_group(
                r"ep(\d+)"@,
                f.redirect_url->Some_0@,
                1,
            ) is None),
            forall|j: int| 0 <= j < i ==> page_matches(pages@[j], f.pages@[j], aid, f),
        decreases f.pages@.len() - i,
    {
        let p = &f.pages[i];
        let page_epid_text = if single && is_bangumi {
            match &epid {
                Some(e) => e.clone(),
                None => String::new(),
            }
        } else {
            String::new()
        };
        pages.push(
            VideoPage {
                page: p.page,
                aid,
                cid: p.cid,
                epid: page_epid_text,
                part: trim(p.part.as_str()),
                duration: p.duration,
                dimension: p.dimension,
                pubdate: f.pubdate,
                cover: String::new(),
                desc: String::new(),
                owner: copy_owner(&f.owner),
            },
        );
        i = i + 1;
    }
    VideoInfo {
        bvid: f.bvid.clone(),
        cid: f.cid,
        title: trim(f.title.as_str()),
        desc: trim(f.desc.as_str()),
        pic: f.pic.clone(),
        owner: copy_owner(&f.owner),
        pubdate: f.pubdate,
        is_bangumi,
        is_cheese: false,
        is_bangumi_end: false,
        index: 0,
        pages,
        is_stein_gate: match f.is_stein_gate {
            Some(v) => v,
            None => 0,
        },
    }
}

} // verus!
