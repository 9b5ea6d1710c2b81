//! The kinds of content an input can name.

use vstd::prelude::*;

verus! {

/// What an input names.
#[allow(non_camel_case_types)]
#[derive(Clone, Debug, PartialEq, Eq)]
pub enum VideoType {
    /// A video, by its numeric id.
    AVID(i64),
    /// A course episode, by its episode id.
    CHEESE(i64),
    /// An episode of a season, by its episode id.
    EPID(i64),
    /// A collection list.
    LISTBIZID(String),
    /// A series list.
    SERIESBIZID(String),
    /// A user's uploads.
    MID(String),
    /// A user's favourites folder.
    FAVID { fid: String, mid: String },
}

/// What an input names, as text.
pub enum VideoTypeView {
    Video(i64),
    Course(i64),
    Episode(i64),
    Collection(Seq<char>),
    Series(Seq<char>),
    Uploader(Seq<char>),
    Favourites { fid: Seq<char>, mid: Seq<char> },
}

impl View for VideoType {
    type V = VideoTypeView;

    open spec fn view(&self) -> VideoTypeView {
        match self {
            VideoType::AVID(v) => VideoTypeView::Video(*v),
            VideoType::CHEESE(v) => VideoTypeView::Course(*v),
            VideoType::EPID(v) => VideoTypeView::Episode(*v),
            VideoType::LISTBIZID(s) => VideoTypeView::Collection(s@),
            VideoType::SERIESBIZID(s) => VideoTypeView::Series(s@),
            VideoType::MID(s) => VideoTypeView::Uploader(s@),
            VideoType::FAVID { fid, mid } => VideoTypeView::Favourites { fid: fid@, mid: mid@ },
        }
    }
}

impl VideoType {
    /// Whether the downloader handles this kind of input: single videos and
    /// season episodes.
    pub fn is_downloadable(&self) -> (r: bool)
        ensures
            r == (self is AVID || self is EPID),
    {
        match self {
            VideoType::AVID(_) => true,
            VideoType::EPID(_) => true,
            _ => false,
        }
    }
}

} // verus!
