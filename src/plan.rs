//! The files and transfers of one content item.

use crate::media::VideoMedia;
use crate::merge::merge_inputs;
use crate::session::{texts, TransferSpec};
use crate::text::{int_digits, push_char, push_i64, push_str};
use vstd::prelude::*;

verus! {

/// Characters that common file systems do not accept in a file name.
pub open spec fn is_reserved(c: char) -> bool {
    c == '<' || c == '>' || c == ':' || c == '"' || c == '/' || c == '\\' || c == '|' || c
        == '?' || c == '*'
}

/// A title with each reserved character replaced by `_`.
pub open spec fn sanitized(title: Seq<char>) -> Seq<char> {
    title.map_values(|c: char|
        if is_reserved(c) {
            '_'
        } else {
            c
        })
}

/// A file name made from a title: each of `< > : " / \ | ? *` becomes `_`.
pub fn file_title(title: &str) -> (r: String)
    ensures
        r@ == sanitized(title@),
{
    let mut r = String::new();
    for c in it: title.chars()
        invariant
            it.seq() == title@,
            r@ == sanitized(title@.take(it.index() as int)),
    {
        let d = if c == '<' || c == '>' || c == ':' || c == '"' || c == '/' || c == '\\' || c
            == '|' || c == '?' || c == '*' {
            '_'
        } else {
            c
        };
        push_char(&mut r, d);
        proof {
            assert(title@.take(it.index() + 1) =~= title@.take(it.index() as int).push(c));
            assert(sanitized(title@.take(it.index() + 1)) =~= sanitized(
                title@.take(it.index() as int),
            ).push(d));
        }
    }
    proof {
        assert(title@.take(title@.len() as int) =~= title@);
    }
    r
}

/// The name of an item's output file.
pub open spec fn output_name(title: Seq<char>) -> Seq<char> {
    sanitized(title) + ".mp4"@
}

/// The name of an item's intermediate file for the stream of kind `kind`
/// (`video` or `audio`) with quality identifier `id`.
pub open spec fn stream_name(title: Seq<char>, kind: Seq<char>, id: i64) -> Seq<char> {
    sanitized(title) + seq!['.'] + kind + seq!['.'] + int_digits(id as int)
}

/// The name of an item's output file: the sanitized title and `.mp4`.
pub fn output_file_name(title: &str) -> (r: String)
    ensures
        r@ == output_name(title@),
{
    let mut r = file_title(title);
    push_str(&mut r, ".mp4");
    r
}

fn stream_file_name(title: &str, kind: &str, id: i64) -> (r: String)
    ensures
        r@ == stream_name(title@, kind@, id),
{
    let mut r = file_title(title);
    push_char(&mut r, '.');
    push_str(&mut r, kind);
    push_char(&mut r, '.');
    push_i64(&mut r, id);
    proof {
        assert(r@ =~= stream_name(title@, kind@, id));
    }
    r
}

/// The files and transfers of one item.
pub struct ItemPlan {
    /// The merged output.
    pub output_file: String,
    /// The intermediate file of the video stream.
    pub video_file: String,
    /// The intermediate file of the audio stream.
    pub audio_file: String,
    /// The session's transfers: the audio stream, then the video stream.
    pub transfers: Vec<TransferSpec>,
    /// The merge's inputs: the video file, then the audio file.
    pub merge_inputs: Vec<String>,
}

/// The label of the audio transfer on the progress display.
pub open spec fn audio_label() -> Seq<char> {
    "音频"@
}

/// The label of the video transfer on the progress display.
pub open spec fn video_label() -> Seq<char> {
    "视频"@
}

/// Lays out an item titled `title` whose chosen streams are `video` and
/// `audio`.
pub fn plan_item(title: &str, video: &VideoMedia, audio: &VideoMedia) -> (p: ItemPlan)
    ensures
        p.output_file@ == output_name(title@),
        p.video_file@ == stream_name(title@, "video"@, video.id),
        p.audio_file@ == stream_name(title@, "audio"@, audio.id),
        p.transfers@.len() == 2,
        p.transfers@[0].file_path@ == p.audio_file@,
        p.transfers@[0].url@ == audio.base_url@,
        p.transfers@[0].label@ == audio_label(),
        p.transfers@[1].file_path@ == p.video_file@,
        p.transfers@[1].url@ == video.base_url@,
        p.transfers@[1].label@ == video_label(),
        texts(p.merge_inputs@) == seq![p.video_file@, p.audio_file@],
{
    let output_file = output_file_name(title);
    let video_file = stream_file_name(title, "video", video.id);
    let audio_file = stream_file_name(title, "audio", audio.id);
    let mut audio_label_text = String::new();
    push_str(&mut audio_label_text, "音频");
    let mut video_label_text = String::new();
    push_str(&mut video_label_text, "视频");
    let mut transfers: Vec<TransferSpec> = Vec::new();
    transfers.push(
        TransferSpec {
            label: audio_label_text,
            url: audio.base_url.clone(),
            file_path: audio_file.clone(),
        },
    );
    transfers.push(
        TransferSpec {
            label: video_label_text,
            url: video.base_url.clone(),
            file_path: video_file.clone(),
        },
    );
    let inputs = merge_inputs(&video_file, &audio_file);
    ItemPlan { output_file, video_file, audio_file, transfers, merge_inputs: inputs }
}

} // verus!
