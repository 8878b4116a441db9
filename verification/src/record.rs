//! The record model: one found video, every field a display string that
//! defaults to empty rather than being absent.

use vstd::prelude::*;

verus! {

/// Mathematical model of a [`YoutubeVideoInfo`]: each field as a character
/// sequence.
pub struct VideoInfoModel {
    pub id: Seq<char>,
    pub title: Seq<char>,
    pub channel: Seq<char>,
    pub duration: Seq<char>,
    pub avatar: Seq<char>,
    pub url: Seq<char>,
    pub thumbnail: Seq<char>,
    pub viewers: Seq<char>,
}

/// One found video. Every field defaults to the empty string rather than
/// being absent, so the record is total and rendering needs no null checks.
#[derive(Debug)]
pub struct YoutubeVideoInfo {
    pub id: String,
    pub title: String,
    pub channel: String,
    pub duration: String,
    pub avatar: String,
    pub url: String,
    pub thumbnail: String,
    pub viewers: String,
}

impl View for YoutubeVideoInfo {
    type V = VideoInfoModel;

    open spec fn view(&self) -> VideoInfoModel {
        VideoInfoModel {
            id: self.id@,
            title: self.title@,
            channel: self.channel@,
            duration: self.duration@,
            avatar: self.avatar@,
            url: self.url@,
            thumbnail: self.thumbnail@,
            viewers: self.viewers@,
        }
    }
}

/// The models of a sequence of records, element by element.
pub open spec fn views_of(s: Seq<YoutubeVideoInfo>) -> Seq<VideoInfoModel> {
    s.map_values(|rec: YoutubeVideoInfo| rec@)
}

/// The all-empty record.
pub open spec fn empty_record_model() -> VideoInfoModel {
    VideoInfoModel {
        id: Seq::empty(),
        title: Seq::empty(),
        channel: Seq::empty(),
        duration: Seq::empty(),
        avatar: Seq::empty(),
        url: Seq::empty(),
        thumbnail: Seq::empty(),
        viewers: Seq::empty(),
    }
}

impl Default for YoutubeVideoInfo {
    /// The placeholder record: every field empty.
    fn default() -> (r: Self)
        ensures
            r@ == empty_record_model(),
    {
        YoutubeVideoInfo {
            id: String::new(),
            title: String::new(),
            channel: String::new(),
            duration: String::new(),
            avatar: String::new(),
            url: String::new(),
            thumbnail: String::new(),
            viewers: String::new(),
        }
    }
}

} // verus!
