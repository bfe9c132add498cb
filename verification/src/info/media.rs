//! Duration, bitrate and cover art of a media source.

use vstd::prelude::*;

verus! {

/// Facts about a media source, filled in when it is opened.
#[derive(Debug)]
pub struct MediaInfo {
    /// Length in milliseconds.
    pub duration: i64,
    /// Bits per second.
    pub bitrate: i64,
    /// The embedded cover picture, if the source carries one.
    pub cover: Option<Vec<u8>>,
}

/// A `MediaInfo` as contracts see it: the cover is a sequence of bytes.
pub struct MediaInfoView {
    /// Length in milliseconds.
    pub duration: i64,
    /// Bits per second.
    pub bitrate: i64,
    /// The embedded cover picture, if the source carries one.
    pub cover: Option<Seq<u8>>,
}

impl View for MediaInfo {
    type V = MediaInfoView;

    open spec fn view(&self) -> MediaInfoView {
        MediaInfoView {
            duration: self.duration,
            bitrate: self.bitrate,
            cover: match self.cover {
                Some(bytes) => Some(bytes@),
                None => None,
            },
        }
    }
}

impl Default for MediaInfo {
    /// No duration, no bitrate, no cover.
    fn default() -> (info: Self)
        ensures
            info@ == (MediaInfoView { duration: 0, bitrate: 0, cover: None }),
    {
        MediaInfo { duration: 0, bitrate: 0, cover: None }
    }
}

} // verus!
