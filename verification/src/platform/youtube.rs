//! The long-tail platform: its addresses are handed on as they are, and the
//! downloading tool does the extraction.

use crate::platform::{ResolvedVod, VodResolver};
use crate::text::{chars_of, contains, has_substring};
use vstd::prelude::*;

verus! {

/// Hands the addresses of the long-tail platform on as they are.
#[derive(Debug, Clone, Copy, PartialEq, Eq)]
pub struct YoutubeResolver {}

/// Whether an address belongs to the long-tail platform: it holds one of
/// the platform's two domains.
pub open spec fn is_youtube(url: Seq<char>) -> bool {
    contains(url, "youtube.com"@) || contains(url, "youtu.be"@)
}

impl YoutubeResolver {
    pub fn new() -> Self {
        YoutubeResolver {  }
    }

    /// Whether an address belongs to the platform.
    pub fn is_youtube_url(url: &str) -> (b: bool)
        ensures
            b == is_youtube(url@),
    {
        let v = chars_of(url);
        has_substring(&v, &chars_of("youtube.com")) || has_substring(&v, &chars_of("youtu.be"))
    }

    /// The address itself, not as a playlist.
    pub fn resolve(&self, url: &str) -> (vod: ResolvedVod)
        ensures
            vod.url@ == url@,
            !vod.is_hls,
    {
        ResolvedVod { url: url.to_owned(), is_hls: false }
    }
}

impl VodResolver for YoutubeResolver {
    open spec fn claims(&self, url: Seq<char>) -> bool {
        is_youtube(url)
    }

    fn can_handle(&self, url: &str) -> (b: bool) {
        YoutubeResolver::is_youtube_url(url)
    }
}

impl Default for YoutubeResolver {
    fn default() -> Self {
        YoutubeResolver::new()
    }
}

} // verus!
