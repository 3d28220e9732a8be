//! The restricted platform: the identifier of a VOD is read from its
//! address, the platform's metadata give the place of its files, and the
//! quality variants are found by trial.

use crate::error::PlatformError;
use crate::outside::{captures, parse_host_and_path, regex_captures, url_host_and_path};
use crate::platform::VodResolver;
use crate::text::{
    append_str, chars_of, contains, has_substring, lowercase, rows, split,
    same_text, split_chars, string_of, to_lowercase,
};
use vstd::prelude::*;

verus! {

/// The client identifier that the metadata endpoint asks for.
pub const CLIENT_ID: &'static str = "kimne78kx3ncx6brgo4mv6wki5h1ko";

/// The metadata endpoint.
pub const GQL_URL: &'static str = "https://gql.twitch.tv/gql";

/// The place of the identifier in an address.
pub const VOD_PATTERN: &'static str = "twitch\\.tv/videos?/(\\d+)";

/// What the platform tells of a VOD.
#[derive(Debug, Clone, PartialEq, Eq)]
pub struct VodMetadata {
    pub broadcast_type: String,
    pub seek_previews_url: Option<String>,
}

/// Resolves the addresses of the restricted platform.
#[derive(Debug, Clone, Copy, PartialEq, Eq)]
pub struct TwitchResolver {}

/// The quality variants, best first.
pub open spec fn quality_names() -> Seq<Seq<char>> {
    seq!["chunked"@, "1080p60"@, "720p60"@, "480p30"@, "360p30"@]
}

/// The identifier in the groups of a match of the address pattern: group 1.
pub open spec fn vod_id_in(groups: Option<Seq<Option<Seq<char>>>>) -> Option<Seq<char>> {
    match groups {
        Some(g) => if g.len() > 1 {
            g[1]
        } else {
            None
        },
        None => None,
    }
}

/// The identifier of the VOD that an address names, if it names one.
pub open spec fn vod_id_of(url: Seq<char>) -> Option<Seq<char>> {
    vod_id_in(regex_captures(VOD_PATTERN@, url))
}

/// The query that asks the metadata endpoint for a VOD.
pub open spec fn metadata_query(vod_id: Seq<char>) -> Seq<char> {
    "query { video(id: \""@ + vod_id + "\") { broadcastType, seekPreviewsURL } }"@
}

/// The address of the playlist of one quality variant. A highlight has a
/// playlist of its own name; every other broadcast has the common one.
pub open spec fn playlist_url(
    domain: Seq<char>,
    vod_special_id: Seq<char>,
    vod_id: Seq<char>,
    quality: Seq<char>,
    highlight: bool,
) -> Seq<char> {
    "https://"@ + domain + "/"@ + vod_special_id + "/"@ + quality + if highlight {
        "/highlight-"@ + vod_id + ".m3u8"@
    } else {
        "/index-dvr.m3u8"@
    }
}

/// Whether a broadcast type names a highlight, whatever the case of its
/// letters.
pub open spec fn is_highlight(broadcast_type: Seq<char>) -> bool {
    lowercase(broadcast_type) == "highlight"@
}

/// The first position at or after `from` whose segment holds `needle`, or
/// the number of segments where none does.
pub open spec fn first_holding(segments: Seq<Seq<char>>, needle: Seq<char>, from: int) -> int
    decreases segments.len() - from,
{
    if from < 0 || from >= segments.len() {
        segments.len() as int
    } else if contains(segments[from], needle) {
        from
    } else {
        first_holding(segments, needle, from + 1)
    }
}

/// Where the files of a VOD are: the domain, and the segment of the path
/// that names the VOD.
pub struct SeekPlace {
    pub domain: Seq<char>,
    pub vod_special_id: Seq<char>,
}

/// The place that a seek-preview address gives, from its host and its path:
/// the domain is the host, and the VOD is named by the path segment just
/// before the first one that holds `storyboards`. An address that cannot be
/// read, has no host, or has no such segment gives the message of its error.
pub open spec fn seek_place(parsed: Option<(Option<Seq<char>>, Seq<char>)>) -> Result<
    SeekPlace,
    Seq<char>,
> {
    match parsed {
        None => Err("Invalid seek URL"@),
        Some((None, _)) => Err("No domain in URL"@),
        Some((Some(host), path)) => {
            let segments = split(path, '/');
            let at = first_holding(segments, "storyboards"@, 0);
            if at >= segments.len() {
                Err("Could not find storyboards"@)
            } else if at == 0 {
                Err("Could not extract VOD special ID"@)
            } else {
                Ok(SeekPlace { domain: host, vod_special_id: segments[at - 1] })
            }
        },
    }
}

impl TwitchResolver {
    pub fn new() -> Self {
        TwitchResolver {  }
    }

    /// The identifier in the groups of a match of the address pattern.
    pub fn vod_id_from(groups: &Option<Vec<Option<String>>>) -> (r: Option<String>)
        ensures
            r.deep_view() == vod_id_in(groups.deep_view()),
    {
        match groups {
            Some(g) => {
                if g.len() > 1 {
                    g[1].clone()
                } else {
                    None
                }
            },
            None => None,
        }
    }

    /// The identifier of the VOD that an address names, if it names one.
    pub fn extract_vod_id(url: &str) -> (r: Option<String>)
        ensures
            r.deep_view() == vod_id_of(url@),
    {
        let groups = captures(VOD_PATTERN, url);
        TwitchResolver::vod_id_from(&groups)
    }

    /// The query that asks the metadata endpoint for a VOD.
    pub fn build_query(vod_id: &str) -> (r: String)
        ensures
            r@ == metadata_query(vod_id@),
    {
        let mut v = chars_of("query { video(id: \"");
        append_str(&mut v, vod_id);
        append_str(&mut v, "\") { broadcastType, seekPreviewsURL } }");
        string_of(&v)
    }

    /// The address of the playlist of one quality variant.
    pub fn playlist_for(
        domain: &str,
        vod_special_id: &str,
        vod_id: &str,
        quality: &str,
        highlight: bool,
    ) -> (r: String)
        ensures
            r@ == playlist_url(domain@, vod_special_id@, vod_id@, quality@, highlight),
    {
        let mut v = chars_of("https://");
        append_str(&mut v, domain);
        append_str(&mut v, "/");
        append_str(&mut v, vod_special_id);
        append_str(&mut v, "/");
        append_str(&mut v, quality);
        if highlight {
            append_str(&mut v, "/highlight-");
            append_str(&mut v, vod_id);
            append_str(&mut v, ".m3u8");
        } else {
            append_str(&mut v, "/index-dvr.m3u8");
        }
        assert(v@ =~= playlist_url(domain@, vod_special_id@, vod_id@, quality@, highlight));
        string_of(&v)
    }

    /// The address of the playlist of one quality variant of a VOD with the
    /// given metadata.
    pub fn build_playlist_url(
        &self,
        domain: &str,
        vod_special_id: &str,
        vod_id: &str,
        quality: &str,
        metadata: &VodMetadata,
    ) -> (r: String)
        ensures
            r@ == playlist_url(
                domain@,
                vod_special_id@,
                vod_id@,
                quality@,
                is_highlight(metadata.broadcast_type@),
            ),
    {
        let lower = to_lowercase(metadata.broadcast_type.as_str());
        let highlight = same_text(&chars_of(lower.as_str()), &chars_of("highlight"));
        TwitchResolver::playlist_for(domain, vod_special_id, vod_id, quality, highlight)
    }

    /// The place that a seek-preview address gives, from its host and its
    /// path as the URL parser read them.
    pub fn locate(parsed: &Option<(Option<String>, String)>) -> (r: Result<
        (String, String),
        PlatformError,
    >)
        ensures
            match r {
                Ok((domain, id)) => seek_place(parsed.deep_view()) == Ok::<SeekPlace, Seq<char>>(
                    SeekPlace { domain: domain@, vod_special_id: id@ },
                ),
                Err(e) => seek_place(parsed.deep_view()) matches Err(m) && e@
                    == crate::error::PlatformErrorView::ParseError(m),
            },
    {
        match parsed {
            None => Err(PlatformError::ParseError("Invalid seek URL".to_owned())),
            Some((None, _)) => Err(PlatformError::ParseError("No domain in URL".to_owned())),
            Some((Some(host), path)) => {
                let segments = split_chars(&chars_of(path.as_str()), '/');
                let needle = chars_of("storyboards");
                let mut at: usize = 0;
                while at < segments.len() && !has_substring(&segments[at], &needle)
                    invariant
                        at <= segments.len(),
                        needle@ == "storyboards"@,
                        first_holding(rows(segments@), needle@, 0) == first_holding(
                            rows(segments@),
                            needle@,
                            at as int,
                        ),
                    decreases segments.len() - at,
                {
                    assert(rows(segments@)[at as int] == segments@[at as int]@);
                    at += 1;
                }
                if at < segments.len() {
                    assert(rows(segments@)[at as int] == segments@[at as int]@);
                }
                if at >= segments.len() {
                    Err(PlatformError::ParseError("Could not find storyboards".to_owned()))
                } else if at == 0 {
                    Err(PlatformError::ParseError("Could not extract VOD special ID".to_owned()))
                } else {
                    assert(rows(segments@)[at - 1] == segments@[at - 1]@);
                    Ok((host.clone(), string_of(&segments[at - 1])))
                }
            },
        }
    }

    /// The place that a seek-preview address gives.
    pub fn parse_seek_url(seek_url: &str) -> (r: Result<(String, String), PlatformError>)
        ensures
            match r {
                Ok((domain, id)) => seek_place(url_host_and_path(seek_url@)) == Ok::<
                    SeekPlace,
                    Seq<char>,
                >(SeekPlace { domain: domain@, vod_special_id: id@ }),
                Err(e) => seek_place(url_host_and_path(seek_url@)) matches Err(m) && e@
                    == crate::error::PlatformErrorView::ParseError(m),
            },
    {
        let parsed = parse_host_and_path(seek_url);
        TwitchResolver::locate(&parsed)
    }
}

impl VodResolver for TwitchResolver {
    open spec fn claims(&self, url: Seq<char>) -> bool {
        contains(url, "twitch.tv/video"@)
    }

    fn can_handle(&self, url: &str) -> (b: bool) {
        has_substring(&chars_of(url), &chars_of("twitch.tv/video"))
    }
}

impl Default for TwitchResolver {
    fn default() -> Self {
        TwitchResolver::new()
    }
}

} // verus!
