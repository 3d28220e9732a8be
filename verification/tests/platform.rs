use nox::error::PlatformError;
use nox::platform::twitch::VodMetadata;
use nox::platform::{
    MetadataReply, Resolution, ResolveAction, ResolvedVod, TwitchResolver, VodResolver,
    VodResolverChain, YoutubeResolver,
};

fn found(broadcast_type: &str, seek: Option<&str>) -> MetadataReply {
    MetadataReply::Found(VodMetadata {
        broadcast_type: broadcast_type.to_string(),
        seek_previews_url: seek.map(|s| s.to_string()),
    })
}

/// Runs a resolution against a platform that gives `reply` for the metadata
/// and on which exactly the addresses in `existing` exist.
fn run(url: &str, reply: MetadataReply, existing: &[&str]) -> (Result<ResolvedVod, PlatformError>, Vec<String>) {
    let chain = VodResolverChain::new();
    let (mut state, mut action) = chain.resolve(url);
    let mut probed = Vec::new();
    loop {
        let (next_state, next_action) = match action {
            ResolveAction::Finish(result) => return (result, probed),
            ResolveAction::FetchMetadata { .. } => {
                assert!(matches!(state, Resolution::AwaitingMetadata { .. }));
                state.on_metadata(reply.clone())
            }
            ResolveAction::Probe { url } => {
                assert!(matches!(state, Resolution::Probing { .. }));
                let exists = existing.contains(&url.as_str());
                probed.push(url);
                state.on_probe(exists)
            }
        };
        state = next_state;
        action = next_action;
    }
}

const SEEK: &str = "https://d2nvs31859zcd8.cloudfront.net/abc123_streamer_42_1700000000/storyboards/123456789-strip-0.jpg";

#[test]
fn test_extract_vod_id() {
    assert_eq!(
        TwitchResolver::extract_vod_id("https://www.twitch.tv/videos/123456789"),
        Some("123456789".to_string())
    );
    assert_eq!(
        TwitchResolver::extract_vod_id("https://twitch.tv/video/987654"),
        Some("987654".to_string())
    );
    assert_eq!(
        TwitchResolver::extract_vod_id("https://youtube.com/watch?v=abc"),
        None
    );
}

#[test]
fn twitch_test_can_handle() {
    let resolver = TwitchResolver::new();
    assert!(resolver.can_handle("https://twitch.tv/videos/123"));
    assert!(!resolver.can_handle("https://youtube.com/watch?v=abc"));
}

#[test]
fn youtube_test_can_handle() {
    let resolver = YoutubeResolver::new();

    assert!(resolver.can_handle("https://www.youtube.com/watch?v=abc123"));
    assert!(resolver.can_handle("https://youtu.be/abc123"));
    assert!(!resolver.can_handle("https://twitch.tv/videos/123"));
}

#[test]
fn vod_id_is_the_first_run_of_digits_after_the_video_path() {
    assert_eq!(
        TwitchResolver::extract_vod_id("https://twitch.tv/video/42?t=1h2m"),
        Some("42".to_string())
    );
    assert_eq!(TwitchResolver::extract_vod_id("https://twitch.tv/videos/"), None);
    assert_eq!(TwitchResolver::vod_id_from(&None), None);
    assert_eq!(TwitchResolver::vod_id_from(&Some(vec![Some("x".to_string())])), None);
    assert_eq!(
        TwitchResolver::vod_id_from(&Some(vec![Some("x/7".to_string()), Some("7".to_string())])),
        Some("7".to_string())
    );
}

#[test]
fn metadata_query_names_the_vod() {
    assert_eq!(
        TwitchResolver::build_query("123"),
        "query { video(id: \"123\") { broadcastType, seekPreviewsURL } }"
    );
}

#[test]
fn playlist_url_depends_on_the_broadcast_type() {
    let resolver = TwitchResolver::new();
    let archive = VodMetadata { broadcast_type: "ARCHIVE".to_string(), seek_previews_url: None };
    let highlight = VodMetadata { broadcast_type: "HIGHLIGHT".to_string(), seek_previews_url: None };
    assert_eq!(
        resolver.build_playlist_url("cdn.example.net", "abc_1", "99", "chunked", &archive),
        "https://cdn.example.net/abc_1/chunked/index-dvr.m3u8"
    );
    assert_eq!(
        resolver.build_playlist_url("cdn.example.net", "abc_1", "99", "720p60", &highlight),
        "https://cdn.example.net/abc_1/720p60/highlight-99.m3u8"
    );
}

#[test]
fn seek_url_gives_domain_and_vod_segment() {
    assert_eq!(
        TwitchResolver::parse_seek_url(SEEK),
        Ok(("d2nvs31859zcd8.cloudfront.net".to_string(), "abc123_streamer_42_1700000000".to_string()))
    );
}

#[test]
fn seek_url_errors() {
    assert_eq!(
        TwitchResolver::parse_seek_url("not a url"),
        Err(PlatformError::ParseError("Invalid seek URL".to_string()))
    );
    assert_eq!(
        TwitchResolver::parse_seek_url("mailto:storyboards@example.com"),
        Err(PlatformError::ParseError("No domain in URL".to_string()))
    );
    assert_eq!(
        TwitchResolver::parse_seek_url("https://cdn.example.net/a/b/c.jpg"),
        Err(PlatformError::ParseError("Could not find storyboards".to_string()))
    );
    assert_eq!(
        TwitchResolver::locate(&Some((Some("h".to_string()), "storyboards/x".to_string()))),
        Err(PlatformError::ParseError("Could not extract VOD special ID".to_string()))
    );
    assert_eq!(
        TwitchResolver::locate(&Some((Some("h".to_string()), "/storyboards/x".to_string()))),
        Ok(("h".to_string(), "".to_string()))
    );
}

#[test]
fn chain_has_the_restricted_platform_first() {
    let chain = VodResolverChain::new();
    assert_eq!(chain.resolvers.len(), 2);
    assert!(chain.resolvers[0].can_handle("https://twitch.tv/videos/1"));
    assert!(chain.resolvers[1].can_handle("https://youtu.be/x"));
}

#[test]
fn long_tail_address_passes_through() {
    let (result, probed) = run("https://www.youtube.com/watch?v=abc", MetadataReply::NoSuchVideo, &[]);
    assert_eq!(
        result,
        Ok(ResolvedVod { url: "https://www.youtube.com/watch?v=abc".to_string(), is_hls: false })
    );
    assert!(probed.is_empty());
}

#[test]
fn unclaimed_address_is_direct() {
    let (result, _) = run("https://example.com/video.mp4", MetadataReply::NoSuchVideo, &[]);
    assert_eq!(
        result,
        Ok(ResolvedVod { url: "https://example.com/video.mp4".to_string(), is_hls: false })
    );
    let (result, _) = run("https://example.com/live/index.m3u8", MetadataReply::NoSuchVideo, &[]);
    assert_eq!(
        result,
        Ok(ResolvedVod { url: "https://example.com/live/index.m3u8".to_string(), is_hls: true })
    );
    let (result, _) = run("https://example.com/index.m3u8?token=1", MetadataReply::NoSuchVideo, &[]);
    assert_eq!(
        result,
        Ok(ResolvedVod { url: "https://example.com/index.m3u8?token=1".to_string(), is_hls: false })
    );
}

#[test]
fn restricted_address_without_identifier_is_invalid() {
    let (result, _) = run("https://twitch.tv/video/abc", MetadataReply::NoSuchVideo, &[]);
    assert_eq!(result, Err(PlatformError::InvalidUrl("https://twitch.tv/video/abc".to_string())));
}

#[test]
fn first_action_asks_for_the_metadata() {
    let chain = VodResolverChain::new();
    let (state, action) = chain.resolve("https://www.twitch.tv/videos/123456789");
    assert_eq!(state, Resolution::AwaitingMetadata { vod_id: "123456789".to_string() });
    assert_eq!(
        action,
        ResolveAction::FetchMetadata {
            query: "query { video(id: \"123456789\") { broadcastType, seekPreviewsURL } }".to_string()
        }
    );
}

#[test]
fn metadata_failures_end_the_resolution() {
    let url = "https://www.twitch.tv/videos/123456789";
    let (result, _) = run(url, MetadataReply::RequestFailed("connection refused".to_string()), &[]);
    assert_eq!(result, Err(PlatformError::ApiError("connection refused".to_string())));
    let (result, _) = run(url, MetadataReply::Unreadable("expected value".to_string()), &[]);
    assert_eq!(result, Err(PlatformError::ParseError("expected value".to_string())));
    let (result, _) = run(url, MetadataReply::NoSuchVideo, &[]);
    assert_eq!(result, Err(PlatformError::VodNotFound("123456789".to_string())));
    let (result, _) = run(url, found("ARCHIVE", None), &[]);
    assert_eq!(result, Err(PlatformError::VodNotFound("No seek previews URL".to_string())));
    let (result, _) = run(url, found("ARCHIVE", Some("https://cdn.example.net/x.jpg")), &[]);
    assert_eq!(result, Err(PlatformError::ParseError("Could not find storyboards".to_string())));
}

#[test]
fn best_existing_quality_wins() {
    let url = "https://www.twitch.tv/videos/123456789";
    let base = "https://d2nvs31859zcd8.cloudfront.net/abc123_streamer_42_1700000000";
    let p720 = format!("{}/720p60/index-dvr.m3u8", base);
    let p360 = format!("{}/360p30/index-dvr.m3u8", base);
    let (result, probed) = run(url, found("ARCHIVE", Some(SEEK)), &[p720.as_str(), p360.as_str()]);
    assert_eq!(result, Ok(ResolvedVod { url: p720.clone(), is_hls: true }));
    assert_eq!(
        probed,
        vec![
            format!("{}/chunked/index-dvr.m3u8", base),
            format!("{}/1080p60/index-dvr.m3u8", base),
            p720,
        ]
    );
}

#[test]
fn highlight_uses_its_own_playlist_name() {
    let url = "https://www.twitch.tv/videos/123456789";
    let wanted = "https://d2nvs31859zcd8.cloudfront.net/abc123_streamer_42_1700000000/chunked/highlight-123456789.m3u8";
    let (result, probed) = run(url, found("Highlight", Some(SEEK)), &[wanted]);
    assert_eq!(result, Ok(ResolvedVod { url: wanted.to_string(), is_hls: true }));
    assert_eq!(probed.len(), 1);
}

#[test]
fn no_quality_exists() {
    let url = "https://www.twitch.tv/videos/123456789";
    let (result, probed) = run(url, found("ARCHIVE", Some(SEEK)), &[]);
    assert_eq!(result, Err(PlatformError::NoValidQuality));
    assert_eq!(probed.len(), 5);
    assert!(probed[4].ends_with("/360p30/index-dvr.m3u8"));
}

#[test]
fn resolving_twice_gives_the_same_descriptor() {
    let url = "https://www.twitch.tv/videos/123456789";
    let existing = ["https://d2nvs31859zcd8.cloudfront.net/abc123_streamer_42_1700000000/480p30/index-dvr.m3u8"];
    let first = run(url, found("ARCHIVE", Some(SEEK)), &existing);
    let second = run(url, found("ARCHIVE", Some(SEEK)), &existing);
    assert!(first.0.is_ok());
    assert_eq!(first, second);
}
