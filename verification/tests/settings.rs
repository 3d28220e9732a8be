use nox::binaries::{
    command_for, get_bin_dir, get_binary_info, get_binary_path, get_config_path, get_download_url,
    is_ffmpeg_entry, is_ffprobe_entry, version_line, BinaryManager, BinarySource, BinaryType,
    FoundBinary, Lookup, TargetOs,
};
use nox::commands::{
    clip_status, generate_filename, generate_montage_filename, sanitize_filename, ClipOutcome,
    ClipRequest, ExportResult,
};
use nox::export::{ClipResult, ExportProgress};
use nox::config::{
    get_config_mut, join_path, sanitize_name, Config, FfmpegConfig, PersistedConfig, VideoEncoder,
};
use nox::error::BinaryError;
use nox::project::{get_project_file_path, ClipStatus};

fn config(output_dir: &str) -> Config {
    Config::new(
        FfmpegConfig::with_encoder(VideoEncoder::Libx264),
        PersistedConfig { output_dir: None },
        output_dir,
    )
}

fn request() -> ClipRequest {
    ClipRequest {
        vod_url: "https://www.twitch.tv/videos/1".to_string(),
        streamer_name: "Some: Streamer".to_string(),
        action_id: "abcdef123456".to_string(),
        action_name: "Ace / clutch?".to_string(),
        game_start_time_ms: 60_000,
        action_game_time_ms: 100_000,
        sync_offset_ms: -1_500,
        in_point_ms: -3_000,
        out_point_ms: 7_000,
        index: 3,
    }
}

#[test]
fn test_paths() {
    let bin_dir = get_bin_dir("/home/user/.local/share");
    assert!(bin_dir.contains("com.suusuufl.nox"));

    let ffmpeg_path = get_binary_path("/home/user/.local/share", "ffmpeg", TargetOs::Windows);
    assert!(ffmpeg_path.ends_with("ffmpeg.exe"));
    let ffmpeg_path = get_binary_path("/home/user/.local/share", "ffmpeg", TargetOs::Linux);
    assert!(ffmpeg_path.ends_with("ffmpeg"));
}

#[test]
fn managed_paths() {
    assert_eq!(get_bin_dir("/data"), "/data/com.suusuufl.nox/bin");
    assert_eq!(get_binary_path("/data/", "yt-dlp", TargetOs::MacOs), "/data/com.suusuufl.nox/bin/yt-dlp");
    assert_eq!(get_config_path("."), "./com.suusuufl.nox/config.json");
}

#[test]
fn paths_are_joined_with_one_slash() {
    assert_eq!(join_path("a", "b"), "a/b");
    assert_eq!(join_path("a/", "b"), "a/b");
    assert_eq!(join_path("", "b"), "b");
    assert_eq!(join_path("/", "b"), "/b");
}

#[test]
fn names_are_made_safe_for_paths() {
    assert_eq!(sanitize_name("  a/b\\c:d*e?f\"g<h>i|j  "), "a_b_c_d_e_f_g_h_i_j");
    assert_eq!(sanitize_name("\u{a0}plain name\t\n"), "plain name");
    assert_eq!(sanitize_name(" / "), "_");
    assert_eq!(sanitize_name(""), "");
    assert_eq!(sanitize_filename("Ace / clutch?"), "Ace _ clutch_");
}

#[test]
fn project_directories() {
    let cfg = config("/videos/Nox");
    assert_eq!(cfg.project_dir("scrim"), "/videos/Nox/scrim");
    assert_eq!(cfg.clips_dir("scrim"), "/videos/Nox/scrim/clips");
    assert_eq!(cfg.streamer_clips_dir("scrim", "A/B "), "/videos/Nox/scrim/clips/A_B");
    assert_eq!(get_project_file_path(&cfg, "scrim"), "/videos/Nox/scrim/project.json");
}

#[test]
fn chosen_output_directory_is_kept() {
    let kept = Config::new(
        FfmpegConfig::with_encoder(VideoEncoder::H264Qsv),
        PersistedConfig { output_dir: Some("/chosen".to_string()) },
        "/default",
    );
    assert_eq!(kept.output_dir, "/chosen");
    let mut cfg = config("/default");
    assert_eq!(cfg.output_dir, "/default");
    cfg.set_output_dir("/elsewhere".to_string());
    assert_eq!(cfg.output_dir, "/elsewhere");
    assert_eq!(cfg.persisted.output_dir, Some("/elsewhere".to_string()));
    get_config_mut().set_output_dir(&mut cfg, "/third".to_string());
    assert_eq!(cfg.output_dir, "/third");
    assert_eq!(cfg.persisted, PersistedConfig { output_dir: Some("/third".to_string()) });
    assert_eq!(cfg.ffmpeg, FfmpegConfig::with_encoder(VideoEncoder::Libx264));
}

#[test]
fn usual_encoder_settings() {
    let c = FfmpegConfig::with_encoder(VideoEncoder::H264Amf);
    assert_eq!(c.encoder, VideoEncoder::H264Amf);
    assert_eq!(c.preset, "fast");
    assert_eq!(c.crf, 23);
    assert_eq!(c.audio_bitrate, "128k");
}

#[test]
fn encoder_names() {
    assert_eq!(VideoEncoder::Libx264.as_str(), "libx264");
    assert_eq!(VideoEncoder::H264Amf.as_str(), "h264_amf");
    assert_eq!(VideoEncoder::H264Nvenc.as_str(), "h264_nvenc");
    assert_eq!(VideoEncoder::H264Qsv.as_str(), "h264_qsv");
}

#[test]
fn hardware_encoders_are_preferred_in_order() {
    let all = " V....D h264_amf\n V....D h264_nvenc\n V....D h264_qsv\n V....D libx264\n";
    assert_eq!(VideoEncoder::detect_best(all), VideoEncoder::H264Nvenc);
    assert_eq!(VideoEncoder::detect_best(" V....D h264_qsv\n V....D h264_amf\n"), VideoEncoder::H264Amf);
    assert_eq!(VideoEncoder::detect_best(" V....D h264_qsv\n V....D libx264\n"), VideoEncoder::H264Qsv);
    assert_eq!(VideoEncoder::detect_best(" V....D libx264\n"), VideoEncoder::Libx264);
    assert_eq!(VideoEncoder::detect_best(""), VideoEncoder::Libx264);
    assert!(VideoEncoder::H264Qsv.is_listed_in("h264_qsv"));
    assert!(!VideoEncoder::H264Qsv.is_listed_in("h264_qs"));
}

#[test]
fn download_addresses_by_system() {
    assert_eq!(
        get_download_url(BinaryType::Ffmpeg, TargetOs::Linux),
        Ok("https://github.com/BtbN/FFmpeg-Builds/releases/download/latest/ffmpeg-master-latest-linux64-gpl.tar.xz")
    );
    assert_eq!(
        get_download_url(BinaryType::Ffmpeg, TargetOs::Windows),
        Ok("https://github.com/BtbN/FFmpeg-Builds/releases/download/latest/ffmpeg-master-latest-win64-gpl.zip")
    );
    assert_eq!(
        get_download_url(BinaryType::Ffmpeg, TargetOs::MacOs),
        Ok("https://evermeet.cx/ffmpeg/getrelease/zip")
    );
    assert_eq!(
        get_download_url(BinaryType::YtDlp, TargetOs::Linux),
        Ok("https://github.com/yt-dlp/yt-dlp/releases/latest/download/yt-dlp")
    );
    assert_eq!(
        get_download_url(BinaryType::YtDlp, TargetOs::MacOs),
        Ok("https://github.com/yt-dlp/yt-dlp/releases/latest/download/yt-dlp_macos")
    );
    assert_eq!(
        get_download_url(BinaryType::YtDlp, TargetOs::Windows),
        Ok("https://github.com/yt-dlp/yt-dlp/releases/latest/download/yt-dlp.exe")
    );
    assert_eq!(
        get_download_url(BinaryType::Ffmpeg, TargetOs::Other),
        Err(BinaryError::UnsupportedPlatform("FFmpeg".to_string()))
    );
    assert_eq!(
        get_download_url(BinaryType::YtDlp, TargetOs::Other),
        Err(BinaryError::UnsupportedPlatform("yt-dlp".to_string()))
    );
}

#[test]
fn tools_by_name() {
    assert_eq!(BinaryType::from_name("FFmpeg"), Some(BinaryType::Ffmpeg));
    assert_eq!(BinaryType::from_name("yt-dlp"), Some(BinaryType::YtDlp));
    assert_eq!(BinaryType::from_name("YTDLP"), Some(BinaryType::YtDlp));
    assert_eq!(BinaryType::from_name("ffprobe"), None);
    assert_eq!(BinaryType::from_lowercase("FFMPEG"), None);
}

#[test]
fn version_is_the_first_line() {
    assert_eq!(version_line("ffmpeg version 6.1\nbuilt with gcc\n"), Some("ffmpeg version 6.1".to_string()));
    assert_eq!(version_line(""), None);
    let long = "x".repeat(61);
    assert_eq!(version_line(&long), Some(format!("{}...", "x".repeat(60))));
    let exact = "y".repeat(60);
    assert_eq!(version_line(&exact), Some(exact.clone()));
}

#[test]
fn archive_entries() {
    assert!(is_ffmpeg_entry("ffmpeg-master-latest-linux64-gpl/bin/ffmpeg"));
    assert!(!is_ffmpeg_entry("ffmpeg-master-latest-linux64-gpl/bin/ffprobe"));
    assert!(!is_ffmpeg_entry("ffprobe-build/bin/ffmpeg"));
    assert!(!is_ffmpeg_entry("ffmpeg"));
    assert!(is_ffprobe_entry("ffmpeg-master-latest-linux64-gpl/bin/ffprobe"));
    assert!(!is_ffprobe_entry("ffmpeg-master-latest-linux64-gpl/bin/ffmpeg"));
}

#[test]
fn managed_tool_comes_before_the_system_one() {
    let managed = FoundBinary { path: "/data/bin/ffmpeg".to_string(), version: Some("6.1".to_string()) };
    let system = FoundBinary { path: "/usr/bin/ffmpeg".to_string(), version: None };
    let both = Lookup { managed: Some(managed.clone()), system: Some(system.clone()) };
    let only_system = Lookup { managed: None, system: Some(system.clone()) };
    let none = Lookup { managed: None, system: None };
    let manager = BinaryManager::new(both.clone(), only_system.clone(), none.clone());
    assert_eq!(manager.ffmpeg_path(), Some("/data/bin/ffmpeg".to_string()));
    assert_eq!(manager.ffprobe_path(), Some("/usr/bin/ffmpeg".to_string()));
    assert_eq!(manager.ytdlp_path(), None);

    let status = manager.check_status();
    assert!(status.ffmpeg.installed);
    assert_eq!(status.ffmpeg.source, BinarySource::Managed);
    assert_eq!(status.ffmpeg.version, Some("6.1".to_string()));
    assert!(!status.ytdlp.installed);
    assert_eq!(status.ytdlp.source, BinarySource::NotFound);
    assert_eq!(status.ytdlp.path, None);

    let info = get_binary_info(&only_system);
    assert!(info.installed);
    assert_eq!(info.source, BinarySource::System);
    assert_eq!(info.path, Some("/usr/bin/ffmpeg".to_string()));
    assert_eq!(info.version, None);
}

#[test]
fn tool_without_a_path_runs_by_its_name() {
    assert_eq!(command_for(None, "ffmpeg"), "ffmpeg");
    assert_eq!(command_for(Some("/data/bin/ffmpeg".to_string()), "ffmpeg"), "/data/bin/ffmpeg");
}

#[test]
fn clip_file_names() {
    assert_eq!(generate_filename("abcdef123456", "Ace / clutch?"), "abcdef_Ace _ clutch_.mp4");
    assert_eq!(generate_filename("abc", "Ace"), "abc_Ace.mp4");
    assert_eq!(generate_filename("abcdef", "Ace"), "abcdef_Ace.mp4");
    assert_eq!(generate_filename("éééééééé", "Ace"), "éééééé_Ace.mp4");
}

#[test]
fn montage_file_names() {
    assert_eq!(generate_montage_filename(Some("best"), "scrim", 1_700_000_000), "best.mp4");
    assert_eq!(generate_montage_filename(Some("best.mp4"), "scrim", 1_700_000_000), "best.mp4");
    assert_eq!(generate_montage_filename(None, "scrim", 1_700_000_000), "scrim_montage_1700000000.mp4");
}

#[test]
fn requested_clip_timing() {
    let timing = request().timing();
    assert_eq!(timing.start_ms, 155_500);
    assert_eq!(timing.duration_ms, 10_000);
    let mut far = request();
    far.game_start_time_ms = i64::MAX;
    far.out_point_ms = i64::MAX;
    far.in_point_ms = -5;
    assert_eq!(far.timing().start_ms, i64::MAX);
    assert_eq!(far.timing().duration_ms, i64::MAX);
}

#[test]
fn requested_clip_status() {
    let status = clip_status(&request(), true);
    assert_eq!(status.action_name, "Ace / clutch?");
    assert_eq!(status.streamer_name, "Some: Streamer");
    assert_eq!(status.filename, "abcdef_Ace _ clutch_.mp4");
    assert!(status.is_downloaded);
}

#[test]
fn export_tally() {
    let mut tally = ExportResult::new("/videos/Nox/scrim/clips".to_string());
    tally.record_exported();
    tally.record_skipped();
    tally.record_skipped();
    tally.record_failed("abc_Ace.mp4", "Export timeout: Export timed out after 300 seconds");
    assert_eq!(tally.exported, 1);
    assert_eq!(tally.skipped, 2);
    assert_eq!(tally.failed, 1);
    assert_eq!(
        tally.errors,
        vec!["abc_Ace.mp4: Export timeout: Export timed out after 300 seconds".to_string()]
    );
    assert_eq!(tally.output_dir, "/videos/Nox/scrim/clips");
}

#[test]
fn clip_status_of_a_project_starts_pending() {
    assert_eq!(ClipStatus::default(), ClipStatus::Pending);
}

#[test]
fn handled_clips_are_counted_and_reported() {
    let mut tally = ExportResult::new("/out".to_string());
    assert_eq!(
        tally.record(0, "a.mp4", ClipOutcome::Skipped),
        ExportProgress::ClipCompleted { index: 0, status: ClipResult::Skipped }
    );
    assert_eq!(
        tally.record(1, "b.mp4", ClipOutcome::Exported),
        ExportProgress::ClipCompleted { index: 1, status: ClipResult::Success }
    );
    assert_eq!(
        tally.record(2, "c.mp4", ClipOutcome::Failed("No valid quality found for VOD".to_string())),
        ExportProgress::ClipCompleted {
            index: 2,
            status: ClipResult::Failed { error: "No valid quality found for VOD".to_string() }
        }
    );
    assert_eq!(tally.errors, vec!["c.mp4: No valid quality found for VOD".to_string()]);
    assert_eq!(tally.finished(), ExportProgress::Finished { exported: 1, skipped: 1, failed: 1 });
}
