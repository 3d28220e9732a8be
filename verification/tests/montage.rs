use nox::commands::OverlayPositionInput;
use nox::error::ExportError;
use nox::export::ffmpeg::RunOutcome;
use nox::montage::{MontageClip, MontageConfig, OverlayPosition};

#[test]
fn test_total_duration_no_transition() {
    let config = MontageConfig {
        clips: vec![
            MontageClip {
                path: String::new(),
                duration_ms: 10_000,
                streamer_name: "A".into(),
            },
            MontageClip {
                path: String::new(),
                duration_ms: 15_000,
                streamer_name: "B".into(),
            },
        ],
        transition_duration_ms: 0,
        overlay: None,
    };
    assert_eq!(config.total_duration(), 25_000);
}

#[test]
fn test_total_duration_with_transition() {
    let config = MontageConfig {
        clips: vec![
            MontageClip {
                path: String::new(),
                duration_ms: 10_000,
                streamer_name: "A".into(),
            },
            MontageClip {
                path: String::new(),
                duration_ms: 15_000,
                streamer_name: "B".into(),
            },
            MontageClip {
                path: String::new(),
                duration_ms: 20_000,
                streamer_name: "C".into(),
            },
        ],
        transition_duration_ms: 500,
        overlay: None,
    };
    // 45 - 2*0.5 = 44
    assert_eq!(config.total_duration(), 44_000);
}

#[test]
fn test_overlay_position_coords() {
    assert!(OverlayPosition::TopLeft
        .to_ffmpeg_coords(20)
        .contains("x=20"));
    assert!(OverlayPosition::BottomRight
        .to_ffmpeg_coords(20)
        .contains("w-tw-20"));
}

#[test]
fn overlay_coords_by_corner() {
    assert_eq!(OverlayPosition::TopLeft.to_ffmpeg_coords(20), "x=20:y=20");
    assert_eq!(OverlayPosition::TopRight.to_ffmpeg_coords(5), "x=w-tw-5:y=5");
    assert_eq!(OverlayPosition::BottomLeft.to_ffmpeg_coords(0), "x=0:y=h-th-0");
    assert_eq!(OverlayPosition::BottomRight.to_ffmpeg_coords(120), "x=w-tw-120:y=h-th-120");
}

#[test]
fn empty_montage_has_no_duration() {
    let config = MontageConfig { clips: vec![], transition_duration_ms: 500, overlay: None };
    assert_eq!(config.total_duration(), 0);
}

#[test]
fn single_clip_has_no_transition() {
    let config = MontageConfig {
        clips: vec![MontageClip { path: String::new(), duration_ms: 7_250, streamer_name: "A".into() }],
        transition_duration_ms: 500,
        overlay: None,
    };
    assert_eq!(config.total_duration(), 7_250);
}

#[test]
fn overlay_position_of_the_interface_maps_to_the_same_corner() {
    assert_eq!(OverlayPositionInput::TopLeft.position(), OverlayPosition::TopLeft);
    assert_eq!(OverlayPositionInput::TopRight.position(), OverlayPosition::TopRight);
    assert_eq!(OverlayPositionInput::BottomLeft.position(), OverlayPosition::BottomLeft);
    assert_eq!(OverlayPositionInput::BottomRight.position(), OverlayPosition::BottomRight);
    assert_eq!(OverlayPosition::from(OverlayPositionInput::TopRight), OverlayPosition::TopRight);
}

fn clip(path: &str, duration_ms: i64, streamer: &str) -> MontageClip {
    MontageClip { path: path.to_string(), duration_ms, streamer_name: streamer.to_string() }
}

fn overlay(box_color: Option<&str>) -> nox::montage::OverlayConfig {
    nox::montage::OverlayConfig {
        text: "{streamer}: it's live".to_string(),
        position: OverlayPosition::TopRight,
        font_size: 36,
        color: "FFFFFF".to_string(),
        box_color: box_color.map(|c| c.to_string()),
    }
}

#[test]
fn overlay_filter_escapes_its_text_and_font() {
    let exporter = nox::montage::MontageExporter::new();
    assert_eq!(
        exporter.build_overlay_filter(&overlay(None), "Ana", "/opt/nox/assets/fonts/Roboto.ttf"),
        "drawtext=fontfile='/opt/nox/assets/fonts/Roboto.ttf':text='Ana\\: it\\'s live':x=w-tw-20:y=20:fontsize=36:fontcolor=#FFFFFF"
    );
    assert_eq!(
        exporter.build_overlay_filter(&overlay(Some("000000@0.5")), "a:b", "C:\\nox\\Roboto.ttf"),
        "drawtext=fontfile='C\\:/nox/Roboto.ttf':text='a\\:b\\: it\\'s live':x=w-tw-20:y=20:fontsize=36:fontcolor=#FFFFFF:box=1:boxcolor=000000@0.5:boxborderw=10"
    );
}

#[test]
fn filter_graph_of_no_clips_is_empty() {
    let exporter = nox::montage::MontageExporter::new();
    let config = MontageConfig { clips: vec![], transition_duration_ms: 500, overlay: None };
    assert_eq!(exporter.build_filter_complex(&config, "f.ttf"), "");
}

#[test]
fn filter_graph_of_one_clip_has_no_fades() {
    let exporter = nox::montage::MontageExporter::new();
    let plain = MontageConfig { clips: vec![clip("a.mp4", 10_000, "Ana")], transition_duration_ms: 500, overlay: None };
    assert_eq!(exporter.build_filter_complex(&plain, "f.ttf"), "[0:v]null[vout];[0:a]anull[aout]");
    let drawn = MontageConfig {
        clips: vec![clip("a.mp4", 10_000, "Ana")],
        transition_duration_ms: 500,
        overlay: Some(overlay(None)),
    };
    assert_eq!(
        exporter.build_filter_complex(&drawn, "f.ttf"),
        "[0:v]drawtext=fontfile='f.ttf':text='Ana\\: it\\'s live':x=w-tw-20:y=20:fontsize=36:fontcolor=#FFFFFF[vout];[0:a]anull[aout]"
    );
}

#[test]
fn filter_graph_of_several_clips_without_transition() {
    let exporter = nox::montage::MontageExporter::new();
    let config = MontageConfig {
        clips: vec![clip("a.mp4", 10_000, "Ana"), clip("b.mp4", 15_000, "Ben")],
        transition_duration_ms: 0,
        overlay: None,
    };
    assert_eq!(
        exporter.build_filter_complex(&config, "f.ttf"),
        "[0:v]null[v0];[0:a]anull[a0];[1:v]null[v1];[1:a]anull[a1];[v0][a0][v1][a1]concat=n=2:v=1:a=1[vout][aout]"
    );
}

#[test]
fn filter_graph_fades_between_clips() {
    let exporter = nox::montage::MontageExporter::new();
    let config = MontageConfig {
        clips: vec![clip("a.mp4", 10_000, "Ana"), clip("b.mp4", 15_250, "Ben"), clip("c.mp4", 300, "Cy")],
        transition_duration_ms: 500,
        overlay: None,
    };
    assert_eq!(
        exporter.build_filter_complex(&config, "f.ttf"),
        "[0:v]fade=t=out:st=9.50:d=0.50[v0];[0:a]afade=t=out:st=9.50:d=0.50[a0];\
[1:v]fade=t=in:st=0:d=0.50,fade=t=out:st=14.75:d=0.50[v1];[1:a]afade=t=in:st=0:d=0.50,afade=t=out:st=14.75:d=0.50[a1];\
[2:v]fade=t=in:st=0:d=0.50[v2];[2:a]afade=t=in:st=0:d=0.50[a2];\
[v0][a0][v1][a1][v2][a2]concat=n=3:v=1:a=1[vout][aout]"
    );
}

#[test]
fn fades_of_short_clips_start_at_zero() {
    let short = nox::montage::build_fades(false, 3, 1, 300, 500);
    let texts: Vec<String> = short.into_iter().map(|v| v.into_iter().collect()).collect();
    assert_eq!(texts, vec!["fade=t=in:st=0:d=0.50".to_string(), "fade=t=out:st=0.00:d=0.50".to_string()]);
    assert!(nox::montage::build_fades(true, 1, 0, 300, 500).is_empty());
    assert!(nox::montage::build_fades(true, 3, 0, 300, 0).is_empty());
    let first = nox::montage::build_fades(true, 2, 0, 2_004, 1_005);
    let texts: Vec<String> = first.into_iter().map(|v| v.into_iter().collect()).collect();
    assert_eq!(texts, vec!["afade=t=out:st=1.00:d=1.01".to_string()]);
}

#[test]
fn montage_command() {
    let exporter = nox::montage::MontageExporter::new();
    let config = MontageConfig {
        clips: vec![clip("a.mp4", 10_000, "Ana"), clip("b.mp4", 15_000, "Ben")],
        transition_duration_ms: 0,
        overlay: None,
    };
    let expected: Vec<String> = [
        "-y", "-i", "a.mp4", "-i", "b.mp4", "-filter_complex",
        "[0:v]null[v0];[0:a]anull[a0];[1:v]null[v1];[1:a]anull[a1];[v0][a0][v1][a1]concat=n=2:v=1:a=1[vout][aout]",
        "-map", "[vout]", "-map", "[aout]", "-c:v", "libx264", "-preset", "fast", "-crf", "23",
        "-pix_fmt", "yuv420p", "-c:a", "aac", "-b:a", "128k", "-movflags", "+faststart",
        "-progress", "pipe:2", "out.mp4",
    ]
    .iter()
    .map(|a| a.to_string())
    .collect();
    assert_eq!(exporter.build_command(&config, "out.mp4", "f.ttf"), expected);
}

#[test]
fn montage_inputs_are_checked_before_any_run() {
    let exporter = nox::montage::MontageExporter::new();
    let empty = MontageConfig { clips: vec![], transition_duration_ms: 0, overlay: None };
    let one = MontageConfig { clips: vec![clip("a.mp4", 1, "A")], transition_duration_ms: 0, overlay: None };
    assert_eq!(exporter.check_inputs(&empty, None), Err(ExportError::Ffmpeg("No clips to export".to_string())));
    assert_eq!(exporter.check_inputs(&empty, Some("a.mp4")), Err(ExportError::Ffmpeg("No clips to export".to_string())));
    assert_eq!(
        exporter.check_inputs(&one, Some("a.mp4")),
        Err(ExportError::Ffmpeg("Clip file not found: a.mp4".to_string()))
    );
    assert_eq!(exporter.check_inputs(&one, None), Ok(()));
}

#[test]
fn tail_keeps_the_last_fifty_lines() {
    let mut tail = nox::montage::OutputTail::new();
    for i in 0..60 {
        tail.push(&format!("line {}", i));
    }
    assert_eq!(tail.lines.len(), 50);
    assert_eq!(tail.lines[0], "line 10");
    assert_eq!(tail.lines[49], "line 59");
}

#[test]
fn montage_failure_quotes_up_to_five_error_lines() {
    let exporter = nox::montage::MontageExporter::new();
    let exited = |success: bool| RunOutcome::Exited { success, status: "exit status: 1".to_string() };
    let mut tail = nox::montage::OutputTail::new();
    tail.push("frame=1");
    assert_eq!(
        exporter.export_with_progress(exited(false), &tail),
        Err(ExportError::Ffmpeg("FFmpeg exited with code: exit status: 1".to_string()))
    );
    for line in ["Error one", "fine", "an error two", "Invalid three", "Error 4", "Error 5", "Error 6"] {
        tail.push(line);
    }
    assert_eq!(
        exporter.export_with_progress(exited(false), &tail),
        Err(ExportError::Ffmpeg("FFmpeg error: Error one\nan error two\nInvalid three\nError 4\nError 5".to_string()))
    );
    assert_eq!(exporter.export_with_progress(exited(true), &tail), Ok(()));
    assert_eq!(
        exporter.export_with_progress(RunOutcome::TimedOut, &tail),
        Err(ExportError::Timeout("Montage export timed out after 900 seconds".to_string()))
    );
    assert_eq!(
        exporter.export_with_progress(RunOutcome::SpawnFailed("nope".to_string()), &tail),
        Err(ExportError::Ffmpeg("Failed to start FFmpeg: nope".to_string()))
    );
    assert_eq!(
        exporter.export_with_progress(RunOutcome::NoOutputPipe, &tail),
        Err(ExportError::Ffmpeg("Failed to capture stderr".to_string()))
    );
    assert_eq!(
        exporter.export_with_progress(RunOutcome::WaitFailed("gone".to_string()), &tail),
        Err(ExportError::Ffmpeg("FFmpeg error: gone".to_string()))
    );
}
