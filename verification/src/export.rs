//! Export of one clip: its timing, the choice of a backend, and the two
//! backends.

use crate::error::ExportError;
use crate::platform::ResolvedVod;
use crate::text::{
    chars_of, contains, ends_with, has_substring, has_suffix, lowercase, to_lowercase,
};
use vstd::prelude::*;

pub mod ffmpeg;
pub mod progress;
pub mod ytdlp;

pub use ffmpeg::FfmpegExporter;
pub use progress::{ClipResult, ExportProgress, FfmpegProgressParser, YtDlpProgressParser};
pub use ytdlp::YtDlpExporter;

verus! {

/// The longest clip, one hour, in milliseconds.
pub const MAX_DURATION_MS: i64 = 3_600_000;

/// The shortest clip, a tenth of a second, in milliseconds.
pub const MIN_DURATION_MS: i64 = 100;

/// How many times an export is attempted.
pub const MAX_RETRIES: u32 = 2;

/// Where a clip starts in the VOD and how long it is, in milliseconds.
#[derive(Debug, Clone, Copy, PartialEq, Eq)]
pub struct ClipTiming {
    /// Start in the VOD.
    pub start_ms: i64,
    /// Duration of the clip.
    pub duration_ms: i64,
}

impl ClipTiming {
    /// The timing is usable: it starts at or after 0 and lasts between a
    /// tenth of a second and one hour.
    pub open spec fn is_valid(&self) -> bool {
        &&& self.start_ms >= 0
        &&& MIN_DURATION_MS <= self.duration_ms <= MAX_DURATION_MS
    }

    pub fn new(start_ms: i64, duration_ms: i64) -> (t: Self)
        ensures
            t.start_ms == start_ms,
            t.duration_ms == duration_ms,
    {
        ClipTiming { start_ms, duration_ms }
    }

    /// The timing of a clip given by an in-point and an out-point, both
    /// relative to the moment `start_ms` of the VOD.
    pub fn from_points(start_ms: i64, in_point_ms: i64, out_point_ms: i64) -> (t: Self)
        requires
            i64::MIN <= start_ms + in_point_ms <= i64::MAX,
            i64::MIN <= out_point_ms - in_point_ms <= i64::MAX,
        ensures
            t.start_ms == start_ms + in_point_ms,
            t.duration_ms == out_point_ms - in_point_ms,
    {
        ClipTiming { start_ms: start_ms + in_point_ms, duration_ms: out_point_ms - in_point_ms }
    }

    /// Accepts a usable timing. A negative start is refused first, then a
    /// duration outside the allowed range; each error carries the value it
    /// refuses.
    pub fn validate(&self) -> (r: Result<(), ExportError>)
        ensures
            r is Ok <==> self.is_valid(),
            self.start_ms < 0 ==> r == Err::<(), ExportError>(
                ExportError::InvalidStartTime(self.start_ms),
            ),
            self.start_ms >= 0 && !self.is_valid() ==> r == Err::<(), ExportError>(
                ExportError::InvalidDuration(self.duration_ms),
            ),
    {
        if self.start_ms < 0 {
            return Err(ExportError::InvalidStartTime(self.start_ms));
        }
        if self.duration_ms < MIN_DURATION_MS || self.duration_ms > MAX_DURATION_MS {
            return Err(ExportError::InvalidDuration(self.duration_ms));
        }
        Ok(())
    }
}

/// The backend that exports a clip.
#[derive(Debug, Clone, Copy, PartialEq, Eq, Structural)]
pub enum Backend {
    /// The transcoding tool reads the stream itself.
    Transcode,
    /// The downloading tool extracts the stream from the platform's page.
    Download,
}

/// A lower-case address names a video file: it ends in `.mp4`, `.webm` or
/// `.mkv`, or holds `.mp4?`.
pub open spec fn names_video_file(lower: Seq<char>) -> bool {
    ||| ends_with(lower, ".mp4"@)
    ||| ends_with(lower, ".webm"@)
    ||| ends_with(lower, ".mkv"@)
    ||| contains(lower, ".mp4?"@)
}

/// The backend for a stream: the transcoding tool for a playlist and for an
/// address that names a video file, the downloading tool for all others.
pub open spec fn backend_for(is_hls: bool, lower_url: Seq<char>) -> Backend {
    if is_hls || names_video_file(lower_url) {
        Backend::Transcode
    } else {
        Backend::Download
    }
}

/// Whether a lower-case address names a video file.
pub fn has_video_extension(lower: &str) -> (b: bool)
    ensures
        b == names_video_file(lower@),
{
    let v = chars_of(lower);
    has_suffix(&v, &chars_of(".mp4")) || has_suffix(&v, &chars_of(".webm")) || has_suffix(
        &v,
        &chars_of(".mkv"),
    ) || has_substring(&v, &chars_of(".mp4?"))
}

/// Whether an address names a video file, whatever the case of its letters.
pub fn is_direct_video(url: &str) -> (b: bool)
    ensures
        b == names_video_file(lowercase(url@)),
{
    let lower = to_lowercase(url);
    has_video_extension(lower.as_str())
}

/// Exports a clip with the backend that fits its stream.
pub struct SmartExporter {
    pub ffmpeg: FfmpegExporter,
    pub ytdlp: YtDlpExporter,
}

impl SmartExporter {
    pub fn new() -> (e: Self)
        ensures
            e.ffmpeg.try_copy_first,
            e.ytdlp.force_keyframes,
            e.ytdlp.max_height == 1080,
    {
        SmartExporter { ffmpeg: FfmpegExporter::new(), ytdlp: YtDlpExporter::new() }
    }

    /// The backend for `vod`, chosen once for the whole export.
    pub fn backend(&self, vod: &ResolvedVod) -> (b: Backend)
        ensures
            b == backend_for(vod.is_hls, lowercase(vod.url@)),
    {
        if vod.is_hls || is_direct_video(vod.url.as_str()) {
            Backend::Transcode
        } else {
            Backend::Download
        }
    }
}

impl Default for SmartExporter {
    fn default() -> (e: Self)
        ensures
            e.ffmpeg.try_copy_first,
            e.ytdlp.force_keyframes,
            e.ytdlp.max_height == 1080,
    {
        SmartExporter::new()
    }
}

} // verus!
