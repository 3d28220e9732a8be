//! What can go wrong, by component.

use vstd::prelude::*;

verus! {

/// Failures of resolving a VOD address.
#[derive(Debug, Clone, PartialEq, Eq)]
pub enum PlatformError {
    /// The address holds no VOD identifier.
    InvalidUrl(String),
    /// The platform knows no such VOD.
    VodNotFound(String),
    /// The request to the platform failed.
    ApiError(String),
    /// An answer of the platform could not be read.
    ParseError(String),
    /// No quality variant answered.
    NoValidQuality,
    /// No resolver handles the platform.
    UnsupportedPlatform(String),
}

/// A failure of resolving a VOD address, as a mathematical value.
pub enum PlatformErrorView {
    InvalidUrl(Seq<char>),
    VodNotFound(Seq<char>),
    ApiError(Seq<char>),
    ParseError(Seq<char>),
    NoValidQuality,
    UnsupportedPlatform(Seq<char>),
}

impl View for PlatformError {
    type V = PlatformErrorView;

    open spec fn view(&self) -> PlatformErrorView {
        match self {
            PlatformError::InvalidUrl(s) => PlatformErrorView::InvalidUrl(s@),
            PlatformError::VodNotFound(s) => PlatformErrorView::VodNotFound(s@),
            PlatformError::ApiError(s) => PlatformErrorView::ApiError(s@),
            PlatformError::ParseError(s) => PlatformErrorView::ParseError(s@),
            PlatformError::NoValidQuality => PlatformErrorView::NoValidQuality,
            PlatformError::UnsupportedPlatform(s) => PlatformErrorView::UnsupportedPlatform(s@),
        }
    }
}

/// Failures of exporting a clip.
#[derive(Debug, Clone, PartialEq, Eq)]
pub enum ExportError {
    /// The transcoding tool failed.
    Ffmpeg(String),
    /// The downloading tool failed.
    YtDlp(String),
    /// The output directory cannot be used.
    OutputDir(String),
    /// The clip is already there.
    AlreadyExists(String),
    /// The end does not follow the start.
    InvalidTimeRange { start_ms: i64, end_ms: i64 },
    /// An attempt ran longer than allowed.
    Timeout(String),
    /// The duration, in milliseconds, is outside the allowed range.
    InvalidDuration(i64),
    /// The start, in milliseconds, is negative.
    InvalidStartTime(i64),
    /// The output is not as long as the clip: the expected duration in
    /// milliseconds, the actual one in microseconds.
    DurationMismatch { expected_ms: i64, actual_us: u64 },
    /// The output cannot be read.
    CorruptedOutput(String),
    /// A tool is not installed.
    BinaryNotFound(String),
    /// A download failed.
    DownloadError(String),
}

/// Failures of finding and installing the tools.
#[derive(Debug, Clone, PartialEq, Eq)]
pub enum BinaryError {
    NotFound(String),
    DownloadFailed(String),
    ExtractionFailed(String),
    UnsupportedPlatform(String),
    VerificationFailed(String),
    Io(String),
}

/// Any failure of the library.
#[derive(Debug, Clone, PartialEq, Eq)]
pub enum NoxError {
    Platform(PlatformError),
    Export(ExportError),
    Binary(BinaryError),
    Io(String),
    Config(String),
}

} // verus!
