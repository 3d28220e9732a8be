//! The tools that the exporters run: where they are kept, what a search for
//! them found, and where they can be downloaded.

use crate::config::{join_path, joined_path};
use crate::error::BinaryError;
use crate::text::{
    append_str, chars_of, contains, ends_with, has_substring, has_suffix, lines, lines_of,
    lowercase, rows, slice_of, string_of, to_lowercase,
};
use vstd::prelude::*;

verus! {

/// The directory of the application below the user's data directory.
pub const APP_DIR: &'static str = "com.suusuufl.nox";

/// A tool that can be downloaded.
#[derive(Debug, Clone, Copy, PartialEq, Eq, Structural)]
pub enum BinaryType {
    Ffmpeg,
    YtDlp,
}

/// The systems for which the tools are offered.
#[derive(Debug, Clone, Copy, PartialEq, Eq, Structural)]
pub enum TargetOs {
    Windows,
    MacOs,
    Linux,
    Other,
}

/// Where a tool was found.
#[derive(Debug, Clone, Copy, PartialEq, Eq, Structural)]
pub enum BinarySource {
    /// On the search path of the system.
    System,
    /// In the directory that the application manages.
    Managed,
    /// Nowhere.
    NotFound,
}

/// What is known of one tool.
#[derive(Debug, Clone, PartialEq, Eq)]
pub struct BinaryInfo {
    pub installed: bool,
    pub path: Option<String>,
    pub version: Option<String>,
    pub source: BinarySource,
}

/// What is known of the tools.
#[derive(Debug, Clone, PartialEq, Eq)]
pub struct BinaryStatus {
    pub ffmpeg: BinaryInfo,
    pub ytdlp: BinaryInfo,
}

/// A tool that was found: its path, and its version where it told one.
#[derive(Debug, Clone, PartialEq, Eq)]
pub struct FoundBinary {
    pub path: String,
    pub version: Option<String>,
}

/// What a search for one tool found in the managed directory and on the
/// search path of the system.
#[derive(Debug, Clone, PartialEq, Eq)]
pub struct Lookup {
    pub managed: Option<FoundBinary>,
    pub system: Option<FoundBinary>,
}

/// What the searches for the three tools found.
#[derive(Debug, Clone, PartialEq, Eq)]
pub struct BinaryManager {
    pub ffmpeg: Lookup,
    pub ffprobe: Lookup,
    pub ytdlp: Lookup,
}

/// The path of a tool that a search found: the managed one before the one
/// of the system.
pub open spec fn found_path(lookup: Lookup) -> Option<Seq<char>> {
    match lookup.managed {
        Some(found) => Some(found.path@),
        None => match lookup.system {
            Some(found) => Some(found.path@),
            None => None,
        },
    }
}

/// What a search tells of a tool.
pub open spec fn info_is(lookup: Lookup, info: BinaryInfo) -> bool {
    match lookup.managed {
        Some(found) => {
            &&& info.installed
            &&& info.path.deep_view() == Some(found.path@)
            &&& info.version.deep_view() == found.version.deep_view()
            &&& info.source == BinarySource::Managed
        },
        None => match lookup.system {
            Some(found) => {
                &&& info.installed
                &&& info.path.deep_view() == Some(found.path@)
                &&& info.version.deep_view() == found.version.deep_view()
                &&& info.source == BinarySource::System
            },
            None => {
                &&& !info.installed
                &&& info.path is None
                &&& info.version is None
                &&& info.source == BinarySource::NotFound
            },
        },
    }
}

/// The directory of the tools below the data directory `data_dir`.
pub fn get_bin_dir(data_dir: &str) -> (r: String)
    ensures
        r@ == joined_path(joined_path(data_dir@, APP_DIR@), "bin"@),
{
    join_path(join_path(data_dir, APP_DIR).as_str(), "bin")
}

/// The file name of a tool: its name, with `.exe` on Windows.
pub open spec fn binary_file_name(name: Seq<char>, os: TargetOs) -> Seq<char> {
    if os == TargetOs::Windows {
        name + ".exe"@
    } else {
        name
    }
}

/// The path of the tool `name` in the managed directory.
pub fn get_binary_path(data_dir: &str, name: &str, os: TargetOs) -> (r: String)
    ensures
        r@ == joined_path(
            joined_path(joined_path(data_dir@, APP_DIR@), "bin"@),
            binary_file_name(name@, os),
        ),
{
    let mut file = chars_of(name);
    if os == TargetOs::Windows {
        append_str(&mut file, ".exe");
    }
    join_path(get_bin_dir(data_dir).as_str(), string_of(&file).as_str())
}

/// The directory of the settings below the data directory `data_dir`.
pub fn get_config_dir(data_dir: &str) -> (r: String)
    ensures
        r@ == joined_path(data_dir@, APP_DIR@),
{
    join_path(data_dir, APP_DIR)
}

/// The path of the settings file.
pub fn get_config_path(data_dir: &str) -> (r: String)
    ensures
        r@ == joined_path(joined_path(data_dir@, APP_DIR@), "config.json"@),
{
    join_path(get_config_dir(data_dir).as_str(), "config.json")
}

/// Where a tool is downloaded from, by system.
pub open spec fn download_url(binary: BinaryType, os: TargetOs) -> Option<Seq<char>> {
    match (binary, os) {
        (BinaryType::Ffmpeg, TargetOs::Windows) => Some(
            "https://github.com/BtbN/FFmpeg-Builds/releases/download/latest/ffmpeg-master-latest-win64-gpl.zip"@,
        ),
        (BinaryType::Ffmpeg, TargetOs::MacOs) => Some(
            "https://evermeet.cx/ffmpeg/getrelease/zip"@,
        ),
        (BinaryType::Ffmpeg, TargetOs::Linux) => Some(
            "https://github.com/BtbN/FFmpeg-Builds/releases/download/latest/ffmpeg-master-latest-linux64-gpl.tar.xz"@,
        ),
        (BinaryType::YtDlp, TargetOs::Windows) => Some(
            "https://github.com/yt-dlp/yt-dlp/releases/latest/download/yt-dlp.exe"@,
        ),
        (BinaryType::YtDlp, TargetOs::MacOs) => Some(
            "https://github.com/yt-dlp/yt-dlp/releases/latest/download/yt-dlp_macos"@,
        ),
        (BinaryType::YtDlp, TargetOs::Linux) => Some(
            "https://github.com/yt-dlp/yt-dlp/releases/latest/download/yt-dlp"@,
        ),
        (_, TargetOs::Other) => None,
    }
}

/// Where a tool is downloaded from. A system for which it is not offered
/// gives the error that names the tool.
pub fn get_download_url(binary: BinaryType, os: TargetOs) -> (r: Result<&'static str, BinaryError>)
    ensures
        match r {
            Ok(url) => download_url(binary, os) == Some(url@),
            Err(e) => {
                &&& download_url(binary, os) is None
                &&& e matches BinaryError::UnsupportedPlatform(name)
                &&& name@ == (if binary == BinaryType::Ffmpeg {
                    "FFmpeg"@
                } else {
                    "yt-dlp"@
                })
            },
        },
{
    match binary {
        BinaryType::Ffmpeg => match os {
            TargetOs::Windows => Ok(
                "https://github.com/BtbN/FFmpeg-Builds/releases/download/latest/ffmpeg-master-latest-win64-gpl.zip",
            ),
            TargetOs::MacOs => Ok("https://evermeet.cx/ffmpeg/getrelease/zip"),
            TargetOs::Linux => Ok(
                "https://github.com/BtbN/FFmpeg-Builds/releases/download/latest/ffmpeg-master-latest-linux64-gpl.tar.xz",
            ),
            TargetOs::Other => Err(BinaryError::UnsupportedPlatform("FFmpeg".to_owned())),
        },
        BinaryType::YtDlp => match os {
            TargetOs::Windows => Ok(
                "https://github.com/yt-dlp/yt-dlp/releases/latest/download/yt-dlp.exe",
            ),
            TargetOs::MacOs => Ok(
                "https://github.com/yt-dlp/yt-dlp/releases/latest/download/yt-dlp_macos",
            ),
            TargetOs::Linux => Ok(
                "https://github.com/yt-dlp/yt-dlp/releases/latest/download/yt-dlp",
            ),
            TargetOs::Other => Err(BinaryError::UnsupportedPlatform("yt-dlp".to_owned())),
        },
    }
}

/// The tool that a lower-case name means.
pub open spec fn binary_named(lower: Seq<char>) -> Option<BinaryType> {
    if lower == "ffmpeg"@ {
        Some(BinaryType::Ffmpeg)
    } else if lower == "yt-dlp"@ || lower == "ytdlp"@ {
        Some(BinaryType::YtDlp)
    } else {
        None
    }
}

impl BinaryType {
    /// The tool that a lower-case name means.
    pub fn from_lowercase(lower: &str) -> (r: Option<BinaryType>)
        ensures
            r == binary_named(lower@),
    {
        let v = chars_of(lower);
        if crate::text::same_text(&v, &chars_of("ffmpeg")) {
            Some(BinaryType::Ffmpeg)
        } else if crate::text::same_text(&v, &chars_of("yt-dlp"))
            || crate::text::same_text(&v, &chars_of("ytdlp")) {
            Some(BinaryType::YtDlp)
        } else {
            None
        }
    }

    /// The tool that a name means, whatever the case of its letters.
    pub fn from_name(name: &str) -> (r: Option<BinaryType>)
        ensures
            r == binary_named(lowercase(name@)),
    {
        BinaryType::from_lowercase(to_lowercase(name).as_str())
    }
}

/// The version that a tool told: the first line of what it printed, cut
/// after 60 characters and marked with three dots where it is longer.
pub open spec fn version_of(printed: Seq<char>) -> Option<Seq<char>> {
    if lines(printed).len() == 0 {
        None
    } else if lines(printed)[0].len() > 60 {
        Some(lines(printed)[0].take(60) + "..."@)
    } else {
        Some(lines(printed)[0])
    }
}

/// The version that a tool told, from what it printed.
pub fn version_line(printed: &str) -> (r: Option<String>)
    ensures
        r.deep_view() == version_of(printed@),
{
    let all = lines_of(&chars_of(printed));
    if all.len() == 0 {
        assert(rows(all@).len() == 0);
        return None;
    }
    assert(rows(all@)[0] == all@[0]@);
    let first = &all[0];
    if first.len() > 60 {
        let mut v = slice_of(first, 0, 60);
        append_str(&mut v, "...");
        Some(string_of(&v))
    } else {
        Some(string_of(first))
    }
}

/// Whether an entry of an archive is the transcoding tool.
pub fn is_ffmpeg_entry(path: &str) -> (b: bool)
    ensures
        b == (ends_with(path@, "/ffmpeg"@) && !contains(path@, "ffprobe"@)),
{
    let v = chars_of(path);
    has_suffix(&v, &chars_of("/ffmpeg")) && !has_substring(&v, &chars_of("ffprobe"))
}

/// Whether an entry of an archive is the probing tool.
pub fn is_ffprobe_entry(path: &str) -> (b: bool)
    ensures
        b == ends_with(path@, "/ffprobe"@),
{
    has_suffix(&chars_of(path), &chars_of("/ffprobe"))
}

/// The path of a tool that a search found.
pub fn path_of(lookup: &Lookup) -> (r: Option<String>)
    ensures
        r.deep_view() == found_path(*lookup),
{
    match &lookup.managed {
        Some(found) => Some(found.path.clone()),
        None => match &lookup.system {
            Some(found) => Some(found.path.clone()),
            None => None,
        },
    }
}

/// What a search tells of a tool.
pub fn get_binary_info(lookup: &Lookup) -> (info: BinaryInfo)
    ensures
        info_is(*lookup, info),
{
    match &lookup.managed {
        Some(found) => BinaryInfo {
            installed: true,
            path: Some(found.path.clone()),
            version: found.version.clone(),
            source: BinarySource::Managed,
        },
        None => match &lookup.system {
            Some(found) => BinaryInfo {
                installed: true,
                path: Some(found.path.clone()),
                version: found.version.clone(),
                source: BinarySource::System,
            },
            None => BinaryInfo {
                installed: false,
                path: None,
                version: None,
                source: BinarySource::NotFound,
            },
        },
    }
}

impl BinaryManager {
    /// The manager that knows what the three searches found.
    pub fn new(ffmpeg: Lookup, ffprobe: Lookup, ytdlp: Lookup) -> (m: Self)
        ensures
            m.ffmpeg == ffmpeg,
            m.ffprobe == ffprobe,
            m.ytdlp == ytdlp,
    {
        BinaryManager { ffmpeg, ffprobe, ytdlp }
    }

    /// The path of the transcoding tool.
    pub fn ffmpeg_path(&self) -> (r: Option<String>)
        ensures
            r.deep_view() == found_path(self.ffmpeg),
    {
        path_of(&self.ffmpeg)
    }

    /// The path of the probing tool.
    pub fn ffprobe_path(&self) -> (r: Option<String>)
        ensures
            r.deep_view() == found_path(self.ffprobe),
    {
        path_of(&self.ffprobe)
    }

    /// The path of the downloading tool.
    pub fn ytdlp_path(&self) -> (r: Option<String>)
        ensures
            r.deep_view() == found_path(self.ytdlp),
    {
        path_of(&self.ytdlp)
    }

    /// What is known of the transcoding and of the downloading tool.
    pub fn check_status(&self) -> (status: BinaryStatus)
        ensures
            info_is(self.ffmpeg, status.ffmpeg),
            info_is(self.ytdlp, status.ytdlp),
    {
        BinaryStatus {
            ffmpeg: get_binary_info(&self.ffmpeg),
            ytdlp: get_binary_info(&self.ytdlp),
        }
    }
}

/// The command that runs a tool: its path where it was found, its bare name
/// where not.
pub fn command_for(path: Option<String>, name: &str) -> (r: String)
    ensures
        r@ == match path {
            Some(p) => p@,
            None => name@,
        },
{
    match path {
        Some(p) => p,
        None => name.to_owned(),
    }
}

} // verus!
