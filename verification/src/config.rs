//! Settings: the video encoder, the output directory, and the directories
//! of a project below it. Paths are texts whose parts are joined by `/`.

use crate::text::{
    append_str, chars_of, contains, ends_with, has_substring, has_suffix, string_of,
    trim, trimmed,
};
use vstd::prelude::*;

verus! {

/// The video encoders that the transcoding tool may offer.
#[derive(Debug, Clone, Copy, PartialEq, Eq, Structural)]
pub enum VideoEncoder {
    /// Software encoding, which every build offers.
    Libx264,
    /// AMD hardware encoding.
    H264Amf,
    /// NVIDIA hardware encoding.
    H264Nvenc,
    /// Intel QuickSync.
    H264Qsv,
}

/// The name by which the transcoding tool knows an encoder.
pub open spec fn encoder_name(encoder: VideoEncoder) -> Seq<char> {
    match encoder {
        VideoEncoder::Libx264 => "libx264"@,
        VideoEncoder::H264Amf => "h264_amf"@,
        VideoEncoder::H264Nvenc => "h264_nvenc"@,
        VideoEncoder::H264Qsv => "h264_qsv"@,
    }
}

/// The best encoder among those that `listing`, the tool's list of its
/// encoders, names: NVIDIA before AMD before Intel, and software encoding
/// where it names none of them.
pub open spec fn best_encoder(listing: Seq<char>) -> VideoEncoder {
    if contains(listing, encoder_name(VideoEncoder::H264Nvenc)) {
        VideoEncoder::H264Nvenc
    } else if contains(listing, encoder_name(VideoEncoder::H264Amf)) {
        VideoEncoder::H264Amf
    } else if contains(listing, encoder_name(VideoEncoder::H264Qsv)) {
        VideoEncoder::H264Qsv
    } else {
        VideoEncoder::Libx264
    }
}

impl VideoEncoder {
    pub fn as_str(&self) -> (name: &'static str)
        ensures
            name@ == encoder_name(*self),
    {
        match self {
            VideoEncoder::Libx264 => "libx264",
            VideoEncoder::H264Amf => "h264_amf",
            VideoEncoder::H264Nvenc => "h264_nvenc",
            VideoEncoder::H264Qsv => "h264_qsv",
        }
    }

    /// Whether `listing`, the tool's list of its encoders, names this one.
    pub fn is_listed_in(&self, listing: &str) -> (b: bool)
        ensures
            b == contains(listing@, encoder_name(*self)),
    {
        has_substring(&chars_of(listing), &chars_of(self.as_str()))
    }

    /// The best encoder that `listing` names; pass the empty text where the
    /// tool could not be asked.
    pub fn detect_best(listing: &str) -> (encoder: Self)
        ensures
            encoder == best_encoder(listing@),
    {
        if VideoEncoder::H264Nvenc.is_listed_in(listing) {
            VideoEncoder::H264Nvenc
        } else if VideoEncoder::H264Amf.is_listed_in(listing) {
            VideoEncoder::H264Amf
        } else if VideoEncoder::H264Qsv.is_listed_in(listing) {
            VideoEncoder::H264Qsv
        } else {
            VideoEncoder::Libx264
        }
    }
}

/// How the transcoding tool encodes.
#[derive(Debug, Clone, PartialEq, Eq)]
pub struct FfmpegConfig {
    pub encoder: VideoEncoder,
    pub preset: String,
    pub crf: u8,
    pub audio_bitrate: String,
}

impl FfmpegConfig {
    /// The usual settings with the given encoder.
    pub fn with_encoder(encoder: VideoEncoder) -> (c: Self)
        ensures
            c.encoder == encoder,
            c.preset@ == "fast"@,
            c.crf == 23,
            c.audio_bitrate@ == "128k"@,
    {
        FfmpegConfig {
            encoder,
            preset: "fast".to_owned(),
            crf: 23,
            audio_bitrate: "128k".to_owned(),
        }
    }
}

/// The settings that are kept between runs.
#[derive(Debug, Clone, PartialEq, Eq)]
pub struct PersistedConfig {
    /// The output directory that the user chose, if any.
    pub output_dir: Option<String>,
}

/// The settings of a run.
#[derive(Debug, Clone, PartialEq, Eq)]
pub struct Config {
    pub ffmpeg: FfmpegConfig,
    pub output_dir: String,
    pub persisted: PersistedConfig,
}

/// Hands out the one change of the settings that is kept between runs.
#[derive(Debug, Clone, Copy, PartialEq, Eq)]
pub struct ConfigGuard {}

/// `dir` and `name` as one path: a `/` stands between them unless `dir` is
/// empty or ends in one.
pub open spec fn joined_path(dir: Seq<char>, name: Seq<char>) -> Seq<char> {
    if dir.len() == 0 || ends_with(dir, "/"@) {
        dir + name
    } else {
        dir + "/"@ + name
    }
}

/// `dir` and `name` as one path.
pub fn join_path(dir: &str, name: &str) -> (r: String)
    ensures
        r@ == joined_path(dir@, name@),
{
    let mut v = chars_of(dir);
    if v.len() != 0 && !has_suffix(&v, &chars_of("/")) {
        append_str(&mut v, "/");
    }
    append_str(&mut v, name);
    string_of(&v)
}

/// Whether a character may not stand in a file name.
pub open spec fn is_reserved(c: char) -> bool {
    c == '/' || c == '\\' || c == ':' || c == '*' || c == '?' || c == '"' || c == '<' || c == '>'
        || c == '|'
}

/// `s` with `_` in place of every character that may not stand in a file
/// name, and without white space at its ends.
pub open spec fn sanitized(s: Seq<char>) -> Seq<char> {
    trimmed(
        Seq::new(
            s.len(),
            |i: int|
                if is_reserved(s[i]) {
                    '_'
                } else {
                    s[i]
                },
        ),
    )
}

/// A name that can be part of a path.
pub fn sanitize_name(s: &str) -> (r: String)
    ensures
        r@ == sanitized(s@),
{
    let v = chars_of(s);
    let mut w: Vec<char> = Vec::new();
    let mut i: usize = 0;
    while i < v.len()
        invariant
            i <= v.len(),
            w@ == Seq::new(
                i as nat,
                |k: int|
                    if is_reserved(v@[k]) {
                        '_'
                    } else {
                        v@[k]
                    },
            ),
        decreases v.len() - i,
    {
        let c = v[i];
        if c == '/' || c == '\\' || c == ':' || c == '*' || c == '?' || c == '"' || c == '<' || c
            == '>' || c == '|' {
            w.push('_');
        } else {
            w.push(c);
        }
        i += 1;
        assert(w@ =~= Seq::new(
            i as nat,
            |k: int|
                if is_reserved(v@[k]) {
                    '_'
                } else {
                    v@[k]
                },
        ));
    }
    assert(w@ =~= Seq::new(
        s@.len(),
        |k: int|
            if is_reserved(s@[k]) {
                '_'
            } else {
                s@[k]
            },
    ));
    string_of(&trim(&w))
}

impl Config {
    /// The settings of a run: the chosen output directory where one was
    /// kept, `default_output_dir` where none was.
    pub fn new(ffmpeg: FfmpegConfig, persisted: PersistedConfig, default_output_dir: &str) -> (c:
        Self)
        ensures
            c.ffmpeg == ffmpeg,
            c.persisted == persisted,
            c.output_dir@ == match persisted.output_dir {
                Some(dir) => dir@,
                None => default_output_dir@,
            },
    {
        let output_dir = match &persisted.output_dir {
            Some(dir) => dir.clone(),
            None => default_output_dir.to_owned(),
        };
        Config { ffmpeg, output_dir, persisted }
    }

    /// The directory of a project.
    pub fn project_dir(&self, project_name: &str) -> (r: String)
        ensures
            r@ == joined_path(self.output_dir@, project_name@),
    {
        join_path(self.output_dir.as_str(), project_name)
    }

    /// The directory of the clips of a project.
    pub fn clips_dir(&self, project_name: &str) -> (r: String)
        ensures
            r@ == joined_path(joined_path(self.output_dir@, project_name@), "clips"@),
    {
        join_path(self.project_dir(project_name).as_str(), "clips")
    }

    /// The directory of the clips of one streamer in a project.
    pub fn streamer_clips_dir(&self, project_name: &str, streamer_name: &str) -> (r: String)
        ensures
            r@ == joined_path(
                joined_path(joined_path(self.output_dir@, project_name@), "clips"@),
                sanitized(streamer_name@),
            ),
    {
        join_path(self.clips_dir(project_name).as_str(), sanitize_name(streamer_name).as_str())
    }

    /// Chooses an output directory, for this run and for those to come.
    pub fn set_output_dir(&mut self, path: String)
        ensures
            final(self).output_dir@ == path@,
            final(self).persisted.output_dir.deep_view() == Some(path@),
            final(self).ffmpeg == old(self).ffmpeg,
    {
        self.output_dir = path.clone();
        self.persisted.output_dir = Some(path);
    }
}

impl ConfigGuard {
    /// Chooses an output directory in `config`.
    pub fn set_output_dir(&self, config: &mut Config, path: String)
        ensures
            final(config).output_dir@ == path@,
            final(config).persisted.output_dir.deep_view() == Some(path@),
            final(config).ffmpeg == old(config).ffmpeg,
    {
        config.set_output_dir(path);
    }
}

/// The guard through which the settings are changed.
pub fn get_config_mut() -> ConfigGuard {
    ConfigGuard {  }
}

} // verus!
