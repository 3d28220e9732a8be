//! A montage: clips in a row, with an optional overlay.

use crate::error::ExportError;
use crate::export::ffmpeg::RunOutcome;
use crate::text::{
    append_chars, append_decimal, append_hundredths, append_str, chars_of, conjoin, contains,
    decimal, has_substring, hundredths_text, join, joined, push_text, replace_all,
    replaced, rows, string_of,
};
use vstd::prelude::*;

verus! {

/// The longest that the export of a montage may take, in seconds.
pub const MONTAGE_TIMEOUT_SECS: u64 = 900;

/// The corner in which an overlay stands.
#[derive(Debug, Clone, Copy, PartialEq, Eq, Structural)]
pub enum OverlayPosition {
    TopLeft,
    TopRight,
    BottomLeft,
    BottomRight,
}

/// The coordinates of a text in a corner, `margin` pixels from the edges,
/// as the drawing filter of the transcoding tool reads them.
pub open spec fn coords(position: OverlayPosition, margin: u32) -> Seq<char> {
    let m = decimal(margin as nat);
    match position {
        OverlayPosition::TopLeft => "x="@ + m + ":y="@ + m,
        OverlayPosition::TopRight => "x=w-tw-"@ + m + ":y="@ + m,
        OverlayPosition::BottomLeft => "x="@ + m + ":y=h-th-"@ + m,
        OverlayPosition::BottomRight => "x=w-tw-"@ + m + ":y=h-th-"@ + m,
    }
}

impl OverlayPosition {
    /// The coordinates of a text in this corner.
    pub fn to_ffmpeg_coords(&self, margin: u32) -> (r: String)
        ensures
            r@ == coords(*self, margin),
    {
        let (x, y) = match self {
            OverlayPosition::TopLeft => ("x=", ":y="),
            OverlayPosition::TopRight => ("x=w-tw-", ":y="),
            OverlayPosition::BottomLeft => ("x=", ":y=h-th-"),
            OverlayPosition::BottomRight => ("x=w-tw-", ":y=h-th-"),
        };
        let mut v = chars_of(x);
        append_decimal(&mut v, margin as u64);
        append_str(&mut v, y);
        append_decimal(&mut v, margin as u64);
        string_of(&v)
    }
}

/// A text that is drawn over the clips.
#[derive(Debug, Clone, PartialEq, Eq)]
pub struct OverlayConfig {
    /// The text; `{streamer}` stands for the name of the streamer.
    pub text: String,
    pub position: OverlayPosition,
    /// The size of the font in pixels.
    pub font_size: u32,
    /// The colour of the text, as six hexadecimal digits.
    pub color: String,
    /// The colour of the box behind the text, if there is one.
    pub box_color: Option<String>,
}

/// One clip of a montage.
#[derive(Debug, Clone, PartialEq, Eq)]
pub struct MontageClip {
    pub path: String,
    pub duration_ms: i64,
    pub streamer_name: String,
}

/// The clips of a montage in their order, and what stands between and over
/// them.
#[derive(Debug, Clone, PartialEq, Eq)]
pub struct MontageConfig {
    pub clips: Vec<MontageClip>,
    /// The duration of a transition, in milliseconds; 0 for none.
    pub transition_duration_ms: i64,
    pub overlay: Option<OverlayConfig>,
}

/// The durations of the first `n` clips, added up.
pub open spec fn clips_duration(clips: Seq<MontageClip>, n: nat) -> int
    decreases n,
{
    if n == 0 || n > clips.len() {
        0
    } else {
        clips_duration(clips, (n - 1) as nat) + clips[n - 1].duration_ms
    }
}

impl MontageConfig {
    /// The duration of the montage: that of its clips, less one transition
    /// for each two clips that follow one another, since a transition
    /// overlaps both; 0 for no clips.
    pub open spec fn total(&self) -> int {
        if self.clips.len() == 0 {
            0
        } else {
            clips_duration(self.clips@, self.clips.len() as nat) - (self.clips.len() - 1)
                * self.transition_duration_ms
        }
    }

    /// The duration of the montage, in milliseconds.
    pub fn total_duration(&self) -> (r: i64)
        requires
            i64::MIN <= self.total() <= i64::MAX,
        ensures
            r == self.total(),
    {
        if self.clips.len() == 0 {
            return 0;
        }
        let mut sum: i128 = 0;
        let mut i: usize = 0;
        while i < self.clips.len()
            invariant
                i <= self.clips.len(),
                sum == clips_duration(self.clips@, i as nat),
                -(i as int) * 0x8000_0000_0000_0000 <= sum <= (i as int) * 0x8000_0000_0000_0000,
            decreases self.clips.len() - i,
        {
            assert((i as int) * 0x8000_0000_0000_0000 <= 0xffff_ffff_ffff_ffff
                * 0x8000_0000_0000_0000) by (nonlinear_arith)
                requires
                    i <= 0xffff_ffff_ffff_ffff,
            ;
            sum = sum + self.clips[i].duration_ms as i128;
            i += 1;
            assert((i as int) * 0x8000_0000_0000_0000 == (i - 1) * 0x8000_0000_0000_0000
                + 0x8000_0000_0000_0000) by (nonlinear_arith);
        }
        let gaps: i128 = (self.clips.len() - 1) as i128;
        assert(-0x8000_0000_0000_0000 * 0xffff_ffff_ffff_ffff <= gaps
            * self.transition_duration_ms <= 0x8000_0000_0000_0000 * 0xffff_ffff_ffff_ffff)
            by (nonlinear_arith)
            requires
                0 <= gaps <= 0xffff_ffff_ffff_ffff,
                -0x8000_0000_0000_0000 <= self.transition_duration_ms < 0x8000_0000_0000_0000,
        ;
        let overlap: i128 = gaps * (self.transition_duration_ms as i128);
        (sum - overlap) as i64
    }
}

/// The margin of an overlay, in pixels.
pub const OVERLAY_MARGIN: u32 = 20;

/// How many of the last lines of the tool's output are kept.
pub const TAIL_LINES: usize = 50;

/// How many lines an error message quotes at most.
pub const QUOTED_LINES: usize = 5;

/// The text of an overlay as the drawing filter reads it: the name of the
/// streamer in place of `{streamer}`, and a backslash before every colon
/// and every single quote.
pub open spec fn overlay_text(text: Seq<char>, streamer_name: Seq<char>) -> Seq<char> {
    replaced(
        replaced(replaced(text, "{streamer}"@, streamer_name), ":"@, "\\:"@),
        "'"@,
        "\\'"@,
    )
}

/// The path of a font as the drawing filter reads it: with slashes in place
/// of backslashes, and a backslash before the colon of a drive.
pub open spec fn font_text(font_path: Seq<char>) -> Seq<char> {
    replaced(replaced(font_path, "\\"@, "/"@), ":/"@, "\\:/"@)
}

/// The filter that draws an overlay for the clip of one streamer.
pub open spec fn overlay_filter(
    overlay: OverlayConfig,
    streamer_name: Seq<char>,
    font_path: Seq<char>,
) -> Seq<char> {
    "drawtext=fontfile='"@ + font_text(font_path) + "':text='"@ + overlay_text(
        overlay.text@,
        streamer_name,
    ) + "':"@ + coords(overlay.position, OVERLAY_MARGIN) + ":fontsize="@ + decimal(
        overlay.font_size as nat,
    ) + ":fontcolor=#"@ + overlay.color@ + match overlay.box_color {
        Some(color) => ":box=1:boxcolor="@ + color@ + ":boxborderw=10"@,
        None => Seq::<char>::empty(),
    }
}

/// The name of the fading filter: of video, or of audio.
pub open spec fn fade_name(audio: bool) -> Seq<char> {
    if audio {
        "afade"@
    } else {
        "fade"@
    }
}

/// The filter that fades a clip in over `fade_ms`.
pub open spec fn fade_in(audio: bool, fade_ms: int) -> Seq<char> {
    fade_name(audio) + "=t=in:st=0:d="@ + hundredths_text(fade_ms as nat)
}

/// The filter that fades a clip of `duration_ms` out over its last
/// `fade_ms`; a clip shorter than that fades from its start.
pub open spec fn fade_out(audio: bool, duration_ms: int, fade_ms: int) -> Seq<char> {
    let start = if duration_ms - fade_ms > 0 {
        duration_ms - fade_ms
    } else {
        0
    };
    fade_name(audio) + "=t=out:st="@ + hundredths_text(start as nat) + ":d="@ + hundredths_text(
        fade_ms as nat,
    )
}

/// The fades of clip `i` of `n`: none without a transition or for a single
/// clip; the first clip fades out, the last fades in, and those between do
/// both.
pub open spec fn fades(audio: bool, n: int, i: int, duration_ms: int, fade_ms: int) -> Seq<
    Seq<char>,
> {
    if fade_ms <= 0 || n <= 1 {
        Seq::empty()
    } else if i == 0 {
        seq![fade_out(audio, duration_ms, fade_ms)]
    } else if i == n - 1 {
        seq![fade_in(audio, fade_ms)]
    } else {
        seq![fade_in(audio, fade_ms), fade_out(audio, duration_ms, fade_ms)]
    }
}

/// Filters in a row, separated by commas; `idle` where there are none.
pub open spec fn chain(filters: Seq<Seq<char>>, idle: Seq<char>) -> Seq<char> {
    if filters.len() == 0 {
        idle
    } else {
        joined(filters, ","@)
    }
}

/// The video filters of clip `i`: the overlay where there is one, then the
/// fades.
pub open spec fn video_chain(config: MontageConfig, font_path: Seq<char>, i: int) -> Seq<char> {
    let clip = config.clips@[i];
    let drawn = match config.overlay {
        Some(overlay) => seq![overlay_filter(overlay, clip.streamer_name@, font_path)],
        None => Seq::<Seq<char>>::empty(),
    };
    chain(
        drawn + fades(
            false,
            config.clips.len() as int,
            i,
            clip.duration_ms as int,
            config.transition_duration_ms as int,
        ),
        "null"@,
    )
}

/// The audio filters of clip `i`: the fades.
pub open spec fn audio_chain(config: MontageConfig, i: int) -> Seq<char> {
    chain(
        fades(
            true,
            config.clips.len() as int,
            i,
            config.clips@[i].duration_ms as int,
            config.transition_duration_ms as int,
        ),
        "anull"@,
    )
}

/// The two filter chains of clip `i`, from its input streams to the streams
/// `v<i>` and `a<i>`.
pub open spec fn clip_chains(config: MontageConfig, font_path: Seq<char>, i: int) -> Seq<
    Seq<char>,
> {
    let index = decimal(i as nat);
    seq![
        "["@ + index + ":v]"@ + video_chain(config, font_path, i) + "[v"@ + index + "]"@,
        "["@ + index + ":a]"@ + audio_chain(config, i) + "[a"@ + index + "]"@,
    ]
}

/// The filter chains of the first `k` clips.
pub open spec fn all_chains(config: MontageConfig, font_path: Seq<char>, k: nat) -> Seq<Seq<char>>
    decreases k,
{
    if k == 0 {
        Seq::empty()
    } else {
        all_chains(config, font_path, (k - 1) as nat) + clip_chains(config, font_path, k - 1)
    }
}

/// The streams of the first `k` clips as the inputs of the concatenation:
/// `[v0][a0][v1][a1]` and so on.
pub open spec fn concat_inputs(k: nat) -> Seq<char>
    decreases k,
{
    if k == 0 {
        Seq::empty()
    } else {
        concat_inputs((k - 1) as nat) + "[v"@ + decimal((k - 1) as nat) + "][a"@ + decimal(
            (k - 1) as nat,
        ) + "]"@
    }
}

/// The filter graph of a montage: nothing for no clips; for one clip its
/// video chain and its audio passed on; for more, the chains of every clip
/// and their concatenation, separated by semicolons.
pub open spec fn filter_complex(config: MontageConfig, font_path: Seq<char>) -> Seq<char> {
    let n = config.clips.len();
    if n == 0 {
        Seq::empty()
    } else if n == 1 {
        "[0:v]"@ + video_chain(config, font_path, 0) + "[vout];[0:a]anull[aout]"@
    } else {
        joined(
            all_chains(config, font_path, n as nat).push(
                concat_inputs(n as nat) + "concat=n="@ + decimal(n as nat)
                    + ":v=1:a=1[vout][aout]"@,
            ),
            ";"@,
        )
    }
}

/// The paths of the first `k` clips as inputs: `-i` before each.
pub open spec fn input_args(clips: Seq<MontageClip>, k: nat) -> Seq<Seq<char>>
    decreases k,
{
    if k == 0 || k > clips.len() {
        Seq::empty()
    } else {
        input_args(clips, (k - 1) as nat) + seq!["-i"@, clips[k - 1].path@]
    }
}

/// The arguments that make a montage: the clips as inputs, the filter
/// graph, its two outputs, software encoding, AAC audio, and the same
/// output options as for a clip.
pub open spec fn montage_args(config: MontageConfig, font_path: Seq<char>, output: Seq<char>)
    -> Seq<Seq<char>> {
    seq!["-y"@] + input_args(config.clips@, config.clips.len() as nat) + seq![
        "-filter_complex"@,
        filter_complex(config, font_path),
        "-map"@,
        "[vout]"@,
        "-map"@,
        "[aout]"@,
        "-c:v"@,
        "libx264"@,
        "-preset"@,
        "fast"@,
        "-crf"@,
        "23"@,
        "-pix_fmt"@,
        "yuv420p"@,
        "-c:a"@,
        "aac"@,
        "-b:a"@,
        "128k"@,
        "-movflags"@,
        "+faststart"@,
        "-progress"@,
        "pipe:2"@,
        output,
    ]
}

/// The fades of clip `i` of `n`.
pub fn build_fades(audio: bool, n: usize, i: usize, duration_ms: i64, fade_ms: i64) -> (r: Vec<
    Vec<char>,
>)
    requires
        i < n,
    ensures
        rows(r@) == fades(audio, n as int, i as int, duration_ms as int, fade_ms as int),
{
    let mut out: Vec<Vec<char>> = Vec::new();
    assert(rows(out@) =~= Seq::<Seq<char>>::empty());
    if fade_ms <= 0 || n <= 1 {
        return out;
    }
    let name = if audio {
        "afade"
    } else {
        "fade"
    };
    if i != 0 {
        let mut v = chars_of(name);
        append_str(&mut v, "=t=in:st=0:d=");
        append_hundredths(&mut v, fade_ms as u64);
        let ghost before = rows(out@);
        out.push(v);
        assert(rows(out@) =~= before.push(fade_in(audio, fade_ms as int)));
    }
    if i != n - 1 {
        let left: i128 = duration_ms as i128 - fade_ms as i128;
        let start: u64 = if left > 0 {
            left as u64
        } else {
            0
        };
        let mut v = chars_of(name);
        append_str(&mut v, "=t=out:st=");
        append_hundredths(&mut v, start);
        append_str(&mut v, ":d=");
        append_hundredths(&mut v, fade_ms as u64);
        let ghost before = rows(out@);
        out.push(v);
        assert(rows(out@) =~= before.push(
            fade_out(audio, duration_ms as int, fade_ms as int),
        ));
    }
    out
}

/// Filters in a row, separated by commas; `idle` where there are none.
pub fn build_chain(filters: &Vec<Vec<char>>, idle: &str) -> (r: Vec<char>)
    ensures
        r@ == chain(rows(filters@), idle@),
{
    if filters.len() == 0 {
        chars_of(idle)
    } else {
        join(filters, &chars_of(","))
    }
}

/// The outcome of the export of a montage, from how the run of the tool
/// ended and from the last lines that it printed.
///
/// A run that exited with success is a success and one that was killed a
/// timeout. A run that exited otherwise fails with up to five of the kept
/// lines that speak of an error, or with its exit status where none does.
pub open spec fn montage_run_is(outcome: RunOutcome, tail: Seq<Seq<char>>, r: Result<
    (),
    ExportError,
>) -> bool {
    match outcome {
        RunOutcome::Exited { success, status } => if success {
            r is Ok
        } else {
            r matches Err(ExportError::Ffmpeg(m)) && m@ == (if error_lines(tail, tail.len()).len()
                == 0 {
                "FFmpeg exited with code: "@ + status@
            } else {
                "FFmpeg error: "@ + joined(error_lines(tail, tail.len()), "\n"@)
            })
        },
        RunOutcome::SpawnFailed(e) => r matches Err(ExportError::Ffmpeg(m)) && m@
            == "Failed to start FFmpeg: "@ + e@,
        RunOutcome::NoOutputPipe => r matches Err(ExportError::Ffmpeg(m)) && m@
            == "Failed to capture stderr"@,
        RunOutcome::WaitFailed(e) => r matches Err(ExportError::Ffmpeg(m)) && m@
            == "FFmpeg error: "@ + e@,
        RunOutcome::TimedOut => r matches Err(ExportError::Timeout(m)) && m@
            == "Montage export timed out after "@ + decimal(MONTAGE_TIMEOUT_SECS as nat)
            + " seconds"@,
    }
}

/// Whether a line of the tool's output speaks of an error.
pub open spec fn speaks_of_error(line: Seq<char>) -> bool {
    contains(line, "Error"@) || contains(line, "error"@) || contains(line, "Invalid"@)
}

/// The first lines among the first `k` of `tail` that speak of an error, at
/// most five of them, in their order.
pub open spec fn error_lines(tail: Seq<Seq<char>>, k: nat) -> Seq<Seq<char>>
    decreases k,
{
    if k == 0 || k > tail.len() {
        Seq::empty()
    } else {
        let before = error_lines(tail, (k - 1) as nat);
        if before.len() < QUOTED_LINES && speaks_of_error(tail[k - 1]) {
            before.push(tail[k - 1])
        } else {
            before
        }
    }
}

/// The last lines that the tool printed, at most fifty.
pub struct OutputTail {
    pub lines: Vec<String>,
}

/// The last `TAIL_LINES` entries of `all`; all of them where they are no
/// more.
pub open spec fn last_lines(all: Seq<Seq<char>>) -> Seq<Seq<char>> {
    if all.len() > TAIL_LINES {
        all.subrange(all.len() - TAIL_LINES, all.len() as int)
    } else {
        all
    }
}

impl OutputTail {
    /// No more lines are kept than allowed.
    pub open spec fn wf(&self) -> bool {
        self.lines.len() <= TAIL_LINES
    }

    /// A tail without lines.
    pub fn new() -> (t: Self)
        ensures
            t.wf(),
            t.lines.deep_view() == Seq::<Seq<char>>::empty(),
    {
        let t = OutputTail { lines: Vec::new() };
        assert(t.lines.deep_view() =~= Seq::<Seq<char>>::empty());
        t
    }

    /// Takes one more line and drops the oldest where the tail is full.
    pub fn push(&mut self, line: &str)
        requires
            old(self).wf(),
        ensures
            final(self).wf(),
            final(self).lines.deep_view() == last_lines(old(self).lines.deep_view().push(line@)),
    {
        let ghost before = self.lines.deep_view();
        self.lines.push(line.to_owned());
        assert(self.lines.deep_view() =~= before.push(line@));
        if self.lines.len() > TAIL_LINES {
            let ghost full = self.lines.deep_view();
            self.lines.remove(0);
            assert(self.lines.deep_view() =~= full.subrange(1, full.len() as int));
        }
    }
}

/// Exports a montage with the transcoding tool.
#[derive(Debug, Clone, Copy, PartialEq, Eq)]
pub struct MontageExporter {}

impl MontageExporter {
    pub fn new() -> Self {
        MontageExporter {  }
    }

    /// The filter that draws `overlay` for the clip of `streamer_name`, with
    /// the font at `font_path`.
    pub fn build_overlay_filter(&self, overlay: &OverlayConfig, streamer_name: &str, font_path: &str)
        -> (r: String)
        ensures
            r@ == overlay_filter(*overlay, streamer_name@, font_path@),
    {
        string_of(&draw_filter(overlay, streamer_name, font_path))
    }

    /// The filter graph of a montage, with the font at `font_path` for its
    /// overlay.
    pub fn build_filter_complex(&self, config: &MontageConfig, font_path: &str) -> (r: String)
        ensures
            r@ == filter_complex(*config, font_path@),
    {
        let n = config.clips.len();
        if n == 0 {
            return String::new();
        }
        if n == 1 {
            let mut v = chars_of("[0:v]");
            append_chars(&mut v, &build_video_chain(config, font_path, 0));
            append_str(&mut v, "[vout];[0:a]anull[aout]");
            return string_of(&v);
        }
        let mut parts: Vec<Vec<char>> = Vec::new();
        let mut inputs: Vec<char> = Vec::new();
        assert(rows(parts@) =~= Seq::<Seq<char>>::empty());
        let mut i: usize = 0;
        while i < n
            invariant
                i <= n,
                n == config.clips.len(),
                rows(parts@) == all_chains(*config, font_path@, i as nat),
                inputs@ == concat_inputs(i as nat),
            decreases n - i,
        {
            let mut index: Vec<char> = Vec::new();
            append_decimal(&mut index, i as u64);
            assert(index@ =~= decimal(i as nat));
            let mut video = chars_of("[");
            append_chars(&mut video, &index);
            append_str(&mut video, ":v]");
            append_chars(&mut video, &build_video_chain(config, font_path, i));
            append_str(&mut video, "[v");
            append_chars(&mut video, &index);
            append_str(&mut video, "]");
            let mut audio = chars_of("[");
            append_chars(&mut audio, &index);
            append_str(&mut audio, ":a]");
            append_chars(&mut audio, &build_audio_chain(config, i));
            append_str(&mut audio, "[a");
            append_chars(&mut audio, &index);
            append_str(&mut audio, "]");
            let ghost before = rows(parts@);
            parts.push(video);
            parts.push(audio);
            assert(rows(parts@) =~= before + clip_chains(*config, font_path@, i as int));
            append_str(&mut inputs, "[v");
            append_chars(&mut inputs, &index);
            append_str(&mut inputs, "][a");
            append_chars(&mut inputs, &index);
            append_str(&mut inputs, "]");
            i += 1;
        }
        append_str(&mut inputs, "concat=n=");
        append_decimal(&mut inputs, n as u64);
        append_str(&mut inputs, ":v=1:a=1[vout][aout]");
        let ghost before = rows(parts@);
        parts.push(inputs);
        assert(rows(parts@) =~= before.push(inputs@));
        string_of(&join(&parts, &chars_of(";")))
    }

    /// The arguments of the run that makes the montage at `output`.
    pub fn build_command(&self, config: &MontageConfig, output: &str, font_path: &str) -> (args:
        Vec<String>)
        ensures
            args.deep_view() == montage_args(*config, font_path@, output@),
    {
        let mut args: Vec<String> = Vec::new();
        assert(args.deep_view() =~= Seq::<Seq<char>>::empty());
        push_text(&mut args, "-y");
        let mut i: usize = 0;
        while i < config.clips.len()
            invariant
                i <= config.clips.len(),
                args.deep_view() == seq!["-y"@] + input_args(config.clips@, i as nat),
            decreases config.clips.len() - i,
        {
            push_text(&mut args, "-i");
            push_text(&mut args, config.clips[i].path.as_str());
            i += 1;
        }
        let filter = self.build_filter_complex(config, font_path);
        push_text(&mut args, "-filter_complex");
        push_text(&mut args, filter.as_str());
        push_text(&mut args, "-map");
        push_text(&mut args, "[vout]");
        push_text(&mut args, "-map");
        push_text(&mut args, "[aout]");
        push_text(&mut args, "-c:v");
        push_text(&mut args, "libx264");
        push_text(&mut args, "-preset");
        push_text(&mut args, "fast");
        push_text(&mut args, "-crf");
        push_text(&mut args, "23");
        push_text(&mut args, "-pix_fmt");
        push_text(&mut args, "yuv420p");
        push_text(&mut args, "-c:a");
        push_text(&mut args, "aac");
        push_text(&mut args, "-b:a");
        push_text(&mut args, "128k");
        push_text(&mut args, "-movflags");
        push_text(&mut args, "+faststart");
        push_text(&mut args, "-progress");
        push_text(&mut args, "pipe:2");
        push_text(&mut args, output);
        args
    }

    /// What is wrong with a montage before any run: it has no clips, or the
    /// file of a clip is missing. `missing` is the path of the first clip
    /// whose file is not there, if there is one.
    pub fn check_inputs(&self, config: &MontageConfig, missing: Option<&str>) -> (r: Result<
        (),
        ExportError,
    >)
        ensures
            if config.clips.len() == 0 {
                r matches Err(ExportError::Ffmpeg(m)) && m@ == "No clips to export"@
            } else {
                match missing {
                    Some(path) => r matches Err(ExportError::Ffmpeg(m)) && m@
                        == "Clip file not found: "@ + path@,
                    None => r is Ok,
                }
            },
    {
        if config.clips.len() == 0 {
            return Err(ExportError::Ffmpeg("No clips to export".to_owned()));
        }
        match missing {
            Some(path) => Err(ExportError::Ffmpeg(conjoin("Clip file not found: ", path))),
            None => Ok(()),
        }
    }

    /// The outcome of the export, from how the run of the tool ended and
    /// from the last lines that it printed.
    pub fn export_with_progress(&self, outcome: RunOutcome, tail: &OutputTail) -> (r: Result<
        (),
        ExportError,
    >)
        ensures
            montage_run_is(outcome, tail.lines.deep_view(), r),
    {
        match outcome {
            RunOutcome::Exited { success, status } => {
                if success {
                    return Ok(());
                }
                let quoted = quote_errors(&tail.lines);
                if quoted.len() == 0 {
                    Err(ExportError::Ffmpeg(conjoin("FFmpeg exited with code: ", status.as_str())))
                } else {
                    let mut v = chars_of("FFmpeg error: ");
                    append_chars(&mut v, &join(&quoted, &chars_of("\n")));
                    Err(ExportError::Ffmpeg(string_of(&v)))
                }
            },
            RunOutcome::SpawnFailed(e) => Err(
                ExportError::Ffmpeg(conjoin("Failed to start FFmpeg: ", e.as_str())),
            ),
            RunOutcome::NoOutputPipe => Err(
                ExportError::Ffmpeg("Failed to capture stderr".to_owned()),
            ),
            RunOutcome::WaitFailed(e) => Err(
                ExportError::Ffmpeg(conjoin("FFmpeg error: ", e.as_str())),
            ),
            RunOutcome::TimedOut => {
                let mut v = chars_of("Montage export timed out after ");
                append_decimal(&mut v, MONTAGE_TIMEOUT_SECS);
                append_str(&mut v, " seconds");
                Err(ExportError::Timeout(string_of(&v)))
            },
        }
    }
}

/// The filter that draws an overlay.
fn draw_filter(overlay: &OverlayConfig, streamer_name: &str, font_path: &str) -> (r: Vec<char>)
    ensures
        r@ == overlay_filter(*overlay, streamer_name@, font_path@),
{
    let named = replace_all(
        &chars_of(overlay.text.as_str()),
        &chars_of("{streamer}"),
        &chars_of(streamer_name),
    );
    let colons = replace_all(&named, &chars_of(":"), &chars_of("\\:"));
    let text = replace_all(&colons, &chars_of("'"), &chars_of("\\'"));
    let slashes = replace_all(&chars_of(font_path), &chars_of("\\"), &chars_of("/"));
    let font = replace_all(&slashes, &chars_of(":/"), &chars_of("\\:/"));
    let mut v = chars_of("drawtext=fontfile='");
    append_chars(&mut v, &font);
    append_str(&mut v, "':text='");
    append_chars(&mut v, &text);
    append_str(&mut v, "':");
    append_str(&mut v, overlay.position.to_ffmpeg_coords(OVERLAY_MARGIN).as_str());
    append_str(&mut v, ":fontsize=");
    append_decimal(&mut v, overlay.font_size as u64);
    append_str(&mut v, ":fontcolor=#");
    append_str(&mut v, overlay.color.as_str());
    match &overlay.box_color {
        Some(color) => {
            append_str(&mut v, ":box=1:boxcolor=");
            append_str(&mut v, color.as_str());
            append_str(&mut v, ":boxborderw=10");
        },
        None => {},
    }
    assert(v@ =~= overlay_filter(*overlay, streamer_name@, font_path@));
    v
}

/// The video filters of clip `i`.
fn build_video_chain(config: &MontageConfig, font_path: &str, i: usize) -> (r: Vec<char>)
    requires
        i < config.clips.len(),
    ensures
        r@ == video_chain(*config, font_path@, i as int),
{
    let clip = &config.clips[i];
    let mut filters: Vec<Vec<char>> = Vec::new();
    assert(rows(filters@) =~= Seq::<Seq<char>>::empty());
    match &config.overlay {
        Some(overlay) => {
            let drawn = draw_filter(overlay, clip.streamer_name.as_str(), font_path);
            filters.push(drawn);
            assert(rows(filters@) =~= seq![drawn@]);
        },
        None => {},
    }
    let ghost drawn = rows(filters@);
    let faded = build_fades(
        false,
        config.clips.len(),
        i,
        clip.duration_ms,
        config.transition_duration_ms,
    );
    let mut k: usize = 0;
    while k < faded.len()
        invariant
            k <= faded.len(),
            rows(filters@) == drawn + rows(faded@).take(k as int),
        decreases faded.len() - k,
    {
        let ghost before = rows(filters@);
        let copy = crate::text::slice_of(&faded[k], 0, faded[k].len());
        assert(copy@ =~= faded@[k as int]@);
        filters.push(copy);
        assert(rows(filters@) =~= before.push(faded@[k as int]@));
        assert(rows(faded@).take(k + 1) =~= rows(faded@).take(k as int).push(
            faded@[k as int]@,
        ));
        k += 1;
    }
    assert(rows(faded@).take(faded.len() as int) =~= rows(faded@));
    build_chain(&filters, "null")
}

/// The audio filters of clip `i`.
fn build_audio_chain(config: &MontageConfig, i: usize) -> (r: Vec<char>)
    requires
        i < config.clips.len(),
    ensures
        r@ == audio_chain(*config, i as int),
{
    let faded = build_fades(
        true,
        config.clips.len(),
        i,
        config.clips[i].duration_ms,
        config.transition_duration_ms,
    );
    build_chain(&faded, "anull")
}

/// The first lines of `tail` that speak of an error, at most five.
fn quote_errors(tail: &Vec<String>) -> (r: Vec<Vec<char>>)
    ensures
        rows(r@) == error_lines(tail.deep_view(), tail.len() as nat),
{
    let mut out: Vec<Vec<char>> = Vec::new();
    assert(rows(out@) =~= Seq::<Seq<char>>::empty());
    let mut k: usize = 0;
    while k < tail.len()
        invariant
            k <= tail.len(),
            rows(out@) == error_lines(tail.deep_view(), k as nat),
        decreases tail.len() - k,
    {
        assert(tail.deep_view()[k as int] == tail@[k as int]@);
        let line = chars_of(tail[k].as_str());
        if out.len() < QUOTED_LINES && (has_substring(&line, &chars_of("Error")) || has_substring(
            &line,
            &chars_of("error"),
        ) || has_substring(&line, &chars_of("Invalid"))) {
            let ghost before = rows(out@);
            out.push(line);
            assert(rows(out@) =~= before.push(line@));
        }
        k += 1;
    }
    out
}

impl Default for MontageExporter {
    fn default() -> Self {
        MontageExporter::new()
    }
}

} // verus!
