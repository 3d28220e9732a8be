//! The transcoding backend: the command lines of the tool, the reading of
//! how a run ended, the check of the output, and the plan of attempts.

use crate::config::{FfmpegConfig, VideoEncoder};
use crate::error::ExportError;
use crate::export::{ClipTiming, MAX_RETRIES};
use crate::text::{
    all_digits, append_decimal, append_str, capped, chars_of, conjoin, decimal, digit_value,
    digits_from, format_seconds, index_of_from, number, position_from, push_chars, push_text,
    read_number, seconds_text, string_of, trim, trimmed,
};
use vstd::prelude::*;

verus! {

/// The longest that one run of the tool may take, in seconds.
pub const EXPORT_TIMEOUT_SECS: u64 = 300;

/// Exports a clip with the transcoding tool.
#[derive(Debug, Clone, Copy, PartialEq, Eq)]
pub struct FfmpegExporter {
    /// Whether the first attempt tries to copy the streams as they are.
    pub try_copy_first: bool,
}

/// The arguments that cut a clip out of `input` by copying its streams:
/// seek before the input, copy the codecs, optimise for the web, and report
/// progress on the error stream.
pub open spec fn copy_args(input: Seq<char>, timing: ClipTiming, output: Seq<char>) -> Seq<
    Seq<char>,
> {
    seq![
        "-y"@,
        "-ss"@,
        seconds_text(timing.start_ms as int),
        "-i"@,
        input,
        "-t"@,
        seconds_text(timing.duration_ms as int),
        "-c"@,
        "copy"@,
        "-movflags"@,
        "+faststart"@,
        "-progress"@,
        "pipe:2"@,
        output,
    ]
}

/// The arguments that select and tune the video encoder.
pub open spec fn video_args(config: FfmpegConfig) -> Seq<Seq<char>> {
    let quality = decimal(config.crf as nat);
    match config.encoder {
        VideoEncoder::Libx264 => seq![
            "-c:v"@,
            "libx264"@,
            "-preset"@,
            config.preset@,
            "-crf"@,
            quality,
        ],
        VideoEncoder::H264Nvenc => seq![
            "-c:v"@,
            "h264_nvenc"@,
            "-preset"@,
            "p4"@,
            "-cq"@,
            quality,
        ],
        VideoEncoder::H264Amf => seq![
            "-c:v"@,
            "h264_amf"@,
            "-quality"@,
            "speed"@,
            "-rc"@,
            "cqp"@,
            "-qp"@,
            quality,
        ],
        VideoEncoder::H264Qsv => seq![
            "-c:v"@,
            "h264_qsv"@,
            "-preset"@,
            "fast"@,
            "-global_quality"@,
            quality,
        ],
    }
}

/// The arguments that cut a clip out of `input` by encoding it anew: the
/// cut, the video encoder, AAC audio at the configured bit rate, and the
/// same output options as for a copy.
pub open spec fn encode_args(
    config: FfmpegConfig,
    input: Seq<char>,
    timing: ClipTiming,
    output: Seq<char>,
) -> Seq<Seq<char>> {
    seq![
        "-y"@,
        "-ss"@,
        seconds_text(timing.start_ms as int),
        "-i"@,
        input,
        "-t"@,
        seconds_text(timing.duration_ms as int),
    ] + video_args(config) + seq![
        "-c:a"@,
        "aac"@,
        "-b:a"@,
        config.audio_bitrate@,
        "-movflags"@,
        "+faststart"@,
        "-progress"@,
        "pipe:2"@,
        output,
    ]
}

/// The arguments with which the probing tool prints the duration of the
/// file at `path`, in seconds, and nothing else.
pub open spec fn probe_args(path: Seq<char>) -> Seq<Seq<char>> {
    seq![
        "-v"@,
        "error"@,
        "-show_entries"@,
        "format=duration"@,
        "-of"@,
        "default=noprint_wrappers=1:nokey=1"@,
        path,
    ]
}

/// How a run of a tool ended.
#[derive(Debug, Clone, PartialEq, Eq)]
pub enum RunOutcome {
    /// The tool could not be started.
    SpawnFailed(String),
    /// The tool started, but its output could not be captured.
    NoOutputPipe,
    /// The tool ran to its end; `status` is its exit status as text.
    Exited { success: bool, status: String },
    /// Waiting for the tool failed.
    WaitFailed(String),
    /// The tool ran longer than allowed and was killed.
    TimedOut,
}

/// The text of the timeout error.
pub open spec fn timeout_message() -> Seq<char> {
    "Export timed out after "@ + decimal(EXPORT_TIMEOUT_SECS as nat) + " seconds"@
}

/// What a run of the transcoding tool that ended in `outcome` means for the
/// export: success for a run that exited with success, a timeout for a run
/// that was killed, and a failure of the tool for every other.
pub open spec fn transcode_run_is(outcome: RunOutcome, r: Result<(), ExportError>) -> bool {
    match outcome {
        RunOutcome::Exited { success, status } => if success {
            r is Ok
        } else {
            r matches Err(ExportError::Ffmpeg(m)) && m@ == "FFmpeg exited with code: "@ + status@
        },
        RunOutcome::SpawnFailed(e) => r matches Err(ExportError::Ffmpeg(m)) && m@
            == "Failed to start FFmpeg: "@ + e@,
        RunOutcome::NoOutputPipe => r matches Err(ExportError::Ffmpeg(m)) && m@
            == "Failed to capture stderr"@,
        RunOutcome::WaitFailed(e) => r matches Err(ExportError::Ffmpeg(m)) && m@
            == "FFmpeg error: "@ + e@,
        RunOutcome::TimedOut => r matches Err(ExportError::Timeout(m)) && m@ == timeout_message(),
    }
}

/// The text of the timeout error.
pub fn timeout_text() -> (r: String)
    ensures
        r@ == timeout_message(),
{
    let mut v = chars_of("Export timed out after ");
    append_decimal(&mut v, EXPORT_TIMEOUT_SECS);
    append_str(&mut v, " seconds");
    string_of(&v)
}

/// How the output of the probing tool was obtained.
#[derive(Debug, Clone, PartialEq, Eq)]
pub enum ProbeOutcome {
    /// The probing tool could not be run.
    SpawnFailed(String),
    /// The probing tool ran; `stdout` is what it printed.
    Exited { success: bool, stdout: String },
}

/// The first six digits after the point, as millionths; missing digits
/// count as zeros.
pub open spec fn fraction_millionths(fraction: Seq<char>) -> nat {
    number(Seq::new(6, |i: int| if i < fraction.len() { fraction[i] } else { '0' }))
}

/// The duration that `text` writes in seconds, as digits optionally
/// followed by a point and more digits, in microseconds, rounded down.
/// `None` where `text` is not of that form.
pub open spec fn duration_micros(text: Seq<char>) -> Option<nat> {
    let dot = index_of_from(text, '.', 0);
    let whole = text.subrange(0, dot);
    let fraction = if dot < text.len() {
        text.subrange(dot + 1, text.len() as int)
    } else {
        Seq::<char>::empty()
    };
    if whole.len() > 0 && all_digits(whole) && all_digits(fraction) {
        Some(number(whole) * 1_000_000 + fraction_millionths(fraction))
    } else {
        None
    }
}

/// Whether an output of `actual_us` microseconds is too far from the
/// expected `expected_ms` milliseconds: further than 15% of the expected
/// duration and further than a second and a half.
pub open spec fn too_far(expected_ms: int, actual_us: int) -> bool {
    let expected_us = expected_ms * 1000;
    let distance = if actual_us >= expected_us {
        actual_us - expected_us
    } else {
        expected_us - actual_us
    };
    distance * 100 > expected_us * 15 && distance > 1_500_000
}

/// What the answer of the probing tool means for an output that should
/// last `expected_ms`.
pub open spec fn probe_is(outcome: ProbeOutcome, expected_ms: i64, r: Result<(), ExportError>)
    -> bool {
    match outcome {
        ProbeOutcome::SpawnFailed(e) => r matches Err(ExportError::Ffmpeg(m)) && m@
            == "Failed to run ffprobe: "@ + e@,
        ProbeOutcome::Exited { success, stdout } => if !success {
            r matches Err(ExportError::CorruptedOutput(m)) && m@
                == "ffprobe failed to read output file"@
        } else {
            match duration_micros(trimmed(stdout@)) {
                None => r matches Err(ExportError::CorruptedOutput(m)) && m@
                    == "Failed to parse duration from ffprobe"@,
                Some(actual) => if too_far(expected_ms as int, capped(actual) as int) {
                    r == Err::<(), ExportError>(
                        ExportError::DurationMismatch { expected_ms, actual_us: capped(actual) },
                    )
                } else {
                    r is Ok
                },
            }
        },
    }
}

/// Reads a duration written in seconds, in microseconds; a duration too
/// large for `u64` is read as the largest `u64`.
pub fn read_duration(text: &Vec<char>) -> (r: Option<u64>)
    ensures
        match r {
            Some(us) => duration_micros(text@) matches Some(n) && us == capped(n),
            None => duration_micros(text@) is None,
        },
{
    let dot = position_from(text, '.', 0);
    let whole = match read_number(text, 0, dot) {
        Some(n) => n,
        None => { return None; },
    };
    let start: usize = if dot < text.len() {
        dot + 1
    } else {
        dot
    };
    let ghost fraction = text@.subrange(start as int, text.len() as int);
    assert(dot == text.len() ==> fraction =~= Seq::<char>::empty());
    if !digits_from(text, start) {
        return None;
    }
    let ghost padded = Seq::new(6, |i: int| if i < fraction.len() { fraction[i] } else { '0' });
    let mut millionths: u64 = 0;
    let mut k: usize = 0;
    while k < 6
        invariant
            k <= 6,
            start <= text.len(),
            fraction == text@.subrange(start as int, text.len() as int),
            all_digits(fraction),
            padded == Seq::new(6, |i: int| if i < fraction.len() { fraction[i] } else { '0' }),
            millionths == number(padded.take(k as int)),
            millionths < 1_000_000,
            k < 6 ==> millionths < 100_000,
        decreases 6 - k,
    {
        assert(padded.take(k + 1).drop_last() =~= padded.take(k as int));
        let d: u64 = if k < text.len() - start {
            assert(fraction[k as int] == text@[start + k]);
            (text[start + k] as u32 - '0' as u32) as u64
        } else {
            0
        };
        assert(d == digit_value(padded.take(k + 1).last()));
        proof {
            lemma_number_below(padded.take(k as int));
            lemma_number_below(padded.take(k + 1));
        }
        millionths = millionths * 10 + d;
        k += 1;
    }
    assert(padded.take(6) =~= padded);
    if whole > (u64::MAX - millionths) / 1_000_000 {
        Some(u64::MAX)
    } else {
        Some(whole * 1_000_000 + millionths)
    }
}

/// Ten to the power `n`.
pub open spec fn pow10(n: nat) -> nat
    decreases n,
{
    if n == 0 {
        1
    } else {
        10 * pow10((n - 1) as nat)
    }
}

/// Digits write a number below the power of ten of their count.
proof fn lemma_number_below(s: Seq<char>)
    requires
        s.len() <= 6,
        forall|i: int| 0 <= i < s.len() ==> '0' <= #[trigger] s[i] <= '9',
    ensures
        number(s) < pow10(s.len()),
        pow10(s.len()) <= 1_000_000,
        s.len() < 6 ==> pow10(s.len()) <= 100_000,
    decreases s.len(),
{
    reveal_with_fuel(pow10, 7);
    if s.len() > 0 {
        lemma_number_below(s.drop_last());
    }
}

/// Whether an output of `actual_us` microseconds is too far from the
/// expected `expected_ms` milliseconds.
pub fn is_too_far(expected_ms: i64, actual_us: u64) -> (b: bool)
    ensures
        b == too_far(expected_ms as int, actual_us as int),
{
    let expected_us: i128 = (expected_ms as i128) * 1000;
    let actual: i128 = actual_us as i128;
    let distance: i128 = if actual >= expected_us {
        actual - expected_us
    } else {
        expected_us - actual
    };
    distance * 100 > expected_us * 15 && distance > 1_500_000
}

impl FfmpegExporter {
    pub fn new() -> (e: Self)
        ensures
            e.try_copy_first,
    {
        FfmpegExporter { try_copy_first: true }
    }

    /// The arguments of a run that copies the streams.
    pub fn build_copy_command(&self, input: &str, timing: &ClipTiming, output: &str) -> (args:
        Vec<String>)
        ensures
            args.deep_view() == copy_args(input@, *timing, output@),
    {
        let mut args: Vec<String> = Vec::new();
        assert(args.deep_view() =~= Seq::<Seq<char>>::empty());
        push_text(&mut args, "-y");
        push_text(&mut args, "-ss");
        push_text(&mut args, format_seconds(timing.start_ms).as_str());
        push_text(&mut args, "-i");
        push_text(&mut args, input);
        push_text(&mut args, "-t");
        push_text(&mut args, format_seconds(timing.duration_ms).as_str());
        push_text(&mut args, "-c");
        push_text(&mut args, "copy");
        push_text(&mut args, "-movflags");
        push_text(&mut args, "+faststart");
        push_text(&mut args, "-progress");
        push_text(&mut args, "pipe:2");
        push_text(&mut args, output);
        args
    }

    /// The arguments of a run that encodes anew.
    pub fn build_encode_command(
        &self,
        config: &FfmpegConfig,
        input: &str,
        timing: &ClipTiming,
        output: &str,
    ) -> (args: Vec<String>)
        ensures
            args.deep_view() == encode_args(*config, input@, *timing, output@),
    {
        let mut args: Vec<String> = Vec::new();
        assert(args.deep_view() =~= Seq::<Seq<char>>::empty());
        push_text(&mut args, "-y");
        push_text(&mut args, "-ss");
        push_text(&mut args, format_seconds(timing.start_ms).as_str());
        push_text(&mut args, "-i");
        push_text(&mut args, input);
        push_text(&mut args, "-t");
        push_text(&mut args, format_seconds(timing.duration_ms).as_str());
        let mut quality: Vec<char> = Vec::new();
        append_decimal(&mut quality, config.crf as u64);
        assert(quality@ =~= decimal(config.crf as nat));
        let ghost cut = args.deep_view();
        push_text(&mut args, "-c:v");
        match config.encoder {
            VideoEncoder::Libx264 => {
                push_text(&mut args, "libx264");
                push_text(&mut args, "-preset");
                push_text(&mut args, config.preset.as_str());
                push_text(&mut args, "-crf");
            },
            VideoEncoder::H264Nvenc => {
                push_text(&mut args, "h264_nvenc");
                push_text(&mut args, "-preset");
                push_text(&mut args, "p4");
                push_text(&mut args, "-cq");
            },
            VideoEncoder::H264Amf => {
                push_text(&mut args, "h264_amf");
                push_text(&mut args, "-quality");
                push_text(&mut args, "speed");
                push_text(&mut args, "-rc");
                push_text(&mut args, "cqp");
                push_text(&mut args, "-qp");
            },
            VideoEncoder::H264Qsv => {
                push_text(&mut args, "h264_qsv");
                push_text(&mut args, "-preset");
                push_text(&mut args, "fast");
                push_text(&mut args, "-global_quality");
            },
        }
        push_chars(&mut args, &quality);
        assert(args.deep_view() =~= cut + video_args(*config));
        push_text(&mut args, "-c:a");
        push_text(&mut args, "aac");
        push_text(&mut args, "-b:a");
        push_text(&mut args, config.audio_bitrate.as_str());
        push_text(&mut args, "-movflags");
        push_text(&mut args, "+faststart");
        push_text(&mut args, "-progress");
        push_text(&mut args, "pipe:2");
        push_text(&mut args, output);
        args
    }

    /// The arguments of the probe of the output at `path`.
    pub fn build_probe_command(&self, path: &str) -> (args: Vec<String>)
        ensures
            args.deep_view() == probe_args(path@),
    {
        let mut args: Vec<String> = Vec::new();
        assert(args.deep_view() =~= Seq::<Seq<char>>::empty());
        push_text(&mut args, "-v");
        push_text(&mut args, "error");
        push_text(&mut args, "-show_entries");
        push_text(&mut args, "format=duration");
        push_text(&mut args, "-of");
        push_text(&mut args, "default=noprint_wrappers=1:nokey=1");
        push_text(&mut args, path);
        args
    }

    /// What a run of the tool that ended in `outcome` means for the export.
    /// A run that timed out is never a success.
    pub fn run_command_with_progress(&self, outcome: RunOutcome) -> (r: Result<(), ExportError>)
        ensures
            transcode_run_is(outcome, r),
    {
        match outcome {
            RunOutcome::Exited { success, status } => {
                if success {
                    Ok(())
                } else {
                    Err(ExportError::Ffmpeg(conjoin("FFmpeg exited with code: ", status.as_str())))
                }
            },
            RunOutcome::SpawnFailed(e) => Err(
                ExportError::Ffmpeg(conjoin("Failed to start FFmpeg: ", e.as_str())),
            ),
            RunOutcome::NoOutputPipe => Err(
                ExportError::Ffmpeg("Failed to capture stderr".to_owned()),
            ),
            RunOutcome::WaitFailed(e) => Err(
                ExportError::Ffmpeg(conjoin("FFmpeg error: ", e.as_str())),
            ),
            RunOutcome::TimedOut => Err(ExportError::Timeout(timeout_text())),
        }
    }

    /// Checks the output against the expected duration, from what the
    /// probing tool answered. The output passes where its duration is within
    /// 15% of the expected one or within a second and a half, whichever
    /// allows more.
    pub fn verify_output(&self, outcome: ProbeOutcome, expected_duration_ms: i64) -> (r: Result<
        (),
        ExportError,
    >)
        ensures
            probe_is(outcome, expected_duration_ms, r),
    {
        match outcome {
            ProbeOutcome::SpawnFailed(e) => Err(
                ExportError::Ffmpeg(conjoin("Failed to run ffprobe: ", e.as_str())),
            ),
            ProbeOutcome::Exited { success, stdout } => {
                if !success {
                    return Err(
                        ExportError::CorruptedOutput(
                            "ffprobe failed to read output file".to_owned(),
                        ),
                    );
                }
                let text = trim(&chars_of(stdout.as_str()));
                match read_duration(&text) {
                    None => Err(
                        ExportError::CorruptedOutput(
                            "Failed to parse duration from ffprobe".to_owned(),
                        ),
                    ),
                    Some(actual_us) => {
                        if is_too_far(expected_duration_ms, actual_us) {
                            Err(
                                ExportError::DurationMismatch {
                                    expected_ms: expected_duration_ms,
                                    actual_us,
                                },
                            )
                        } else {
                            Ok(())
                        }
                    },
                }
            },
        }
    }
}

impl Default for FfmpegExporter {
    fn default() -> (e: Self)
        ensures
            e.try_copy_first,
    {
        FfmpegExporter::new()
    }
}

/// What an export with the transcoding tool waits for.
#[derive(Debug, Clone, Copy, PartialEq, Eq, Structural)]
pub enum Stage {
    /// The run that copies the streams.
    CopyRun,
    /// The check of the copied output.
    CopyVerify,
    /// A run that encodes anew.
    EncodeRun,
    /// The check of the encoded output.
    EncodeVerify,
    /// Nothing: the export has ended.
    Done,
}

/// The state of an export with the transcoding tool: the number of the
/// attempt, from 1, and what it waits for.
#[derive(Debug, Clone, Copy, PartialEq, Eq, Structural)]
pub struct FfmpegExport {
    pub attempt: u32,
    pub stage: Stage,
}

/// What the caller does next.
#[derive(Debug, PartialEq, Eq)]
pub enum Action {
    /// Run the tool with the arguments of a copy.
    RunCopy,
    /// Run the tool with the arguments of an encoding.
    RunEncode,
    /// Probe the output and check its duration.
    Verify,
    /// Stop: the export has ended with this result.
    Finish(Result<(), ExportError>),
}

/// One step of an export: whether the output file is deleted first, and
/// what is done then.
#[derive(Debug, PartialEq, Eq)]
pub struct Step {
    pub discard_output: bool,
    pub action: Action,
}

impl FfmpegExport {
    /// The attempt is within the budget, and only the first attempt copies.
    pub open spec fn wf(&self) -> bool {
        &&& 1 <= self.attempt <= MAX_RETRIES
        &&& (self.stage == Stage::CopyRun || self.stage == Stage::CopyVerify) ==> self.attempt
            == 1
    }

    /// An upper bound on the results that the export still waits for.
    pub open spec fn remaining(&self) -> nat {
        let encodes = (MAX_RETRIES - self.attempt + 1) as nat;
        match self.stage {
            Stage::CopyRun => 2 * encodes + 2,
            Stage::CopyVerify => 2 * encodes + 1,
            Stage::EncodeRun => 2 * encodes,
            Stage::EncodeVerify => (2 * encodes - 1) as nat,
            Stage::Done => 0,
        }
    }

    /// The state and the first step of an export: an unusable timing ends it
    /// at once with the error of the validation, before any run; otherwise
    /// the first attempt copies where `try_copy_first` says so and encodes
    /// where not.
    pub open spec fn begin(try_copy_first: bool, timing: ClipTiming) -> (FfmpegExport, Step) {
        if timing.start_ms < 0 {
            (
                FfmpegExport { attempt: 1, stage: Stage::Done },
                Step {
                    discard_output: false,
                    action: Action::Finish(Err(ExportError::InvalidStartTime(timing.start_ms))),
                },
            )
        } else if !timing.is_valid() {
            (
                FfmpegExport { attempt: 1, stage: Stage::Done },
                Step {
                    discard_output: false,
                    action: Action::Finish(Err(ExportError::InvalidDuration(timing.duration_ms))),
                },
            )
        } else if try_copy_first {
            (
                FfmpegExport { attempt: 1, stage: Stage::CopyRun },
                Step { discard_output: false, action: Action::RunCopy },
            )
        } else {
            (
                FfmpegExport { attempt: 1, stage: Stage::EncodeRun },
                Step { discard_output: false, action: Action::RunEncode },
            )
        }
    }

    /// The state and the step after a failed encoding attempt: the next
    /// attempt while the budget lasts, the end with `error` when it is spent.
    pub open spec fn after_failure(self, discard_output: bool, error: ExportError) -> (
        FfmpegExport,
        Step,
    ) {
        if self.attempt < MAX_RETRIES {
            (
                FfmpegExport { attempt: (self.attempt + 1) as u32, stage: Stage::EncodeRun },
                Step { discard_output, action: Action::RunEncode },
            )
        } else {
            (
                FfmpegExport { attempt: self.attempt, stage: Stage::Done },
                Step { discard_output, action: Action::Finish(Err(error)) },
            )
        }
    }

    /// The state and the step that follow when what the export waited for
    /// has ended in `outcome`.
    ///
    /// A run that succeeded is checked. A copy that failed, in its run or in
    /// its check, falls through to an encoding within the same attempt. An
    /// encoding that failed, in its run or in its check, ends the attempt. A
    /// check that succeeded ends the export with success, and one that
    /// failed has the output deleted before anything else is done.
    pub open spec fn next(self, outcome: Result<(), ExportError>) -> (FfmpegExport, Step) {
        match self.stage {
            Stage::CopyRun => match outcome {
                Ok(_) => (
                    FfmpegExport { attempt: self.attempt, stage: Stage::CopyVerify },
                    Step { discard_output: false, action: Action::Verify },
                ),
                Err(_) => (
                    FfmpegExport { attempt: self.attempt, stage: Stage::EncodeRun },
                    Step { discard_output: false, action: Action::RunEncode },
                ),
            },
            Stage::CopyVerify => match outcome {
                Ok(_) => (
                    FfmpegExport { attempt: self.attempt, stage: Stage::Done },
                    Step { discard_output: false, action: Action::Finish(Ok(())) },
                ),
                Err(_) => (
                    FfmpegExport { attempt: self.attempt, stage: Stage::EncodeRun },
                    Step { discard_output: true, action: Action::RunEncode },
                ),
            },
            Stage::EncodeRun => match outcome {
                Ok(_) => (
                    FfmpegExport { attempt: self.attempt, stage: Stage::EncodeVerify },
                    Step { discard_output: false, action: Action::Verify },
                ),
                Err(e) => self.after_failure(false, e),
            },
            Stage::EncodeVerify => match outcome {
                Ok(_) => (
                    FfmpegExport { attempt: self.attempt, stage: Stage::Done },
                    Step { discard_output: false, action: Action::Finish(Ok(())) },
                ),
                Err(e) => self.after_failure(true, e),
            },
            Stage::Done => (self, Step { discard_output: false, action: Action::Finish(outcome) }),
        }
    }

    /// Whether the export has ended.
    pub fn is_done(&self) -> (b: bool)
        ensures
            b == (self.stage == Stage::Done),
    {
        self.stage == Stage::Done
    }

    /// Whether the export can take a result: it is well formed and has not
    /// ended.
    pub fn is_waiting(&self) -> (b: bool)
        ensures
            b == (self.wf() && self.stage != Stage::Done),
    {
        1 <= self.attempt && self.attempt <= MAX_RETRIES && (self.attempt == 1 || !(self.stage
            == Stage::CopyRun || self.stage == Stage::CopyVerify)) && self.stage != Stage::Done
    }

    /// Takes the result of what the export waited for and says what is done
    /// next. Every call brings the export nearer to its end.
    pub fn advance(&mut self, outcome: Result<(), ExportError>) -> (step: Step)
        requires
            old(self).wf(),
            old(self).stage != Stage::Done,
        ensures
            (*final(self), step) == old(self).next(outcome),
            final(self).wf(),
            final(self).remaining() < old(self).remaining(),
    {
        let checking = self.stage == Stage::CopyVerify || self.stage == Stage::EncodeVerify;
        match outcome {
            Ok(_) => {
                if checking {
                    self.stage = Stage::Done;
                    Step { discard_output: false, action: Action::Finish(Ok(())) }
                } else if self.stage == Stage::CopyRun {
                    self.stage = Stage::CopyVerify;
                    Step { discard_output: false, action: Action::Verify }
                } else {
                    self.stage = Stage::EncodeVerify;
                    Step { discard_output: false, action: Action::Verify }
                }
            },
            Err(e) => {
                if self.stage == Stage::CopyRun || self.stage == Stage::CopyVerify {
                    self.stage = Stage::EncodeRun;
                    Step { discard_output: checking, action: Action::RunEncode }
                } else if self.attempt < MAX_RETRIES {
                    self.attempt = self.attempt + 1;
                    self.stage = Stage::EncodeRun;
                    Step { discard_output: checking, action: Action::RunEncode }
                } else {
                    self.stage = Stage::Done;
                    Step { discard_output: checking, action: Action::Finish(Err(e)) }
                }
            },
        }
    }
}

impl FfmpegExporter {
    /// Begins the export of a clip: the state to keep and the first step.
    /// After each step that is no `Finish`, hand its result to `advance`.
    pub fn export_with_retry(&self, timing: &ClipTiming) -> (r: (FfmpegExport, Step))
        ensures
            r == FfmpegExport::begin(self.try_copy_first, *timing),
            r.0.wf(),
            r.1.action is Finish <==> r.0.stage == Stage::Done,
            !timing.is_valid() ==> r.1.action is Finish,
    {
        match timing.validate() {
            Err(e) => (
                FfmpegExport { attempt: 1, stage: Stage::Done },
                Step { discard_output: false, action: Action::Finish(Err(e)) },
            ),
            Ok(_) => {
                if self.try_copy_first {
                    (
                        FfmpegExport { attempt: 1, stage: Stage::CopyRun },
                        Step { discard_output: false, action: Action::RunCopy },
                    )
                } else {
                    (
                        FfmpegExport { attempt: 1, stage: Stage::EncodeRun },
                        Step { discard_output: false, action: Action::RunEncode },
                    )
                }
            },
        }
    }
}

/// An export takes at most two results for the copy and two for each
/// encoding attempt before it ends.
pub proof fn law_export_is_bounded(try_copy_first: bool, timing: ClipTiming)
    ensures
        FfmpegExport::begin(try_copy_first, timing).0.wf(),
        FfmpegExport::begin(try_copy_first, timing).0.remaining() <= 2 * MAX_RETRIES + 2,
{
}

/// Every result that an export takes leaves it well formed and nearer to
/// its end.
pub proof fn law_export_progresses(state: FfmpegExport, outcome: Result<(), ExportError>)
    requires
        state.wf(),
        state.stage != Stage::Done,
    ensures
        state.next(outcome).0.wf(),
        state.next(outcome).0.remaining() < state.remaining(),
        state.next(outcome).1.action is Finish <==> state.next(outcome).0.stage == Stage::Done,
{
}

/// The copy is never tried again: no step after the first asks for it.
pub proof fn law_copy_is_never_retried(state: FfmpegExport, outcome: Result<(), ExportError>)
    requires
        state.wf(),
    ensures
        !(state.next(outcome).1.action is RunCopy),
{
}

/// An export ends with success exactly when a check of the output
/// succeeds: no run alone, and no run that timed out, makes a success.
pub proof fn law_success_is_verified(state: FfmpegExport, outcome: Result<(), ExportError>)
    requires
        state.wf(),
        state.stage != Stage::Done,
    ensures
        state.next(outcome).1.action == Action::Finish(Ok(())) <==> outcome is Ok && (state.stage
            == Stage::CopyVerify || state.stage == Stage::EncodeVerify),
{
}

/// The output is deleted exactly after a check that failed, so that a
/// malformed file is never taken for a finished export.
pub proof fn law_failed_check_discards_output(
    state: FfmpegExport,
    outcome: Result<(), ExportError>,
)
    requires
        state.wf(),
        state.stage != Stage::Done,
    ensures
        state.next(outcome).1.discard_output <==> outcome is Err && (state.stage
            == Stage::CopyVerify || state.stage == Stage::EncodeVerify),
{
}

/// An export that ends in failure ends with the error of its last failed
/// encoding, after the last attempt of the budget.
pub proof fn law_failure_carries_last_error(
    state: FfmpegExport,
    outcome: Result<(), ExportError>,
    error: ExportError,
)
    requires
        state.wf(),
        state.stage != Stage::Done,
        state.next(outcome).1.action == Action::Finish(Err(error)),
    ensures
        outcome == Err::<(), ExportError>(error),
        state.attempt == MAX_RETRIES,
        state.stage == Stage::EncodeRun || state.stage == Stage::EncodeVerify,
{
}

/// A copy that runs but fails its check, followed by an encoding that runs
/// and passes its check, makes a successful export, and the copied file is
/// deleted before the encoding starts.
pub proof fn law_failed_copy_falls_back_to_encoding(timing: ClipTiming, error: ExportError)
    requires
        timing.is_valid(),
    ensures
        ({
            let (s0, first) = FfmpegExport::begin(true, timing);
            let (s1, check_copy) = s0.next(Ok(()));
            let (s2, encode) = s1.next(Err(error));
            let (s3, check_encode) = s2.next(Ok(()));
            let (s4, last) = s3.next(Ok(()));
            &&& first.action == Action::RunCopy
            &&& check_copy.action == Action::Verify
            &&& encode.action == Action::RunEncode
            &&& encode.discard_output
            &&& check_encode.action == Action::Verify
            &&& !check_encode.discard_output
            &&& last.action == Action::Finish(Ok(()))
            &&& !last.discard_output
            &&& s4.stage == Stage::Done
        }),
{
}

} // verus!
