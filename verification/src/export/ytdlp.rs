//! The downloading backend: the command line of the tool, the reading of
//! how a run ended, and the plan of attempts.

use crate::error::ExportError;
use crate::export::ffmpeg::{timeout_message, timeout_text, RunOutcome};
use crate::export::{ClipTiming, MAX_RETRIES};
use crate::text::{
    append_decimal, append_str, append_two_digits, chars_of, conjoin, decimal, push_chars,
    push_text, string_of, two_digits,
};
use vstd::prelude::*;

verus! {

/// Exports a clip with the downloading tool.
#[derive(Debug, Clone, Copy, PartialEq, Eq)]
pub struct YtDlpExporter {
    /// The largest video height that is asked for.
    pub max_height: u32,
    /// Whether the first run forces key frames at the cuts.
    pub force_keyframes: bool,
}

/// A number of seconds as `HH:MM:SS`, each part with at least two digits.
pub open spec fn clock_text(seconds: nat) -> Seq<char> {
    two_digits(seconds / 3600) + ":"@ + two_digits(seconds % 3600 / 60) + ":"@ + two_digits(
        seconds % 60,
    )
}

/// The whole seconds in `ms` milliseconds, whatever its sign.
pub open spec fn whole_seconds(ms: int) -> nat {
    if ms < 0 {
        ((-ms) / 1000) as nat
    } else {
        (ms / 1000) as nat
    }
}

/// The format that is asked for: the best one not higher than `max_height`.
pub open spec fn format_selector(max_height: u32) -> Seq<char> {
    "best[height<="@ + decimal(max_height as nat) + "]"@
}

/// The section that is downloaded: from the start of the clip to its end,
/// both in whole seconds.
pub open spec fn section(timing: ClipTiming) -> Seq<char> {
    "*"@ + clock_text(whole_seconds(timing.start_ms as int)) + "-"@ + clock_text(
        whole_seconds(timing.start_ms + timing.duration_ms),
    )
}

/// The arguments that download the clip from `url`: the format, the
/// section, key frames at the cuts where `with_keyframes` says so, the
/// output, no playlist, and progress line by line.
pub open spec fn download_args(
    max_height: u32,
    url: Seq<char>,
    timing: ClipTiming,
    output: Seq<char>,
    with_keyframes: bool,
) -> Seq<Seq<char>> {
    seq!["-f"@, format_selector(max_height), "--download-sections"@, section(timing)] + (
    if with_keyframes {
        seq!["--force-keyframes-at-cuts"@]
    } else {
        Seq::<Seq<char>>::empty()
    }) + seq!["-o"@, output, "--no-playlist"@, "--progress"@, "--newline"@, url]
}

/// Appends `seconds` as `HH:MM:SS` to `v`.
pub fn append_clock(v: &mut Vec<char>, seconds: u64)
    ensures
        final(v)@ == old(v)@ + clock_text(seconds as nat),
{
    append_two_digits(v, seconds / 3600);
    v.push(':');
    append_two_digits(v, seconds % 3600 / 60);
    v.push(':');
    append_two_digits(v, seconds % 60);
    proof {
        reveal_strlit(":");
        assert(":"@ =~= seq![':']);
        assert(v@ =~= old(v)@ + clock_text(seconds as nat));
    }
}

/// The whole seconds in `ms` milliseconds, whatever its sign.
fn seconds_of(ms: i128) -> (r: u64)
    requires
        -0x1_0000_0000_0000_0000 <= ms <= 0x1_0000_0000_0000_0000,
    ensures
        r == whole_seconds(ms as int),
{
    if ms < 0 {
        ((-ms) / 1000) as u64
    } else {
        (ms / 1000) as u64
    }
}

/// What a run of the downloading tool that ended in `outcome` means for the
/// export: success for a run that exited with success, a timeout for a run
/// that was killed, and a failure of the tool for every other.
pub open spec fn download_run_is(outcome: RunOutcome, r: Result<(), ExportError>) -> bool {
    match outcome {
        RunOutcome::Exited { success, status } => if success {
            r is Ok
        } else {
            r matches Err(ExportError::YtDlp(m)) && m@ == "yt-dlp exited with code: "@ + status@
        },
        RunOutcome::SpawnFailed(e) => r matches Err(ExportError::YtDlp(m)) && m@
            == "Failed to start yt-dlp: "@ + e@,
        RunOutcome::NoOutputPipe => r matches Err(ExportError::YtDlp(m)) && m@
            == "Failed to capture stdout"@,
        RunOutcome::WaitFailed(e) => r matches Err(ExportError::YtDlp(m)) && m@
            == "yt-dlp error: "@ + e@,
        RunOutcome::TimedOut => r matches Err(ExportError::Timeout(m)) && m@ == timeout_message(),
    }
}

/// What an export with the downloading tool waits for.
#[derive(Debug, Clone, Copy, PartialEq, Eq, Structural)]
pub enum DownloadStage {
    /// The run that forces key frames at the cuts.
    Keyframes,
    /// A run that does not.
    Plain,
    /// Nothing: the export has ended.
    Done,
}

/// The state of an export with the downloading tool: the number of the
/// attempt, from 1, and what it waits for.
#[derive(Debug, Clone, Copy, PartialEq, Eq, Structural)]
pub struct YtDlpExport {
    pub attempt: u32,
    pub stage: DownloadStage,
}

/// What the caller does next.
#[derive(Debug, PartialEq, Eq)]
pub enum DownloadAction {
    /// Run the tool, with or without key frames forced at the cuts.
    Run { with_keyframes: bool },
    /// Stop: the export has ended with this result.
    Finish(Result<(), ExportError>),
}

impl YtDlpExport {
    /// The attempt is within the budget, and only the first attempt forces
    /// key frames.
    pub open spec fn wf(&self) -> bool {
        &&& 1 <= self.attempt <= MAX_RETRIES
        &&& self.stage == DownloadStage::Keyframes ==> self.attempt == 1
    }

    /// An upper bound on the runs that the export still waits for.
    pub open spec fn remaining(&self) -> nat {
        let plain = (MAX_RETRIES - self.attempt + 1) as nat;
        match self.stage {
            DownloadStage::Keyframes => plain + 1,
            DownloadStage::Plain => plain,
            DownloadStage::Done => 0,
        }
    }

    /// The state and the first action of an export: an unusable timing ends
    /// it at once with the error of the validation, before any run;
    /// otherwise the first run forces key frames where `force_keyframes`
    /// says so.
    pub open spec fn begin(force_keyframes: bool, timing: ClipTiming) -> (
        YtDlpExport,
        DownloadAction,
    ) {
        if timing.start_ms < 0 {
            (
                YtDlpExport { attempt: 1, stage: DownloadStage::Done },
                DownloadAction::Finish(Err(ExportError::InvalidStartTime(timing.start_ms))),
            )
        } else if !timing.is_valid() {
            (
                YtDlpExport { attempt: 1, stage: DownloadStage::Done },
                DownloadAction::Finish(Err(ExportError::InvalidDuration(timing.duration_ms))),
            )
        } else if force_keyframes {
            (
                YtDlpExport { attempt: 1, stage: DownloadStage::Keyframes },
                DownloadAction::Run { with_keyframes: true },
            )
        } else {
            (
                YtDlpExport { attempt: 1, stage: DownloadStage::Plain },
                DownloadAction::Run { with_keyframes: false },
            )
        }
    }

    /// The state and the action that follow when the run that the export
    /// waited for has ended in `outcome`.
    ///
    /// A run that succeeded ends the export with success. A failed run with
    /// key frames is followed by a plain run within the same attempt; a
    /// failed plain run ends the attempt, and the last attempt ends the
    /// export with the error of that run.
    pub open spec fn next(self, outcome: Result<(), ExportError>) -> (YtDlpExport, DownloadAction) {
        match outcome {
            Ok(_) => (
                YtDlpExport { attempt: self.attempt, stage: DownloadStage::Done },
                DownloadAction::Finish(Ok(())),
            ),
            Err(e) => if self.stage == DownloadStage::Keyframes {
                (
                    YtDlpExport { attempt: self.attempt, stage: DownloadStage::Plain },
                    DownloadAction::Run { with_keyframes: false },
                )
            } else if self.stage == DownloadStage::Plain && self.attempt < MAX_RETRIES {
                (
                    YtDlpExport { attempt: (self.attempt + 1) as u32, stage: DownloadStage::Plain },
                    DownloadAction::Run { with_keyframes: false },
                )
            } else {
                (
                    YtDlpExport { attempt: self.attempt, stage: DownloadStage::Done },
                    DownloadAction::Finish(Err(e)),
                )
            },
        }
    }

    /// Whether the export has ended.
    pub fn is_done(&self) -> (b: bool)
        ensures
            b == (self.stage == DownloadStage::Done),
    {
        self.stage == DownloadStage::Done
    }

    /// Whether the export can take a result: it is well formed and has not
    /// ended.
    pub fn is_waiting(&self) -> (b: bool)
        ensures
            b == (self.wf() && self.stage != DownloadStage::Done),
    {
        1 <= self.attempt && self.attempt <= MAX_RETRIES && (self.attempt == 1 || self.stage
            != DownloadStage::Keyframes) && self.stage != DownloadStage::Done
    }

    /// Takes the result of the run that the export waited for and says what
    /// is done next. Every call brings the export nearer to its end.
    pub fn advance(&mut self, outcome: Result<(), ExportError>) -> (action: DownloadAction)
        requires
            old(self).wf(),
            old(self).stage != DownloadStage::Done,
        ensures
            (*final(self), action) == old(self).next(outcome),
            final(self).wf(),
            final(self).remaining() < old(self).remaining(),
    {
        match outcome {
            Ok(_) => {
                self.stage = DownloadStage::Done;
                DownloadAction::Finish(Ok(()))
            },
            Err(e) => {
                if self.stage == DownloadStage::Keyframes {
                    self.stage = DownloadStage::Plain;
                    DownloadAction::Run { with_keyframes: false }
                } else if self.attempt < MAX_RETRIES {
                    self.attempt = self.attempt + 1;
                    DownloadAction::Run { with_keyframes: false }
                } else {
                    self.stage = DownloadStage::Done;
                    DownloadAction::Finish(Err(e))
                }
            },
        }
    }
}

impl YtDlpExporter {
    pub fn new() -> (e: Self)
        ensures
            e.max_height == 1080,
            e.force_keyframes,
    {
        YtDlpExporter { max_height: 1080, force_keyframes: true }
    }

    /// A time in milliseconds as `HH:MM:SS`, in whole seconds and without
    /// its sign.
    pub fn format_time(ms: i64) -> (r: String)
        ensures
            r@ == clock_text(whole_seconds(ms as int)),
    {
        let mut v: Vec<char> = Vec::new();
        append_clock(&mut v, seconds_of(ms as i128));
        assert(v@ =~= clock_text(whole_seconds(ms as int)));
        string_of(&v)
    }

    /// The arguments of a run of the tool.
    pub fn build_command(&self, url: &str, timing: &ClipTiming, output: &str, with_keyframes: bool)
        -> (args: Vec<String>)
        ensures
            args.deep_view() == download_args(
                self.max_height,
                url@,
                *timing,
                output@,
                with_keyframes,
            ),
    {
        let mut format = chars_of("best[height<=");
        append_decimal(&mut format, self.max_height as u64);
        append_str(&mut format, "]");
        let mut range = chars_of("*");
        append_clock(&mut range, seconds_of(timing.start_ms as i128));
        append_str(&mut range, "-");
        append_clock(
            &mut range,
            seconds_of(timing.start_ms as i128 + timing.duration_ms as i128),
        );
        let mut args: Vec<String> = Vec::new();
        assert(args.deep_view() =~= Seq::<Seq<char>>::empty());
        push_text(&mut args, "-f");
        push_chars(&mut args, &format);
        push_text(&mut args, "--download-sections");
        push_chars(&mut args, &range);
        if with_keyframes {
            push_text(&mut args, "--force-keyframes-at-cuts");
        }
        push_text(&mut args, "-o");
        push_text(&mut args, output);
        push_text(&mut args, "--no-playlist");
        push_text(&mut args, "--progress");
        push_text(&mut args, "--newline");
        push_text(&mut args, url);
        args
    }

    /// What a run of the tool that ended in `outcome` means for the export.
    /// A run that timed out is never a success.
    pub fn run_command_with_progress(&self, outcome: RunOutcome) -> (r: Result<(), ExportError>)
        ensures
            download_run_is(outcome, r),
    {
        match outcome {
            RunOutcome::Exited { success, status } => {
                if success {
                    Ok(())
                } else {
                    Err(ExportError::YtDlp(conjoin("yt-dlp exited with code: ", status.as_str())))
                }
            },
            RunOutcome::SpawnFailed(e) => Err(
                ExportError::YtDlp(conjoin("Failed to start yt-dlp: ", e.as_str())),
            ),
            RunOutcome::NoOutputPipe => Err(
                ExportError::YtDlp("Failed to capture stdout".to_owned()),
            ),
            RunOutcome::WaitFailed(e) => Err(
                ExportError::YtDlp(conjoin("yt-dlp error: ", e.as_str())),
            ),
            RunOutcome::TimedOut => Err(ExportError::Timeout(timeout_text())),
        }
    }

    /// Begins the export of a clip: the state to keep and the first action.
    /// After each run, hand its result to `advance`.
    pub fn export_with_retry(&self, timing: &ClipTiming) -> (r: (YtDlpExport, DownloadAction))
        ensures
            r == YtDlpExport::begin(self.force_keyframes, *timing),
            r.0.wf(),
            r.1 is Finish <==> r.0.stage == DownloadStage::Done,
            !timing.is_valid() ==> r.1 is Finish,
    {
        match timing.validate() {
            Err(e) => (
                YtDlpExport { attempt: 1, stage: DownloadStage::Done },
                DownloadAction::Finish(Err(e)),
            ),
            Ok(_) => {
                if self.force_keyframes {
                    (
                        YtDlpExport { attempt: 1, stage: DownloadStage::Keyframes },
                        DownloadAction::Run { with_keyframes: true },
                    )
                } else {
                    (
                        YtDlpExport { attempt: 1, stage: DownloadStage::Plain },
                        DownloadAction::Run { with_keyframes: false },
                    )
                }
            },
        }
    }
}

impl Default for YtDlpExporter {
    fn default() -> (e: Self)
        ensures
            e.max_height == 1080,
            e.force_keyframes,
    {
        YtDlpExporter::new()
    }
}

/// Below a hundred hours a time is written with eight characters, two for
/// each part and a colon between the parts.
pub proof fn law_clock_text_shape(seconds: nat)
    requires
        seconds < 360_000,
    ensures
        clock_text(seconds).len() == 8,
        clock_text(seconds)[2] == ':',
        clock_text(seconds)[5] == ':',
{
    reveal_strlit(":");
    reveal_with_fuel(decimal, 2);
    assert(two_digits(seconds / 3600).len() == 2);
    assert(two_digits(seconds % 3600 / 60).len() == 2);
    assert(two_digits(seconds % 60).len() == 2);
}

/// Key frames are forced at most once: no action after the first asks for
/// them.
pub proof fn law_keyframes_are_tried_once(state: YtDlpExport, outcome: Result<(), ExportError>)
    requires
        state.wf(),
    ensures
        !(state.next(outcome).1 matches DownloadAction::Run { with_keyframes: true }),
{
}

/// An export that ends in failure ends with the error of its last run,
/// after the last attempt of the budget; one that ends in success ends with
/// a run that succeeded.
pub proof fn law_download_ends_with_last_outcome(
    state: YtDlpExport,
    outcome: Result<(), ExportError>,
    result: Result<(), ExportError>,
)
    requires
        state.wf(),
        state.stage != DownloadStage::Done,
        state.next(outcome).1 == DownloadAction::Finish(result),
    ensures
        result is Ok <==> outcome is Ok,
        result is Err ==> result == outcome && state.attempt == MAX_RETRIES && state.stage
            == DownloadStage::Plain,
{
}

} // verus!
