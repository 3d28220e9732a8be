//! What the commands of the application decide: the file name and the
//! timing of a requested clip, and the tally of an export.

use crate::config::{sanitize_name, sanitized};
use crate::export::progress::{ClipResult, ExportProgress};
use crate::export::ClipTiming;
use crate::montage::OverlayPosition;
use crate::text::{
    append_decimal, append_str, chars_of, decimal, ends_with, has_suffix, slice_of,
    string_of,
};
use vstd::prelude::*;

verus! {

/// A clip that is asked for. Times are in milliseconds.
#[derive(Debug, Clone, PartialEq, Eq)]
pub struct ClipRequest {
    pub vod_url: String,
    pub streamer_name: String,
    pub action_id: String,
    pub action_name: String,
    /// Where the game starts in the reference VOD.
    pub game_start_time_ms: i64,
    /// When the action happens, from the start of the game.
    pub action_game_time_ms: i64,
    /// How far this streamer's VOD is ahead of the reference.
    pub sync_offset_ms: i64,
    /// Where the clip starts, relative to the action.
    pub in_point_ms: i64,
    /// Where the clip ends, relative to the action.
    pub out_point_ms: i64,
    pub index: usize,
}

/// The tally of an export of several clips.
#[derive(Debug, Clone, PartialEq, Eq)]
pub struct ExportResult {
    pub exported: usize,
    pub skipped: usize,
    pub failed: usize,
    pub errors: Vec<String>,
    pub output_dir: String,
}

/// Whether a requested clip is there already.
#[derive(Debug, Clone, PartialEq, Eq)]
pub struct ClipStatus {
    pub action_name: String,
    pub streamer_name: String,
    pub filename: String,
    pub is_downloaded: bool,
}

/// Where an overlay stands, as the user interface names it.
#[derive(Debug, Clone, Copy, PartialEq, Eq, Structural)]
pub enum OverlayPositionInput {
    TopLeft,
    TopRight,
    BottomLeft,
    BottomRight,
}

/// An overlay, as the user interface describes it.
#[derive(Debug, Clone, PartialEq, Eq)]
pub struct OverlayInput {
    pub text: String,
    pub position: OverlayPositionInput,
    pub font_size: u32,
    pub color: String,
    pub box_color: Option<String>,
}

impl OverlayPositionInput {
    /// The same position, as the exporter names it.
    pub fn position(self) -> (p: OverlayPosition)
        ensures
            p == corner_of(self),
    {
        match self {
            OverlayPositionInput::TopLeft => OverlayPosition::TopLeft,
            OverlayPositionInput::TopRight => OverlayPosition::TopRight,
            OverlayPositionInput::BottomLeft => OverlayPosition::BottomLeft,
            OverlayPositionInput::BottomRight => OverlayPosition::BottomRight,
        }
    }
}

/// The corner that the user interface names.
pub open spec fn corner_of(pos: OverlayPositionInput) -> OverlayPosition {
    match pos {
        OverlayPositionInput::TopLeft => OverlayPosition::TopLeft,
        OverlayPositionInput::TopRight => OverlayPosition::TopRight,
        OverlayPositionInput::BottomLeft => OverlayPosition::BottomLeft,
        OverlayPositionInput::BottomRight => OverlayPosition::BottomRight,
    }
}

impl From<OverlayPositionInput> for OverlayPosition {
    fn from(pos: OverlayPositionInput) -> (p: OverlayPosition) {
        pos.position()
    }
}

impl vstd::std_specs::convert::FromSpecImpl<OverlayPositionInput> for OverlayPosition {
    open spec fn obeys_from_spec() -> bool {
        true
    }

    open spec fn from_spec(pos: OverlayPositionInput) -> OverlayPosition {
        corner_of(pos)
    }
}

/// `n`, or the nearest `i64` where `n` is none.
pub open spec fn clamped(n: int) -> i64 {
    if n > i64::MAX {
        i64::MAX
    } else if n < i64::MIN {
        i64::MIN
    } else {
        n as i64
    }
}

/// `n`, or the nearest `i64` where `n` is none.
pub fn clamp(n: i128) -> (r: i64)
    ensures
        r == clamped(n as int),
{
    if n > i64::MAX as i128 {
        i64::MAX
    } else if n < i64::MIN as i128 {
        i64::MIN
    } else {
        n as i64
    }
}

impl ClipRequest {
    /// Where the clip starts in the streamer's VOD: the start of the game,
    /// the time of the action, the offset of the VOD and the in-point,
    /// added up.
    pub open spec fn vod_start(&self) -> int {
        self.game_start_time_ms + self.action_game_time_ms + self.sync_offset_ms
            + self.in_point_ms
    }

    /// The timing of the clip: it starts at `vod_start` and lasts from the
    /// in-point to the out-point.
    pub fn timing(&self) -> (t: ClipTiming)
        ensures
            t.start_ms == clamped(self.vod_start()),
            t.duration_ms == clamped(self.out_point_ms - self.in_point_ms),
    {
        let start: i128 = self.game_start_time_ms as i128 + self.action_game_time_ms as i128
            + self.sync_offset_ms as i128 + self.in_point_ms as i128;
        let duration: i128 = self.out_point_ms as i128 - self.in_point_ms as i128;
        ClipTiming::new(clamp(start), clamp(duration))
    }
}

/// The first six characters of an identifier; all of it where it has no
/// more.
pub open spec fn short_id(action_id: Seq<char>) -> Seq<char> {
    if action_id.len() > 6 {
        action_id.take(6)
    } else {
        action_id
    }
}

/// The file name of a clip: the short identifier of its action, the name
/// of the action made safe for a path, and the extension.
pub open spec fn clip_filename(action_id: Seq<char>, action_name: Seq<char>) -> Seq<char> {
    short_id(action_id) + "_"@ + sanitized(action_name) + ".mp4"@
}

/// A name that can be part of a path.
pub fn sanitize_filename(s: &str) -> (r: String)
    ensures
        r@ == sanitized(s@),
{
    sanitize_name(s)
}

/// The file name of a clip.
pub fn generate_filename(action_id: &str, action_name: &str) -> (r: String)
    ensures
        r@ == clip_filename(action_id@, action_name@),
{
    let id = chars_of(action_id);
    let mut v = if id.len() > 6 {
        slice_of(&id, 0, 6)
    } else {
        slice_of(&id, 0, id.len())
    };
    append_str(&mut v, "_");
    append_str(&mut v, sanitize_filename(action_name).as_str());
    append_str(&mut v, ".mp4");
    string_of(&v)
}

/// The file name of a montage: the given name, with the extension where it
/// lacks it, or the project's name and the time stamp.
pub open spec fn montage_filename(name: Option<Seq<char>>, project: Seq<char>, timestamp: u64)
    -> Seq<char> {
    match name {
        Some(n) => if ends_with(n, ".mp4"@) {
            n
        } else {
            n + ".mp4"@
        },
        None => project + "_montage_"@ + decimal(timestamp as nat) + ".mp4"@,
    }
}

/// The file name of a montage.
pub fn generate_montage_filename(name: Option<&str>, project: &str, timestamp: u64) -> (r: String)
    ensures
        r@ == montage_filename(
            match name {
                Some(n) => Some(n@),
                None => None,
            },
            project@,
            timestamp,
        ),
{
    match name {
        Some(n) => {
            let mut v = chars_of(n);
            if !has_suffix(&v, &chars_of(".mp4")) {
                append_str(&mut v, ".mp4");
            }
            string_of(&v)
        },
        None => {
            let mut v = chars_of(project);
            append_str(&mut v, "_montage_");
            append_decimal(&mut v, timestamp);
            append_str(&mut v, ".mp4");
            string_of(&v)
        },
    }
}

/// Whether the clip of a request is there already.
pub fn clip_status(request: &ClipRequest, is_downloaded: bool) -> (status: ClipStatus)
    ensures
        status.action_name@ == request.action_name@,
        status.streamer_name@ == request.streamer_name@,
        status.filename@ == clip_filename(request.action_id@, request.action_name@),
        status.is_downloaded == is_downloaded,
{
    ClipStatus {
        action_name: request.action_name.clone(),
        streamer_name: request.streamer_name.clone(),
        filename: generate_filename(request.action_id.as_str(), request.action_name.as_str()),
        is_downloaded,
    }
}

/// How the handling of one requested clip ended.
#[derive(Debug, Clone, PartialEq, Eq)]
pub enum ClipOutcome {
    /// The clip was there already.
    Skipped,
    /// The clip was exported.
    Exported,
    /// The clip could not be resolved or exported; the text says why.
    Failed(String),
}

/// What is reported of a clip that ended in `outcome`.
pub open spec fn completion_is(index: usize, outcome: ClipOutcome, event: ExportProgress) -> bool {
    event matches ExportProgress::ClipCompleted { index: reported, status } && reported == index
        && match outcome {
        ClipOutcome::Skipped => status is Skipped,
        ClipOutcome::Exported => status is Success,
        ClipOutcome::Failed(error) => status matches ClipResult::Failed { error: told } && told@
            == error@,
    }
}

impl ExportResult {
    /// The clips that the tally counts.
    pub open spec fn handled(&self) -> int {
        self.exported + self.skipped + self.failed
    }

    /// Every failure has its line, and the lines are no more than the
    /// failures.
    pub open spec fn wf(&self) -> bool {
        self.errors.len() == self.failed
    }

    /// The tally of an export that has handled no clip yet.
    pub fn new(output_dir: String) -> (r: Self)
        ensures
            r.handled() == 0,
            r.wf(),
            r.output_dir == output_dir,
            r.errors@.len() == 0,
    {
        ExportResult { exported: 0, skipped: 0, failed: 0, errors: Vec::new(), output_dir }
    }

    /// Counts a clip that was exported.
    pub fn record_exported(&mut self)
        requires
            old(self).exported < usize::MAX,
        ensures
            final(self).exported == old(self).exported + 1,
            final(self).skipped == old(self).skipped,
            final(self).failed == old(self).failed,
            final(self).errors == old(self).errors,
            final(self).output_dir == old(self).output_dir,
    {
        self.exported = self.exported + 1;
    }

    /// Counts a clip that was there already.
    pub fn record_skipped(&mut self)
        requires
            old(self).skipped < usize::MAX,
        ensures
            final(self).skipped == old(self).skipped + 1,
            final(self).exported == old(self).exported,
            final(self).failed == old(self).failed,
            final(self).errors == old(self).errors,
            final(self).output_dir == old(self).output_dir,
    {
        self.skipped = self.skipped + 1;
    }

    /// Counts a clip that failed, and keeps the line that says why: the
    /// file name, a colon, and the error.
    pub fn record_failed(&mut self, filename: &str, error: &str)
        requires
            old(self).failed < usize::MAX,
            old(self).wf(),
        ensures
            final(self).failed == old(self).failed + 1,
            final(self).exported == old(self).exported,
            final(self).skipped == old(self).skipped,
            final(self).output_dir == old(self).output_dir,
            final(self).errors.deep_view() == old(self).errors.deep_view().push(
                filename@ + ": "@ + error@,
            ),
            final(self).wf(),
    {
        let mut v = chars_of(filename);
        append_str(&mut v, ": ");
        append_str(&mut v, error);
        let line = string_of(&v);
        self.errors.push(line);
        self.failed = self.failed + 1;
        assert(self.errors.deep_view() =~= old(self).errors.deep_view().push(
            filename@ + ": "@ + error@,
        ));
    }

    /// Counts the clip with the given index and file name, which ended in
    /// `outcome`, and returns what is reported of it.
    pub fn record(&mut self, index: usize, filename: &str, outcome: ClipOutcome) -> (event:
        ExportProgress)
        requires
            old(self).wf(),
            old(self).exported < usize::MAX,
            old(self).skipped < usize::MAX,
            old(self).failed < usize::MAX,
        ensures
            final(self).wf(),
            final(self).handled() == old(self).handled() + 1,
            final(self).exported == old(self).exported + (if outcome is Exported {
                1int
            } else {
                0
            }),
            final(self).skipped == old(self).skipped + (if outcome is Skipped {
                1int
            } else {
                0
            }),
            final(self).output_dir == old(self).output_dir,
            final(self).errors.deep_view() == match outcome {
                ClipOutcome::Failed(error) => old(self).errors.deep_view().push(
                    filename@ + ": "@ + error@,
                ),
                _ => old(self).errors.deep_view(),
            },
            completion_is(index, outcome, event),
    {
        let status = match outcome {
            ClipOutcome::Skipped => {
                self.record_skipped();
                ClipResult::Skipped
            },
            ClipOutcome::Exported => {
                self.record_exported();
                ClipResult::Success
            },
            ClipOutcome::Failed(error) => {
                self.record_failed(filename, error.as_str());
                ClipResult::Failed { error }
            },
        };
        ExportProgress::ClipCompleted { index, status }
    }

    /// What is reported when every clip has been handled.
    pub fn finished(&self) -> (event: ExportProgress)
        ensures
            event == (ExportProgress::Finished {
                exported: self.exported,
                skipped: self.skipped,
                failed: self.failed,
            }),
    {
        ExportProgress::Finished {
            exported: self.exported,
            skipped: self.skipped,
            failed: self.failed,
        }
    }
}

} // verus!
