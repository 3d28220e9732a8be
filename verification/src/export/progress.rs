//! Progress events read from the output lines of the two tools.

use crate::outside::{captures, regex_captures};
use crate::text::{
    all_digits, chars_of, digit_value, digits_from, index_of_from, number, position_from,
    read_number, string_of,
};
use vstd::prelude::*;

verus! {

/// The `time=HH:MM:SS.CC` token of the transcoding tool.
pub const TIME_PATTERN: &'static str = "time=(\\d{2}):(\\d{2}):(\\d{2})\\.(\\d{2})";

/// The `speed=<number>x` token of the transcoding tool.
pub const SPEED_PATTERN: &'static str = "speed=\\s*([0-9.]+)x";

/// The `[download] <percent>%` token of the downloading tool.
pub const DOWNLOAD_PATTERN: &'static str = "\\[download\\]\\s+(\\d+\\.?\\d*)%";

/// The `at <rate>` token of the downloading tool.
pub const RATE_PATTERN: &'static str = "at\\s+([0-9.]+\\s*\\w+/s)";

/// A full percentage, in hundredths of a percent.
pub const FULL: u32 = 10000;

/// One step of progress of an export attempt.
#[derive(Debug, Clone, PartialEq, Eq)]
pub struct ProgressEvent {
    /// Hundredths of a percent, from 0 to 10000.
    pub percent_hundredths: u32,
    /// The speed as the tool printed it, if it did.
    pub speed: Option<String>,
}

/// A progress event as a mathematical value.
pub struct ProgressEventView {
    pub percent_hundredths: nat,
    pub speed: Option<Seq<char>>,
}

impl View for ProgressEvent {
    type V = ProgressEventView;

    open spec fn view(&self) -> ProgressEventView {
        ProgressEventView {
            percent_hundredths: self.percent_hundredths as nat,
            speed: self.speed.deep_view(),
        }
    }
}

/// The text of group `i`, where the match has such a group and it took part.
pub open spec fn group(groups: Seq<Option<Seq<char>>>, i: int) -> Option<Seq<char>> {
    if 0 <= i < groups.len() {
        groups[i]
    } else {
        None
    }
}

/// The value of a field of exactly two decimal digits.
pub open spec fn two_digit_field(field: Option<Seq<char>>) -> Option<nat> {
    match field {
        Some(t) => if t.len() == 2 && all_digits(t) {
            Some(number(t))
        } else {
            None
        },
        None => None,
    }
}

/// The time that the groups of a `time=` token write, in hundredths of a
/// second: hours, minutes, seconds and hundredths are groups 1 to 4.
pub open spec fn elapsed_hundredths(groups: Seq<Option<Seq<char>>>) -> Option<nat> {
    match (
        two_digit_field(group(groups, 1)),
        two_digit_field(group(groups, 2)),
        two_digit_field(group(groups, 3)),
        two_digit_field(group(groups, 4)),
    ) {
        (Some(h), Some(m), Some(s), Some(c)) => Some(((h * 60 + m) * 60 + s) * 100 + c),
        _ => None,
    }
}

/// The share of a clip of `duration_ms` that is done after `elapsed`
/// hundredths of a second, in hundredths of a percent, rounded down and at
/// most full; 0 for a clip without duration.
pub open spec fn share_done(duration_ms: int, elapsed: nat) -> nat {
    if duration_ms <= 0 {
        0
    } else if (elapsed as int) * 100000 / duration_ms >= FULL {
        FULL as nat
    } else {
        ((elapsed as int) * 100000 / duration_ms) as nat
    }
}

/// The share that is done never exceeds the whole, and it does not fall
/// while the elapsed time rises.
pub proof fn law_share_done_rises(duration_ms: int, earlier: nat, later: nat)
    requires
        earlier <= later,
    ensures
        share_done(duration_ms, earlier) <= share_done(duration_ms, later) <= FULL,
{
    if duration_ms > 0 {
        vstd::arithmetic::div_mod::lemma_div_is_ordered(
            (earlier as int) * 100000,
            (later as int) * 100000,
            duration_ms,
        );
    }
}

/// The speed label of the transcoding tool: group 1 and the letter `x`.
pub open spec fn speed_label(groups: Option<Seq<Option<Seq<char>>>>) -> Option<Seq<char>> {
    match groups {
        Some(g) => match group(g, 1) {
            Some(t) => Some(t.push('x')),
            None => None,
        },
        None => None,
    }
}

/// The event that a line of the transcoding tool gives, from the groups of
/// its `time=` token and of its `speed=` token.
pub open spec fn transcode_event(
    duration_ms: int,
    time: Seq<Option<Seq<char>>>,
    speed: Option<Seq<Option<Seq<char>>>>,
) -> Option<ProgressEventView> {
    match elapsed_hundredths(time) {
        Some(e) => Some(
            ProgressEventView {
                percent_hundredths: share_done(duration_ms, e),
                speed: speed_label(speed),
            },
        ),
        None => None,
    }
}

/// The event that a line of the transcoding tool gives for a clip of
/// `duration_ms`: none unless the line holds a `time=` token.
pub open spec fn transcode_line_event(duration_ms: int, line: Seq<char>) -> Option<
    ProgressEventView,
> {
    match regex_captures(TIME_PATTERN@, line) {
        Some(time) => transcode_event(duration_ms, time, regex_captures(SPEED_PATTERN@, line)),
        None => None,
    }
}

/// Reads a field of exactly two decimal digits.
fn read_two_digits(groups: &Vec<Option<String>>, i: usize) -> (r: Option<u64>)
    ensures
        r is Some <==> two_digit_field(group(groups.deep_view(), i as int)) is Some,
        r matches Some(n) ==> two_digit_field(group(groups.deep_view(), i as int)) == Some(
            n as nat,
        ) && n < 100,
{
    if i >= groups.len() {
        return None;
    }
    match &groups[i] {
        Some(t) => {
            let v = chars_of(t.as_str());
            if v.len() != 2 {
                return None;
            }
            let r = read_number(&v, 0, 2);
            proof {
                assert(v@.subrange(0, 2) =~= v@);
                if all_digits(v@) {
                    lemma_two_digits(v@);
                }
            }
            r
        },
        None => None,
    }
}

/// Two decimal digits write a number below one hundred.
proof fn lemma_two_digits(t: Seq<char>)
    requires
        t.len() == 2,
        all_digits(t),
    ensures
        number(t) == digit_value(t[0]) * 10 + digit_value(t[1]),
        number(t) < 100,
{
    let head = t.drop_last();
    assert(head.len() == 1);
    assert(head.last() == t[0]);
    assert(head.drop_last().len() == 0);
    assert(number(head.drop_last()) == 0);
    assert(number(head) == digit_value(t[0]));
    assert(t.last() == t[1]);
}

/// Group 1 of a match with the letter `x` appended, as a string.
fn read_speed(groups: &Option<Vec<Option<String>>>) -> (r: Option<String>)
    ensures
        r.deep_view() == speed_label(groups.deep_view()),
{
    match groups {
        Some(g) => {
            if g.len() < 2 {
                return None;
            }
            match &g[1] {
                Some(t) => {
                    let mut v = chars_of(t.as_str());
                    v.push('x');
                    Some(string_of(&v))
                },
                None => None,
            }
        },
        None => None,
    }
}

/// The share of a clip that is done, in hundredths of a percent.
pub fn percent_done(duration_ms: i64, elapsed: u64) -> (r: u32)
    ensures
        r == share_done(duration_ms as int, elapsed as nat),
        r <= FULL,
{
    if duration_ms <= 0 {
        return 0;
    }
    let scaled: u128 = (elapsed as u128) * 100000;
    let q: u128 = scaled / (duration_ms as u128);
    if q >= 10000 {
        10000
    } else {
        q as u32
    }
}

/// The event that the groups of a `time=` token and of a `speed=` token give
/// for a clip of `duration_ms`.
///
/// There is an event exactly where groups 1 to 4 of the `time=` token are
/// two decimal digits each. Its percentage is the elapsed time as a share of
/// the duration, rounded down to a hundredth of a percent and never above
/// 100; its speed is group 1 of the `speed=` token followed by `x`.
pub fn transcode_progress(
    duration_ms: i64,
    time: &Vec<Option<String>>,
    speed: &Option<Vec<Option<String>>>,
) -> (r: Option<ProgressEvent>)
    ensures
        match r {
            Some(e) => transcode_event(duration_ms as int, time.deep_view(), speed.deep_view())
                == Some(e@),
            None => transcode_event(duration_ms as int, time.deep_view(), speed.deep_view())
                is None,
        },
        r matches Some(e) ==> e.percent_hundredths <= FULL,
{
    let h = match read_two_digits(time, 1) {
        Some(n) => n,
        None => { return None; },
    };
    let m = match read_two_digits(time, 2) {
        Some(n) => n,
        None => { return None; },
    };
    let s = match read_two_digits(time, 3) {
        Some(n) => n,
        None => { return None; },
    };
    let c = match read_two_digits(time, 4) {
        Some(n) => n,
        None => { return None; },
    };
    let elapsed: u64 = ((h * 60 + m) * 60 + s) * 100 + c;
    let percent = percent_done(duration_ms, elapsed);
    Some(ProgressEvent { percent_hundredths: percent, speed: read_speed(speed) })
}

/// Reads the progress lines of the transcoding tool for one clip.
pub struct FfmpegProgressParser {
    duration_ms: i64,
}

impl FfmpegProgressParser {
    /// The expected duration of the clip, in milliseconds.
    pub closed spec fn duration_ms(&self) -> int {
        self.duration_ms as int
    }

    /// A parser for a clip of `duration_ms`.
    pub fn new(duration_ms: i64) -> (p: Self)
        ensures
            p.duration_ms() == duration_ms,
    {
        FfmpegProgressParser { duration_ms }
    }

    /// The progress event of one output line, if the line holds a `time=`
    /// token.
    pub fn parse_line(&self, line: &str) -> (r: Option<ProgressEvent>)
        ensures
            match r {
                Some(e) => transcode_line_event(self.duration_ms(), line@) == Some(e@),
                None => transcode_line_event(self.duration_ms(), line@) is None,
            },
            r matches Some(e) ==> e.percent_hundredths <= FULL,
    {
        match captures(TIME_PATTERN, line) {
            Some(time) => {
                let speed = captures(SPEED_PATTERN, line);
                transcode_progress(self.duration_ms, &time, &speed)
            },
            None => None,
        }
    }
}

/// The first two digits after the point, as hundredths.
pub open spec fn fraction_hundredths(fraction: Seq<char>) -> nat {
    (if fraction.len() > 0 {
        digit_value(fraction[0]) * 10
    } else {
        0
    }) + (if fraction.len() > 1 {
        digit_value(fraction[1])
    } else {
        0
    })
}

/// The percentage that `text` writes as digits, optionally followed by a
/// point and more digits, in hundredths of a percent, rounded down and at
/// most full. `None` where `text` is not of that form.
pub open spec fn percent_hundredths(text: Seq<char>) -> Option<nat> {
    let dot = index_of_from(text, '.', 0);
    let whole = text.subrange(0, dot);
    let fraction = if dot < text.len() {
        text.subrange(dot + 1, text.len() as int)
    } else {
        Seq::<char>::empty()
    };
    if whole.len() > 0 && all_digits(whole) && all_digits(fraction) {
        if number(whole) * 100 + fraction_hundredths(fraction) >= FULL {
            Some(FULL as nat)
        } else {
            Some(number(whole) * 100 + fraction_hundredths(fraction))
        }
    } else {
        None
    }
}

/// The event that a line of the downloading tool gives, from the groups of
/// its percentage token and of its rate token: the percentage is group 1 of
/// the first, the speed label group 1 of the second.
pub open spec fn download_event(
    percent: Seq<Option<Seq<char>>>,
    rate: Option<Seq<Option<Seq<char>>>>,
) -> Option<ProgressEventView> {
    match group(percent, 1) {
        Some(t) => match percent_hundredths(t) {
            Some(p) => Some(
                ProgressEventView {
                    percent_hundredths: p,
                    speed: match rate {
                        Some(g) => group(g, 1),
                        None => None,
                    },
                },
            ),
            None => None,
        },
        None => None,
    }
}

/// The event that a line of the downloading tool gives: none unless the line
/// holds a `[download] <percent>%` token.
pub open spec fn download_line_event(line: Seq<char>) -> Option<ProgressEventView> {
    match regex_captures(DOWNLOAD_PATTERN@, line) {
        Some(percent) => download_event(percent, regex_captures(RATE_PATTERN@, line)),
        None => None,
    }
}

/// Reads a percentage written as digits, optionally followed by a point and
/// more digits, in hundredths of a percent.
pub fn read_percent(text: &str) -> (r: Option<u32>)
    ensures
        match r {
            Some(p) => percent_hundredths(text@) == Some(p as nat) && p <= FULL,
            None => percent_hundredths(text@) is None,
        },
{
    let v = chars_of(text);
    let dot = position_from(&v, '.', 0);
    let whole = match read_number(&v, 0, dot) {
        Some(n) => n,
        None => { return None; },
    };
    let ghost fraction = if dot < v.len() {
        v@.subrange(dot + 1, v.len() as int)
    } else {
        Seq::<char>::empty()
    };
    let mut hundredths: u64 = 0;
    if dot < v.len() {
        if !digits_from(&v, dot + 1) {
            return None;
        }
        if v.len() - dot > 1 {
            assert(fraction[0] == v@[dot + 1]);
            hundredths = ((v[dot + 1] as u32 - '0' as u32) * 10) as u64;
        }
        if v.len() - dot > 2 {
            assert(fraction[1] == v@[dot + 2]);
            hundredths = hundredths + (v[dot + 2] as u32 - '0' as u32) as u64;
        }
    }
    assert(hundredths == fraction_hundredths(fraction));
    if whole >= 100 {
        Some(10000)
    } else {
        let p: u64 = whole * 100 + hundredths;
        if p >= 10000 {
            Some(10000)
        } else {
            Some(p as u32)
        }
    }
}

/// The event that the groups of a percentage token and of a rate token give.
///
/// There is an event exactly where group 1 of the percentage token is a
/// decimal number; its percentage is that number, rounded down to a
/// hundredth of a percent and never above 100, and its speed label is group
/// 1 of the rate token.
pub fn download_progress(percent: &Vec<Option<String>>, rate: &Option<Vec<Option<String>>>) -> (r:
    Option<ProgressEvent>)
    ensures
        match r {
            Some(e) => download_event(percent.deep_view(), rate.deep_view()) == Some(e@),
            None => download_event(percent.deep_view(), rate.deep_view()) is None,
        },
        r matches Some(e) ==> e.percent_hundredths <= FULL,
{
    if percent.len() < 2 {
        return None;
    }
    let p = match &percent[1] {
        Some(t) => match read_percent(t.as_str()) {
            Some(p) => p,
            None => { return None; },
        },
        None => { return None; },
    };
    let speed = match rate {
        Some(g) => if g.len() < 2 {
            None
        } else {
            match &g[1] {
                Some(t) => Some(t.clone()),
                None => None,
            }
        },
        None => None,
    };
    Some(ProgressEvent { percent_hundredths: p, speed })
}

/// Reads the progress lines of the downloading tool.
pub struct YtDlpProgressParser {}

impl YtDlpProgressParser {
    /// A parser; it keeps no state.
    pub fn new() -> (p: Self) {
        YtDlpProgressParser {  }
    }

    /// The progress event of one output line, if the line holds a
    /// `[download] <percent>%` token.
    pub fn parse_line(&self, line: &str) -> (r: Option<ProgressEvent>)
        ensures
            match r {
                Some(e) => download_line_event(line@) == Some(e@),
                None => download_line_event(line@) is None,
            },
            r matches Some(e) ==> e.percent_hundredths <= FULL,
    {
        match captures(DOWNLOAD_PATTERN, line) {
            Some(percent) => {
                let rate = captures(RATE_PATTERN, line);
                download_progress(&percent, &rate)
            },
            None => None,
        }
    }
}

impl Default for YtDlpProgressParser {
    fn default() -> (p: Self) {
        YtDlpProgressParser::new()
    }
}

/// How the export of one clip ended.
#[derive(Debug, Clone, PartialEq, Eq)]
pub enum ClipResult {
    Success,
    Skipped,
    Failed { error: String },
}

/// What an export of several clips reports while it runs.
#[derive(Debug, Clone, PartialEq, Eq)]
pub enum ExportProgress {
    /// The export has started.
    Started { total_clips: usize },
    /// The export of one clip has started.
    ClipStarted { index: usize, action_name: String, streamer_name: String },
    /// The current clip has progressed.
    ClipProgress { index: usize, percent_hundredths: u32, speed: Option<String> },
    /// The export of one clip has ended.
    ClipCompleted { index: usize, status: ClipResult },
    /// All clips have been handled.
    Finished { exported: usize, skipped: usize, failed: usize },
}

} // verus!
