//! Progress stream interpretation and speed/ETA metrics.
//!
//! The subprocess reports progress as `key=value` lines.  Three independent
//! patterns are read from each line: a frame counter, a fine-grained
//! elapsed-time counter in microseconds (authoritative), and a coarse clock
//! string (fallback).  Percentages are carried in hundredths of a percent
//! (0..=10000); byte throughput is derived by treating the percentage as a
//! proxy for bytes processed out of the original file size.

use vstd::prelude::*;

use crate::probe::spec_clock_ms;

verus! {

/// What the frame-counter pattern captures from a progress line.
pub uninterp spec fn frame_capture(line: Seq<char>) -> Option<u32>;

/// What the microsecond elapsed-time pattern captures from a progress line.
pub uninterp spec fn out_time_us_capture(line: Seq<char>) -> Option<u64>;

/// What the clock-string elapsed-time pattern captures from a progress line.
pub uninterp spec fn out_time_clock_capture(line: Seq<char>) -> Option<Seq<char>>;

/// Relies on `regex::Regex::captures` with the pattern `frame=\s*(\d+)`:
/// the first digit run after a `frame=` marker, parsed as `u32`.
#[verifier::external_body]
fn capture_frame(line: &str) -> (r: Option<u32>)
    ensures
        r == frame_capture(line@),
{
    match regex::Regex::new(r"frame=\s*(\d+)") {
        Ok(re) => re.captures(line).and_then(|cap| cap.get(1)?.as_str().parse().ok()),
        Err(_) => None,
    }
}

/// Relies on `regex::Regex::captures` with the pattern `out_time_ms=(\d+)`:
/// the elapsed time the tool reports under that key (microseconds despite
/// the name), parsed as `u64`.
#[verifier::external_body]
fn capture_out_time_us(line: &str) -> (r: Option<u64>)
    ensures
        r == out_time_us_capture(line@),
{
    match regex::Regex::new(r"out_time_ms=(\d+)") {
        Ok(re) => re.captures(line).and_then(|cap| cap.get(1)?.as_str().parse().ok()),
        Err(_) => None,
    }
}

/// Relies on `regex::Regex::captures` with the pattern
/// `out_time=(\d{2}:\d{2}:\d{2}\.\d+)`: the clock-formatted elapsed time,
/// as text.
#[verifier::external_body]
fn capture_out_time_clock(line: &str) -> (r: Option<String>)
    ensures
        match r {
            Some(s) => out_time_clock_capture(line@) == Some(s@),
            None => out_time_clock_capture(line@) is None,
        },
{
    match regex::Regex::new(r"out_time=(\d{2}:\d{2}:\d{2}\.\d+)") {
        Ok(re) => re.captures(line).and_then(|cap| Some(cap.get(1)?.as_str().to_string())),
        Err(_) => None,
    }
}

/// Percentage, in hundredths, of `us` microseconds out of `total_ms`
/// milliseconds, clamped to 100%.
pub open spec fn spec_percent_from_us(us: int, total_ms: int) -> int {
    let p = (10 * us) / total_ms;
    if p > 10000 {
        10000
    } else {
        p
    }
}

/// Percentage, in hundredths, of `ms` milliseconds out of `total_ms`
/// milliseconds, clamped to 100%.
pub open spec fn spec_percent_from_ms(ms: int, total_ms: int) -> int {
    let p = (10000 * ms) / total_ms;
    if p > 10000 {
        10000
    } else {
        p
    }
}

/// The percentage reported for an elapsed time never decreases as the
/// elapsed time grows (progress events are monotonically non-decreasing).
pub proof fn lemma_percent_monotonic(us1: int, us2: int, total_ms: int)
    requires
        0 <= us1 <= us2,
        total_ms > 0,
    ensures
        spec_percent_from_us(us1, total_ms) <= spec_percent_from_us(us2, total_ms),
{
    vstd::arithmetic::div_mod::lemma_div_is_ordered(10 * us1, 10 * us2, total_ms);
}

/// The clock-string fallback obeys the same monotonicity.
pub proof fn lemma_percent_monotonic_ms(ms1: int, ms2: int, total_ms: int)
    requires
        0 <= ms1 <= ms2,
        total_ms > 0,
    ensures
        spec_percent_from_ms(ms1, total_ms) <= spec_percent_from_ms(ms2, total_ms),
{
    vstd::arithmetic::div_mod::lemma_div_is_ordered(10000 * ms1, 10000 * ms2, total_ms);
}

/// Lines whose authoritative time counters are in order report percentages
/// in order: the callback observes a monotonically non-decreasing stream.
pub proof fn lemma_line_percent_monotonic(line1: Seq<char>, line2: Seq<char>, total_ms: int)
    requires
        total_ms > 0,
        out_time_us_capture(line1) is Some,
        out_time_us_capture(line2) is Some,
        out_time_us_capture(line1)->0 <= out_time_us_capture(line2)->0,
    ensures
        spec_line_percent(line1, total_ms) is Some,
        spec_line_percent(line2, total_ms) is Some,
        spec_line_percent(line1, total_ms)->0 <= spec_line_percent(line2, total_ms)->0,
{
    lemma_percent_monotonic(
        out_time_us_capture(line1)->0 as int,
        out_time_us_capture(line2)->0 as int,
        total_ms,
    );
}

/// Percentages are clamped: whatever the inputs, the reported value fits
/// 0..=10000.
pub proof fn lemma_percent_clamped(us: int, total_ms: int)
    requires
        us >= 0,
        total_ms > 0,
    ensures
        0 <= spec_percent_from_us(us, total_ms) <= 10000,
{
    vstd::arithmetic::div_mod::lemma_div_is_ordered(0, 10 * us, total_ms);
    assert(0int / total_ms == 0) by {
        vstd::arithmetic::div_mod::lemma_div_of0(total_ms);
    }
}

/// Computes the percentage, in hundredths, for a microsecond progress
/// report.
pub fn percent_from_us(us: u64, total_ms: u64) -> (r: u32)
    requires
        total_ms > 0,
    ensures
        r == spec_percent_from_us(us as int, total_ms as int),
        r <= 10000,
{
    let p: u128 = (10 * us as u128) / (total_ms as u128);
    if p > 10000 {
        10000
    } else {
        p as u32
    }
}

/// Computes the percentage, in hundredths, for a clock-string progress
/// report.
pub fn percent_from_ms(ms: u64, total_ms: u64) -> (r: u32)
    requires
        total_ms > 0,
    ensures
        r == spec_percent_from_ms(ms as int, total_ms as int),
        r <= 10000,
{
    let p: u128 = (10000 * ms as u128) / (total_ms as u128);
    if p > 10000 {
        10000
    } else {
        p as u32
    }
}

/// Estimated total frame count: duration times frame rate, rounded to the
/// nearest frame and saturated at `u32::MAX`.
pub open spec fn spec_total_frames(duration_ms: int, fps_milli: int) -> int {
    let f = (duration_ms * fps_milli + 500000) / 1000000;
    if f > u32::MAX {
        u32::MAX as int
    } else {
        f
    }
}

/// Computes the estimated total frame count for a job.
pub fn estimated_total_frames(duration_ms: u64, fps_milli: u32) -> (r: u32)
    ensures
        r == spec_total_frames(duration_ms as int, fps_milli as int),
{
    proof {
        vstd::arithmetic::mul::lemma_mul_upper_bound(
            duration_ms as int,
            u64::MAX as int,
            fps_milli as int,
            u32::MAX as int,
        );
    }
    let f: u128 = ((duration_ms as u128) * (fps_milli as u128) + 500000) / 1000000;
    if f > u32::MAX as u128 {
        u32::MAX
    } else {
        f as u32
    }
}

/// One normalized progress event: percentage complete in hundredths,
/// clamped to 0..=10000, and the frame counter attached to it.
#[derive(Debug, Clone, Copy, PartialEq, Eq, Structural)]
pub struct ProgressEvent {
    pub percent_hundredths: u32,
    pub frame: u32,
}

/// What one progress line yields: the running frame counter (kept from the
/// previous line when the line carries none) and, when an elapsed-time
/// pattern matched and the total duration is known, an event.
#[derive(Debug, Clone, Copy, PartialEq, Eq, Structural)]
pub struct LineProgress {
    pub frame: u32,
    pub event: Option<ProgressEvent>,
}

/// The frame counter after a line: the captured frame, or the previous one.
pub open spec fn spec_line_frame(line: Seq<char>, prev_frame: u32) -> u32 {
    match frame_capture(line) {
        Some(f) => f,
        None => prev_frame,
    }
}

/// The percentage a line reports, in hundredths: from the microsecond
/// counter when present (authoritative), else from the clock-string
/// fallback; none when neither matched or the total duration is unknown.
pub open spec fn spec_line_percent(line: Seq<char>, total_ms: int) -> Option<int> {
    if total_ms <= 0 {
        None
    } else {
        match out_time_us_capture(line) {
            Some(us) => Some(spec_percent_from_us(us as int, total_ms)),
            None => match out_time_clock_capture(line) {
                Some(t) => match spec_clock_ms(t) {
                    Some(ms) => Some(spec_percent_from_ms(ms, total_ms)),
                    None => None,
                },
                None => None,
            },
        }
    }
}

/// Interprets one progress line against the known total duration and the
/// frame counter carried over from earlier lines.
pub fn parse_progress_line(line: &str, total_duration_ms: u64, prev_frame: u32) -> (r:
    LineProgress)
    ensures
        r.frame == spec_line_frame(line@, prev_frame),
        match r.event {
            Some(ev) => {
                &&& spec_line_percent(line@, total_duration_ms as int) == Some(
                    ev.percent_hundredths as int,
                )
                &&& ev.frame == spec_line_frame(line@, prev_frame)
                &&& ev.percent_hundredths <= 10000
            },
            None => spec_line_percent(line@, total_duration_ms as int) is None,
        },
{
    let frame = match capture_frame(line) {
        Some(f) => f,
        None => prev_frame,
    };
    if total_duration_ms == 0 {
        return LineProgress { frame, event: None };
    }
    match capture_out_time_us(line) {
        Some(us) => {
            let percent = percent_from_us(us, total_duration_ms);
            LineProgress { frame, event: Some(ProgressEvent { percent_hundredths: percent, frame }) }
        },
        None => {
            match capture_out_time_clock(line) {
                Some(t) => {
                    match crate::probe::clock_to_ms(t.as_str()) {
                        Some(ms) => {
                            let percent = percent_from_ms(ms, total_duration_ms);
                            LineProgress {
                                frame,
                                event: Some(
                                    ProgressEvent { percent_hundredths: percent, frame },
                                ),
                            }
                        },
                        None => LineProgress { frame, event: None },
                    }
                },
                None => LineProgress { frame, event: None },
            }
        },
    }
}

/// Rolling estimate of the instantaneous encode rate, in thousandths of a
/// frame per second.  Resampled whenever more than 0.3 s of wall-clock time
/// has passed and the frame counter has advanced; held between samples.
#[derive(Debug, Clone, Copy, PartialEq, Eq, Structural)]
pub struct FpsTracker {
    pub last_frame: u32,
    pub last_time_ms: u64,
    pub fps_milli: u64,
}

impl FpsTracker {
    /// Starts a tracker at the given wall-clock origin.
    pub fn new(start_ms: u64) -> (r: Self)
        ensures
            r.last_frame == 0,
            r.last_time_ms == start_ms,
            r.fps_milli == 0,
    {
        FpsTracker { last_frame: 0, last_time_ms: start_ms, fps_milli: 0 }
    }

    /// Feeds one observation.  When at least 0.3 s have passed since the
    /// last sample and the frame counter advanced, the rate is recomputed
    /// as frames advanced per elapsed second and the sample point resets;
    /// otherwise the previous estimate is held.
    pub fn update(&mut self, current_frame: u32, now_ms: u64)
        requires
            old(self).last_time_ms <= now_ms,
        ensures
            ({
                let elapsed = now_ms - old(self).last_time_ms;
                if elapsed >= 300 && current_frame > old(self).last_frame {
                    &&& final(self).fps_milli == ((current_frame - old(self).last_frame)
                        * 1000000) as int / elapsed as int
                    &&& final(self).last_frame == current_frame
                    &&& final(self).last_time_ms == now_ms
                } else {
                    *final(self) == *old(self)
                }
            }),
    {
        let elapsed: u64 = now_ms - self.last_time_ms;
        if elapsed >= 300 && current_frame > self.last_frame {
            let advanced: u64 = (current_frame - self.last_frame) as u64;
            self.fps_milli = (advanced * 1000000) / elapsed;
            self.last_frame = current_frame;
            self.last_time_ms = now_ms;
        }
    }
}

/// Bytes processed so far, treating the percentage as a proxy for bytes
/// out of the original size.
pub open spec fn spec_bytes_processed(size: int, progress: int) -> int {
    (size * progress) / 10000
}

/// Processing speed in bytes per second, saturated at `u64::MAX`; zero
/// until any time has passed and any progress was made.
pub open spec fn spec_speed(size: int, progress: int, elapsed_ms: int) -> int {
    if elapsed_ms > 0 && progress > 0 {
        let v = (spec_bytes_processed(size, progress) * 1000) / elapsed_ms;
        if v > u64::MAX {
            u64::MAX as int
        } else {
            v
        }
    } else {
        0
    }
}

/// Estimated seconds remaining: remaining bytes over current speed;
/// undefined at 0%, at 100%, and while the speed is zero.
pub open spec fn spec_eta_seconds(size: int, progress: int, elapsed_ms: int) -> Option<int> {
    if progress <= 0 || progress >= 10000 {
        None
    } else {
        let speed = spec_speed(size, progress, elapsed_ms);
        if speed <= 0 {
            None
        } else {
            Some(((size * (10000 - progress)) / 10000) / speed)
        }
    }
}

/// Aggregator state for one job: wall-clock time elapsed, the known total
/// duration, the original byte size, and the clamped percentage complete in
/// hundredths.
#[derive(Debug, Clone, Copy, PartialEq, Eq, Structural)]
pub struct ProgressMetrics {
    /// Total elapsed wall-clock time since the job started, in milliseconds.
    pub elapsed_ms: u64,
    /// Total duration of the video being compressed, in milliseconds.
    pub total_duration_ms: Option<u64>,
    /// Original file size in bytes.
    pub original_size: u64,
    /// Current compression progress in hundredths of a percent, 0..=10000.
    pub current_progress: u32,
}

impl ProgressMetrics {
    /// Starts tracking a job of the given size and duration.
    pub fn new(original_size: u64, total_duration_ms: Option<u64>) -> (r: Self)
        ensures
            r.elapsed_ms == 0,
            r.total_duration_ms == total_duration_ms,
            r.original_size == original_size,
            r.current_progress == 0,
    {
        ProgressMetrics {
            elapsed_ms: 0,
            total_duration_ms,
            original_size,
            current_progress: 0,
        }
    }

    /// Records the wall-clock time elapsed since the job started.
    pub fn update_elapsed(&mut self, elapsed_ms: u64)
        ensures
            final(self).elapsed_ms == elapsed_ms,
            final(self).total_duration_ms == old(self).total_duration_ms,
            final(self).original_size == old(self).original_size,
            final(self).current_progress == old(self).current_progress,
    {
        self.elapsed_ms = elapsed_ms;
    }

    /// Current processing speed in bytes per second.
    pub fn calculate_speed(&self) -> (r: u64)
        ensures
            r == spec_speed(
                self.original_size as int,
                self.current_progress as int,
                self.elapsed_ms as int,
            ),
    {
        if self.elapsed_ms > 0 && self.current_progress > 0 {
            proof {
                vstd::arithmetic::mul::lemma_mul_upper_bound(
                    self.original_size as int,
                    u64::MAX as int,
                    self.current_progress as int,
                    u32::MAX as int,
                );
            }
            let bytes: u128 = ((self.original_size as u128) * (self.current_progress as u128))
                / 10000;
            let v: u128 = (bytes * 1000) / (self.elapsed_ms as u128);
            if v > u64::MAX as u128 {
                u64::MAX
            } else {
                v as u64
            }
        } else {
            0
        }
    }

    /// Estimated seconds remaining, when defined.
    pub fn calculate_eta(&self) -> (r: Option<u64>)
        ensures
            match r {
                Some(v) => spec_eta_seconds(
                    self.original_size as int,
                    self.current_progress as int,
                    self.elapsed_ms as int,
                ) == Some(v as int),
                None => spec_eta_seconds(
                    self.original_size as int,
                    self.current_progress as int,
                    self.elapsed_ms as int,
                ) is None,
            },
{
        if self.current_progress == 0 || self.current_progress >= 10000 {
            return None;
        }
        let speed = self.calculate_speed();
        if speed == 0 {
            return None;
        }
        proof {
            vstd::arithmetic::mul::lemma_mul_upper_bound(
                self.original_size as int,
                u64::MAX as int,
                (10000 - self.current_progress) as int,
                10000,
            );
        }
        let remaining: u128 = ((self.original_size as u128) * ((10000 - self.current_progress)
            as u128)) / 10000;
        let eta: u128 = remaining / (speed as u128);
        proof {
            vstd::arithmetic::div_mod::lemma_div_nonincreasing(remaining as int, speed as int);
            assert(remaining <= u64::MAX) by {
                vstd::arithmetic::div_mod::lemma_div_is_ordered(
                    self.original_size as int * (10000 - self.current_progress as int),
                    u64::MAX as int * 10000,
                    10000,
                );
                vstd::arithmetic::div_mod::lemma_div_by_multiple(u64::MAX as int, 10000);
            }
        }
        Some(eta as u64)
    }

    /// Records a new progress report, clamped to 0..=10000 hundredths.
    pub fn update_progress(&mut self, progress: i64)
        ensures
            final(self).current_progress == (if progress < 0 {
                0int
            } else if progress > 10000 {
                10000int
            } else {
                progress as int
            }),
            final(self).elapsed_ms == old(self).elapsed_ms,
            final(self).total_duration_ms == old(self).total_duration_ms,
            final(self).original_size == old(self).original_size,
    {
        let clamped: u32 = if progress < 0 {
            0
        } else if progress > 10000 {
            10000
        } else {
            progress as u32
        };
        self.current_progress = clamped;
    }
}

impl Default for ProgressMetrics {
    fn default() -> (r: Self)
        ensures
            r.elapsed_ms == 0,
            r.total_duration_ms is None,
            r.original_size == 0,
            r.current_progress == 0,
    {
        ProgressMetrics {
            elapsed_ms: 0,
            total_duration_ms: None,
            original_size: 0,
            current_progress: 0,
        }
    }
}

/// Feeds one event through the aggregator: refreshes the rolling frame
/// rate, records the clamped percentage and the elapsed time, and returns
/// the estimated seconds remaining, when defined.
pub fn aggregate_step(
    metrics: &mut ProgressMetrics,
    fps: &mut FpsTracker,
    ev: ProgressEvent,
    elapsed_ms: u64,
    now_ms: u64,
) -> (eta: Option<u64>)
    requires
        old(fps).last_time_ms <= now_ms,
        ev.percent_hundredths <= 10000,
    ensures
        final(metrics).current_progress == ev.percent_hundredths,
        final(metrics).elapsed_ms == elapsed_ms,
        final(metrics).total_duration_ms == old(metrics).total_duration_ms,
        final(metrics).original_size == old(metrics).original_size,
        match eta {
            Some(v) => spec_eta_seconds(
                final(metrics).original_size as int,
                final(metrics).current_progress as int,
                final(metrics).elapsed_ms as int,
            ) == Some(v as int),
            None => spec_eta_seconds(
                final(metrics).original_size as int,
                final(metrics).current_progress as int,
                final(metrics).elapsed_ms as int,
            ) is None,
        },
{
    fps.update(ev.frame, now_ms);
    metrics.update_progress(ev.percent_hundredths as i64);
    metrics.update_elapsed(elapsed_ms);
    metrics.calculate_eta()
}

} // verus!
