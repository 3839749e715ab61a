//! Interpretation of the inspection pass over the source media.
//!
//! The external tool prints facts about the input (duration, dimensions,
//! frame rate) in its diagnostic output.  Pattern extraction is delegated to
//! the regex crate behind trusted wrappers whose results are named; all
//! numeric interpretation — clock strings to milliseconds, decimal frame
//! rates to thousandths — is verified here.

use vstd::prelude::*;

use crate::domain::VideoInfo;
use crate::error::CompressoError;
use crate::text::{
    all_digits, digits_value, first_index_of, has_substring, lemma_digits_value_nonneg, pow10,
};

verus! {

/// What the duration pattern captures from the tool's probe output.
pub uninterp spec fn duration_capture(out: Seq<char>) -> Option<Seq<char>>;

/// What the dimension pattern captures from the tool's probe output.
pub uninterp spec fn dims_capture(out: Seq<char>) -> Option<(u32, u32)>;

/// What the frame-rate pattern captures from the tool's probe output.
pub uninterp spec fn fps_text_capture(out: Seq<char>) -> Option<Seq<char>>;

/// Relies on `regex::Regex::captures` with the pattern
/// `Duration: (\d{2}:\d{2}:\d{2}\.\d{2})`: the first clock-formatted
/// duration in the probe output, as text.
#[verifier::external_body]
fn capture_duration(out: &str) -> (r: Option<String>)
    ensures
        match r {
            Some(s) => duration_capture(out@) == Some(s@),
            None => duration_capture(out@) is None,
        },
{
    match regex::Regex::new(r"Duration: (?P<duration>\d{2}:\d{2}:\d{2}\.\d{2})") {
        Ok(re) => re.captures(out).map(|cap| cap["duration"].to_string()),
        Err(_) => None,
    }
}

/// Relies on `regex::Regex::captures` with the pattern
/// `Video:.*? (\d{2,5})x(\d{2,5})`: the first width-by-height pair on a
/// video stream line, parsed as two `u32`s.
#[verifier::external_body]
fn capture_dimensions(out: &str) -> (r: Option<(u32, u32)>)
    ensures
        r == dims_capture(out@),
{
    match regex::Regex::new(r"Video:.*? (\d{2,5})x(\d{2,5})") {
        Ok(re) => re.captures(out).and_then(
            |cap| {
                let width = cap.get(1)?.as_str().parse().ok()?;
                let height = cap.get(2)?.as_str().parse().ok()?;
                Some((width, height))
            },
        ),
        Err(_) => None,
    }
}

/// Relies on `regex::Regex::captures` with the pattern
/// `(\d+(?:\.\d+)?)\s*fps`: the first decimal number marked as a frame
/// rate, as text.
#[verifier::external_body]
fn capture_fps_text(out: &str) -> (r: Option<String>)
    ensures
        match r {
            Some(s) => fps_text_capture(out@) == Some(s@),
            None => fps_text_capture(out@) is None,
        },
{
    match regex::Regex::new(r"(\d+(?:\.\d+)?)\s*fps") {
        Ok(re) => re.captures(out).and_then(|cap| Some(cap.get(1)?.as_str().to_string())),
        Err(_) => None,
    }
}

/// Thousandths denoted by the first three fractional digits (shorter runs
/// are scaled up; later digits are dropped).
pub open spec fn spec_frac_milli(fp: Seq<char>) -> int {
    if fp.len() >= 3 {
        digits_value(fp.subrange(0, 3))
    } else {
        digits_value(fp) * pow10((3 - fp.len()) as nat)
    }
}

/// A decimal number `D[.F]` read in thousandths, or `None` when malformed.
/// The value is exact to the millisecond; fractional digits past the third
/// are dropped.
pub open spec fn spec_decimal_milli_raw(s: Seq<char>) -> Option<int> {
    match first_index_of(s, '.') {
        None => if s.len() > 0 && all_digits(s) {
            Some(digits_value(s) * 1000)
        } else {
            None
        },
        Some(i) => {
            let ip = s.subrange(0, i);
            let fp = s.subrange(i + 1, s.len() as int);
            if ip.len() > 0 && all_digits(ip) && fp.len() > 0 && all_digits(fp) {
                Some(digits_value(ip) * 1000 + spec_frac_milli(fp))
            } else {
                None
            }
        },
    }
}

/// A decimal number in thousandths, gated at what fits a `u64`.
pub open spec fn spec_decimal_milli(s: Seq<char>) -> Option<int> {
    match spec_decimal_milli_raw(s) {
        Some(v) => if v <= u64::MAX {
            Some(v)
        } else {
            None
        },
        None => None,
    }
}

/// A clock string `H:M:S[.F]` read in milliseconds: hours and minutes are
/// digit runs, the seconds part is a decimal number, and no further colon
/// may follow.  `None` when malformed.
pub open spec fn spec_clock_ms_raw(s: Seq<char>) -> Option<int> {
    match first_index_of(s, ':') {
        None => None,
        Some(i) => {
            let hp = s.subrange(0, i);
            let rest = s.subrange(i + 1, s.len() as int);
            match first_index_of(rest, ':') {
                None => None,
                Some(j) => {
                    let mp = rest.subrange(0, j);
                    let sp = rest.subrange(j + 1, rest.len() as int);
                    if hp.len() > 0 && all_digits(hp) && mp.len() > 0 && all_digits(mp)
                        && first_index_of(sp, ':') is None {
                        match spec_decimal_milli_raw(sp) {
                            Some(sm) => Some(
                                digits_value(hp) * 3600000 + digits_value(mp) * 60000 + sm,
                            ),
                            None => None,
                        }
                    } else {
                        None
                    }
                },
            }
        },
    }
}

/// A clock string in milliseconds, gated at what fits a `u64`.
pub open spec fn spec_clock_ms(s: Seq<char>) -> Option<int> {
    match spec_clock_ms_raw(s) {
        Some(v) => if v <= u64::MAX {
            Some(v)
        } else {
            None
        },
        None => None,
    }
}

/// `v * 1000 + f` fits below `max` exactly when `v` is at most
/// `(max - f) / 1000`.
proof fn lemma_scale_gate(v: int, f: int, max: int)
    requires
        0 <= v,
        0 <= f <= 999,
        f <= max,
    ensures
        (v * 1000 + f <= max) <==> (v <= (max - f) / 1000),
{
    let q = (max - f) / 1000;
    vstd::arithmetic::div_mod::lemma_fundamental_div_mod(max - f, 1000);
    vstd::arithmetic::div_mod::lemma_mod_bound(max - f, 1000);
    if v * 1000 + f <= max {
        vstd::arithmetic::div_mod::lemma_div_is_ordered(v * 1000, max - f, 1000);
        vstd::arithmetic::div_mod::lemma_div_by_multiple(v, 1000);
    }
    if v <= q {
        assert(v * 1000 <= q * 1000) by (nonlinear_arith)
            requires
                v <= q,
        ;
    }
}

/// Parses a decimal number into thousandths.
pub fn parse_decimal_milli(s: &str) -> (r: Option<u64>)
    ensures
        match r {
            Some(v) => spec_decimal_milli(s@) == Some(v as int),
            None => spec_decimal_milli(s@) is None,
        },
{
    let n = s.unicode_len();
    match crate::text::find_first_char(s, '.') {
        None => {
            match crate::text::parse_u64(s) {
                Some(v) => {
                    proof {
                        lemma_scale_gate(v as int, 0, u64::MAX as int);
                    }
                    if v <= (u64::MAX - 0) / 1000 {
                        Some(v * 1000)
                    } else {
                        None
                    }
                },
                None => {
                    proof {
                        if s@.len() > 0 && all_digits(s@) {
                            lemma_digits_value_nonneg(s@);
                        }
                    }
                    None
                },
            }
        },
        Some(i) => {
            let ip = s.substring_char(0, i);
            let fp = s.substring_char(i + 1, n);
            let fp_len = fp.unicode_len();
            if fp_len == 0 || !crate::text::check_all_digits(fp) {
                return None;
            }
            let f3_len: usize = if fp_len >= 3 {
                3
            } else {
                fp_len
            };
            let f3 = fp.substring_char(0, f3_len);
            let frac_small = match crate::text::parse_u64(f3) {
                Some(fv) => fv,
                None => {
                    proof {
                        assert(false) by {
                            assert(all_digits(f3@)) by {
                                assert(forall|k: int|
                                    0 <= k < f3@.len() ==> f3@[k] == #[trigger] fp@[k]);
                            }
                            crate::text::lemma_digits_value_small(f3@);
                        }
                    }
                    0
                },
            };
            proof {
                assert(all_digits(f3@)) by {
                    assert(forall|k: int| 0 <= k < f3@.len() ==> f3@[k] == #[trigger] fp@[k]);
                }
                crate::text::lemma_digits_value_bounds(f3@);
                assert(pow10(0) == 1);
                assert(pow10(1) == 10);
                assert(pow10(2) == 100);
                assert(pow10(3) == 1000);
                assert(digits_value(f3@) < pow10(f3@.len() as nat));
            }
            let frac: u64 = if fp_len >= 3 {
                frac_small
            } else if fp_len == 2 {
                frac_small * 10
            } else {
                frac_small * 100
            };
            proof {
                assert(pow10(0) == 1);
                assert(pow10(1) == 10);
                assert(pow10(2) == 100);
                if fp@.len() >= 3 {
                    assert(f3@ =~= fp@.subrange(0, 3));
                } else {
                    assert(f3@ =~= fp@);
                }
                assert(frac == spec_frac_milli(fp@));
            }
            match crate::text::parse_u64(ip) {
                Some(v) => {
                    proof {
                        lemma_scale_gate(v as int, frac as int, u64::MAX as int);
                    }
                    if v <= (u64::MAX - frac) / 1000 {
                        Some(v * 1000 + frac)
                    } else {
                        None
                    }
                },
                None => {
                    proof {
                        if ip@.len() > 0 && all_digits(ip@) {
                            lemma_digits_value_nonneg(ip@);
                            assert(digits_value(ip@) * 1000 > u64::MAX) by (nonlinear_arith)
                                requires
                                    digits_value(ip@) > u64::MAX,
                            ;
                        }
                    }
                    None
                },
            }
        },
    }
}

/// Parses a clock string `H:M:S[.F]` into milliseconds.
pub fn clock_to_ms(s: &str) -> (r: Option<u64>)
    ensures
        match r {
            Some(v) => spec_clock_ms(s@) == Some(v as int),
            None => spec_clock_ms(s@) is None,
        },
{
    let n = s.unicode_len();
    let i = match crate::text::find_first_char(s, ':') {
        Some(i) => i,
        None => {
            return None;
        },
    };
    let rest = s.substring_char(i + 1, n);
    let rest_len = rest.unicode_len();
    let j = match crate::text::find_first_char(rest, ':') {
        Some(j) => j,
        None => {
            return None;
        },
    };
    let hp = s.substring_char(0, i);
    let mp = rest.substring_char(0, j);
    let sp = rest.substring_char(j + 1, rest_len);
    if !crate::text::check_all_digits(hp) || !crate::text::check_all_digits(mp) {
        return None;
    }
    match crate::text::find_first_char(sp, ':') {
        Some(_) => {
            return None;
        },
        None => (),
    }
    let sm = match parse_decimal_milli(sp) {
        Some(sm) => sm,
        None => {
            proof {
                if spec_decimal_milli_raw(sp@) is Some {
                    let smv = spec_decimal_milli_raw(sp@)->0;
                    lemma_digits_value_nonneg(hp@);
                    lemma_digits_value_nonneg(mp@);
                    assert(spec_clock_ms_raw(s@)->0 >= smv);
                }
            }
            return None;
        },
    };
    let h = match crate::text::parse_u64(hp) {
        Some(h) => h,
        None => {
            proof {
                lemma_digits_value_nonneg(mp@);
                lemma_decimal_milli_raw_nonneg(sp@);
                assert(digits_value(hp@) * 3600000 > u64::MAX) by (nonlinear_arith)
                    requires
                        digits_value(hp@) > u64::MAX,
                ;
            }
            return None;
        },
    };
    let m = match crate::text::parse_u64(mp) {
        Some(m) => m,
        None => {
            proof {
                lemma_digits_value_nonneg(hp@);
                lemma_decimal_milli_raw_nonneg(sp@);
                assert(digits_value(hp@) * 3600000 >= 0) by (nonlinear_arith)
                    requires
                        digits_value(hp@) >= 0,
                ;
                assert(digits_value(mp@) * 60000 > u64::MAX) by (nonlinear_arith)
                    requires
                        digits_value(mp@) > u64::MAX,
                ;
            }
            return None;
        },
    };
    let total: u128 = (h as u128) * 3600000 + (m as u128) * 60000 + (sm as u128);
    if total <= u64::MAX as u128 {
        Some(total as u64)
    } else {
        None
    }
}

/// A well-formed decimal reading is non-negative.
proof fn lemma_decimal_milli_raw_nonneg(s: Seq<char>)
    ensures
        spec_decimal_milli_raw(s) is Some ==> spec_decimal_milli_raw(s)->0 >= 0,
{
    match first_index_of(s, '.') {
        None => {
            if s.len() > 0 && all_digits(s) {
                lemma_digits_value_nonneg(s);
            }
        },
        Some(i) => {
            let ip = s.subrange(0, i);
            let fp = s.subrange(i + 1, s.len() as int);
            if ip.len() > 0 && all_digits(ip) && fp.len() > 0 && all_digits(fp) {
                lemma_digits_value_nonneg(ip);
                lemma_frac_milli_nonneg(fp);
                assert(digits_value(ip) * 1000 >= 0) by (nonlinear_arith)
                    requires
                        digits_value(ip) >= 0,
                ;
            }
        },
    }
}

/// The fractional part contributes a non-negative number of thousandths.
proof fn lemma_frac_milli_nonneg(fp: Seq<char>)
    requires
        all_digits(fp),
    ensures
        spec_frac_milli(fp) >= 0,
{
    if fp.len() >= 3 {
        let f3 = fp.subrange(0, 3);
        assert(all_digits(f3)) by {
            assert(forall|k: int| 0 <= k < f3.len() ==> f3[k] == #[trigger] fp[k]);
        }
        lemma_digits_value_nonneg(f3);
    } else {
        lemma_digits_value_nonneg(fp);
        crate::text::lemma_pow10_pos((3 - fp.len()) as nat);
        assert(digits_value(fp) * pow10((3 - fp.len()) as nat) >= 0) by (nonlinear_arith)
            requires
                digits_value(fp) >= 0,
                pow10((3 - fp.len()) as nat) > 0,
        ;
    }
}

/// The duration of the probed medium, in milliseconds, as derived from the
/// captured duration text.
pub open spec fn spec_duration_ms_of(out: Seq<char>) -> Option<int> {
    match duration_capture(out) {
        Some(t) => spec_clock_ms(t),
        None => None,
    }
}

/// The frame rate of the probed medium, in thousandths of a frame per
/// second, as derived from the captured frame-rate text and gated at what
/// fits a `u32`.
pub open spec fn spec_fps_milli_of(out: Seq<char>) -> Option<int> {
    match fps_text_capture(out) {
        Some(t) => match spec_decimal_milli_raw(t) {
            Some(v) => if v <= u32::MAX {
                Some(v)
            } else {
                None
            },
            None => None,
        },
        None => None,
    }
}

/// Reads the probe facts out of the tool's diagnostic output: the clock
/// duration (as text and in milliseconds), the pixel dimensions, and the
/// frame rate in thousandths.
pub fn parse_video_info(out: &str) -> (r: VideoInfo)
    ensures
        match r.duration {
            Some(d) => duration_capture(out@) == Some(d@),
            None => duration_capture(out@) is None,
        },
        match r.duration_ms {
            Some(v) => spec_duration_ms_of(out@) == Some(v as int),
            None => spec_duration_ms_of(out@) is None,
        },
        r.dimensions == dims_capture(out@),
        match r.fps_milli {
            Some(v) => spec_fps_milli_of(out@) == Some(v as int),
            None => spec_fps_milli_of(out@) is None,
        },
{
    let duration = capture_duration(out);
    let duration_ms = match &duration {
        Some(d) => clock_to_ms(d.as_str()),
        None => None,
    };
    let dimensions = capture_dimensions(out);
    let fps_milli = match capture_fps_text(out) {
        Some(t) => {
            match parse_decimal_milli(t.as_str()) {
                Some(v) => if v <= u32::MAX as u64 {
                    Some(v as u32)
                } else {
                    None
                },
                None => {
                    proof {
                        if spec_decimal_milli_raw(t@) is Some {
                            assert(spec_decimal_milli_raw(t@)->0 > u64::MAX);
                        }
                    }
                    None
                },
            }
        },
        None => None,
    };
    VideoInfo { duration, duration_ms, dimensions, fps_milli }
}

/// Decides whether a failed probe means the input file is missing: the tool
/// reported failure and its diagnostics name a missing file.
pub fn classify_probe_failure(success: bool, tool_output: &str, video_path: &str) -> (r: Option<
    CompressoError,
>)
    ensures
        match r {
            Some(e) => {
                &&& !success
                &&& (has_substring(tool_output@, "No such file"@) || has_substring(
                    tool_output@,
                    "does not exist"@,
                ))
                &&& e matches CompressoError::FileNotFound(p) && p@ == video_path@
            },
            None => success || (!has_substring(tool_output@, "No such file"@) && !has_substring(
                tool_output@,
                "does not exist"@,
            )),
        },
{
    if !success && (crate::text::contains_substring(tool_output, "No such file")
        || crate::text::contains_substring(tool_output, "does not exist")) {
        Some(CompressoError::FileNotFound(String::from_str(video_path)))
    } else {
        None
    }
}

} // verus!
