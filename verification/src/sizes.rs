//! Byte-size rendering and output-size estimation.

use vstd::prelude::*;

use crate::domain::Preset;
use crate::text::{dec_rep, digit_char};

verus! {

/// One kibibyte.
pub const KB: u64 = 1024;

/// One mebibyte.
pub const MB: u64 = 1048576;

/// One gibibyte.
pub const GB: u64 = 1073741824;

/// Two decimal digits, zero-padded.
pub open spec fn spec_two_digits(d: int) -> Seq<char> {
    if d < 10 {
        seq!['0'].push(digit_char(d))
    } else {
        dec_rep(d)
    }
}

/// `bytes` over `base` with two decimals, rounded half-up.
pub open spec fn spec_scaled_hundredths(bytes: int, base: int) -> int {
    (bytes * 100 + base / 2) / base
}

/// A scaled quantity rendered with two decimals.
pub open spec fn spec_scaled(bytes: int, base: int) -> Seq<char> {
    let h = spec_scaled_hundredths(bytes, base);
    dec_rep(h / 100) + "."@ + spec_two_digits(h % 100)
}

/// The human-readable form of a byte count: two-decimal gibibytes,
/// mebibytes or kibibytes for values at least that large, else plain
/// bytes.
pub open spec fn spec_format_size(bytes: int) -> Seq<char> {
    if bytes >= GB {
        spec_scaled(bytes, GB as int) + " GB"@
    } else if bytes >= MB {
        spec_scaled(bytes, MB as int) + " MB"@
    } else if bytes >= KB {
        spec_scaled(bytes, KB as int) + " KB"@
    } else {
        dec_rep(bytes) + " B"@
    }
}

/// Renders `bytes` over `base` with two decimals.
fn scaled(bytes: u64, base: u64) -> (r: String)
    requires
        base == KB || base == MB || base == GB,
    ensures
        r@ == spec_scaled(bytes as int, base as int),
{
    let h128: u128 = ((bytes as u128) * 100 + (base / 2) as u128) / (base as u128);
    proof {
        vstd::arithmetic::div_mod::lemma_div_is_ordered(
            bytes as int * 100 + base as int / 2,
            u64::MAX as int * 101,
            base as int,
        );
        assert((u64::MAX as int * 101) / 1024 <= u64::MAX);
        vstd::arithmetic::div_mod::lemma_div_is_ordered_by_denominator(
            u64::MAX as int * 101,
            1024,
            base as int,
        );
    }
    let h: u64 = h128 as u64;
    let mut r = crate::text::u64_to_string(h / 100);
    r.append(".");
    let frac = h % 100;
    let frac_str = crate::text::u64_to_string_2(frac);
    r.append(frac_str.as_str());
    proof {
        if frac < 10 {
            assert(frac_str@ =~= spec_two_digits(frac as int));
        }
    }
    r
}

/// Formats a byte count for humans: `500 B`, `1.50 KB`, `1.00 MB`, and so
/// on, with two decimals above one kibibyte.
pub fn format_size(bytes: u64) -> (r: String)
    ensures
        r@ == spec_format_size(bytes as int),
{
    if bytes >= GB {
        let mut r = scaled(bytes, GB);
        r.append(" GB");
        r
    } else if bytes >= MB {
        let mut r = scaled(bytes, MB);
        r.append(" MB");
        r
    } else if bytes >= KB {
        let mut r = scaled(bytes, KB);
        r.append(" KB");
        r
    } else {
        let mut r = crate::text::u64_to_string(bytes);
        r.append(" B");
        r
    }
}

/// The human-readable form of a duration in whole seconds: hours, minutes
/// and seconds, dropping leading units that are zero.
pub open spec fn spec_format_duration(secs: int) -> Seq<char> {
    let h = secs / 3600;
    let m = (secs % 3600) / 60;
    let s = secs % 60;
    if h > 0 {
        dec_rep(h) + "h "@ + dec_rep(m) + "m "@ + dec_rep(s) + "s"@
    } else if m > 0 {
        dec_rep(m) + "m "@ + dec_rep(s) + "s"@
    } else {
        dec_rep(s) + "s"@
    }
}

/// Formats a duration in whole seconds for humans: `30s`, `1m 30s`,
/// `1h 0m 0s`, and so on.
pub fn format_duration(total_seconds: u64) -> (r: String)
    ensures
        r@ == spec_format_duration(total_seconds as int),
{
    let h = total_seconds / 3600;
    let m = (total_seconds % 3600) / 60;
    let s = total_seconds % 60;
    if h > 0 {
        let mut r = crate::text::u64_to_string(h);
        r.append("h ");
        let ms = crate::text::u64_to_string(m);
        r.append(ms.as_str());
        r.append("m ");
        let ss = crate::text::u64_to_string(s);
        r.append(ss.as_str());
        r.append("s");
        r
    } else if m > 0 {
        let mut r = crate::text::u64_to_string(m);
        r.append("m ");
        let ss = crate::text::u64_to_string(s);
        r.append(ss.as_str());
        r.append("s");
        r
    } else {
        let mut r = crate::text::u64_to_string(s);
        r.append("s");
        r
    }
}

/// The estimate's base compression ratio, in millionths of the original
/// size: a two-percent floor plus up to five percent as quality drops,
/// then a preset factor (the quality bundle retains slightly more, the
/// fast bundle slightly less).
pub open spec fn spec_estimate_base_millionths(quality: int, preset: Preset) -> int {
    let q = if quality > 100 {
        100int
    } else {
        quality
    };
    let ratio = 200 + 5 * (100 - q);  // in hundredths of a percent
    let factor = match preset {
        Preset::Ironclad => 110int,
        Preset::Thunderbolt => 95int,
    };
    ratio * factor
}

/// Clamped to the absolute floor of half a percent and the absolute
/// ceiling of half the original size.
pub open spec fn spec_clamp(v: int, lo: int, hi: int) -> int {
    if v < lo {
        lo
    } else if v > hi {
        hi
    } else {
        v
    }
}

/// The estimated output size range for a job: base estimate from quality
/// and preset, spread to a 0.3–1.7 band for content variability, clamped
/// to between 0.5% and 50% of the original size.
pub open spec fn spec_estimate_range(size: int, quality: int, preset: Preset) -> (int, int) {
    let base = (size * spec_estimate_base_millionths(quality, preset)) / 1000000;
    let min_est = (base * 3) / 10;
    let max_est = (base * 17) / 10;
    let lo = (size * 5) / 1000;
    let hi = size / 2;
    (spec_clamp(min_est, lo, hi), spec_clamp(max_est, lo, hi))
}

/// Estimates the output file size range for a quality and preset, as a
/// rough guide for users.
pub fn estimate_output_size_range(original_size: u64, quality: u8, preset: Preset) -> (r: (
    u64,
    u64,
))
    ensures
        r.0 == spec_estimate_range(original_size as int, quality as int, preset).0,
        r.1 == spec_estimate_range(original_size as int, quality as int, preset).1,
{
    let q: u64 = if quality > 100 {
        100
    } else {
        quality as u64
    };
    let ratio: u64 = 200 + 5 * (100 - q);
    let factor: u64 = match preset {
        Preset::Ironclad => 110,
        Preset::Thunderbolt => 95,
    };
    proof {
        vstd::arithmetic::mul::lemma_mul_upper_bound(
            original_size as int,
            u64::MAX as int,
            (ratio * factor) as int,
            77000int,
        );
    }
    let base: u128 = ((original_size as u128) * ((ratio * factor) as u128)) / 1000000;
    proof {
        vstd::arithmetic::div_mod::lemma_div_is_ordered(
            original_size as int * (ratio * factor) as int,
            u64::MAX as int * 77000,
            1000000,
        );
        vstd::arithmetic::div_mod::lemma_div_is_ordered_by_denominator(
            u64::MAX as int * 77000,
            100000,
            1000000,
        );
        assert((u64::MAX as int * 77000) / 100000 <= u64::MAX as int * 2);
    }
    let min_est: u128 = (base * 3) / 10;
    let max_est: u128 = (base * 17) / 10;
    let lo: u64 = ((original_size as u128) * 5 / 1000) as u64;
    proof {
        vstd::arithmetic::div_mod::lemma_div_is_ordered(
            original_size as int * 5,
            u64::MAX as int * 5,
            1000,
        );
        vstd::arithmetic::div_mod::lemma_div_is_ordered_by_denominator(
            u64::MAX as int * 5,
            5,
            1000,
        );
        assert((u64::MAX as int * 5) / 5 == u64::MAX as int);
    }
    let hi: u64 = original_size / 2;
    let min_clamped: u64 = clamp_u128(min_est, lo, hi);
    let max_clamped: u64 = clamp_u128(max_est, lo, hi);
    (min_clamped, max_clamped)
}

/// Clamps a wide intermediate into a `u64` band.
fn clamp_u128(v: u128, lo: u64, hi: u64) -> (r: u64)
    ensures
        r == spec_clamp(v as int, lo as int, hi as int),
{
    if v < lo as u128 {
        lo
    } else if v > hi as u128 {
        hi
    } else {
        v as u64
    }
}

} // verus!
