use compresso::sizes::{estimate_output_size_range, format_duration, format_size};
use compresso::domain::Preset;

#[test]
fn test_format_size() {
    assert_eq!(format_size(500), "500 B");
    assert_eq!(format_size(1024), "1.00 KB");
    assert_eq!(format_size(1536), "1.50 KB");
    assert_eq!(format_size(1048576), "1.00 MB");
    assert_eq!(format_size(1073741824), "1.00 GB");
}

#[test]
fn test_format_size_rounding() {
    assert_eq!(format_size(1075), "1.05 KB");
    assert_eq!(format_size(1023), "1023 B");
    assert_eq!(format_size(10 * 1048576 + 524288), "10.50 MB");
}

#[test]
fn test_format_duration() {
    assert_eq!(format_duration(0), "0s");
    assert_eq!(format_duration(30), "30s");
    assert_eq!(format_duration(46), "46s");
    assert_eq!(format_duration(90), "1m 30s");
    assert_eq!(format_duration(125), "2m 5s");
    assert_eq!(format_duration(3600), "1h 0m 0s");
    assert_eq!(format_duration(3661), "1h 1m 1s");
    assert_eq!(format_duration(5025), "1h 23m 45s");
    assert_eq!(format_duration(330), "5m 30s");
}

#[test]
fn test_estimate_range_fast_quality_70() {
    // 100 MB at quality 70 on the fast preset: base estimate 3.325 MB,
    // spread to a 0.3-1.7 band.
    let (lo, hi) = estimate_output_size_range(100_000_000, 70, Preset::Thunderbolt);
    assert_eq!(lo, 997_500);
    assert_eq!(hi, 5_652_500);
    // The whole range stays strictly between 0.5% and 50% of the original.
    assert!(lo > 100_000_000 / 200);
    assert!(hi < 100_000_000 / 2);
}

#[test]
fn test_estimate_range_clamped_low() {
    // At the highest quality on the quality preset the lower bound hits the
    // absolute floor of half a percent.
    let (lo, hi) = estimate_output_size_range(1_000_000, 100, Preset::Ironclad);
    assert!(lo >= 1_000_000 * 5 / 1000);
    assert!(hi <= 1_000_000 / 2);
}

#[test]
fn test_estimate_range_ordering() {
    for q in [0u8, 10, 50, 70, 90, 100] {
        for preset in [Preset::Thunderbolt, Preset::Ironclad] {
            let (lo, hi) = estimate_output_size_range(10_000_000, q, preset);
            assert!(lo <= hi);
        }
    }
}
