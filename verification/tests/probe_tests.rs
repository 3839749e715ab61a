use compresso::error::CompressoError;
use compresso::probe::{classify_probe_failure, clock_to_ms, parse_decimal_milli, parse_video_info};

#[test]
fn test_clock_to_ms() {
    assert_eq!(clock_to_ms("00:02:00.00"), Some(120000));
    assert_eq!(clock_to_ms("01:01:01.50"), Some(3661500));
    assert_eq!(clock_to_ms("00:00:05.2"), Some(5200));
    assert_eq!(clock_to_ms("00:00:05.2567"), Some(5256));
    assert_eq!(clock_to_ms("12:00"), None);
    assert_eq!(clock_to_ms("a:b:c"), None);
    assert_eq!(clock_to_ms("1:2:3:4"), None);
}

#[test]
fn test_parse_decimal_milli() {
    assert_eq!(parse_decimal_milli("30"), Some(30000));
    assert_eq!(parse_decimal_milli("29.97"), Some(29970));
    assert_eq!(parse_decimal_milli("0.5"), Some(500));
    assert_eq!(parse_decimal_milli(""), None);
    assert_eq!(parse_decimal_milli("a.b"), None);
    assert_eq!(parse_decimal_milli("1."), None);
}

#[test]
fn test_parse_video_info() {
    let out = "Input #0, mov,mp4, from 'in.mp4':\n  Duration: 00:02:00.00, start: 0.000000, bitrate: 1412 kb/s\n  Stream #0:0(und): Video: h264 (High), yuv420p, 1920x1080 [SAR 1:1 DAR 16:9], 30 fps, 30 tbr\n";
    let info = parse_video_info(out);
    assert_eq!(info.duration.as_deref(), Some("00:02:00.00"));
    assert_eq!(info.duration_ms, Some(120000));
    assert_eq!(info.dimensions, Some((1920, 1080)));
    assert_eq!(info.fps_milli, Some(30000));
}

#[test]
fn test_parse_video_info_fractional_fps() {
    let out = "  Duration: 00:00:10.50, start: 0.0\n  Stream: Video: h264, 1280x720, 29.97 fps\n";
    let info = parse_video_info(out);
    assert_eq!(info.duration_ms, Some(10500));
    assert_eq!(info.dimensions, Some((1280, 720)));
    assert_eq!(info.fps_milli, Some(29970));
}

#[test]
fn test_parse_video_info_empty() {
    let info = parse_video_info("nothing to see here");
    assert!(info.duration.is_none());
    assert!(info.duration_ms.is_none());
    assert!(info.dimensions.is_none());
    assert!(info.fps_milli.is_none());
}

#[test]
fn test_classify_probe_failure() {
    let missing = classify_probe_failure(false, "in.mp4: No such file or directory", "in.mp4");
    match missing {
        Some(CompressoError::FileNotFound(p)) => assert_eq!(p, "in.mp4"),
        _ => panic!("a missing file must be classified as FileNotFound"),
    }
    assert!(classify_probe_failure(true, "No such file", "in.mp4").is_none());
    assert!(classify_probe_failure(false, "Invalid data found", "in.mp4").is_none());
}
