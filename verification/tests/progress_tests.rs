use compresso::progress::{
    aggregate_step, estimated_total_frames, parse_progress_line, percent_from_ms, percent_from_us,
    FpsTracker, ProgressEvent, ProgressMetrics,
};

#[test]
fn test_new_progress_metrics() {
    let metrics = ProgressMetrics::new(1000000, Some(60000));
    assert_eq!(metrics.original_size, 1000000);
    assert_eq!(metrics.total_duration_ms, Some(60000));
    assert_eq!(metrics.current_progress, 0);
    assert_eq!(metrics.elapsed_ms, 0);
}

#[test]
fn test_update_progress() {
    let mut metrics = ProgressMetrics::new(1000000, Some(60000));
    metrics.update_progress(5000);
    assert_eq!(metrics.current_progress, 5000);
}

#[test]
fn test_progress_clamping() {
    let mut metrics = ProgressMetrics::new(1000000, Some(60000));
    metrics.update_progress(15000);
    assert_eq!(metrics.current_progress, 10000);
    metrics.update_progress(-1000);
    assert_eq!(metrics.current_progress, 0);
}

#[test]
fn test_calculate_speed() {
    let mut metrics = ProgressMetrics::new(1000000, Some(60000));
    metrics.update_elapsed(10000);
    metrics.update_progress(5000);
    // half of a million bytes in ten seconds
    assert_eq!(metrics.calculate_speed(), 50000);
}

#[test]
fn test_calculate_eta() {
    let mut metrics = ProgressMetrics::new(1000000, Some(60000));
    metrics.update_elapsed(10000);
    metrics.update_progress(5000);
    // the other half at 50 kB/s takes another ten seconds
    assert_eq!(metrics.calculate_eta(), Some(10));
}

#[test]
fn test_eta_at_completion() {
    let mut metrics = ProgressMetrics::new(1000000, Some(60000));
    metrics.update_progress(10000);
    assert!(metrics.calculate_eta().is_none());
}

#[test]
fn test_eta_at_start() {
    let metrics = ProgressMetrics::new(1000000, Some(60000));
    assert!(metrics.calculate_eta().is_none());
}

#[test]
fn test_two_minute_source_at_thirty_fps() {
    // 120 seconds at 30 fps make 3600 frames, and a progress line
    // reporting the 60-second mark stands at exactly half.
    assert_eq!(estimated_total_frames(120000, 30000), 3600);
    let lp = parse_progress_line("out_time_ms=60000000", 120000, 0);
    let ev = lp.event.expect("a time line with known duration yields an event");
    assert_eq!(ev.percent_hundredths, 5000);
}

#[test]
fn test_parse_progress_line_frame_only() {
    let lp = parse_progress_line("frame=  150", 120000, 7);
    assert_eq!(lp.frame, 150);
    assert!(lp.event.is_none());
    let lp2 = parse_progress_line("bitrate=1000k", 120000, 150);
    assert_eq!(lp2.frame, 150);
    assert!(lp2.event.is_none());
}

#[test]
fn test_parse_progress_line_clock_fallback() {
    let lp = parse_progress_line("out_time=00:01:00.000000", 120000, 3);
    let ev = lp.event.expect("clock fallback yields an event");
    assert_eq!(ev.percent_hundredths, 5000);
    assert_eq!(ev.frame, 3);
}

#[test]
fn test_parse_progress_line_unknown_duration() {
    // an unknown or zero total duration never yields a percentage event
    let lp = parse_progress_line("out_time_ms=60000000", 0, 0);
    assert!(lp.event.is_none());
}

#[test]
fn test_percent_clamped_at_end() {
    // reports past the known duration clamp at 100%
    assert_eq!(percent_from_us(200_000_000, 120000), 10000);
    assert_eq!(percent_from_ms(240_000, 120000), 10000);
}

#[test]
fn test_percent_monotone_stream() {
    // percentages never decrease as the reported time advances
    let mut prev = 0u32;
    for us in [0u64, 5_000_000, 30_000_000, 60_000_000, 90_000_000, 120_000_000, 150_000_000] {
        let p = percent_from_us(us, 120000);
        assert!(p >= prev);
        prev = p;
    }
}

#[test]
fn test_fps_tracker_sampling() {
    let mut fps = FpsTracker::new(1000);
    // too soon: estimate held
    fps.update(10, 1200);
    assert_eq!(fps.fps_milli, 0);
    // 60 frames over two seconds: 30 fps
    fps.update(60, 3000);
    assert_eq!(fps.fps_milli, 30000);
    assert_eq!(fps.last_frame, 60);
    // no frame advance: estimate held
    fps.update(60, 6000);
    assert_eq!(fps.fps_milli, 30000);
}

#[test]
fn test_aggregate_step() {
    let mut metrics = ProgressMetrics::new(1000000, Some(60000));
    let mut fps = FpsTracker::new(0);
    let eta = aggregate_step(
        &mut metrics,
        &mut fps,
        ProgressEvent { percent_hundredths: 5000, frame: 300 },
        10000,
        10000,
    );
    assert_eq!(metrics.current_progress, 5000);
    assert_eq!(metrics.elapsed_ms, 10000);
    assert_eq!(fps.fps_milli, 30000);
    assert_eq!(eta, Some(10));
}
