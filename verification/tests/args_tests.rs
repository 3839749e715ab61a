use compresso::domain::{
    CompressionConfig, CropCoordinates, FlipOptions, OutputFormat, Preset, VideoTransforms,
};
use compresso::ffmpeg::{crf_for_quality, rotation_filter, FFmpeg, ToolProbe};
use compresso::error::CompressoError;

fn ffmpeg() -> FFmpeg {
    FFmpeg { ffmpeg_path: "ffmpeg".to_string() }
}

fn base_config() -> CompressionConfig {
    CompressionConfig {
        input_path: "in.mp4".to_string(),
        output_path: Some("out.mp4".to_string()),
        format: None,
        preset: Preset::Thunderbolt,
        quality: 70,
        width: None,
        height: None,
        fps: None,
        mute: false,
        transforms: VideoTransforms { crop: None, rotate: None, flip: None },
        overwrite: false,
        verbose: false,
        json: false,
    }
}

#[test]
fn test_crf_values() {
    assert_eq!(crf_for_quality(0), 36);
    assert_eq!(crf_for_quality(70), 27);
    assert_eq!(crf_for_quality(100), 24);
    assert_eq!(crf_for_quality(255), 24); // clamped above 100
}

#[test]
fn test_crf_monotone_and_bounded() {
    let mut prev = crf_for_quality(0);
    for q in 1..=100u8 {
        let c = crf_for_quality(q);
        assert!(c <= prev, "control value rose at quality {}", q);
        assert!((24..=36).contains(&c));
        prev = c;
    }
}

#[test]
fn test_rotation_filters() {
    assert_eq!(rotation_filter(90), Some("transpose=1"));
    assert_eq!(rotation_filter(-270), Some("transpose=1"));
    assert_eq!(rotation_filter(270), Some("transpose=2"));
    assert_eq!(rotation_filter(-90), Some("transpose=2"));
    assert_eq!(rotation_filter(180), Some("hflip,vflip"));
    assert_eq!(rotation_filter(-180), Some("hflip,vflip"));
    assert_eq!(rotation_filter(0), None);
    assert_eq!(rotation_filter(450), Some("transpose=1")); // normalized modulo 360
}

#[test]
fn test_build_filters_default() {
    let f = ffmpeg();
    assert_eq!(f.build_filters(&base_config()), "pad=ceil(iw/2)*2:ceil(ih/2)*2");
}

#[test]
fn test_build_filters_full_chain() {
    let f = ffmpeg();
    let mut c = base_config();
    c.width = Some(1280);
    c.height = Some(720);
    c.transforms = VideoTransforms {
        crop: Some(CropCoordinates { width: 100, height: 200, x: 10, y: 20 }),
        rotate: Some(90),
        flip: Some(FlipOptions { horizontal: true, vertical: false }),
    };
    assert_eq!(
        f.build_filters(&c),
        "transpose=1,hflip,crop=100:200:10:20,scale=1280:720,pad=ceil(iw/2)*2:ceil(ih/2)*2"
    );
}

#[test]
fn test_build_args_fast_preset() {
    let f = ffmpeg();
    let args = f.build_args(&base_config(), "in.mp4", "out.tmp.x.mp4", "mp4");
    let expected: Vec<String> = vec![
        "-i", "in.mp4", "-hide_banner", "-progress", "-", "-nostats", "-loglevel", "error",
        "-c:v", "libx264", "-crf", "27", "-vf", "pad=ceil(iw/2)*2:ceil(ih/2)*2", "out.tmp.x.mp4",
    ]
    .into_iter()
    .map(|s| s.to_string())
    .collect();
    assert_eq!(args, expected);
}

#[test]
fn test_build_args_quality_preset_webm() {
    let f = ffmpeg();
    let mut c = base_config();
    c.preset = Preset::Ironclad;
    c.quality = 100;
    c.mute = true;
    c.overwrite = true;
    c.fps = Some(30);
    let args = f.build_args(&c, "in.mp4", "out.tmp.x.webm", "webm");
    let expected: Vec<String> = vec![
        "-i", "in.mp4", "-hide_banner", "-progress", "-", "-nostats", "-loglevel", "error",
        "-pix_fmt", "yuv420p", "-c:v", "libx264", "-b:v", "0", "-movflags", "+faststart",
        "-preset", "slow", "-qp", "0", "-crf", "24", "-vf", "pad=ceil(iw/2)*2:ceil(ih/2)*2",
        "-r", "30", "-c:v", "libvpx-vp9", "out.tmp.x.webm", "-an", "-y",
    ]
    .into_iter()
    .map(|s| s.to_string())
    .collect();
    assert_eq!(args, expected);
}

#[test]
fn test_tool_selection_priority() {
    // explicit path wins, and an invalid explicit path is a hard failure
    let explicit = ToolProbe {
        explicit_path: Some("/opt/tools/ffmpeg".to_string()),
        explicit_is_file: true,
        bundled_path: Some("/app/ffmpeg".to_string()),
        verify_requested: false,
        verify_ok: false,
        system_path: Some("/usr/bin/ffmpeg".to_string()),
    };
    assert_eq!(FFmpeg::new(&explicit).unwrap().ffmpeg_path, "/opt/tools/ffmpeg");

    let bad_explicit = ToolProbe { explicit_is_file: false, ..explicit.clone() };
    assert!(matches!(FFmpeg::new(&bad_explicit), Err(CompressoError::FfmpegNotFound)));

    let bundled = ToolProbe { explicit_path: None, ..explicit.clone() };
    assert_eq!(FFmpeg::new(&bundled).unwrap().ffmpeg_path, "/app/ffmpeg");

    let bundled_unverified = ToolProbe {
        explicit_path: None,
        verify_requested: true,
        verify_ok: false,
        ..explicit.clone()
    };
    assert!(matches!(FFmpeg::new(&bundled_unverified), Err(CompressoError::FfmpegNotFound)));

    let system = ToolProbe { explicit_path: None, bundled_path: None, ..explicit.clone() };
    assert_eq!(FFmpeg::new(&system).unwrap().ffmpeg_path, "/usr/bin/ffmpeg");

    let nothing = ToolProbe {
        explicit_path: None,
        bundled_path: None,
        system_path: None,
        ..explicit
    };
    assert!(matches!(FFmpeg::new(&nothing), Err(CompressoError::FfmpegNotFound)));
}
