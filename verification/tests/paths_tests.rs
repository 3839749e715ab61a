use compresso::error::CompressoError;
use compresso::paths::{
    fresh_temp_path, generate_output_path, has_video_extension, make_temp_path, path_has_traversal,
    resolve_path_string, sanitize_args_for_logging, symlink_diverged, validate_output_path,
};

#[test]
fn test_generate_output_path() {
    assert_eq!(generate_output_path("video.mp4", None), "video_compressed.mp4");
    assert_eq!(generate_output_path("video.mp4", Some("webm")), "video_compressed.webm");
}

#[test]
fn test_generate_output_path_with_directory() {
    assert_eq!(generate_output_path("clips/video.mp4", None), "clips/video_compressed.mp4");
    assert_eq!(generate_output_path("./video.mp4", None), "video_compressed.mp4");
    assert_eq!(generate_output_path("noext", None), "noext_compressed.mp4");
}

#[test]
fn test_make_temp_path_keeps_extension() {
    assert_eq!(make_temp_path("out.mp4", "abcd1234"), "out.tmp.abcd1234.mp4");
    assert_eq!(make_temp_path("dir/out.webm", "t0t0t0t0"), "dir/out.tmp.t0t0t0t0.webm");
    assert_eq!(make_temp_path("/out.mp4", "zz11zz11"), "/out.tmp.zz11zz11.mp4");
    assert_eq!(make_temp_path("noext", "abcd1234"), "noext.tmp.abcd1234.mp4");
    assert_eq!(make_temp_path("dir/", "abcd1234"), "dir/.tmp.abcd1234");
}

#[test]
fn test_fresh_temp_path_shape() {
    let t = fresh_temp_path("movie.mp4");
    assert!(t.starts_with("movie.tmp."));
    assert!(t.ends_with(".mp4"));
    assert_ne!(t, "movie.mp4");
    // stem + ".tmp." + 8-character token + ".mp4"
    assert_eq!(t.chars().count(), "movie.tmp.".len() + 8 + ".mp4".len());
    // two draws practically never collide
    let u = fresh_temp_path("movie.mp4");
    assert_ne!(t, u);
}

#[test]
fn test_resolve_path_string() {
    match resolve_path_string("a.mp4", None) {
        Ok(s) => assert_eq!(s, "a.mp4"),
        Err(_) => panic!("plain path must pass"),
    }
    match resolve_path_string("a.mp4", Some("/real/a.mp4")) {
        Ok(s) => assert_eq!(s, "/real/a.mp4"),
        Err(_) => panic!("canonicalized path must pass"),
    }
    match resolve_path_string("bad\0path", None) {
        Ok(_) => panic!("null byte must be rejected"),
        Err(e) => assert!(matches!(e, CompressoError::InvalidInput(_))),
    }
}

#[test]
fn test_traversal_and_symlink_warnings() {
    assert!(path_has_traversal("../secret/video.mp4"));
    assert!(!path_has_traversal("videos/video.mp4"));
    assert!(symlink_diverged("videos/a.mp4", "/mnt/elsewhere/b.mp4"));
    assert!(!symlink_diverged("a.mp4", "/home/user/a.mp4"));
}

#[test]
fn test_validate_output_path_system_locations() {
    assert!(matches!(
        validate_output_path("/etc/evil.mp4", None),
        Err(CompressoError::InvalidOutput(_))
    ));
    assert!(matches!(
        validate_output_path("/SYS/evil.mp4", None),
        Err(CompressoError::InvalidOutput(_))
    ));
    assert!(matches!(validate_output_path("videos/fine.mp4", None), Ok(())));
}

#[test]
fn test_validate_output_path_root_destination() {
    // a destination whose canonicalized parent is the filesystem root
    assert!(matches!(
        validate_output_path("/evil.mp4", Some("/")),
        Err(CompressoError::InvalidOutput(_))
    ));
    assert!(matches!(validate_output_path("deep/evil.mp4", Some("/home/user/deep")), Ok(())));
}

#[test]
fn test_sanitize_args_for_logging() {
    let args: Vec<String> = vec![
        "-i".to_string(),
        "/home/user/videos/secret.mp4".to_string(),
        "-crf".to_string(),
        "27".to_string(),
        "relative/clip.mov".to_string(),
    ];
    let out = sanitize_args_for_logging(&args, "/home/user");
    assert_eq!(out[0], "-i");
    assert_eq!(out[1], "~/secret.mp4");
    assert_eq!(out[2], "-crf");
    assert_eq!(out[3], "27");
    assert_eq!(out[4], "clip.mov");
}

#[test]
fn test_sanitize_arg_without_home_match() {
    let args: Vec<String> = vec!["/tmp/other.mp4".to_string()];
    let out = sanitize_args_for_logging(&args, "/home/user");
    assert_eq!(out[0], "other.mp4");
}

#[test]
fn test_has_video_extension() {
    assert!(has_video_extension("a.mp4"));
    assert!(has_video_extension("a.MKV"));
    assert!(has_video_extension("dir/b.webm"));
    assert!(!has_video_extension("a.txt"));
    assert!(!has_video_extension("noext"));
}
