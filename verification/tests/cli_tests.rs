use compresso::cli::{parse_crop, parse_rotation, Cli, FormatArg, PresetArg};
use compresso::domain::{CropCoordinates, OutputFormat, Preset};
use compresso::localization::{Language, Localizer};

#[test]
fn test_parse_rotation_accepted() {
    for (s, a) in [
        ("90", 90),
        ("180", 180),
        ("270", 270),
        ("-90", -90),
        ("-180", -180),
        ("-270", -270),
    ] {
        assert_eq!(parse_rotation(s), Ok(a));
    }
}

#[test]
fn test_parse_rotation_rejected() {
    assert_eq!(
        parse_rotation("45"),
        Err("Rotation must be 90, 180, 270, -90, -180, or -270".to_string())
    );
    assert_eq!(parse_rotation("ninety"), Err("Invalid rotation angle".to_string()));
    assert_eq!(parse_rotation(""), Err("Invalid rotation angle".to_string()));
    assert_eq!(parse_rotation("99999999999999"), Err("Invalid rotation angle".to_string()));
}

#[test]
fn test_parse_crop_formats() {
    let c = parse_crop("1920x1080:0:0").unwrap();
    assert_eq!((c.width, c.height, c.x, c.y), (1920, 1080, 0, 0));
    let c = parse_crop("640:480:10:20").unwrap();
    assert_eq!((c.width, c.height, c.x, c.y), (640, 480, 10, 20));
}

#[test]
fn test_parse_crop_errors() {
    assert_eq!(parse_crop("1920x1080"), Err("Crop format: WxH:X:Y or W:H:X:Y".to_string()));
    assert_eq!(parse_crop("ax1080:0:0"), Err("Invalid width".to_string()));
    assert_eq!(parse_crop("1920xb:0:0"), Err("Invalid height".to_string()));
    assert_eq!(parse_crop("1920x1080:x:0"), Err("Invalid X offset".to_string()));
    assert_eq!(parse_crop("1920x1080:0:y"), Err("Invalid Y offset".to_string()));
    assert_eq!(parse_crop("1x2x3:0:0"), Err("Crop format: WxH:X:Y or W:H:X:Y".to_string()));
}

#[test]
fn test_to_config() {
    let cli = Cli {
        input: vec!["movie.mp4".to_string()],
        dir: None,
        output: Some("small.webm".to_string()),
        quality: 85,
        preset: PresetArg::Ironclad,
        format: Some(FormatArg::Webm),
        width: Some(1280),
        height: Some(720),
        fps: Some(24),
        mute: true,
        rotate: Some(90),
        flip_h: true,
        flip_v: false,
        crop: Some(CropCoordinates { width: 10, height: 20, x: 0, y: 0 }),
        overwrite: true,
        verbose: true,
        info: false,
        json: false,
    };
    let c = cli.to_config();
    assert_eq!(c.input_path, "movie.mp4");
    assert_eq!(c.output_path.as_deref(), Some("small.webm"));
    assert_eq!(c.format, Some(OutputFormat::Webm));
    assert_eq!(c.preset, Preset::Ironclad);
    assert_eq!(c.quality, 85);
    assert_eq!(c.width, Some(1280));
    assert_eq!(c.fps, Some(24));
    assert!(c.mute);
    assert_eq!(c.transforms.rotate, Some(90));
    let flip = c.transforms.flip.expect("one flipped axis keeps the flip options");
    assert!(flip.horizontal && !flip.vertical);
    assert!(c.overwrite && c.verbose && !c.json);
}

#[test]
fn test_to_config_empty_input() {
    let cli = Cli {
        input: vec![],
        dir: Some("clips".to_string()),
        output: None,
        quality: 70,
        preset: PresetArg::Thunderbolt,
        format: None,
        width: None,
        height: None,
        fps: None,
        mute: false,
        rotate: None,
        flip_h: false,
        flip_v: false,
        crop: None,
        overwrite: false,
        verbose: false,
        info: false,
        json: true,
    };
    let c = cli.to_config();
    assert_eq!(c.input_path, "");
    assert!(c.transforms.flip.is_none());
    assert!(c.json);
}

#[test]
fn test_output_format_round_trip() {
    for f in [
        OutputFormat::Mp4,
        OutputFormat::Mov,
        OutputFormat::Webm,
        OutputFormat::Avi,
        OutputFormat::Mkv,
    ] {
        assert_eq!(OutputFormat::from_extension(f.extension()), Some(f));
    }
    assert_eq!(OutputFormat::from_extension("WEBM"), Some(OutputFormat::Webm));
    assert_eq!(OutputFormat::from_extension("gif"), None);
}

#[test]
fn test_localizer_lookup_and_fallback() {
    let mut l = Localizer::new(Language::English);
    assert_eq!(l.t("file_not_found"), "File not found");
    l.set_language(Language::Russian);
    assert_eq!(l.t("file_not_found"), "Файл не найден");
    // an unknown key falls back to the key itself
    assert_eq!(l.t("no_such_key_anywhere"), "no_such_key_anywhere");
}

#[test]
fn test_preset_and_format_from_str() {
    assert_eq!("thunderbolt".parse::<Preset>(), Ok(Preset::Thunderbolt));
    assert_eq!("FAST".parse::<Preset>(), Ok(Preset::Thunderbolt));
    assert_eq!("quality".parse::<Preset>(), Ok(Preset::Ironclad));
    assert_eq!(
        "turbo".parse::<Preset>(),
        Err("Unknown preset: turbo. Use 'thunderbolt' or 'ironclad'".to_string())
    );
    assert_eq!("webm".parse::<OutputFormat>(), Ok(OutputFormat::Webm));
    assert_eq!(
        "gif".parse::<OutputFormat>(),
        Err("Unknown format: gif. Supported: mp4, mov, webm, avi, mkv".to_string())
    );
}

#[test]
fn test_language_codes() {
    assert_eq!(Language::English.code(), "en");
    assert_eq!(Language::Russian.code(), "ru");
}
