//! Data model for one compression job.
//!
//! Durations are carried in milliseconds and frame rates in thousandths of a
//! frame per second, so that progress arithmetic stays in exact integers.

use vstd::prelude::*;

use crate::text::ascii_lower;

verus! {

/// Result of a successful video compression.
#[derive(Debug, Clone)]
pub struct CompressionResult {
    pub file_name: String,
    pub file_path: String,
    pub original_size: u64,
    pub compressed_size: u64,
}

/// File metadata information.
#[derive(Debug, Clone)]
pub struct FileMetadata {
    pub path: String,
    pub file_name: String,
    pub mime_type: String,
    pub extension: String,
    pub size: u64,
}

/// Video information extracted from the probe pass.
#[derive(Debug, Clone)]
pub struct VideoInfo {
    /// Duration as probed, in `HH:MM:SS.cc` clock form.
    pub duration: Option<String>,
    /// Duration in milliseconds.
    pub duration_ms: Option<u64>,
    /// Pixel dimensions, width by height.
    pub dimensions: Option<(u32, u32)>,
    /// Frame rate in thousandths of a frame per second.
    pub fps_milli: Option<u32>,
}

/// Crop rectangle for the video.
#[derive(Debug, Clone, Copy, PartialEq, Eq, Structural)]
pub struct CropCoordinates {
    pub width: u32,
    pub height: u32,
    pub x: u32,
    pub y: u32,
}

/// Flip options for the video.
#[derive(Debug, Clone, Copy, PartialEq, Eq, Structural)]
pub struct FlipOptions {
    pub horizontal: bool,
    pub vertical: bool,
}

impl Default for FlipOptions {
    fn default() -> (r: Self)
        ensures
            !r.horizontal,
            !r.vertical,
    {
        FlipOptions { horizontal: false, vertical: false }
    }
}

/// Geometry transform pipeline: crop rectangle, rotation, flips.
#[derive(Debug, Clone)]
pub struct VideoTransforms {
    pub crop: Option<CropCoordinates>,
    pub rotate: Option<i32>,
    pub flip: Option<FlipOptions>,
}

impl Default for VideoTransforms {
    fn default() -> (r: Self)
        ensures
            r.crop is None,
            r.rotate is None,
            r.flip is None,
    {
        VideoTransforms { crop: None, rotate: None, flip: None }
    }
}

/// Compression preset: a codec/parameter bundle.
#[derive(Debug, Clone, Copy, PartialEq, Eq, Structural)]
pub enum Preset {
    /// Fast compression with good quality.
    Thunderbolt,
    /// Best quality, slower compression.
    Ironclad,
}

impl Default for Preset {
    fn default() -> (r: Self)
        ensures
            r == Preset::Thunderbolt,
    {
        Preset::Thunderbolt
    }
}

impl std::str::FromStr for Preset {
    type Err = String;

    /// Accepts a preset by name or by its speed alias, case-insensitively.
    fn from_str(s: &str) -> Result<Self, String> {
        let low = crate::text::to_ascii_lower(s);
        let l = low.as_str();
        if crate::text::str_eq(l, "thunderbolt") || crate::text::str_eq(l, "fast") {
            Ok(Preset::Thunderbolt)
        } else if crate::text::str_eq(l, "ironclad") || crate::text::str_eq(l, "quality") {
            Ok(Preset::Ironclad)
        } else {
            let mut msg = String::new();
            msg.append("Unknown preset: ");
            msg.append(s);
            msg.append(". Use 'thunderbolt' or 'ironclad'");
            Err(msg)
        }
    }
}

/// Supported output container formats.
#[derive(Debug, Clone, Copy, PartialEq, Eq, Structural)]
pub enum OutputFormat {
    Mp4,
    Mov,
    Webm,
    Avi,
    Mkv,
}

/// The canonical file extension of a container format.
pub open spec fn spec_extension(f: OutputFormat) -> Seq<char> {
    match f {
        OutputFormat::Mp4 => "mp4"@,
        OutputFormat::Mov => "mov"@,
        OutputFormat::Webm => "webm"@,
        OutputFormat::Avi => "avi"@,
        OutputFormat::Mkv => "mkv"@,
    }
}

/// The container format that claims a given (lower-case) extension.
pub open spec fn spec_format_of(e: Seq<char>) -> Option<OutputFormat> {
    if e == "mp4"@ {
        Some(OutputFormat::Mp4)
    } else if e == "mov"@ {
        Some(OutputFormat::Mov)
    } else if e == "webm"@ {
        Some(OutputFormat::Webm)
    } else if e == "avi"@ {
        Some(OutputFormat::Avi)
    } else if e == "mkv"@ {
        Some(OutputFormat::Mkv)
    } else {
        None
    }
}

impl OutputFormat {
    /// The canonical file extension for this format.
    pub fn extension(&self) -> (r: &'static str)
        ensures
            r@ == spec_extension(*self),
    {
        match self {
            OutputFormat::Mp4 => "mp4",
            OutputFormat::Mov => "mov",
            OutputFormat::Webm => "webm",
            OutputFormat::Avi => "avi",
            OutputFormat::Mkv => "mkv",
        }
    }

    /// Maps an extension, case-insensitively, to its container format.
    pub fn from_extension(ext: &str) -> (r: Option<Self>)
        ensures
            r == spec_format_of(ascii_lower(ext@)),
    {
        let low = crate::text::to_ascii_lower(ext);
        let l = low.as_str();
        if crate::text::str_eq(l, "mp4") {
            Some(OutputFormat::Mp4)
        } else if crate::text::str_eq(l, "mov") {
            Some(OutputFormat::Mov)
        } else if crate::text::str_eq(l, "webm") {
            Some(OutputFormat::Webm)
        } else if crate::text::str_eq(l, "avi") {
            Some(OutputFormat::Avi)
        } else if crate::text::str_eq(l, "mkv") {
            Some(OutputFormat::Mkv)
        } else {
            None
        }
    }
}

impl std::str::FromStr for OutputFormat {
    type Err = String;

    /// Accepts a format by its extension, case-insensitively.
    fn from_str(s: &str) -> Result<Self, String> {
        match OutputFormat::from_extension(s) {
            Some(f) => Ok(f),
            None => {
                let mut msg = String::new();
                msg.append("Unknown format: ");
                msg.append(s);
                msg.append(". Supported: mp4, mov, webm, avi, mkv");
                Err(msg)
            },
        }
    }
}

/// Fully-resolved configuration for one compression job.
#[derive(Debug, Clone)]
pub struct CompressionConfig {
    pub input_path: String,
    pub output_path: Option<String>,
    pub format: Option<OutputFormat>,
    pub preset: Preset,
    pub quality: u8,
    pub width: Option<u32>,
    pub height: Option<u32>,
    pub fps: Option<u32>,
    pub mute: bool,
    pub transforms: VideoTransforms,
    pub overwrite: bool,
    pub verbose: bool,
    pub json: bool,
}

impl Default for CompressionConfig {
    fn default() -> (r: Self)
        ensures
            r.input_path@ == Seq::<char>::empty(),
            r.output_path is None,
            r.format is None,
            r.preset == Preset::Thunderbolt,
            r.quality == 70,
            r.width is None,
            r.height is None,
            r.fps is None,
            !r.mute,
            r.transforms.crop is None,
            r.transforms.rotate is None,
            r.transforms.flip is None,
            !r.overwrite,
            !r.verbose,
            !r.json,
    {
        CompressionConfig {
            input_path: String::new(),
            output_path: None,
            format: None,
            preset: Preset::Thunderbolt,
            quality: 70,
            width: None,
            height: None,
            fps: None,
            mute: false,
            transforms: VideoTransforms::default(),
            overwrite: false,
            verbose: false,
            json: false,
        }
    }
}

} // verus!
