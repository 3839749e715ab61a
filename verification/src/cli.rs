//! Command-line values and their translation into a job configuration.
//!
//! The surrounding program parses the command line; the value parsers for
//! rotation angles and crop rectangles, and the translation of the parsed
//! arguments into a `CompressionConfig`, live here.

use vstd::prelude::*;

use crate::domain::{
    CompressionConfig, CropCoordinates, FlipOptions, OutputFormat, Preset, VideoTransforms,
};
use crate::text::{all_digits, digits_value, spec_split};

verus! {

/// Preset selector as it appears on the command line.
#[derive(Debug, Clone, Copy, PartialEq, Eq, Structural)]
pub enum PresetArg {
    /// Fast compression with good quality.
    Thunderbolt,
    /// Best quality, slower compression.
    Ironclad,
}

impl From<PresetArg> for Preset {
    fn from(arg: PresetArg) -> (r: Preset) {
        match arg {
            PresetArg::Thunderbolt => Preset::Thunderbolt,
            PresetArg::Ironclad => Preset::Ironclad,
        }
    }
}

impl vstd::std_specs::convert::FromSpecImpl<PresetArg> for Preset {
    open spec fn obeys_from_spec() -> bool {
        true
    }

    open spec fn from_spec(arg: PresetArg) -> Preset {
        match arg {
            PresetArg::Thunderbolt => Preset::Thunderbolt,
            PresetArg::Ironclad => Preset::Ironclad,
        }
    }
}

/// Output format selector as it appears on the command line.
#[derive(Debug, Clone, Copy, PartialEq, Eq, Structural)]
pub enum FormatArg {
    Mp4,
    Mov,
    Webm,
    Avi,
    Mkv,
}

impl From<FormatArg> for OutputFormat {
    fn from(arg: FormatArg) -> (r: OutputFormat) {
        match arg {
            FormatArg::Mp4 => OutputFormat::Mp4,
            FormatArg::Mov => OutputFormat::Mov,
            FormatArg::Webm => OutputFormat::Webm,
            FormatArg::Avi => OutputFormat::Avi,
            FormatArg::Mkv => OutputFormat::Mkv,
        }
    }
}

impl vstd::std_specs::convert::FromSpecImpl<FormatArg> for OutputFormat {
    open spec fn obeys_from_spec() -> bool {
        true
    }

    open spec fn from_spec(arg: FormatArg) -> OutputFormat {
        match arg {
            FormatArg::Mp4 => OutputFormat::Mp4,
            FormatArg::Mov => OutputFormat::Mov,
            FormatArg::Webm => OutputFormat::Webm,
            FormatArg::Avi => OutputFormat::Avi,
            FormatArg::Mkv => OutputFormat::Mkv,
        }
    }
}

/// The integer a signed decimal string denotes: an optional `-` or `+`
/// sign followed by a non-empty digit run.
pub open spec fn spec_parse_int(s: Seq<char>) -> Option<int> {
    if s.len() > 0 && s[0] == '-' {
        let d = s.skip(1);
        if d.len() > 0 && all_digits(d) {
            Some(-digits_value(d))
        } else {
            None
        }
    } else if s.len() > 0 && s[0] == '+' {
        let d = s.skip(1);
        if d.len() > 0 && all_digits(d) {
            Some(digits_value(d))
        } else {
            None
        }
    } else if s.len() > 0 && all_digits(s) {
        Some(digits_value(s))
    } else {
        None
    }
}

/// The accepted rotation angles.
pub open spec fn spec_is_rotation(a: int) -> bool {
    a == 90 || a == 180 || a == 270 || a == -90 || a == -180 || a == -270
}

/// Parses a rotation angle: a signed integer that must be one of the six
/// supported quarter- and half-turn values.
pub fn parse_rotation(s: &str) -> (r: Result<i32, String>)
    ensures
        match r {
            Ok(a) => spec_parse_int(s@) == Some(a as int) && spec_is_rotation(a as int),
            Err(m) => match spec_parse_int(s@) {
                Some(v) => (i32::MIN <= v <= i32::MAX && !spec_is_rotation(v) && m@
                    == "Rotation must be 90, 180, 270, -90, -180, or -270"@) || ((v < i32::MIN
                    || v > i32::MAX) && m@ == "Invalid rotation angle"@),
                None => m@ == "Invalid rotation angle"@,
            },
        },
{
    let n = s.unicode_len();
    let parsed: Option<i64> = if n > 0 && s.get_char(0) == '-' {
        let d = s.substring_char(1, n);
        proof {
            assert(d@ =~= s@.skip(1));
        }
        match crate::text::parse_u64(d) {
            Some(v) => {
                if v <= 2147483648 {
                    Some(-(v as i64))
                } else {
                    proof {
                        crate::text::lemma_digits_value_nonneg(d@);
                    }
                    None
                }
            },
            None => None,
        }
    } else if n > 0 && s.get_char(0) == '+' {
        let d = s.substring_char(1, n);
        proof {
            assert(d@ =~= s@.skip(1));
        }
        match crate::text::parse_u64(d) {
            Some(v) => {
                if v <= 2147483647 {
                    Some(v as i64)
                } else {
                    proof {
                        crate::text::lemma_digits_value_nonneg(d@);
                    }
                    None
                }
            },
            None => None,
        }
    } else {
        match crate::text::parse_u64(s) {
            Some(v) => {
                if v <= 2147483647 {
                    Some(v as i64)
                } else {
                    proof {
                        crate::text::lemma_digits_value_nonneg(s@);
                    }
                    None
                }
            },
            None => None,
        }
    };
    match parsed {
        Some(a) => {
            if a == 90 || a == 180 || a == 270 || a == -90 || a == -180 || a == -270 {
                Ok(a as i32)
            } else {
                Err(String::from_str("Rotation must be 90, 180, 270, -90, -180, or -270"))
            }
        },
        None => Err(String::from_str("Invalid rotation angle")),
    }
}

/// A crop field: a non-empty digit run whose value fits a `u32`.
pub open spec fn spec_crop_field(p: Seq<char>) -> Option<int> {
    if p.len() > 0 && all_digits(p) && digits_value(p) <= u32::MAX {
        Some(digits_value(p))
    } else {
        None
    }
}

/// How a crop argument parses: four accepted fields, or the first
/// complaint in field order.
pub enum CropParse {
    Accepted(int, int, int, int),
    BadFormat,
    BadWidth,
    BadHeight,
    BadX,
    BadY,
}

/// Parses the fields of a crop argument once its pieces are fixed:
/// width, height, then the two offsets, complaining about the first
/// malformed field.
pub open spec fn spec_crop_fields(w: Seq<char>, h: Seq<char>, x: Seq<char>, y: Seq<char>) -> CropParse {
    match spec_crop_field(w) {
        None => CropParse::BadWidth,
        Some(wv) => match spec_crop_field(h) {
            None => CropParse::BadHeight,
            Some(hv) => match spec_crop_field(x) {
                None => CropParse::BadX,
                Some(xv) => match spec_crop_field(y) {
                    None => CropParse::BadY,
                    Some(yv) => CropParse::Accepted(wv, hv, xv, yv),
                },
            },
        },
    }
}

/// How a crop argument parses: either `WxH:X:Y` (three colon-separated
/// pieces, the first split once by `x`) or `W:H:X:Y` (four pieces).
pub open spec fn spec_parse_crop(s: Seq<char>) -> CropParse {
    let parts = spec_split(s, ':');
    if parts.len() == 3 {
        let dims = spec_split(parts[0], 'x');
        if dims.len() != 2 {
            CropParse::BadFormat
        } else {
            spec_crop_fields(dims[0], dims[1], parts[1], parts[2])
        }
    } else if parts.len() == 4 {
        spec_crop_fields(parts[0], parts[1], parts[2], parts[3])
    } else {
        CropParse::BadFormat
    }
}

/// Parses one crop field, for use in field order.
fn crop_field(p: &str) -> (r: Option<u32>)
    ensures
        match r {
            Some(v) => spec_crop_field(p@) == Some(v as int),
            None => spec_crop_field(p@) is None,
        },
{
    match crate::text::parse_u32(p) {
        Some(v) => Some(v),
        None => {
            proof {
                if p@.len() > 0 && all_digits(p@) {
                    crate::text::lemma_digits_value_nonneg(p@);
                }
            }
            None
        },
    }
}

/// Parses a crop argument, `WxH:X:Y` or `W:H:X:Y`.
pub fn parse_crop(s: &str) -> (r: Result<CropCoordinates, String>)
    ensures
        match r {
            Ok(c) => spec_parse_crop(s@) == CropParse::Accepted(
                c.width as int,
                c.height as int,
                c.x as int,
                c.y as int,
            ),
            Err(m) => match spec_parse_crop(s@) {
                CropParse::Accepted(_, _, _, _) => false,
                CropParse::BadFormat => m@ == "Crop format: WxH:X:Y or W:H:X:Y"@,
                CropParse::BadWidth => m@ == "Invalid width"@,
                CropParse::BadHeight => m@ == "Invalid height"@,
                CropParse::BadX => m@ == "Invalid X offset"@,
                CropParse::BadY => m@ == "Invalid Y offset"@,
            },
        },
{
    let parts = crate::text::split_on(s, ':');
    let (w, h, x, y): (&String, &String, &String, &String) = if parts.len() == 3 {
        let dims = crate::text::split_on(parts[0].as_str(), 'x');
        if dims.len() != 2 {
            return Err(String::from_str("Crop format: WxH:X:Y or W:H:X:Y"));
        }
        proof {
            assert(dims.deep_view()[0] == spec_split(spec_split(s@, ':')[0], 'x')[0]);
            assert(dims.deep_view()[1] == spec_split(spec_split(s@, ':')[0], 'x')[1]);
        }
        return parse_crop_fields(&dims[0], &dims[1], &parts[1], &parts[2]);
    } else if parts.len() == 4 {
        (&parts[0], &parts[1], &parts[2], &parts[3])
    } else {
        return Err(String::from_str("Crop format: WxH:X:Y or W:H:X:Y"));
    };
    parse_crop_fields(w, h, x, y)
}

/// Parses the four fields of a crop argument in order.
fn parse_crop_fields(w: &String, h: &String, x: &String, y: &String) -> (r: Result<
    CropCoordinates,
    String,
>)
    ensures
        match r {
            Ok(c) => spec_crop_fields(w@, h@, x@, y@) == CropParse::Accepted(
                c.width as int,
                c.height as int,
                c.x as int,
                c.y as int,
            ),
            Err(m) => match spec_crop_fields(w@, h@, x@, y@) {
                CropParse::Accepted(_, _, _, _) => false,
                CropParse::BadFormat => false,
                CropParse::BadWidth => m@ == "Invalid width"@,
                CropParse::BadHeight => m@ == "Invalid height"@,
                CropParse::BadX => m@ == "Invalid X offset"@,
                CropParse::BadY => m@ == "Invalid Y offset"@,
            },
        },
{
    let wv = match crop_field(w.as_str()) {
        Some(v) => v,
        None => {
            return Err(String::from_str("Invalid width"));
        },
    };
    let hv = match crop_field(h.as_str()) {
        Some(v) => v,
        None => {
            return Err(String::from_str("Invalid height"));
        },
    };
    let xv = match crop_field(x.as_str()) {
        Some(v) => v,
        None => {
            return Err(String::from_str("Invalid X offset"));
        },
    };
    let yv = match crop_field(y.as_str()) {
        Some(v) => v,
        None => {
            return Err(String::from_str("Invalid Y offset"));
        },
    };
    Ok(CropCoordinates { width: wv, height: hv, x: xv, y: yv })
}

/// The parsed command line, as the surrounding program hands it over.
#[derive(Debug, Clone)]
pub struct Cli {
    /// Input video file path(s).
    pub input: Vec<String>,
    /// Process all videos in a directory.
    pub dir: Option<String>,
    /// Output file path, for a single input.
    pub output: Option<String>,
    /// Compression quality, 0..=100.
    pub quality: u8,
    /// Compression preset.
    pub preset: PresetArg,
    /// Output container format.
    pub format: Option<FormatArg>,
    /// Output video width.
    pub width: Option<u32>,
    /// Output video height.
    pub height: Option<u32>,
    /// Output frame rate.
    pub fps: Option<u32>,
    /// Remove audio.
    pub mute: bool,
    /// Rotation angle.
    pub rotate: Option<i32>,
    /// Flip horizontally.
    pub flip_h: bool,
    /// Flip vertically.
    pub flip_v: bool,
    /// Crop rectangle.
    pub crop: Option<CropCoordinates>,
    /// Overwrite the destination without asking.
    pub overwrite: bool,
    /// Verbose output.
    pub verbose: bool,
    /// Show video info without compressing.
    pub info: bool,
    /// Emit results as JSON.
    pub json: bool,
}

impl Cli {
    /// Builds the job configuration for the first input: flips are folded
    /// into one option (present when either axis is flipped), and every
    /// other field carries over.
    pub fn to_config(&self) -> (r: CompressionConfig)
        ensures
            r.input_path@ == (if self.input@.len() > 0 {
                self.input@[0]@
            } else {
                Seq::<char>::empty()
            }),
            r.output_path == self.output,
            r.format == (match self.format {
                Some(f) => Some(
                    <OutputFormat as vstd::std_specs::convert::FromSpec<FormatArg>>::from_spec(f),
                ),
                None => None,
            }),
            r.preset == <Preset as vstd::std_specs::convert::FromSpec<PresetArg>>::from_spec(
                self.preset,
            ),
            r.quality == self.quality,
            r.width == self.width,
            r.height == self.height,
            r.fps == self.fps,
            r.mute == self.mute,
            r.transforms.crop == self.crop,
            r.transforms.rotate == self.rotate,
            ((self.flip_h || self.flip_v) ==> (r.transforms.flip matches Some(f) && f.horizontal
                == self.flip_h && f.vertical == self.flip_v)),
            (!(self.flip_h || self.flip_v) ==> r.transforms.flip is None),
            r.overwrite == self.overwrite,
            r.verbose == self.verbose,
            r.json == self.json,
    {
        let flip: Option<FlipOptions> = if self.flip_h || self.flip_v {
            Some(FlipOptions { horizontal: self.flip_h, vertical: self.flip_v })
        } else {
            None
        };
        let transforms = VideoTransforms {
            crop: self.crop,
            rotate: self.rotate,
            flip,
        };
        let input_path: String = if self.input.len() > 0 {
            self.input[0].clone()
        } else {
            String::new()
        };
        CompressionConfig {
            input_path,
            output_path: self.output.clone(),
            format: match self.format {
                Some(f) => Some(OutputFormat::from(f)),
                None => None,
            },
            preset: Preset::from(self.preset),
            quality: self.quality,
            width: self.width,
            height: self.height,
            fps: self.fps,
            mute: self.mute,
            transforms,
            overwrite: self.overwrite,
            verbose: self.verbose,
            json: self.json,
        }
    }
}

} // verus!
