//! Argument builder for the external encoder.
//!
//! A validated configuration is turned into the exact, ordered flag sequence
//! the external tool understands.  Everything here is a pure function of its
//! inputs: quality is mapped onto a constant-quality control value, a preset
//! selects one of two codec bundles, and the geometry filter chain is
//! assembled in a fixed order (rotation, flips, crop, scale, pad-to-even).

use vstd::prelude::*;

use crate::domain::{CompressionConfig, CropCoordinates, Preset, VideoTransforms};
use crate::error::CompressoError;
use crate::text::dec_rep;

verus! {

/// Constant-quality control value for a quality selector.
///
/// Quality runs 0..=100 (higher = better); the control value runs 24..=36
/// (lower = better).  Qualities above 100 are clamped to 100.
pub open spec fn spec_crf(quality: int) -> int {
    let q = if quality > 100 {
        100int
    } else {
        quality
    };
    24 + (12 * (100 - q)) / 100
}

/// Computes the control value passed to the encoder's constant-quality mode.
pub fn crf_for_quality(quality: u8) -> (r: u16)
    ensures
        r == spec_crf(quality as int),
        24 <= r <= 36,
{
    let q: u16 = if quality > 100 {
        100
    } else {
        quality as u16
    };
    let crf: u16 = 24 + (12 * (100 - q)) / 100;
    crf
}

/// The control value stays within [24, 36] and never increases as quality
/// increases: a higher quality never yields a larger control value.
pub proof fn lemma_crf_monotonic(q1: int, q2: int)
    requires
        0 <= q1 <= q2,
    ensures
        spec_crf(q2) <= spec_crf(q1),
        24 <= spec_crf(q1) <= 36,
{
    let c1 = if q1 > 100 {
        100int
    } else {
        q1
    };
    let c2 = if q2 > 100 {
        100int
    } else {
        q2
    };
    vstd::arithmetic::div_mod::lemma_div_is_ordered(12 * (100 - c2), 12 * (100 - c1), 100);
    vstd::arithmetic::div_mod::lemma_div_is_ordered(0, 12 * (100 - c1), 100);
    vstd::arithmetic::div_mod::lemma_div_is_ordered(12 * (100 - c1), 1200, 100);
    assert(1200int / 100 == 12);
    assert(0int / 100 == 0);
}

/// The filter token selected for a rotation angle, after normalization
/// modulo 360: a quarter turn clockwise, a quarter turn counter-clockwise,
/// a half turn (as a combined horizontal+vertical flip), or none.
pub open spec fn spec_rotation_token(angle: int) -> Option<Seq<char>> {
    let r = angle % 360;
    if r == 90 {
        Some("transpose=1"@)
    } else if r == 270 {
        Some("transpose=2"@)
    } else if r == 180 {
        Some("hflip,vflip"@)
    } else {
        None
    }
}

/// Rotation selection is periodic: angles that agree modulo 360 select the
/// same filter, so e.g. 90 and -270 are the same turn.
pub proof fn lemma_rotation_period(angle: int)
    ensures
        spec_rotation_token(angle + 360) == spec_rotation_token(angle),
        spec_rotation_token(angle - 360) == spec_rotation_token(angle),
{
    vstd::arithmetic::div_mod::lemma_mod_multiples_vanish(1, angle, 360);
    vstd::arithmetic::div_mod::lemma_mod_multiples_vanish(-1, angle, 360);
}

/// Selects the filter token for a rotation angle.
pub fn rotation_filter(angle: i32) -> (r: Option<&'static str>)
    ensures
        match r {
            Some(s) => spec_rotation_token(angle as int) == Some(s@),
            None => spec_rotation_token(angle as int) is None,
        },
{
    let a: i64 = angle as i64;
    let e: i64 = (a + 360 * 5965233) % 360;
    proof {
        vstd::arithmetic::div_mod::lemma_mod_multiples_vanish(5965233, a as int, 360);
    }
    if e == 90 {
        Some("transpose=1")
    } else if e == 270 {
        Some("transpose=2")
    } else if e == 180 {
        Some("hflip,vflip")
    } else {
        None
    }
}

/// The crop filter token, `crop=W:H:X:Y`.
pub open spec fn spec_crop_token(c: CropCoordinates) -> Seq<char> {
    "crop="@ + dec_rep(c.width as int) + ":"@ + dec_rep(c.height as int) + ":"@ + dec_rep(
        c.x as int,
    ) + ":"@ + dec_rep(c.y as int)
}

/// The scale filter token, `scale=W:H`.
pub open spec fn spec_scale_token(w: u32, h: u32) -> Seq<char> {
    "scale="@ + dec_rep(w as int) + ":"@ + dec_rep(h as int)
}

/// The filter tokens contributed by the transform pipeline, in order:
/// rotation, horizontal flip, vertical flip, crop.
pub open spec fn spec_transform_tokens(t: VideoTransforms) -> Seq<Seq<char>> {
    (match t.rotate {
        Some(a) => match spec_rotation_token(a as int) {
            Some(tok) => seq![tok],
            None => Seq::<Seq<char>>::empty(),
        },
        None => Seq::<Seq<char>>::empty(),
    }) + (match t.flip {
        Some(f) => (if f.horizontal {
            seq!["hflip"@]
        } else {
            Seq::<Seq<char>>::empty()
        }) + (if f.vertical {
            seq!["vflip"@]
        } else {
            Seq::<Seq<char>>::empty()
        }),
        None => Seq::<Seq<char>>::empty(),
    }) + (match t.crop {
        Some(c) => seq![spec_crop_token(c)],
        None => Seq::<Seq<char>>::empty(),
    })
}

/// All filter tokens for a configuration: the transform pipeline, then the
/// scale to the requested dimensions (only when both are given), then the
/// pad that forces even dimensions.
pub open spec fn spec_filter_tokens(c: CompressionConfig) -> Seq<Seq<char>> {
    spec_transform_tokens(c.transforms) + (if c.width is Some && c.height is Some {
        seq![spec_scale_token(c.width->0, c.height->0)]
    } else {
        Seq::<Seq<char>>::empty()
    }) + seq!["pad=ceil(iw/2)*2:ceil(ih/2)*2"@]
}

/// Comma-joined filter chain.
pub open spec fn join_comma(parts: Seq<Seq<char>>) -> Seq<char>
    decreases parts.len(),
{
    if parts.len() == 0 {
        Seq::<char>::empty()
    } else if parts.len() == 1 {
        parts[0]
    } else {
        join_comma(parts.drop_last()) + ","@ + parts.last()
    }
}

/// The full filter chain of a configuration as one comma-joined string.
pub open spec fn spec_filters(c: CompressionConfig) -> Seq<char> {
    join_comma(spec_filter_tokens(c))
}

/// The fixed leading arguments: input selection plus the wire-level progress
/// contract (machine-parsable progress on stdout, errors only on stderr).
pub open spec fn spec_base_args(input: Seq<char>) -> Seq<Seq<char>> {
    seq![
        "-i"@,
        input,
        "-hide_banner"@,
        "-progress"@,
        "-"@,
        "-nostats"@,
        "-loglevel"@,
        "error"@,
    ]
}

/// The codec bundle of a preset.  The fast bundle is a single codec flag
/// plus the control value; the quality bundle forces pixel format,
/// unconstrained bitrate and a quality-first speed setting.
pub open spec fn spec_preset_args(preset: Preset, crf: int) -> Seq<Seq<char>> {
    match preset {
        Preset::Thunderbolt => seq!["-c:v"@, "libx264"@, "-crf"@, dec_rep(crf)],
        Preset::Ironclad => seq![
            "-pix_fmt"@,
            "yuv420p"@,
            "-c:v"@,
            "libx264"@,
            "-b:v"@,
            "0"@,
            "-movflags"@,
            "+faststart"@,
            "-preset"@,
            "slow"@,
            "-qp"@,
            "0"@,
            "-crf"@,
            dec_rep(crf),
        ],
    }
}

/// The complete ordered argument list for one job.
pub open spec fn spec_build_args(
    c: CompressionConfig,
    input: Seq<char>,
    output: Seq<char>,
    output_format: Seq<char>,
) -> Seq<Seq<char>> {
    spec_base_args(input) + spec_preset_args(c.preset, spec_crf(c.quality as int)) + (
    if spec_filters(c).len() > 0 {
        seq!["-vf"@, spec_filters(c)]
    } else {
        Seq::<Seq<char>>::empty()
    }) + (match c.fps {
        Some(f) => seq!["-r"@, dec_rep(f as int)],
        None => Seq::<Seq<char>>::empty(),
    }) + (if output_format == "webm"@ {
        seq!["-c:v"@, "libvpx-vp9"@]
    } else {
        Seq::<Seq<char>>::empty()
    }) + seq![output] + (if c.mute {
        seq!["-an"@]
    } else {
        Seq::<Seq<char>>::empty()
    }) + (if c.overwrite {
        seq!["-y"@]
    } else {
        Seq::<Seq<char>>::empty()
    })
}

/// Appends one borrowed token to an argument list.
fn push_str(args: &mut Vec<String>, s: &str)
    ensures
        final(args).deep_view() =~= old(args).deep_view().push(s@),
{
    args.push(String::from_str(s));
}

/// Appends one owned token to an argument list.
fn push_string(args: &mut Vec<String>, s: String)
    ensures
        final(args).deep_view() =~= old(args).deep_view().push(s@),
{
    args.push(s);
}

/// Everything the tool-location policy needs to know about the machine,
/// gathered by the caller: the explicitly configured path (and whether it
/// names a file), the bundled binary beside the executable (and whether
/// verification was requested and what it found), and the binary a search
/// of the system path turned up.
#[derive(Debug, Clone)]
pub struct ToolProbe {
    /// Explicitly configured encoder path, if the user set one.
    pub explicit_path: Option<String>,
    /// Whether the explicitly configured path exists and is a file.
    pub explicit_is_file: bool,
    /// Bundled encoder beside the application binary, if present.
    pub bundled_path: Option<String>,
    /// Whether strict verification of the bundled encoder was requested.
    pub verify_requested: bool,
    /// Whether the bundled encoder passed verification.
    pub verify_ok: bool,
    /// Encoder found on the system search path, if any.
    pub system_path: Option<String>,
}

/// Wrapper around the external video encoder: holds the resolved binary path
/// and builds the argument lists passed to it.
pub struct FFmpeg {
    pub ffmpeg_path: String,
}

impl FFmpeg {
    /// Selects the encoder binary from a machine probe, in priority order:
    /// the explicitly configured path (rejected outright when invalid), the
    /// bundled binary (rejected when verification was requested and failed),
    /// and last the system search path.
    pub fn new(probe: &ToolProbe) -> (r: Result<Self, CompressoError>)
        ensures
            match r {
                Ok(f) => match probe.explicit_path {
                    Some(p) => probe.explicit_is_file && f.ffmpeg_path == p,
                    None => match probe.bundled_path {
                        Some(b) => (!probe.verify_requested || probe.verify_ok) && f.ffmpeg_path
                            == b,
                        None => probe.system_path is Some && f.ffmpeg_path == probe.system_path->0,
                    },
                },
                Err(e) => {
                    &&& e == CompressoError::FfmpegNotFound
                    &&& match probe.explicit_path {
                        Some(_) => !probe.explicit_is_file,
                        None => match probe.bundled_path {
                            Some(_) => probe.verify_requested && !probe.verify_ok,
                            None => probe.system_path is None,
                        },
                    }
                },
            },
    {
        match &probe.explicit_path {
            Some(p) => {
                if probe.explicit_is_file {
                    Ok(FFmpeg { ffmpeg_path: p.clone() })
                } else {
                    Err(CompressoError::FfmpegNotFound)
                }
            },
            None => match &probe.bundled_path {
                Some(b) => {
                    if probe.verify_requested && !probe.verify_ok {
                        Err(CompressoError::FfmpegNotFound)
                    } else {
                        Ok(FFmpeg { ffmpeg_path: b.clone() })
                    }
                },
                None => match &probe.system_path {
                    Some(s) => Ok(FFmpeg { ffmpeg_path: s.clone() }),
                    None => Err(CompressoError::FfmpegNotFound),
                },
            },
        }
    }

    /// Appends the transform pipeline's filter tokens: rotation first, then
    /// flips, then the crop rectangle.
    pub fn apply_transforms(&self, transforms: &VideoTransforms, filters: &mut Vec<String>)
        ensures
            final(filters).deep_view() =~= old(filters).deep_view() + spec_transform_tokens(*transforms),
    {
        match &transforms.rotate {
            Some(angle) => {
                match rotation_filter(*angle) {
                    Some(tok) => push_str(filters, tok),
                    None => (),
                }
            },
            None => (),
        }
        match &transforms.flip {
            Some(flip) => {
                if flip.horizontal {
                    push_str(filters, "hflip");
                }
                if flip.vertical {
                    push_str(filters, "vflip");
                }
            },
            None => (),
        }
        match &transforms.crop {
            Some(crop) => {
                let mut tok = String::from_str("crop=");
                tok.append(crate::text::u64_to_string(crop.width as u64).as_str());
                tok.append(":");
                tok.append(crate::text::u64_to_string(crop.height as u64).as_str());
                tok.append(":");
                tok.append(crate::text::u64_to_string(crop.x as u64).as_str());
                tok.append(":");
                tok.append(crate::text::u64_to_string(crop.y as u64).as_str());
                proof {
                    assert(tok@ == spec_crop_token(*crop));
                }
                push_string(filters, tok);
            },
            None => (),
        }
        proof {
            assert(filters.deep_view() =~= old(filters).deep_view() + spec_transform_tokens(
                *transforms,
            ));
        }
    }

    /// Builds the comma-joined filter chain for a configuration.
    pub fn build_filters(&self, config: &CompressionConfig) -> (r: String)
        ensures
            r@ == spec_filters(*config),
            r@.len() > 0,
    {
        let mut filters: Vec<String> = Vec::new();
        proof {
            assert(filters.deep_view() =~= Seq::<Seq<char>>::empty());
        }
        self.apply_transforms(&config.transforms, &mut filters);
        match (&config.width, &config.height) {
            (Some(w), Some(h)) => {
                let mut tok = String::from_str("scale=");
                tok.append(crate::text::u64_to_string(*w as u64).as_str());
                tok.append(":");
                tok.append(crate::text::u64_to_string(*h as u64).as_str());
                proof {
                    assert(tok@ == spec_scale_token(*w, *h));
                }
                push_string(&mut filters, tok);
            },
            _ => (),
        }
        push_str(&mut filters, "pad=ceil(iw/2)*2:ceil(ih/2)*2");
        proof {
            assert(filters.deep_view() =~= spec_filter_tokens(*config));
        }
        let joined = join_filters(&filters);
        proof {
            reveal_strlit("pad=ceil(iw/2)*2:ceil(ih/2)*2");
            assert(spec_filter_tokens(*config).last() == "pad=ceil(iw/2)*2:ceil(ih/2)*2"@);
            lemma_join_comma_last_len(spec_filter_tokens(*config));
        }
        joined
    }

    /// Builds the complete ordered argument list for one job: base flags,
    /// preset bundle, filter chain, frame rate, container codec override,
    /// destination, then audio removal and overwrite consent last — in
    /// that order.
    pub fn build_args(
        &self,
        config: &CompressionConfig,
        input_path: &str,
        output_path: &str,
        output_format: &str,
    ) -> (r: Vec<String>)
        ensures
            r.deep_view() =~= spec_build_args(*config, input_path@, output_path@, output_format@),
    {
        let mut args: Vec<String> = Vec::new();
        proof {
            assert(args.deep_view() =~= Seq::<Seq<char>>::empty());
        }
        push_str(&mut args, "-i");
        push_str(&mut args, input_path);
        push_str(&mut args, "-hide_banner");
        push_str(&mut args, "-progress");
        push_str(&mut args, "-");
        push_str(&mut args, "-nostats");
        push_str(&mut args, "-loglevel");
        push_str(&mut args, "error");
        proof {
            assert(args.deep_view() =~= spec_base_args(input_path@));
        }

        let crf = crf_for_quality(config.quality);
        let crf_str = crate::text::u64_to_string(crf as u64);

        match config.preset {
            Preset::Thunderbolt => {
                push_str(&mut args, "-c:v");
                push_str(&mut args, "libx264");
                push_str(&mut args, "-crf");
                push_string(&mut args, crf_str);
            },
            Preset::Ironclad => {
                push_str(&mut args, "-pix_fmt");
                push_str(&mut args, "yuv420p");
                push_str(&mut args, "-c:v");
                push_str(&mut args, "libx264");
                push_str(&mut args, "-b:v");
                push_str(&mut args, "0");
                push_str(&mut args, "-movflags");
                push_str(&mut args, "+faststart");
                push_str(&mut args, "-preset");
                push_str(&mut args, "slow");
                push_str(&mut args, "-qp");
                push_str(&mut args, "0");
                push_str(&mut args, "-crf");
                push_string(&mut args, crf_str);
            },
        }
        proof {
            assert(args.deep_view() =~= spec_base_args(input_path@) + spec_preset_args(
                config.preset,
                spec_crf(config.quality as int),
            ));
        }
        let ghost args_a = args.deep_view();

        let filters = self.build_filters(config);
        if filters.unicode_len() > 0 {
            push_str(&mut args, "-vf");
            push_string(&mut args, filters);
        }
        proof {
            assert(args.deep_view() =~= args_a + (if spec_filters(*config).len() > 0 {
                seq!["-vf"@, spec_filters(*config)]
            } else {
                Seq::<Seq<char>>::empty()
            }));
        }
        let ghost args_b = args.deep_view();

        match &config.fps {
            Some(f) => {
                push_str(&mut args, "-r");
                push_string(&mut args, crate::text::u64_to_string(*f as u64));
            },
            None => (),
        }
        proof {
            assert(args.deep_view() =~= args_b + (match config.fps {
                Some(f) => seq!["-r"@, dec_rep(f as int)],
                None => Seq::<Seq<char>>::empty(),
            }));
        }
        let ghost args_c = args.deep_view();

        if crate::text::str_eq(output_format, "webm") {
            push_str(&mut args, "-c:v");
            push_str(&mut args, "libvpx-vp9");
        }
        proof {
            assert(args.deep_view() =~= args_c + (if output_format@ == "webm"@ {
                seq!["-c:v"@, "libvpx-vp9"@]
            } else {
                Seq::<Seq<char>>::empty()
            }));
        }
        let ghost args_d = args.deep_view();

        push_str(&mut args, output_path);
        if config.mute {
            push_str(&mut args, "-an");
        }
        if config.overwrite {
            push_str(&mut args, "-y");
        }
        proof {
            assert(args.deep_view() =~= args_d + seq![output_path@] + (if config.mute {
                seq!["-an"@]
            } else {
                Seq::<Seq<char>>::empty()
            }) + (if config.overwrite {
                seq!["-y"@]
            } else {
                Seq::<Seq<char>>::empty()
            }));
        }
        args
    }
}

/// Joins filter tokens with commas.
fn join_filters(parts: &Vec<String>) -> (r: String)
    ensures
        r@ == join_comma(parts.deep_view()),
{
    let n = parts.len();
    let mut out = String::new();
    let mut i: usize = 0;
    while i < n
        invariant
            0 <= i <= n,
            n == parts@.len(),
            out@ == join_comma(parts.deep_view().subrange(0, i as int)),
        decreases n - i,
    {
        if i > 0 {
            out.append(",");
        }
        out.append(parts[i].as_str());
        proof {
            let dv = parts.deep_view();
            assert(dv.subrange(0, i + 1).drop_last() =~= dv.subrange(0, i as int));
            assert(dv.subrange(0, i + 1).last() == dv[i as int]);
            if i == 0 {
                assert(join_comma(dv.subrange(0, 1)) == dv[0]);
            }
        }
        i = i + 1;
    }
    proof {
        assert(parts.deep_view().subrange(0, n as int) =~= parts.deep_view());
    }
    out
}

/// A comma-joined chain whose last token is non-empty is itself non-empty.
proof fn lemma_join_comma_last_len(parts: Seq<Seq<char>>)
    requires
        parts.len() > 0,
        parts.last().len() > 0,
    ensures
        join_comma(parts).len() > 0,
{
}

} // verus!
