//! Path strings: splitting, derived output locations, and the security
//! checks that run before any subprocess touches the filesystem.
//!
//! Paths are modeled as character strings with `/` as the separator: the
//! file name is everything after the last separator, the stem and extension
//! split the file name at its last dot (a leading dot starts a hidden file,
//! not an extension), and the parent is everything before the last
//! separator.

use vstd::prelude::*;

use crate::error::CompressoError;
use crate::text::{ascii_lower, has_substring, last_index_of, spec_replace_all};

verus! {

/// Index of the first character of the file name: just after the last `/`.
pub open spec fn spec_name_start(p: Seq<char>) -> int {
    match last_index_of(p, '/') {
        Some(i) => i + 1,
        None => 0,
    }
}

/// The file name: everything after the last `/`.
pub open spec fn spec_file_name(p: Seq<char>) -> Seq<char> {
    p.subrange(spec_name_start(p), p.len() as int)
}

/// The parent: everything before the last `/`; `/` itself when the last
/// separator starts the string; empty when there is none.
pub open spec fn spec_parent(p: Seq<char>) -> Seq<char> {
    match last_index_of(p, '/') {
        Some(i) => if i == 0 {
            "/"@
        } else {
            p.subrange(0, i)
        },
        None => Seq::<char>::empty(),
    }
}

/// The stem of a file name: everything before the last dot, except that a
/// dot in first position starts a hidden file and splits nothing.
pub open spec fn spec_stem(name: Seq<char>) -> Seq<char> {
    match last_index_of(name, '.') {
        Some(i) => if i == 0 {
            name
        } else {
            name.subrange(0, i)
        },
        None => name,
    }
}

/// The extension of a file name: everything after the last dot, or `None`
/// when there is no dot or the only dot starts a hidden file.
pub open spec fn spec_ext(name: Seq<char>) -> Option<Seq<char>> {
    match last_index_of(name, '.') {
        Some(i) => if i == 0 {
            None
        } else {
            Some(name.subrange(i + 1, name.len() as int))
        },
        None => None,
    }
}

/// Splits a path into parent, stem and extension.
fn split_path(p: &str) -> (r: (String, String, Option<String>))
    ensures
        r.0@ == spec_parent(p@),
        r.1@ == spec_stem(spec_file_name(p@)),
        match r.2 {
            Some(e) => spec_ext(spec_file_name(p@)) == Some(e@),
            None => spec_ext(spec_file_name(p@)) is None,
        },
{
    let n = p.unicode_len();
    let (parent, name): (String, &str) = match crate::text::find_last_char(p, '/') {
        Some(i) => {
            proof {
                lemma_last_index_props(p@, '/');
            }
            let par = if i == 0 {
                String::from_str("/")
            } else {
                String::from_str(p.substring_char(0, i))
            };
            (par, p.substring_char(i + 1, n))
        },
        None => (String::new(), p.substring_char(0, n)),
    };
    proof {
        assert(p@.subrange(0, p@.len() as int) =~= p@);
        assert(name@ =~= spec_file_name(p@));
    }
    let name_len = name.unicode_len();
    let (stem, ext): (String, Option<String>) = match crate::text::find_last_char(name, '.') {
        Some(i) => {
            proof {
                lemma_last_index_props(name@, '.');
            }
            if i == 0 {
                (String::from_str(name), None)
            } else {
                (
                    String::from_str(name.substring_char(0, i)),
                    Some(String::from_str(name.substring_char(i + 1, name_len))),
                )
            }
        },
        None => (String::from_str(name), None),
    };
    (parent, stem, ext)
}

/// A found last index lies inside the string.
proof fn lemma_last_index_props(s: Seq<char>, c: char)
    ensures
        match last_index_of(s, c) {
            Some(i) => 0 <= i < s.len() && s[i] == c,
            None => true,
        },
    decreases s.len(),
{
    if s.len() > 0 && s.last() != c {
        lemma_last_index_props(s.drop_last(), c);
    }
}

/// The derived output path: the input's stem plus `_compressed` plus the
/// chosen extension (the requested format, else the input's own extension,
/// else `mp4`), placed in the input's directory.
pub open spec fn spec_generate_output_path(input: Seq<char>, format: Option<Seq<char>>) -> Seq<
    char,
> {
    let name = spec_file_name(input);
    let stem0 = spec_stem(name);
    let stem = if stem0.len() > 0 {
        stem0
    } else {
        "output"@
    };
    let ext = match format {
        Some(f) => f,
        None => match spec_ext(name) {
            Some(e) => e,
            None => "mp4"@,
        },
    };
    let out_name = stem + "_compressed."@ + ext;
    let par = spec_parent(input);
    if par.len() == 0 || par == "."@ {
        out_name
    } else {
        par + "/"@ + out_name
    }
}

/// Derives the output path for an input path and an optional format
/// extension.
pub fn generate_output_path(input: &str, format: Option<&str>) -> (r: String)
    ensures
        r@ == spec_generate_output_path(
            input@,
            match format {
                Some(f) => Some(f@),
                None => None,
            },
        ),
{
    let (parent, stem0, ext0) = split_path(input);
    let stem: &str = if stem0.unicode_len() > 0 {
        stem0.as_str()
    } else {
        "output"
    };
    let ext: &str = match format {
        Some(f) => f,
        None => match &ext0 {
            Some(e) => e.as_str(),
            None => "mp4",
        },
    };
    let mut out_name = String::from_str(stem);
    out_name.append("_compressed.");
    out_name.append(ext);
    if parent.unicode_len() == 0 || crate::text::str_eq(parent.as_str(), ".") {
        out_name
    } else {
        let mut r = parent;
        r.append("/");
        r.append(out_name.as_str());
        r
    }
}

/// The temp-artifact path for a destination: the destination's stem plus
/// `.tmp.` plus a token plus the destination's own extension (so the tool
/// can still infer the container from the name), in the destination's
/// directory.  A destination without a file name gets `.tmp.` and the
/// token appended whole.
pub open spec fn spec_temp_path(out: Seq<char>, token: Seq<char>) -> Seq<char> {
    let name = spec_file_name(out);
    if name.len() > 0 {
        let stem = spec_stem(name);
        let ext = match spec_ext(name) {
            Some(e) => e,
            None => "mp4"@,
        };
        let temp_name = stem + ".tmp."@ + token + "."@ + ext;
        let par = spec_parent(out);
        if par.len() == 0 {
            temp_name
        } else if par == "/"@ {
            "/"@ + temp_name
        } else {
            par + "/"@ + temp_name
        }
    } else {
        out + ".tmp."@ + token
    }
}

/// Builds the temp-artifact path for a destination and a token.
pub fn make_temp_path(output_path: &str, token: &str) -> (r: String)
    ensures
        r@ == spec_temp_path(output_path@, token@),
{
    let n = output_path.unicode_len();
    let (parent, stem, ext0) = split_path(output_path);
    let name_is_empty = {
        proof {
            lemma_last_index_props(output_path@, '/');
        }
        match crate::text::find_last_char(output_path, '/') {
            Some(i) => i + 1 == n,
            None => n == 0,
        }
    };
    if name_is_empty {
        proof {
            assert(spec_file_name(output_path@).len() == 0);
        }
        let mut r = String::from_str(output_path);
        r.append(".tmp.");
        r.append(token);
        r
    } else {
        proof {
            assert(spec_file_name(output_path@).len() > 0);
        }
        let ext: &str = match &ext0 {
            Some(e) => e.as_str(),
            None => "mp4",
        };
        let mut temp_name = stem;
        temp_name.append(".tmp.");
        temp_name.append(token);
        temp_name.append(".");
        temp_name.append(ext);
        if parent.unicode_len() == 0 {
            temp_name
        } else if crate::text::str_eq(parent.as_str(), "/") {
            let mut r = String::from_str("/");
            r.append(temp_name.as_str());
            r
        } else {
            let mut r = parent;
            r.append("/");
            r.append(temp_name.as_str());
            r
        }
    }
}

/// Relies on `nanoid::format` with the URL-safe alphabet: returns an
/// identifier of exactly the requested length, drawn from a secure random
/// source.
#[verifier::external_body]
fn temp_token() -> (r: String)
    ensures
        r@.len() == 8,
{
    nanoid::format(nanoid::rngs::default, &nanoid::alphabet::SAFE, 8)
}

/// Builds the temp-artifact path for a destination, with a fresh random
/// collision-resistant token.
pub fn fresh_temp_path(output_path: &str) -> (r: String)
    ensures
        exists|token: Seq<char>|
            token.len() == 8 && r@ == #[trigger] spec_temp_path(output_path@, token),
{
    let token = temp_token();
    let r = make_temp_path(output_path, token.as_str());
    proof {
        assert(token@.len() == 8 && r@ == spec_temp_path(output_path@, token@));
    }
    r
}

/// Sanitizes a user-supplied path string: rejected outright when it embeds
/// a null byte; otherwise the canonicalized form is preferred when the
/// caller resolved one, and the original string passes through unchanged
/// when the target does not exist yet.
pub fn resolve_path_string(path: &str, canonical: Option<&str>) -> (r: Result<
    String,
    CompressoError,
>)
    ensures
        match r {
            Ok(s) => {
                &&& crate::text::first_index_of(path@, '\0') is None
                &&& (match canonical {
                    Some(c) => s@ == c@,
                    None => s@ == path@,
                })
            },
            Err(e) => crate::text::first_index_of(path@, '\0') is Some && e matches
                CompressoError::InvalidInput(_),
        },
{
    match crate::text::find_first_char(path, '\0') {
        Some(_) => Err(
            CompressoError::InvalidInput(String::from_str("path contains null bytes")),
        ),
        None => match canonical {
            Some(c) => Ok(String::from_str(c)),
            None => Ok(String::from_str(path)),
        },
    }
}

/// A `..` segment in a user-supplied path may indicate attempted
/// traversal; the caller reports it as a diagnostic, never as a failure.
pub fn path_has_traversal(path: &str) -> (r: bool)
    ensures
        r == has_substring(path@, ".."@),
{
    crate::text::contains_substring(path, "..")
}

/// Canonicalization landed somewhere unrelated to the given path text:
/// neither string contains the other.  The caller reports it as a
/// diagnostic, never as a failure.
pub fn symlink_diverged(path: &str, canonical: &str) -> (r: bool)
    ensures
        r == (!has_substring(path@, canonical@) && !has_substring(canonical@, path@)),
{
    !crate::text::contains_substring(path, canonical) && !crate::text::contains_substring(
        canonical,
        path,
    )
}

/// A lower-cased path that points into a well-known system location.
pub open spec fn spec_dangerous_location(p: Seq<char>) -> bool {
    ||| has_substring(p, "/etc/"@)
    ||| has_substring(p, "/sys/"@)
    ||| has_substring(p, "/proc/"@)
    ||| has_substring(p, "/dev/"@)
    ||| has_substring(p, "/boot/"@)
    ||| has_substring(p, "/root/"@)
    ||| has_substring(p, "c:\\windows\\"@)
    ||| has_substring(p, "c:\\program files\\"@)
    ||| has_substring(p, "c:\\program files (x86)\\"@)
    ||| has_substring(p, "/windows/"@)
    ||| has_substring(p, "/program files/"@)
}

/// Checks a lower-cased path against the list of forbidden system
/// locations.
fn dangerous_location(p: &str) -> (r: bool)
    ensures
        r == spec_dangerous_location(p@),
{
    crate::text::contains_substring(p, "/etc/") || crate::text::contains_substring(p, "/sys/")
        || crate::text::contains_substring(p, "/proc/") || crate::text::contains_substring(
        p,
        "/dev/",
    ) || crate::text::contains_substring(p, "/boot/") || crate::text::contains_substring(
        p,
        "/root/",
    ) || crate::text::contains_substring(p, "c:\\windows\\") || crate::text::contains_substring(
        p,
        "c:\\program files\\",
    ) || crate::text::contains_substring(p, "c:\\program files (x86)\\")
        || crate::text::contains_substring(p, "/windows/") || crate::text::contains_substring(
        p,
        "/program files/",
    )
}

/// Rejects destinations in forbidden system locations and destinations
/// whose resolved parent is a filesystem root.  The caller passes the
/// canonicalized parent directory when it could resolve one.
pub fn validate_output_path(path: &str, canonical_parent: Option<&str>) -> (r: Result<
    (),
    CompressoError,
>)
    ensures
        match r {
            Ok(_) => !spec_dangerous_location(ascii_lower(path@)) && (match canonical_parent {
                Some(p) => p@ != "/"@,
                None => true,
            }),
            Err(e) => {
                &&& e matches CompressoError::InvalidOutput(_)
                &&& (spec_dangerous_location(ascii_lower(path@)) || (match canonical_parent {
                    Some(p) => p@ == "/"@,
                    None => false,
                }))
            },
        },
{
    let lowered = crate::text::to_ascii_lower(path);
    if dangerous_location(lowered.as_str()) {
        let mut msg = String::from_str("Refusing to write to system directory: ");
        msg.append(path);
        return Err(CompressoError::InvalidOutput(msg));
    }
    match canonical_parent {
        Some(p) => {
            if crate::text::str_eq(p, "/") {
                return Err(
                    CompressoError::InvalidOutput(
                        String::from_str("Refusing to write to root directory"),
                    ),
                );
            }
        },
        None => (),
    }
    Ok(())
}

/// An argument that looks like a file path: it holds a path separator, or
/// holds a dot without being a flag.
pub open spec fn spec_arg_is_pathlike(a: Seq<char>) -> bool {
    ||| crate::text::first_index_of(a, '/') is Some
    ||| crate::text::first_index_of(a, '\\') is Some
    ||| (crate::text::first_index_of(a, '.') is Some && !(a.len() > 0 && a[0] == '-'))
}

/// The log-safe form of one argument: path-like arguments are reduced to
/// their file name (marked `~/` when they pointed into the home
/// directory); path-like arguments without a usable file name have the
/// home directory collapsed to `~`; everything else passes unchanged.
pub open spec fn spec_sanitize_arg(a: Seq<char>, home: Seq<char>) -> Seq<char> {
    if spec_arg_is_pathlike(a) {
        let name = spec_file_name(a);
        if name.len() > 0 && name != ".."@ {
            if home.len() > 0 && has_substring(a, home) {
                "~/"@ + name
            } else {
                name
            }
        } else {
            if home.len() > 0 && has_substring(a, home) {
                spec_replace_all(a, home, "~"@)
            } else {
                a
            }
        }
    } else {
        a
    }
}

/// Sanitizes one argument for logging.
fn sanitize_arg(a: &str, home: &str) -> (r: String)
    ensures
        r@ == spec_sanitize_arg(a@, home@),
{
    let n = a.unicode_len();
    let pathlike = match crate::text::find_first_char(a, '/') {
        Some(_) => true,
        None => match crate::text::find_first_char(a, '\\') {
            Some(_) => true,
            None => match crate::text::find_first_char(a, '.') {
                Some(_) => {
                    if n > 0 {
                        a.get_char(0) != '-'
                    } else {
                        true
                    }
                },
                None => false,
            },
        },
    };
    if !pathlike {
        return String::from_str(a);
    }
    let name: &str = match crate::text::find_last_char(a, '/') {
        Some(i) => {
            proof {
                lemma_last_index_props(a@, '/');
            }
            a.substring_char(i + 1, n)
        },
        None => a,
    };
    proof {
        assert(a@.subrange(0, a@.len() as int) =~= a@);
        assert(name@ =~= spec_file_name(a@));
    }
    let home_len = home.unicode_len();
    if name.unicode_len() > 0 && !crate::text::str_eq(name, "..") {
        if home_len > 0 && crate::text::contains_substring(a, home) {
            let mut r = String::from_str("~/");
            r.append(name);
            r
        } else {
            String::from_str(name)
        }
    } else {
        if home_len > 0 && crate::text::contains_substring(a, home) {
            crate::text::str_replace_all(a, home, "~")
        } else {
            String::from_str(a)
        }
    }
}

/// Sanitizes a full argument list for logging, element by element, so that
/// no full filesystem path or home-directory location leaks into a log
/// line.
pub fn sanitize_args_for_logging(args: &Vec<String>, home: &str) -> (r: Vec<String>)
    ensures
        r.deep_view() =~= args.deep_view().map_values(
            |a: Seq<char>| spec_sanitize_arg(a, home@),
        ),
{
    let mut out: Vec<String> = Vec::new();
    let n = args.len();
    let mut i: usize = 0;
    while i < n
        invariant
            0 <= i <= n,
            n == args@.len(),
            out.deep_view() =~= args.deep_view().subrange(0, i as int).map_values(
                |a: Seq<char>| spec_sanitize_arg(a, home@),
            ),
        decreases n - i,
    {
        let s = sanitize_arg(args[i].as_str(), home);
        out.push(s);
        proof {
            let f = |a: Seq<char>| spec_sanitize_arg(a, home@);
            assert(args.deep_view().subrange(0, i + 1).map_values(f) =~= args.deep_view().subrange(
                0,
                i as int,
            ).map_values(f).push(f(args.deep_view()[i as int])));
        }
        i = i + 1;
    }
    proof {
        assert(args.deep_view().subrange(0, n as int) =~= args.deep_view());
    }
    out
}

/// The extensions accepted as video files.
pub open spec fn spec_is_video_ext(e: Seq<char>) -> bool {
    ||| e == "mp4"@
    ||| e == "mov"@
    ||| e == "webm"@
    ||| e == "avi"@
    ||| e == "mkv"@
    ||| e == "m4v"@
    ||| e == "wmv"@
    ||| e == "flv"@
}

/// Whether a path carries a recognized video extension,
/// case-insensitively.  Callers that want to accept extensionless media
/// fall back to content sniffing.
pub fn has_video_extension(path: &str) -> (r: bool)
    ensures
        r == (match spec_ext(spec_file_name(path@)) {
            Some(e) => spec_is_video_ext(ascii_lower(e)),
            None => false,
        }),
{
    let (_, _, ext0) = split_path(path);
    match &ext0 {
        Some(e) => {
            let low = crate::text::to_ascii_lower(e.as_str());
            let l = low.as_str();
            crate::text::str_eq(l, "mp4") || crate::text::str_eq(l, "mov") || crate::text::str_eq(
                l,
                "webm",
            ) || crate::text::str_eq(l, "avi") || crate::text::str_eq(l, "mkv")
                || crate::text::str_eq(l, "m4v") || crate::text::str_eq(l, "wmv")
                || crate::text::str_eq(l, "flv")
        },
        None => false,
    }
}

} // verus!
