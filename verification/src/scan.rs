//! The decisions of an image-directory scan: which entries count, when to
//! descend, how the result is ordered, and which error an empty scan gives.
//! Reading directories is left to the caller.

use vstd::prelude::*;

use crate::viewtext::{file_name_of, name_extension};

verus! {

/// Maximum directory recursion depth.
pub const MAX_SCAN_DEPTH: usize = 128;

/// The extension of `path` as `Path::extension` finds it: the part of the
/// file name after its final `.`.
pub open spec fn path_extension_of(path: Seq<char>) -> Option<Seq<char>> {
    match file_name_of(path) {
        Some(f) => name_extension(f),
        None => None,
    }
}

/// `c` with ASCII `A`..`Z` turned into `a`..`z`.
pub open spec fn ascii_lower_char(c: char) -> char {
    if 65 <= (c as u32) <= 90 {
        ((c as u32) + 32) as char
    } else {
        c
    }
}

/// `s` with its ASCII letters in lower case (`str::to_ascii_lowercase`).
pub open spec fn ascii_lowercase(s: Seq<char>) -> Seq<char> {
    s.map_values(|c: char| ascii_lower_char(c))
}

/// The lower-case extensions `image::ImageFormat::from_extension` knows.
pub open spec fn known_image_extension(e: Seq<char>) -> bool {
    ||| e == "avif"@
    ||| e == "jpg"@ || e == "jpeg"@ || e == "jfif"@
    ||| e == "png"@ || e == "apng"@
    ||| e == "gif"@
    ||| e == "webp"@
    ||| e == "tif"@ || e == "tiff"@
    ||| e == "tga"@
    ||| e == "dds"@
    ||| e == "bmp"@
    ||| e == "ico"@
    ||| e == "hdr"@
    ||| e == "exr"@
    ||| e == "pbm"@ || e == "pam"@ || e == "ppm"@ || e == "pgm"@ || e == "pnm"@
    ||| e == "ff"@
    ||| e == "qoi"@
}

/// Whether `image::ImageFormat::from_path` recognises the path: it has an
/// extension, and that extension in ASCII lower case is a known one.
pub open spec fn image_format_known(path: Seq<char>) -> bool {
    match path_extension_of(path) {
        Some(e) => known_image_extension(ascii_lowercase(e)),
        None => false,
    }
}

/// The order `alphanumeric_sort::sort_str_slice` puts a list of strings in.
pub uninterp spec fn alphanumeric_order(paths: Seq<Seq<char>>) -> Seq<Seq<char>>;

/// Calls `image::ImageFormat::from_path(path).is_ok()`. As the crate's
/// source shows, `from_path` takes the path's extension (`Path::extension`)
/// and `from_extension` lower-cases it (ASCII) and looks it up in a fixed
/// list; the contract states that list. How the path splits into a file name
/// is the named `file_name_of`.
#[verifier::external_body]
fn is_supported_image(path: &str) -> (b: bool)
    ensures
        b == image_format_known(path@),
{
    image::ImageFormat::from_path(path).is_ok()
}

/// Calls `alphanumeric_sort::sort_str_slice` on the list: digit runs compare
/// by numeric value, other characters by code point. The contract claims a
/// permutation of the input, in the order that the name stands for.
#[verifier::external_body]
fn sort_alphanumeric(v: &mut Vec<String>)
    ensures
        final(v)@.to_multiset() == old(v)@.to_multiset(),
        final(v).deep_view() == alphanumeric_order(old(v).deep_view()),
{
    alphanumeric_sort::sort_str_slice(v);
}

/// What a scan found at a path.
#[derive(Debug, Clone, Copy, PartialEq, Eq, Structural)]
pub enum EntryKind {
    File,
    Dir,
    Symlink,
    Other,
}

/// What to do with an entry met while scanning.
#[derive(Debug, Clone, Copy, PartialEq, Eq, Structural)]
pub enum EntryDecision {
    /// Add the path to the result.
    Include,
    /// Scan the directory one level deeper.
    Descend,
    /// Ignore the entry.
    Skip,
}

/// Why a scan produced no image list.
#[derive(Debug)]
pub enum ScanError {
    /// Nothing was found under the given paths.
    NoImagesFound { paths: Vec<String> },
    /// A directory could not be read and nothing was found elsewhere.
    ScanFailed { path: String, message: String },
}

/// Whether a directory at `depth` may still be read.
pub fn depth_allowed(depth: usize) -> (b: bool)
    ensures
        b == (depth < MAX_SCAN_DEPTH),
{
    depth < MAX_SCAN_DEPTH
}

/// The decision for one directory entry: symbolic links are never
/// followed (so a link back to a parent cannot loop), supported image files
/// are included, and subdirectories are entered only when scanning
/// recursively.
pub fn classify_entry(kind: EntryKind, path: &str, recursive: bool) -> (d: EntryDecision)
    ensures
        d == (match kind {
            EntryKind::Symlink => EntryDecision::Skip,
            EntryKind::File => if image_format_known(path@) {
                EntryDecision::Include
            } else {
                EntryDecision::Skip
            },
            EntryKind::Dir => if recursive {
                EntryDecision::Descend
            } else {
                EntryDecision::Skip
            },
            EntryKind::Other => EntryDecision::Skip,
        }),
{
    match kind {
        EntryKind::Symlink => EntryDecision::Skip,
        EntryKind::File => {
            if is_supported_image(path) {
                EntryDecision::Include
            } else {
                EntryDecision::Skip
            }
        },
        EntryKind::Dir => {
            if recursive {
                EntryDecision::Descend
            } else {
                EntryDecision::Skip
            }
        },
        EntryKind::Other => EntryDecision::Skip,
    }
}

/// The decision for one of the paths the user named: a supported file is
/// included, a directory is always scanned (its own entries then follow
/// `classify_entry`), anything else is skipped.
pub fn classify_input(kind: EntryKind, path: &str) -> (d: EntryDecision)
    ensures
        d == (match kind {
            EntryKind::File => if image_format_known(path@) {
                EntryDecision::Include
            } else {
                EntryDecision::Skip
            },
            EntryKind::Dir => EntryDecision::Descend,
            _ => EntryDecision::Skip,
        }),
{
    match kind {
        EntryKind::File => {
            if is_supported_image(path) {
                EntryDecision::Include
            } else {
                EntryDecision::Skip
            }
        },
        EntryKind::Dir => EntryDecision::Descend,
        _ => EntryDecision::Skip,
    }
}

/// Turn what a scan found into the image list: the found paths in
/// alphanumeric order; or, when nothing was found, the first directory
/// read error if there was one, else `NoImagesFound` with the input paths.
pub fn finish_scan(
    found: Vec<String>,
    input_paths: Vec<String>,
    first_error: Option<(String, String)>,
) -> (r: Result<Vec<String>, ScanError>)
    ensures
        found@.len() > 0 ==> (r matches Ok(v) && v@.to_multiset() == found@.to_multiset()
            && v.deep_view() == alphanumeric_order(found.deep_view())),
        found@.len() == 0 ==> match first_error {
            Some((p, m)) => r == Err::<Vec<String>, ScanError>(
                ScanError::ScanFailed { path: p, message: m },
            ),
            None => r == Err::<Vec<String>, ScanError>(
                ScanError::NoImagesFound { paths: input_paths },
            ),
        },
{
    if found.len() == 0 {
        return match first_error {
            Some((path, message)) => Err(ScanError::ScanFailed { path, message }),
            None => Err(ScanError::NoImagesFound { paths: input_paths }),
        };
    }
    let mut sorted = found;
    sort_alphanumeric(&mut sorted);
    Ok(sorted)
}

} // verus!
