use vstd::prelude::*;

use crate::text::same_text;

verus! {

/// The MIME type given to a file whose extension is not in the table.
pub open spec fn generic_mime() -> Seq<char> {
    "application/octet-stream"@
}

/// The MIME type of a file extension, compared as written (case matters).
pub open spec fn mime_for_ext(ext: Seq<char>) -> Seq<char> {
    if ext == "png"@ {
        "image/png"@
    } else if ext == "jpg"@ || ext == "jpeg"@ {
        "image/jpeg"@
    } else if ext == "gif"@ {
        "image/gif"@
    } else if ext == "tif"@ || ext == "tiff"@ {
        "image/tiff"@
    } else if ext == "pdf"@ {
        "application/pdf"@
    } else {
        generic_mime()
    }
}

/// The extension of a path as `std::path::Path` sees it: the part of the
/// file name after its last dot, if the name has one that does not start it.
pub uninterp spec fn path_extension(path: Seq<char>) -> Option<Seq<char>>;

/// The MIME type of a file path: that of its extension, or the generic one
/// where the path has none.
pub open spec fn mime_for_path(path: Seq<char>) -> Seq<char> {
    match path_extension(path) {
        Some(ext) => mime_for_ext(ext),
        None => generic_mime(),
    }
}

/// Relies on `std::path::Path::extension` (through `OsStr::to_str`, which
/// cannot fail on a path made from a `str`): the extension depends on the
/// path's characters alone.
#[verifier::external_body]
fn extension_of<'a>(path: &'a str) -> (r: Option<&'a str>)
    ensures
        match r {
            Some(ext) => path_extension(path@) == Some(ext@),
            None => path_extension(path@) is None,
        },
{
    std::path::Path::new(path).extension().and_then(|e| e.to_str())
}

/// The MIME type of a file extension (without its dot).
pub fn mime_for_extension(ext: &str) -> (r: &'static str)
    ensures
        r@ == mime_for_ext(ext@),
{
    if same_text(ext, "png") {
        "image/png"
    } else if same_text(ext, "jpg") || same_text(ext, "jpeg") {
        "image/jpeg"
    } else if same_text(ext, "gif") {
        "image/gif"
    } else if same_text(ext, "tif") || same_text(ext, "tiff") {
        "image/tiff"
    } else if same_text(ext, "pdf") {
        "application/pdf"
    } else {
        "application/octet-stream"
    }
}

/// The MIME type of the file at `path`, chosen by its extension.
pub fn get_mime_type(path: &str) -> (r: &'static str)
    ensures
        r@ == mime_for_path(path@),
{
    match extension_of(path) {
        Some(ext) => mime_for_extension(ext),
        None => "application/octet-stream",
    }
}

} // verus!
