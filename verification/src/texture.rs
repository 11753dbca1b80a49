//! Image files: which format a file is in, as its name tells.

use std::path::Path;
use vstd::prelude::*;

verus! {

/// Why the name of a file tells no format.
#[derive(Debug, PartialEq, Eq)]
pub enum FormatError {
    /// The name has no extension.
    NoExtension,
    /// The extension, here in lower case, stands for no format that can be
    /// loaded.
    Unrecognized(String),
}

/// The extension of the file that a path names, as text, by the rules of the
/// platform that the library is built for; `None` where the name has none.
pub uninterp spec fn extension_text(path: &Path) -> Option<Seq<char>>;

/// A text in lower case, as Unicode defines it.
pub uninterp spec fn lowercase(text: Seq<char>) -> Seq<char>;

/// `Path::extension` gives the part of the file name behind its last dot, or
/// nothing where the name has no such part. It is handed out as text, what is
/// no Unicode in it being replaced.
#[verifier::external_body]
pub(crate) fn extension(path: &Path) -> (r: Option<String>)
    ensures
        match r {
            Some(text) => extension_text(path) == Some(text@),
            None => extension_text(path) is None,
        },
{
    match path.extension() {
        Some(part) => Some(part.to_string_lossy().into_owned()),
        None => None,
    }
}

/// `str::to_lowercase` gives the text in lower case.
#[verifier::external_body]
pub(crate) fn to_lowercase(text: &str) -> (r: String)
    ensures
        r@ == lowercase(text@),
{
    text.to_lowercase()
}

/// What the name of the file at `path` tells of its format: the format that
/// its extension stands for when put in lower case, or why it tells none.
pub open spec fn told_by(path: &Path, r: Result<ImageFormat, FormatError>) -> bool {
    match r {
        Ok(format) => extension_text(path) matches Some(part) && format_of(lowercase(part))
            == Some(format),
        Err(FormatError::NoExtension) => extension_text(path) is None,
        Err(FormatError::Unrecognized(text)) => extension_text(path) matches Some(part) && text@
            == lowercase(part) && format_of(text@) is None,
    }
}

/// The formats of image files that can be loaded as textures.
#[derive(Clone, Copy, Debug, PartialEq, Eq)]
pub enum ImageFormat {
    Png,
    Jpeg,
    Gif,
    WebP,
    Ppm,
    Tiff,
    Tga,
    Bmp,
    Ico,
    Hdr,
}

/// The format that the extension of a file name stands for; the extension
/// is in lower case and without the dot.
pub open spec fn format_of(extension: Seq<char>) -> Option<ImageFormat> {
    if extension == "png"@ {
        Some(ImageFormat::Png)
    } else if extension == "jpg"@ || extension == "jpeg"@ {
        Some(ImageFormat::Jpeg)
    } else if extension == "gif"@ {
        Some(ImageFormat::Gif)
    } else if extension == "webp"@ {
        Some(ImageFormat::WebP)
    } else if extension == "ppm"@ {
        Some(ImageFormat::Ppm)
    } else if extension == "tiff"@ {
        Some(ImageFormat::Tiff)
    } else if extension == "tga"@ {
        Some(ImageFormat::Tga)
    } else if extension == "bmp"@ {
        Some(ImageFormat::Bmp)
    } else if extension == "ico"@ {
        Some(ImageFormat::Ico)
    } else if extension == "hdr"@ {
        Some(ImageFormat::Hdr)
    } else {
        None
    }
}

/// Whether `text` reads `word`.
fn reads(text: &String, word: &str) -> (r: bool)
    ensures
        r == (text@ == word@),
{
    *text == word.to_owned()
}

/// The format of an image file with the given extension, in lower case and
/// without the dot, or `None` where the extension stands for no format that
/// can be loaded.
pub fn format_of_extension(extension: &str) -> (format: Option<ImageFormat>)
    ensures
        format == format_of(extension@),
{
    let text = extension.to_owned();
    if reads(&text, "png") {
        Some(ImageFormat::Png)
    } else if reads(&text, "jpg") || reads(&text, "jpeg") {
        Some(ImageFormat::Jpeg)
    } else if reads(&text, "gif") {
        Some(ImageFormat::Gif)
    } else if reads(&text, "webp") {
        Some(ImageFormat::WebP)
    } else if reads(&text, "ppm") {
        Some(ImageFormat::Ppm)
    } else if reads(&text, "tiff") {
        Some(ImageFormat::Tiff)
    } else if reads(&text, "tga") {
        Some(ImageFormat::Tga)
    } else if reads(&text, "bmp") {
        Some(ImageFormat::Bmp)
    } else if reads(&text, "ico") {
        Some(ImageFormat::Ico)
    } else if reads(&text, "hdr") {
        Some(ImageFormat::Hdr)
    } else {
        None
    }
}

} // verus!
