//! The containers an image can be written in, and the tags that select them.

use crate::text::same_text;
use vstd::prelude::*;

verus! {

/// The quality at which every JPEG is written.
pub const JPEG_QUALITY: u8 = 80;

/// A container format together with the setting it is written with.
#[derive(Clone, Copy, Debug, PartialEq, Eq, Structural)]
pub enum Encoding {
    /// Lossless PNG.
    Png,
    /// Baseline JPEG at the given quality, from 1 to 100.
    Jpeg { quality: u8 },
    /// Windows bitmap.
    Bmp,
    /// Windows icon, which holds pictures of up to 256 pixels a side.
    Ico,
    /// Lossless WebP.
    WebP,
}

/// The encoding that a format tag selects. A tag that names no container
/// selects JPEG at `JPEG_QUALITY`, as the tag `jpeg` does.
pub open spec fn encoding_of_tag(tag: Seq<char>) -> Encoding {
    if tag == "png"@ {
        Encoding::Png
    } else if tag == "bmp"@ {
        Encoding::Bmp
    } else if tag == "ico"@ {
        Encoding::Ico
    } else if tag == "webp"@ {
        Encoding::WebP
    } else {
        Encoding::Jpeg { quality: JPEG_QUALITY }
    }
}

/// The encoding that the format tag `tag` selects.
pub fn encoding_for_tag(tag: &str) -> (encoding: Encoding)
    ensures
        encoding == encoding_of_tag(tag@),
{
    if same_text(tag, "png") {
        Encoding::Png
    } else if same_text(tag, "bmp") {
        Encoding::Bmp
    } else if same_text(tag, "ico") {
        Encoding::Ico
    } else if same_text(tag, "webp") {
        Encoding::WebP
    } else {
        Encoding::Jpeg { quality: JPEG_QUALITY }
    }
}

/// A tag other than `png`, `bmp`, `ico` and `webp` selects JPEG at quality 80,
/// whether it reads `jpeg` or anything else.
pub proof fn lemma_other_tags_select_jpeg(tag: Seq<char>)
    requires
        tag != "png"@,
        tag != "bmp"@,
        tag != "ico"@,
        tag != "webp"@,
    ensures
        encoding_of_tag(tag) == (Encoding::Jpeg { quality: 80 }),
{
}

} // verus!
