//! The conversion itself: decode, resample, settle the path, encode.

use crate::codec::{
    error_words, load_samples, resample16, resample8, resize_fits, write_samples, written,
};
use crate::encoding::{encoding_for_tag, encoding_of_tag, Encoding};
use crate::path::{resolve_output_path, resolved_path};
use crate::raster::{well_formed, Depth, Raster, RasterView, MAX_SIDE};
use crate::text::is_suffix;
use vstd::prelude::*;

verus! {

/// Why a conversion came to nothing. Each failure ends the attempt.
#[derive(Clone, Copy, Debug, PartialEq, Eq, Structural)]
pub enum ConvertError {
    /// The input could not be read, or holds no picture in a known container.
    Decode,
    /// The output file could not be created.
    Write,
    /// The encoder refused the picture.
    Encode,
}

impl ConvertError {
    /// The diagnostic that stands for each failure.
    pub open spec fn message_text(self) -> Seq<char> {
        match self {
            ConvertError::Decode => "Failed to open image at path"@,
            ConvertError::Write => "Failed to create output file"@,
            ConvertError::Encode => "Failed to save image"@,
        }
    }

    /// The diagnostic to show for this failure.
    pub fn message(&self) -> (text: String)
        ensures
            text@ == self.message_text(),
    {
        match self {
            ConvertError::Decode => String::from_str("Failed to open image at path"),
            ConvertError::Write => String::from_str("Failed to create output file"),
            ConvertError::Encode => String::from_str("Failed to save image"),
        }
    }

    /// The diagnostic followed by a colon, a space and what is known of the
    /// cause: the path that could not be read, or the words of the system.
    pub fn diagnostic(&self, detail: &str) -> (text: String)
        ensures
            text@ == self.message_text() + seq![':', ' '] + detail@,
    {
        let mut text: String = self.message();
        proof {
            reveal_strlit(": ");
            assert(": "@ =~= seq![':', ' ']);
        }
        text.append(": ");
        text.append(detail);
        text
    }
}

/// A picture ready to be stored: resampled, with the path its file is to be
/// created under.
#[derive(Clone, Debug)]
pub struct Prepared {
    pub path: String,
    pub picture: Raster,
}

/// A finished conversion: the file's contents and the path to store them under.
#[derive(Clone, Debug)]
pub struct Converted {
    pub path: String,
    pub bytes: Vec<u8>,
}

/// A failure with what is known of its cause: the path that held no picture,
/// or the words of the encoder or of the system.
#[derive(Clone, Debug)]
pub struct Failure {
    pub kind: ConvertError,
    pub detail: String,
}

impl Failure {
    /// The line to show: the diagnostic of the kind, a colon, a space, the detail.
    pub fn diagnostic(&self) -> (text: String)
        ensures
            text@ == self.kind.message_text() + seq![':', ' '] + self.detail@,
    {
        self.kind.diagnostic(self.detail.as_str())
    }
}

/// The sizes that a picture `source_width` pixels wide can be brought to:
/// both sides from 1 to `MAX_SIDE`, within what resampling can allocate.
pub open spec fn size_accepted(source_width: nat, new_width: nat, new_height: nat) -> bool {
    &&& 1 <= new_width <= MAX_SIDE
    &&& 1 <= new_height <= MAX_SIDE
    &&& resize_fits(source_width, new_width, new_height)
}

/// The detail of the failure to bring a picture to a size that is not accepted.
pub open spec fn size_refused_text() -> Seq<char> {
    "the size asked for cannot be produced"@
}

/// What holds of every resampling of `source` to `width` by `height`: the
/// result is a picture of that size in the colour model of `source`, and is
/// `source` itself where `source` has that size already.
pub open spec fn resampled(source: RasterView, resized: RasterView, width: nat, height: nat) -> bool {
    &&& well_formed(resized)
    &&& resized.width == width
    &&& resized.height == height
    &&& resized.layout == source.layout
    &&& resized.depth == source.depth
    &&& source.width == width && source.height == height ==> resized == source
}

/// `r` is what preparing a decoded picture comes to: `Encode` where the size
/// is not accepted, and otherwise some resampling of the picture to exactly
/// that size, with the resolved path.
pub open spec fn prepared(
    source: RasterView,
    output_path: Seq<char>,
    new_width: nat,
    new_height: nat,
    format: Seq<char>,
    r: Result<Prepared, Failure>,
) -> bool {
    if size_accepted(source.width, new_width, new_height) {
        match r {
            Ok(p) => p.path@ == resolved_path(output_path, format) && resampled(
                source,
                p.picture@,
                new_width,
                new_height,
            ),
            Err(_) => false,
        }
    } else {
        match r {
            Ok(_) => false,
            Err(f) => f.kind == ConvertError::Encode && f.detail@ == size_refused_text(),
        }
    }
}

/// `r` is a `Decode` failure that names `input_path`.
pub open spec fn decode_failure<T>(input_path: Seq<char>, r: Result<T, Failure>) -> bool {
    match r {
        Ok(_) => false,
        Err(f) => f.kind == ConvertError::Decode && f.detail@ == input_path,
    }
}

/// `r` is what storing `picture` comes to. `refusal` holds the words of the
/// system where the output file could not be created. Then `r` is `Write` with
/// those words, whatever the encoder would have said. Otherwise it is the
/// encoder's bytes with the resolved path, or `Encode` where the encoder
/// refuses the picture.
pub open spec fn stored(
    picture: RasterView,
    output_path: Seq<char>,
    format: Seq<char>,
    refusal: Option<String>,
    r: Result<Converted, Failure>,
) -> bool {
    match refusal {
        Some(words) => match r {
            Ok(_) => false,
            Err(f) => f.kind == ConvertError::Write && f.detail@ == words@,
        },
        None => match written(picture, encoding_of_tag(format)) {
            Some(bytes) => match r {
                Ok(c) => c.path@ == resolved_path(output_path, format) && c.bytes@ == bytes,
                Err(_) => false,
            },
            None => match r {
                Ok(_) => false,
                Err(f) => f.kind == ConvertError::Encode,
            },
        },
    }
}

/// Decodes a file held in memory. The container is told by the extension of
/// the file's path. What the decoder makes of the bytes is not pinned down; a
/// picture that comes back is well formed, and every failure is `Decode` with
/// the path.
pub fn decode(input_path: &str, input: &[u8]) -> (r: Result<Raster, Failure>)
    ensures
        match r {
            Ok(picture) => picture.wf(),
            Err(f) => f.kind == ConvertError::Decode && f.detail@ == input_path@,
        },
{
    match load_samples(input_path, input) {
        Ok(parts) => match Raster::from_decoded(parts.0, parts.1, parts.2, parts.3, parts.4) {
            Some(picture) => Ok(picture),
            None => Err(
                Failure { kind: ConvertError::Decode, detail: String::from_str(input_path) },
            ),
        },
        Err(_) => Err(Failure { kind: ConvertError::Decode, detail: String::from_str(input_path) }),
    }
}

/// Whether a picture `source_width` pixels wide can be brought to the given
/// size on this machine.
pub fn can_resize(source_width: u32, new_width: u32, new_height: u32) -> (fits: bool)
    ensures
        fits == size_accepted(source_width as nat, new_width as nat, new_height as nat),
{
    let sw: u128 = source_width as u128;
    let nw: u128 = new_width as u128;
    let nh: u128 = new_height as u128;
    assert(sw * nh <= 0xFFFF_FFFF * 0xFFFF_FFFF && nw * nh <= 0xFFFF_FFFF * 0xFFFF_FFFF)
        by (nonlinear_arith)
        requires
            sw <= 0xFFFF_FFFF,
            nw <= 0xFFFF_FFFF,
            nh <= 0xFFFF_FFFF,
    ;
    let limit: u128 = isize::MAX as u128;
    1 <= new_width && new_width <= MAX_SIDE && 1 <= new_height && new_height <= MAX_SIDE && 16 * (
    sw * nh) <= limit && 16 * (nw * nh) <= limit
}

/// Resamples a picture to exactly `new_width` by `new_height` pixels with the
/// Lanczos filter of window 3, whatever the proportions of the source, in the
/// colour model of the source. A picture that has that size already is copied.
pub fn resize_exact(source: &Raster, new_width: u32, new_height: u32) -> (resized: Raster)
    requires
        source.wf(),
        size_accepted(source@.width, new_width as nat, new_height as nat),
    ensures
        resampled(source@, resized@, new_width as nat, new_height as nat),
{
    let data: Vec<u8> = match source.depth() {
        Depth::Eight => resample8(
            source.layout(),
            source.width(),
            source.height(),
            source.data(),
            new_width,
            new_height,
        ),
        Depth::Sixteen => resample16(
            source.layout(),
            source.width(),
            source.height(),
            source.data(),
            new_width,
            new_height,
        ),
    };
    match Raster::new(new_width, new_height, source.layout(), source.depth(), data) {
        Some(resized) => resized,
        None => vstd::pervasive::unreached(),
    }
}

/// Encodes a picture. A picture of more bytes than 32 bits count is not
/// handed to the bitmap encoder: it is refused here, as the encoder refuses
/// what it cannot hold.
pub fn encode(picture: &Raster, encoding: Encoding) -> (r: Result<Vec<u8>, Failure>)
    requires
        picture.wf(),
    ensures
        match r {
            Ok(bytes) => written(picture@, encoding) == Some(bytes@),
            Err(f) => f.kind == ConvertError::Encode && written(picture@, encoding) is None,
        },
{
    let too_large: bool = match encoding {
        Encoding::Bmp => picture.data().len() > 0xFFFF_FFFF,
        _ => false,
    };
    if too_large {
        return Err(
            Failure {
                kind: ConvertError::Encode,
                detail: String::from_str("the picture is too large for a bitmap"),
            },
        );
    }
    match write_samples(
        picture.layout(),
        picture.depth(),
        picture.width(),
        picture.height(),
        picture.data(),
        encoding,
    ) {
        Ok(bytes) => Ok(bytes),
        Err(e) => Err(Failure { kind: ConvertError::Encode, detail: error_words(&e) }),
    }
}

/// The second half of a conversion: encodes the picture in the container that
/// `format` selects, once the file at the resolved path has been created.
/// `refusal` holds the words of the system where it could not be: the encoder
/// is not run then, and the failure is `Write`.
pub fn save_image(
    picture: &Raster,
    output_path: &str,
    format: &str,
    refusal: Option<String>,
) -> (r: Result<Converted, Failure>)
    requires
        picture.wf(),
    ensures
        stored(picture@, output_path@, format@, refusal, r),
{
    match refusal {
        Some(words) => Err(Failure { kind: ConvertError::Write, detail: words }),
        None => {
            let encoding: Encoding = encoding_for_tag(format);
            let path: String = resolve_output_path(output_path, format);
            match encode(picture, encoding) {
                Ok(bytes) => Ok(Converted { path, bytes }),
                Err(f) => Err(f),
            }
        },
    }
}

/// Prepares a decoded picture for storing: resamples it to exactly
/// `new_width` by `new_height` and settles the path of the output file.
pub fn convert_decoded(
    source: &Raster,
    output_path: &str,
    new_width: u32,
    new_height: u32,
    format: &str,
) -> (r: Result<Prepared, Failure>)
    requires
        source.wf(),
    ensures
        prepared(source@, output_path@, new_width as nat, new_height as nat, format@, r),
{
    if !can_resize(source.width(), new_width, new_height) {
        return Err(
            Failure {
                kind: ConvertError::Encode,
                detail: String::from_str("the size asked for cannot be produced"),
            },
        );
    }
    let picture: Raster = resize_exact(source, new_width, new_height);
    let path: String = resolve_output_path(output_path, format);
    Ok(Prepared { path, picture })
}

/// What a file's contents are as a sequence, where there are any.
pub open spec fn contents_view(contents: Option<&[u8]>) -> Option<Seq<u8>> {
    match contents {
        Some(bytes) => Some(bytes@),
        None => None,
    }
}

/// `r` is what the first half of a conversion comes to. A file that is
/// missing or cannot be read gives `Decode` with the path. One that was read
/// gives `Decode` with the path as well, or what preparing some well-formed
/// picture comes to.
pub open spec fn processed(
    input_path: Seq<char>,
    contents: Option<Seq<u8>>,
    output_path: Seq<char>,
    new_width: nat,
    new_height: nat,
    format: Seq<char>,
    r: Result<Prepared, Failure>,
) -> bool {
    match contents {
        None => decode_failure(input_path, r),
        Some(_) => decode_failure(input_path, r) || exists|source: RasterView| #[trigger]
            well_formed(source) && prepared(source, output_path, new_width, new_height, format, r),
    }
}

/// The first half of a conversion: decodes the file's contents and prepares
/// the picture as `convert_decoded` does. `contents` is `None` where the file
/// is missing or cannot be read. The second half is `save_image`, once the
/// file at the path that comes back has been created, or could not be.
pub fn process_image(
    input_path: &str,
    contents: Option<&[u8]>,
    output_path: &str,
    new_width: u32,
    new_height: u32,
    format: &str,
) -> (r: Result<Prepared, Failure>)
    ensures
        processed(
            input_path@,
            contents_view(contents),
            output_path@,
            new_width as nat,
            new_height as nat,
            format@,
            r,
        ),
{
    let input: &[u8] = match contents {
        Some(bytes) => bytes,
        None => {
            return Err(
                Failure { kind: ConvertError::Decode, detail: String::from_str(input_path) },
            );
        },
    };
    match decode(input_path, input) {
        Ok(source) => {
            let r = convert_decoded(&source, output_path, new_width, new_height, format);
            assert(well_formed(source@) && prepared(
                source@,
                output_path@,
                new_width as nat,
                new_height as nat,
                format@,
                r,
            ));
            r
        },
        Err(f) => Err(f),
    }
}

/// A conversion whose first half succeeds holds a picture of exactly the size
/// asked for, whatever the size and proportions of the source, and a path
/// that ends with the format tag.
pub proof fn lemma_processed_ok_has_size(
    input_path: Seq<char>,
    contents: Option<Seq<u8>>,
    output_path: Seq<char>,
    new_width: nat,
    new_height: nat,
    format: Seq<char>,
    r: Result<Prepared, Failure>,
)
    requires
        processed(input_path, contents, output_path, new_width, new_height, format, r),
        r is Ok,
    ensures
        well_formed(r->Ok_0.picture@),
        r->Ok_0.picture@.width == new_width,
        r->Ok_0.picture@.height == new_height,
        r->Ok_0.path@ == resolved_path(output_path, format),
        is_suffix(r->Ok_0.path@, format),
{
    crate::path::lemma_resolved_path_ends_with_tag(output_path, format);
}

/// A file that is missing or cannot be read gives `Decode` with its path,
/// whatever else is asked.
pub proof fn lemma_unreadable_input_is_decode(
    input_path: Seq<char>,
    output_path: Seq<char>,
    new_width: nat,
    new_height: nat,
    format: Seq<char>,
    r: Result<Prepared, Failure>,
)
    requires
        processed(input_path, None, output_path, new_width, new_height, format, r),
    ensures
        r is Err,
        r->Err_0.kind == ConvertError::Decode,
        r->Err_0.detail@ == input_path,
{
}

/// An output file that could not be created gives `Write`, whatever the
/// picture and whatever the encoder would have made of it.
pub proof fn lemma_creation_failure_is_write(
    picture: RasterView,
    output_path: Seq<char>,
    format: Seq<char>,
    words: String,
    r: Result<Converted, Failure>,
)
    requires
        stored(picture, output_path, format, Some(words), r),
    ensures
        r is Err,
        r->Err_0.kind == ConvertError::Write,
{
}

/// A tag other than `png`, `bmp`, `ico` and `webp` is stored exactly as the
/// tag `jpeg` is, but for the path, which ends with the tag given.
pub proof fn lemma_other_tags_store_as_jpeg(
    picture: RasterView,
    output_path: Seq<char>,
    format: Seq<char>,
    r: Result<Converted, Failure>,
)
    requires
        format != "png"@,
        format != "bmp"@,
        format != "ico"@,
        format != "webp"@,
        stored(picture, output_path, format, None, r),
    ensures
        match written(picture, Encoding::Jpeg { quality: 80 }) {
            Some(bytes) => r is Ok && r->Ok_0.bytes@ == bytes && is_suffix(r->Ok_0.path@, format),
            None => r is Err && r->Err_0.kind == ConvertError::Encode,
        },
{
    crate::path::lemma_resolved_path_ends_with_tag(output_path, format);
}

/// Storing again under the path of a first result names the same path.
pub proof fn lemma_stored_again_keeps_path(
    picture: RasterView,
    output_path: Seq<char>,
    format: Seq<char>,
    first: Result<Converted, Failure>,
    second: Result<Converted, Failure>,
)
    requires
        stored(picture, output_path, format, None, first),
        first is Ok,
        stored(picture, first->Ok_0.path@, format, None, second),
    ensures
        second is Ok,
        second->Ok_0.path@ == first->Ok_0.path@,
        second->Ok_0.bytes@ == first->Ok_0.bytes@,
{
    crate::path::lemma_resolve_idempotent(output_path, format);
}

} // verus!
