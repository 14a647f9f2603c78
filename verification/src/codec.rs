//! The calls into the `image` crate. Nothing in this file is proved: each
//! contract is taken from the crate's source and believed.

use crate::encoding::Encoding;
use crate::raster::{pixel_size, Depth, Layout, RasterView, MAX_SIDE};
use image::{ColorType, DynamicImage, ImageBuffer, ImageOutputFormat};
use vstd::prelude::*;

verus! {

/// The error type of the `image` crate. Nothing is read from it.
#[verifier::external_type_specification]
#[verifier::external_body]
pub struct ExImageError(image::ImageError);

/// The file that `image::write_buffer_with_format` writes for a picture in
/// the given encoding: `None` where it reports an error.
pub uninterp spec fn encoded(picture: RasterView, encoding: Encoding) -> Option<Seq<u8>>;

/// What `write_samples` makes of a picture: nothing where a bitmap is asked
/// for and the picture has more bytes than 32 bits count, which the bitmap
/// encoder cannot index, and otherwise what the outside encoder gives.
pub open spec fn written(picture: RasterView, encoding: Encoding) -> Option<Seq<u8>> {
    if encoding == Encoding::Bmp && picture.data.len() > u32::MAX {
        None
    } else {
        encoded(picture, encoding)
    }
}

/// How large a resampling may be: `image::imageops::resize` first builds a
/// picture as wide as the source and as high as the target, with sixteen bytes
/// a pixel, then the target, and no allocation may pass `isize::MAX` bytes.
pub open spec fn resize_fits(source_width: nat, new_width: nat, new_height: nat) -> bool {
    &&& 16 * (source_width * new_height) <= isize::MAX
    &&& 16 * (new_width * new_height) <= isize::MAX
}

/// What the resampling wrappers ask of their arguments: a source and a target
/// with sides from 1 to `MAX_SIDE`, the bytes of every pixel of the source,
/// and allocations within `resize_fits`.
pub open spec fn resample_admits(
    pixel: nat,
    width: u32,
    height: u32,
    data: Seq<u8>,
    new_width: u32,
    new_height: u32,
) -> bool {
    &&& 1 <= width <= MAX_SIDE
    &&& 1 <= height <= MAX_SIDE
    &&& 1 <= new_width <= MAX_SIDE
    &&& 1 <= new_height <= MAX_SIDE
    &&& data.len() == pixel * (width * height)
    &&& resize_fits(width as nat, new_width as nat, new_height as nat)
}

/// Calls `to_string` on an error of the `image` crate, for its own words on
/// what went wrong. Nothing is claimed of them.
#[verifier::external_body]
pub(crate) fn error_words(error: &image::ImageError) -> (words: String) {
    error.to_string()
}

/// Calls `image::ImageFormat::from_path` on the file's path, which goes by the
/// extension alone, then `image::load_from_memory_with_format` on the file's
/// bytes, and takes the picture apart: its size, the channel count and pixel
/// size of its colour type, and its bytes. Nothing is claimed of the outcome:
/// the decoders may differ between machines, and the caller tests what it is
/// handed.
#[verifier::external_body]
pub(crate) fn load_samples(path: &str, bytes: &[u8]) -> (r: Result<
    (u32, u32, u8, u8, Vec<u8>),
    image::ImageError,
>) {
    let format = image::ImageFormat::from_path(path)?;
    let picture = image::load_from_memory_with_format(bytes, format)?;
    let color = picture.color();
    let size = (picture.width(), picture.height());
    Ok((size.0, size.1, color.channel_count(), color.bytes_per_pixel(), picture.into_bytes()))
}

/// Calls `image::DynamicImage::resize_exact` with the Lanczos filter of
/// window 3 on a picture of one-byte samples, rebuilt in the variant of its
/// layout. The contract claims that the result has the bytes of every pixel of
/// the size asked for, which is how `imageops::resize` allocates it, and that
/// a source which has that size already comes back byte for byte, which is the
/// first thing that function tests. Of other samples it says nothing: they
/// come out of floating-point arithmetic.
///
/// The call indexes past the end of a source without pixels, loses count of
/// pixels past `MAX_SIDE`, and fails to allocate past the bound of
/// `resize_fits`: `requires` leaves these out.
#[verifier::external_body]
pub(crate) fn resample8(
    layout: Layout,
    width: u32,
    height: u32,
    data: &Vec<u8>,
    new_width: u32,
    new_height: u32,
) -> (out: Vec<u8>)
    requires
        resample_admits(pixel_size(layout, Depth::Eight), width, height, data@, new_width, new_height),
    ensures
        out@.len() == pixel_size(layout, Depth::Eight) * (new_width * new_height),
        new_width == width && new_height == height ==> out@ == data@,
{
    let source = match layout {
        Layout::L => DynamicImage::ImageLuma8(ImageBuffer::from_raw(width, height, data.clone()).unwrap()),
        Layout::La => DynamicImage::ImageLumaA8(ImageBuffer::from_raw(width, height, data.clone()).unwrap()),
        Layout::Rgb => DynamicImage::ImageRgb8(ImageBuffer::from_raw(width, height, data.clone()).unwrap()),
        Layout::Rgba => DynamicImage::ImageRgba8(ImageBuffer::from_raw(width, height, data.clone()).unwrap()),
    };
    source.resize_exact(new_width, new_height, image::imageops::FilterType::Lanczos3).into_bytes()
}

/// Calls `image::DynamicImage::resize_exact` as `resample8` does, on a picture
/// of two-byte samples: the bytes are paired into samples in the machine's
/// byte order, and the result is handed back as bytes in the same order. The
/// contract and what `requires` leaves out are those of `resample8`.
#[verifier::external_body]
pub(crate) fn resample16(
    layout: Layout,
    width: u32,
    height: u32,
    data: &Vec<u8>,
    new_width: u32,
    new_height: u32,
) -> (out: Vec<u8>)
    requires
        resample_admits(pixel_size(layout, Depth::Sixteen), width, height, data@, new_width, new_height),
    ensures
        out@.len() == pixel_size(layout, Depth::Sixteen) * (new_width * new_height),
        new_width == width && new_height == height ==> out@ == data@,
{
    let wide: Vec<u16> = data.chunks_exact(2).map(|pair| u16::from_ne_bytes([pair[0], pair[1]])).collect();
    let source = match layout {
        Layout::L => DynamicImage::ImageLuma16(ImageBuffer::from_raw(width, height, wide).unwrap()),
        Layout::La => DynamicImage::ImageLumaA16(ImageBuffer::from_raw(width, height, wide).unwrap()),
        Layout::Rgb => DynamicImage::ImageRgb16(ImageBuffer::from_raw(width, height, wide).unwrap()),
        Layout::Rgba => DynamicImage::ImageRgba16(ImageBuffer::from_raw(width, height, wide).unwrap()),
    };
    source.resize_exact(new_width, new_height, image::imageops::FilterType::Lanczos3).into_bytes()
}

/// Calls `image::write_buffer_with_format`, which is what
/// `image::DynamicImage::write_to` hands a picture's bytes to, with a buffer
/// in memory as the writer. The contract only gives the outcome its name: the
/// bytes written, or the fact that the encoder refused.
///
/// The encoders stop on a buffer whose length does not match the size, and
/// the bitmap encoder counts rows and bytes in 32 bits: `requires` keeps the
/// sides within `MAX_SIDE`, the length exact, and a bitmap within `u32::MAX`
/// bytes.
#[verifier::external_body]
pub(crate) fn write_samples(
    layout: Layout,
    depth: Depth,
    width: u32,
    height: u32,
    data: &Vec<u8>,
    encoding: Encoding,
) -> (r: Result<Vec<u8>, image::ImageError>)
    requires
        1 <= width <= MAX_SIDE,
        1 <= height <= MAX_SIDE,
        data@.len() == pixel_size(layout, depth) * (width * height),
        encoding == Encoding::Bmp ==> data@.len() <= u32::MAX,
    ensures
        encoded(
            RasterView { width: width as nat, height: height as nat, layout, depth, data: data@ },
            encoding,
        ) == match r {
            Ok(bytes) => Some(bytes@),
            Err(_) => None,
        },
{
    let color = match depth {
        Depth::Eight => match layout { Layout::L => ColorType::L8, Layout::La => ColorType::La8, Layout::Rgb => ColorType::Rgb8, Layout::Rgba => ColorType::Rgba8 },
        Depth::Sixteen => match layout { Layout::L => ColorType::L16, Layout::La => ColorType::La16, Layout::Rgb => ColorType::Rgb16, Layout::Rgba => ColorType::Rgba16 },
    };
    let format = match encoding {
        Encoding::Png => ImageOutputFormat::Png,
        Encoding::Jpeg { quality } => ImageOutputFormat::Jpeg(quality),
        Encoding::Bmp => ImageOutputFormat::Bmp,
        Encoding::Ico => ImageOutputFormat::Ico,
        Encoding::WebP => ImageOutputFormat::WebP,
    };
    let mut file = std::io::Cursor::new(Vec::new());
    image::write_buffer_with_format(&mut file, data, width, height, color, format)?;
    Ok(file.into_inner())
}

} // verus!
