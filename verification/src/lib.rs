//! Resizing and re-encoding of raster images, as a function from bytes to bytes.
//!
//! A conversion decodes an image file held in memory, resamples it to an exact
//! width and height, settles the path the result is to be stored under, and
//! encodes the pixels in the container that a format tag asks for. Reading the
//! input and storing the output are left to the caller.

pub mod codec;
pub mod encoding;
pub mod path;
pub mod pipeline;
pub mod raster;
pub mod settings;
pub mod text;
