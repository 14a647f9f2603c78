//! Decoded pictures: size, colour model and raw samples, row after row.

use vstd::prelude::*;

verus! {

/// The longest side a picture may have. Resampling places pixels in single
/// precision, which counts whole numbers exactly up to this one.
pub const MAX_SIDE: u32 = 16_777_216;

/// The channels of a pixel.
#[derive(Clone, Copy, Debug, PartialEq, Eq, Structural)]
pub enum Layout {
    /// Grey.
    L,
    /// Grey and alpha.
    La,
    /// Red, green, blue.
    Rgb,
    /// Red, green, blue and alpha.
    Rgba,
}

/// The width of a sample.
#[derive(Clone, Copy, Debug, PartialEq, Eq, Structural)]
pub enum Depth {
    /// One byte a sample.
    Eight,
    /// Two bytes a sample, in the machine's byte order.
    Sixteen,
}

/// The number of bytes that a pixel takes.
pub open spec fn pixel_size(layout: Layout, depth: Depth) -> nat {
    match (layout, depth) {
        (Layout::L, Depth::Eight) => 1,
        (Layout::La, Depth::Eight) => 2,
        (Layout::Rgb, Depth::Eight) => 3,
        (Layout::Rgba, Depth::Eight) => 4,
        (Layout::L, Depth::Sixteen) => 2,
        (Layout::La, Depth::Sixteen) => 4,
        (Layout::Rgb, Depth::Sixteen) => 6,
        (Layout::Rgba, Depth::Sixteen) => 8,
    }
}

/// The colour model with `channels` channels and `bytes` bytes a pixel, where
/// the samples are one or two bytes wide.
pub open spec fn model_for(channels: u8, bytes: u8) -> Option<(Layout, Depth)> {
    let layout = if channels == 1 {
        Some(Layout::L)
    } else if channels == 2 {
        Some(Layout::La)
    } else if channels == 3 {
        Some(Layout::Rgb)
    } else if channels == 4 {
        Some(Layout::Rgba)
    } else {
        None
    };
    match layout {
        None => None,
        Some(l) => if bytes == channels {
            Some((l, Depth::Eight))
        } else if bytes == 2 * channels {
            Some((l, Depth::Sixteen))
        } else {
            None
        },
    }
}

/// What a raster holds: its size in pixels, its colour model, and the bytes
/// of its samples in rows from the top.
pub struct RasterView {
    pub width: nat,
    pub height: nat,
    pub layout: Layout,
    pub depth: Depth,
    pub data: Seq<u8>,
}

/// A picture has at least one pixel, no side longer than `MAX_SIDE`, and the
/// bytes of every pixel.
pub open spec fn well_formed(v: RasterView) -> bool {
    &&& 1 <= v.width <= MAX_SIDE
    &&& 1 <= v.height <= MAX_SIDE
    &&& v.data.len() == pixel_size(v.layout, v.depth) * (v.width * v.height)
}

/// A decoded picture in the colour model it was stored in.
#[derive(Clone, Debug)]
pub struct Raster {
    width: u32,
    height: u32,
    layout: Layout,
    depth: Depth,
    data: Vec<u8>,
}

impl View for Raster {
    type V = RasterView;

    closed spec fn view(&self) -> RasterView {
        RasterView {
            width: self.width as nat,
            height: self.height as nat,
            layout: self.layout,
            depth: self.depth,
            data: self.data@,
        }
    }
}

/// The number of bytes that a pixel takes.
pub fn pixel_bytes(layout: Layout, depth: Depth) -> (n: u8)
    ensures
        n == pixel_size(layout, depth),
{
    let channels: u8 = match layout {
        Layout::L => 1,
        Layout::La => 2,
        Layout::Rgb => 3,
        Layout::Rgba => 4,
    };
    match depth {
        Depth::Eight => channels,
        Depth::Sixteen => 2 * channels,
    }
}

/// The colour model that a channel count and a pixel size stand for.
pub fn model_of(channels: u8, bytes: u8) -> (model: Option<(Layout, Depth)>)
    ensures
        model == model_for(channels, bytes),
{
    let layout: Layout = match channels {
        1 => Layout::L,
        2 => Layout::La,
        3 => Layout::Rgb,
        4 => Layout::Rgba,
        _ => { return None; },
    };
    if bytes == channels {
        Some((layout, Depth::Eight))
    } else if bytes == 2 * channels {
        Some((layout, Depth::Sixteen))
    } else {
        None
    }
}

/// The number of bytes in a picture of the given size and colour model.
pub fn sample_bytes(width: u32, height: u32, layout: Layout, depth: Depth) -> (count: u128)
    ensures
        count == pixel_size(layout, depth) * (width * height),
{
    let w: u128 = width as u128;
    let h: u128 = height as u128;
    let p: u128 = pixel_bytes(layout, depth) as u128;
    assert(w * h <= 0xFFFF_FFFF * 0xFFFF_FFFF && p * (w * h) <= 8 * (0xFFFF_FFFF * 0xFFFF_FFFF))
        by (nonlinear_arith)
        requires
            w <= 0xFFFF_FFFF,
            h <= 0xFFFF_FFFF,
            p <= 8,
    ;
    p * (w * h)
}

impl Raster {
    /// The invariant of the type: see `well_formed`.
    pub open spec fn wf(&self) -> bool {
        well_formed(self@)
    }

    /// The picture of the given size, colour model and bytes, where that is
    /// well formed.
    pub fn new(width: u32, height: u32, layout: Layout, depth: Depth, data: Vec<u8>) -> (made:
        Option<Raster>)
        ensures
            made is Some <==> well_formed(
                RasterView { width: width as nat, height: height as nat, layout, depth, data: data@ },
            ),
            made matches Some(r) ==> r@ == (RasterView {
                width: width as nat,
                height: height as nat,
                layout,
                depth,
                data: data@,
            }),
    {
        if width == 0 || height == 0 || width > MAX_SIDE || height > MAX_SIDE || data.len() as u128
            != sample_bytes(width, height, layout, depth) {
            None
        } else {
            Some(Raster { width, height, layout, depth, data })
        }
    }

    /// The picture that a decoder's output stands for: its size, the number
    /// of its channels, the bytes of a pixel, and the bytes of its samples.
    /// There is none where the samples are wider than two bytes or the rest
    /// is not well formed.
    pub fn from_decoded(width: u32, height: u32, channels: u8, bytes: u8, data: Vec<u8>) -> (made:
        Option<Raster>)
        ensures
            match model_for(channels, bytes) {
                None => made is None,
                Some(m) => {
                    let v = RasterView {
                        width: width as nat,
                        height: height as nat,
                        layout: m.0,
                        depth: m.1,
                        data: data@,
                    };
                    if well_formed(v) {
                        made matches Some(r) && r@ == v
                    } else {
                        made is None
                    }
                },
            },
    {
        match model_of(channels, bytes) {
            None => None,
            Some(m) => Raster::new(width, height, m.0, m.1, data),
        }
    }

    /// The number of pixels in a row.
    pub fn width(&self) -> (w: u32)
        ensures
            w == self@.width,
    {
        self.width
    }

    /// The number of rows.
    pub fn height(&self) -> (h: u32)
        ensures
            h == self@.height,
    {
        self.height
    }

    /// The channels of a pixel.
    pub fn layout(&self) -> (l: Layout)
        ensures
            l == self@.layout,
    {
        self.layout
    }

    /// The width of a sample.
    pub fn depth(&self) -> (d: Depth)
        ensures
            d == self@.depth,
    {
        self.depth
    }

    /// The bytes of the samples, row after row.
    pub fn data(&self) -> (samples: &Vec<u8>)
        ensures
            samples@ == self@.data,
    {
        &self.data
    }
}

} // verus!
