//! The parameters of one conversion, as a value handed to it.

use crate::pipeline::{contents_view, process_image, processed, Failure, Prepared};
use vstd::prelude::*;

verus! {

/// The width a new set of parameters asks for.
pub const DEFAULT_WIDTH: u32 = 800;

/// The height a new set of parameters asks for.
pub const DEFAULT_HEIGHT: u32 = 600;

/// What one conversion is asked to do.
#[derive(Clone, Debug)]
pub struct Settings {
    /// Where the picture is read from.
    pub input_path: String,
    /// Where the result is to be stored, before the format tag is seen to.
    pub output_path: String,
    /// The width of the result, in pixels.
    pub new_width: u32,
    /// The height of the result, in pixels.
    pub new_height: u32,
    /// The format tag: `png`, `jpeg`, `bmp`, `ico` or `webp`.
    pub format: String,
}

impl Default for Settings {
    /// No paths yet, 800 by 600 pixels, JPEG.
    fn default() -> (s: Settings)
        ensures
            s.input_path@ == Seq::<char>::empty(),
            s.output_path@ == Seq::<char>::empty(),
            s.new_width == 800,
            s.new_height == 600,
            s.format@ == "jpeg"@,
    {
        Settings {
            input_path: String::new(),
            output_path: String::new(),
            new_width: DEFAULT_WIDTH,
            new_height: DEFAULT_HEIGHT,
            format: String::from_str("jpeg"),
        }
    }
}

impl Settings {
    /// The first half of the conversion that these settings ask for.
    /// `contents` is what the file at `input_path` holds, `None` where it is
    /// missing or cannot be read.
    pub fn process(&self, contents: Option<&[u8]>) -> (r: Result<Prepared, Failure>)
        ensures
            processed(
                self.input_path@,
                contents_view(contents),
                self.output_path@,
                self.new_width as nat,
                self.new_height as nat,
                self.format@,
                r,
            ),
    {
        process_image(
            self.input_path.as_str(),
            contents,
            self.output_path.as_str(),
            self.new_width,
            self.new_height,
            self.format.as_str(),
        )
    }
}

} // verus!
