use image_processor::encoding::Encoding;
use image_processor::pipeline::{encode, ConvertError};
use image_processor::raster::{Depth, Layout, Raster};
use image_processor::settings::{Settings, DEFAULT_HEIGHT, DEFAULT_WIDTH};

#[test]
fn default_settings() {
    let s = Settings::default();
    assert_eq!(s.input_path, "");
    assert_eq!(s.output_path, "");
    assert_eq!(s.new_width, 800);
    assert_eq!(s.new_height, 600);
    assert_eq!(s.format, "jpeg");
    assert_eq!((DEFAULT_WIDTH, DEFAULT_HEIGHT), (800, 600));
}

#[test]
fn settings_process_converts_as_asked() {
    let picture = Raster::new(2, 2, Layout::Rgba, Depth::Eight, vec![255; 16]).unwrap();
    let photo = encode(&picture, Encoding::Png).unwrap();
    let mut s = Settings::default();
    s.input_path = String::from("white.png");
    s.output_path = String::from("small");
    s.new_width = 4;
    s.new_height = 3;
    s.format = String::from("bmp");
    let prepared = s.process(Some(&photo)).unwrap();
    assert_eq!(prepared.path, "small.bmp");
    assert_eq!((prepared.picture.width(), prepared.picture.height()), (4, 3));
}

#[test]
fn settings_process_on_unreadable_input_gives_decode() {
    let mut s = Settings::default();
    s.input_path = String::from("gone.png");
    let failure = s.process(None).unwrap_err();
    assert_eq!(failure.kind, ConvertError::Decode);
    assert_eq!(failure.detail, "gone.png");
    assert_eq!(s.process(Some(&[1, 2, 3])).unwrap_err().kind, ConvertError::Decode);
}

#[test]
fn settings_process_refuses_a_size_without_pixels() {
    let picture = Raster::new(1, 1, Layout::Rgba, Depth::Eight, vec![9; 4]).unwrap();
    let photo = encode(&picture, Encoding::Png).unwrap();
    let mut s = Settings::default();
    s.input_path = String::from("dot.png");
    s.new_width = 0;
    assert_eq!(s.process(Some(&photo)).unwrap_err().kind, ConvertError::Encode);
}
