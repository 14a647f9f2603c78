use image_processor::encoding::{encoding_for_tag, Encoding, JPEG_QUALITY};

#[test]
fn each_tag_selects_its_container() {
    assert_eq!(encoding_for_tag("png"), Encoding::Png);
    assert_eq!(encoding_for_tag("jpeg"), Encoding::Jpeg { quality: 80 });
    assert_eq!(encoding_for_tag("bmp"), Encoding::Bmp);
    assert_eq!(encoding_for_tag("ico"), Encoding::Ico);
    assert_eq!(encoding_for_tag("webp"), Encoding::WebP);
}

#[test]
fn unknown_tag_selects_jpeg_at_80() {
    for tag in ["tiff", "gif", "", "jpg", "PNG", "png ", ".png", "\u{e9}"] {
        assert_eq!(encoding_for_tag(tag), Encoding::Jpeg { quality: 80 }, "{:?}", tag);
    }
}

#[test]
fn jpeg_quality_is_80() {
    assert_eq!(JPEG_QUALITY, 80);
}
