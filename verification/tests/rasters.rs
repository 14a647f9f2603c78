use image_processor::raster::{model_of, pixel_bytes, sample_bytes, Depth, Layout, Raster, MAX_SIDE};

#[test]
fn pixel_bytes_of_each_model() {
    assert_eq!(pixel_bytes(Layout::L, Depth::Eight), 1);
    assert_eq!(pixel_bytes(Layout::La, Depth::Eight), 2);
    assert_eq!(pixel_bytes(Layout::Rgb, Depth::Eight), 3);
    assert_eq!(pixel_bytes(Layout::Rgba, Depth::Eight), 4);
    assert_eq!(pixel_bytes(Layout::L, Depth::Sixteen), 2);
    assert_eq!(pixel_bytes(Layout::La, Depth::Sixteen), 4);
    assert_eq!(pixel_bytes(Layout::Rgb, Depth::Sixteen), 6);
    assert_eq!(pixel_bytes(Layout::Rgba, Depth::Sixteen), 8);
}

#[test]
fn model_of_channels_and_pixel_size() {
    assert_eq!(model_of(1, 1), Some((Layout::L, Depth::Eight)));
    assert_eq!(model_of(3, 3), Some((Layout::Rgb, Depth::Eight)));
    assert_eq!(model_of(4, 8), Some((Layout::Rgba, Depth::Sixteen)));
    assert_eq!(model_of(2, 4), Some((Layout::La, Depth::Sixteen)));
    assert_eq!(model_of(3, 12), None);
    assert_eq!(model_of(4, 16), None);
    assert_eq!(model_of(0, 0), None);
    assert_eq!(model_of(5, 5), None);
    assert_eq!(model_of(200, 144), None);
}

#[test]
fn sample_bytes_is_pixel_size_times_pixels() {
    assert_eq!(sample_bytes(2, 3, Layout::Rgba, Depth::Eight), 24);
    assert_eq!(sample_bytes(2, 3, Layout::Rgb, Depth::Sixteen), 36);
    assert_eq!(sample_bytes(0, 7, Layout::L, Depth::Eight), 0);
    assert_eq!(
        sample_bytes(u32::MAX, u32::MAX, Layout::Rgba, Depth::Sixteen),
        8 * (u32::MAX as u128) * (u32::MAX as u128)
    );
}

#[test]
fn raster_of_matching_samples_is_made() {
    let data: Vec<u8> = (0u8..24).collect();
    let r = Raster::new(2, 3, Layout::Rgba, Depth::Eight, data.clone()).unwrap();
    assert_eq!((r.width(), r.height()), (2, 3));
    assert_eq!((r.layout(), r.depth()), (Layout::Rgba, Depth::Eight));
    assert_eq!(r.data(), &data);
    assert!(Raster::new(2, 2, Layout::Rgb, Depth::Sixteen, data.clone()).is_some());
    assert!(Raster::new(4, 3, Layout::La, Depth::Eight, data).is_some());
}

#[test]
fn raster_of_wrong_length_is_refused() {
    assert!(Raster::new(2, 3, Layout::Rgba, Depth::Eight, vec![0; 23]).is_none());
    assert!(Raster::new(2, 3, Layout::Rgba, Depth::Eight, vec![0; 25]).is_none());
    assert!(Raster::new(2, 3, Layout::Rgb, Depth::Eight, vec![0; 24]).is_none());
    assert!(Raster::new(1, 1, Layout::L, Depth::Eight, vec![]).is_none());
}

#[test]
fn raster_without_pixels_or_with_a_side_too_long_is_refused() {
    assert!(Raster::new(0, 0, Layout::L, Depth::Eight, vec![]).is_none());
    assert!(Raster::new(0, 5, Layout::L, Depth::Eight, vec![]).is_none());
    assert!(Raster::new(5, 0, Layout::L, Depth::Eight, vec![]).is_none());
    let long = vec![0u8; MAX_SIDE as usize + 1];
    assert!(Raster::new(MAX_SIDE + 1, 1, Layout::L, Depth::Eight, long.clone()).is_none());
    assert!(Raster::new(1, MAX_SIDE + 1, Layout::L, Depth::Eight, long).is_none());
    assert!(Raster::new(MAX_SIDE, 1, Layout::L, Depth::Eight, vec![0u8; MAX_SIDE as usize]).is_some());
}

#[test]
fn from_decoded_reads_the_model_off_the_numbers() {
    let r = Raster::from_decoded(1, 2, 3, 3, vec![1, 2, 3, 4, 5, 6]).unwrap();
    assert_eq!((r.layout(), r.depth()), (Layout::Rgb, Depth::Eight));
    let r = Raster::from_decoded(1, 1, 3, 6, vec![1, 2, 3, 4, 5, 6]).unwrap();
    assert_eq!((r.layout(), r.depth()), (Layout::Rgb, Depth::Sixteen));
    assert!(Raster::from_decoded(1, 1, 3, 12, vec![0; 12]).is_none());
    assert!(Raster::from_decoded(1, 1, 3, 3, vec![0; 4]).is_none());
}
