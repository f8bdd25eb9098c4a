use bevy_jpeg2k::{
    channels_per_pixel, convert, ComponentPlane, ConversionError, DecodedImage, PixelFormat,
};

fn image(width: u32, height: u32, planes: Vec<Vec<u32>>) -> DecodedImage {
    let components = planes
        .into_iter()
        .map(|samples| ComponentPlane {
            width,
            height,
            samples,
        })
        .collect();
    DecodedImage {
        width,
        height,
        components,
    }
}

#[test]
fn gray_pixel_ordering() {
    let buf = convert(&image(2, 1, vec![vec![10, 20]])).unwrap();
    assert_eq!(buf.format, PixelFormat::Gray8);
    assert_eq!(buf.bytes, vec![10, 20]);
}

#[test]
fn length_invariant_per_count() {
    for count in 1..=4usize {
        let planes = vec![vec![0u32; 6]; count];
        let buf = convert(&image(3, 2, planes)).unwrap();
        assert_eq!(buf.bytes.len(), 6 * channels_per_pixel(buf.format));
    }
}

#[test]
fn channels_per_pixel_by_format() {
    assert_eq!(channels_per_pixel(PixelFormat::Gray8), 1);
    assert_eq!(channels_per_pixel(PixelFormat::GrayAlpha8), 2);
    assert_eq!(channels_per_pixel(PixelFormat::Rgba8), 4);
}

#[test]
fn dispatch_one_component() {
    let buf = convert(&image(1, 1, vec![vec![7]])).unwrap();
    assert_eq!(buf.format, PixelFormat::Gray8);
}

#[test]
fn dispatch_two_components() {
    let buf = convert(&image(2, 1, vec![vec![1, 2], vec![3, 4]])).unwrap();
    assert_eq!(buf.format, PixelFormat::GrayAlpha8);
    assert_eq!(buf.bytes, vec![1, 3, 2, 4]);
}

#[test]
fn dispatch_three_components_alpha_255() {
    let buf = convert(&image(2, 2, vec![vec![1; 4], vec![2; 4], vec![3; 4]])).unwrap();
    assert_eq!(buf.format, PixelFormat::Rgba8);
    for pixel in buf.bytes.chunks(4) {
        assert_eq!(pixel[3], 255);
    }
}

#[test]
fn dispatch_four_components_alpha_verbatim() {
    let buf = convert(&image(
        2,
        1,
        vec![vec![1, 1], vec![2, 2], vec![3, 3], vec![40, 50]],
    ))
    .unwrap();
    assert_eq!(buf.format, PixelFormat::Rgba8);
    assert_eq!(buf.bytes, vec![1, 2, 3, 40, 1, 2, 3, 50]);
}

#[test]
fn truncation_keeps_low_bits() {
    // 256 + k narrows to k, not to a clamped 255.
    let buf = convert(&image(1, 1, vec![vec![256]])).unwrap();
    assert_eq!(buf.bytes, vec![0]);
    let buf = convert(&image(1, 1, vec![vec![260]])).unwrap();
    assert_eq!(buf.bytes, vec![4]);
}

#[test]
fn truncation_in_every_plane() {
    let buf = convert(&image(
        1,
        1,
        vec![vec![256 + 1], vec![256 + 2], vec![256 + 3], vec![512 + 9]],
    ))
    .unwrap();
    assert_eq!(buf.bytes, vec![1, 2, 3, 9]);
}

#[test]
fn three_component_synthesis_1x1() {
    let buf = convert(&image(1, 1, vec![vec![5], vec![6], vec![7]])).unwrap();
    assert_eq!(buf.format, PixelFormat::Rgba8);
    assert_eq!(buf.bytes, vec![5, 6, 7, 255]);
}

#[test]
fn four_component_passthrough_1x1() {
    let buf = convert(&image(1, 1, vec![vec![1], vec![2], vec![3], vec![4]])).unwrap();
    assert_eq!(buf.format, PixelFormat::Rgba8);
    assert_eq!(buf.bytes, vec![1, 2, 3, 4]);
}

#[test]
fn zero_components_refused() {
    let result = convert(&image(4, 4, vec![]));
    assert!(matches!(
        result,
        Err(ConversionError::UnsupportedComponentCount(0))
    ));
}

#[test]
fn five_components_refused() {
    let result = convert(&image(1, 1, vec![vec![0]; 5]));
    assert!(matches!(
        result,
        Err(ConversionError::UnsupportedComponentCount(5))
    ));
}

#[test]
fn empty_image_converts_to_empty_buffer() {
    let buf = convert(&image(0, 3, vec![vec![], vec![], vec![]])).unwrap();
    assert_eq!(buf.format, PixelFormat::Rgba8);
    assert!(buf.bytes.is_empty());
    let buf = convert(&image(3, 0, vec![vec![]])).unwrap();
    assert_eq!(buf.format, PixelFormat::Gray8);
    assert!(buf.bytes.is_empty());
}

#[test]
fn conversion_is_deterministic() {
    let input = image(2, 2, vec![vec![9, 300, 0, 17], vec![1, 2, 3, 4], vec![255; 4]]);
    let first = convert(&input).unwrap();
    let second = convert(&input).unwrap();
    assert_eq!(first.format, second.format);
    assert_eq!(first.bytes, second.bytes);
}

#[test]
fn two_by_two_rgb_exact_bytes() {
    let buf = convert(&image(
        2,
        2,
        vec![
            vec![10, 11, 12, 13],
            vec![20, 21, 22, 23],
            vec![30, 31, 32, 33],
        ],
    ))
    .unwrap();
    assert_eq!(
        buf.bytes,
        vec![10, 20, 30, 255, 11, 21, 31, 255, 12, 22, 32, 255, 13, 23, 33, 255]
    );
}
