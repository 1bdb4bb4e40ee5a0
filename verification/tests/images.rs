use fortochka::images::{crop_to_fit, crop_window, CropError, CropWindow, JPEG_QUALITY};
use image::codecs::jpeg::JpegEncoder;
use image::GenericImageView;

fn jpeg(w: u32, h: u32) -> Vec<u8> {
    let img = image::RgbImage::from_fn(w, h, |x, y| image::Rgb([(x % 256) as u8, (y % 256) as u8, 128]));
    let mut buf = Vec::new();
    JpegEncoder::new_with_quality(&mut buf, 80)
        .encode_image(&image::DynamicImage::ImageRgb8(img))
        .unwrap();
    buf
}

fn dimensions(jpeg: &[u8]) -> (u32, u32) {
    image::load_from_memory(jpeg).unwrap().dimensions()
}

#[test]
fn landscape_source_to_portrait_target() {
    let out = crop_to_fit(&jpeg(400, 200), 90, 180).unwrap();
    assert_eq!(dimensions(&out), (90, 180));
}

#[test]
fn portrait_source_to_landscape_target() {
    let out = crop_to_fit(&jpeg(200, 400), 180, 90).unwrap();
    assert_eq!(dimensions(&out), (180, 90));
}

#[test]
fn same_aspect_is_pure_resize() {
    let out = crop_to_fit(&jpeg(400, 800), 100, 200).unwrap();
    assert_eq!(dimensions(&out), (100, 200));
}

#[test]
fn zero_dimension_is_rejected() {
    assert!(matches!(crop_to_fit(&jpeg(10, 10), 0, 100), Err(CropError::ZeroDimension)));
}

#[test]
fn garbage_input_is_rejected() {
    assert!(matches!(crop_to_fit(b"not a jpeg", 100, 100), Err(CropError::Image(_))));
}

#[test]
fn zero_height_is_rejected_before_decoding() {
    assert!(matches!(crop_to_fit(b"not a jpeg", 100, 0), Err(CropError::ZeroDimension)));
}

#[test]
fn crop_window_keeps_full_height_of_landscape_source() {
    // 200 * 90 / 180 = 100 columns, centred in 400.
    assert_eq!(crop_window(400, 200, 90, 180), CropWindow { x: 150, y: 0, width: 100, height: 200 });
}

#[test]
fn crop_window_keeps_full_width_of_portrait_source() {
    // 400 * 180 / 90 = 800 > 200, so full width: 200 * 90 / 180 = 100 rows.
    assert_eq!(crop_window(200, 400, 180, 90), CropWindow { x: 0, y: 150, width: 200, height: 100 });
}

#[test]
fn crop_window_of_same_aspect_is_whole_frame() {
    assert_eq!(crop_window(400, 800, 100, 200), CropWindow { x: 0, y: 0, width: 400, height: 800 });
}

#[test]
fn crop_window_never_empty() {
    // A very flat target over a tall source: the ratio gives 0 rows, kept at 1.
    assert_eq!(crop_window(10, 1000, 4096, 1), CropWindow { x: 0, y: 499, width: 10, height: 1 });
    // A very tall target over a wide source: the ratio gives 0 columns, kept at 1.
    assert_eq!(crop_window(1000, 10, 1, 4096), CropWindow { x: 499, y: 0, width: 1, height: 10 });
}

#[test]
fn crop_window_odd_margin_goes_right() {
    // 3 * 1 / 1 = 3 columns of 6: margins 1 and 2.
    assert_eq!(crop_window(6, 3, 1, 1), CropWindow { x: 1, y: 0, width: 3, height: 3 });
}

#[test]
fn crop_error_messages() {
    assert_eq!(CropError::ZeroDimension.message(), "размеры должны быть больше нуля");
    assert_eq!(
        CropError::Image("x".to_string()).message(),
        "не удалось обработать изображение: x"
    );
    assert_eq!(JPEG_QUALITY, 85);
}

#[test]
fn sizes_beyond_jpeg_are_refused() {
    assert!(matches!(crop_to_fit(&jpeg(10, 10), 70000, 1), Err(CropError::Image(_))));
}

#[test]
fn small_frame_is_scaled_to_target() {
    let out = crop_to_fit(&jpeg(3, 7), 5, 5).unwrap();
    assert_eq!(dimensions(&out), (5, 5));
}

#[test]
fn output_is_the_centre_crop() {
    // A frame whose left and right quarters are black and whose middle half
    // is white: cropping 400x200 to a 1:1 square keeps the white middle.
    let img = image::RgbImage::from_fn(400, 200, |x, _| {
        if (100..300).contains(&x) { image::Rgb([255, 255, 255]) } else { image::Rgb([0, 0, 0]) }
    });
    let mut buf = Vec::new();
    JpegEncoder::new_with_quality(&mut buf, 95)
        .encode_image(&image::DynamicImage::ImageRgb8(img))
        .unwrap();
    let out = crop_to_fit(&buf, 20, 20).unwrap();
    let decoded = image::load_from_memory(&out).unwrap().to_rgb8();
    for p in decoded.pixels() {
        assert!(p[0] > 200, "{p:?}");
    }
}
