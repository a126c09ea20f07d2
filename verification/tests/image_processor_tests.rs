use image::{GenericImageView, ImageBuffer, Rgb};
use rich_thumbnail_uploader::cli::SupportedImageFormat;
use rich_thumbnail_uploader::image_processor::{
    compute_thumbnail_dimensions, create_thumbnail, ImageProcessingOptions,
};

fn create_test_image_bytes(width: u32, height: u32) -> Vec<u8> {
    let mut img = ImageBuffer::new(width, height);

    for (x, y, pixel) in img.enumerate_pixels_mut() {
        *pixel = Rgb([x as u8, y as u8, 100]);
    }

    let mut buf = std::io::Cursor::new(Vec::new());
    img.write_to(&mut buf, image::ImageFormat::Png).unwrap();
    buf.into_inner()
}

#[test]
fn test_create_thumbnail_resizes_correctly() {
    let bytes = create_test_image_bytes(200, 200);

    let options = ImageProcessingOptions { size: 100, format: SupportedImageFormat::Png };

    let result = create_thumbnail(&bytes, &options).unwrap();

    let img = image::load_from_memory(&result.data).unwrap();
    assert_eq!(img.dimensions(), (100, 100));
}

#[test]
fn test_create_thumbnail_converts_format() {
    let bytes = create_test_image_bytes(200, 200);

    let options = ImageProcessingOptions { size: 100, format: SupportedImageFormat::Webp };

    let result = create_thumbnail(&bytes, &options).unwrap();
    assert_eq!(result.format, SupportedImageFormat::Webp);

    assert!(image::guess_format(&result.data).unwrap() == image::ImageFormat::WebP);
}

#[test]
fn test_create_thumbnail_invalid_file() {
    let options = ImageProcessingOptions { size: 100, format: SupportedImageFormat::Png };

    let result = create_thumbnail(&b"nonexistent_file.png".to_vec(), &options);
    assert!(result.is_err());
}

#[test]
fn test_thumbnail_preserves_aspect_ratio() {
    // A wide source: the larger side becomes the target edge and the
    // smaller side is scaled by the same ratio, rounded to a pixel.
    let bytes = create_test_image_bytes(400, 100);
    let options = ImageProcessingOptions { size: 200, format: SupportedImageFormat::Png };

    let result = create_thumbnail(&bytes, &options).unwrap();
    let img = image::load_from_memory(&result.data).unwrap();
    assert_eq!(img.dimensions(), (200, 50));
}

#[test]
fn test_thumbnail_never_upscales() {
    // A source already inside the bounding box keeps its own dimensions.
    let bytes = create_test_image_bytes(60, 40);
    let options = ImageProcessingOptions { size: 200, format: SupportedImageFormat::Png };

    let result = create_thumbnail(&bytes, &options).unwrap();
    let img = image::load_from_memory(&result.data).unwrap();
    assert_eq!(img.dimensions(), (60, 40));
}

#[test]
fn test_compute_thumbnail_dimensions_values() {
    assert_eq!(compute_thumbnail_dimensions(200, 200, 100), (100, 100));
    assert_eq!(compute_thumbnail_dimensions(400, 100, 200), (200, 50));
    assert_eq!(compute_thumbnail_dimensions(100, 400, 200), (50, 200));
    assert_eq!(compute_thumbnail_dimensions(60, 40, 200), (60, 40));
    // Rounding to the nearest pixel: 100 * 150 / 400 = 37.5 rounds up.
    assert_eq!(compute_thumbnail_dimensions(400, 100, 150), (150, 38));
    // An extreme ratio never collapses the smaller side to zero.
    assert_eq!(compute_thumbnail_dimensions(3000, 1, 2), (2, 1));
}
