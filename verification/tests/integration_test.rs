use image::{GenericImageView, ImageBuffer, Rgb};
use rich_thumbnail_uploader::cli::{Cli, SupportedImageFormat};
use rich_thumbnail_uploader::config::Config;
use rich_thumbnail_uploader::errors::AppError;
use rich_thumbnail_uploader::image_processor::{create_thumbnail, ImageProcessingOptions};
use rich_thumbnail_uploader::prepare_run;
use rich_thumbnail_uploader::uploaders::catbox::CatboxUploader;

fn create_test_image_bytes(width: u32, height: u32) -> Vec<u8> {
    let mut img = ImageBuffer::new(width, height);

    for (x, y, pixel) in img.enumerate_pixels_mut() {
        *pixel = Rgb([x as u8, y as u8, 100]);
    }

    let mut buf = std::io::Cursor::new(Vec::new());
    img.write_to(&mut buf, image::ImageFormat::Png).unwrap();
    buf.into_inner()
}

fn args_of(parts: &[&str]) -> Vec<String> {
    parts.iter().map(|s| s.to_string()).collect()
}

#[test]
fn test_end_to_end_image_processing() {
    let bytes = create_test_image_bytes(400, 400);

    let args = args_of(&[
        "rich-thumbnail-uploader",
        "--dims",
        "200",
        "--format",
        "png",
        "--service",
        "catbox",
    ]);

    let cli = Cli::parse_from(&args).unwrap();

    let config = Config::new(&cli).unwrap();

    let options = ImageProcessingOptions {
        size: config.image_dimensions.0,
        format: config.image_format,
    };

    let result = create_thumbnail(&bytes, &options).unwrap();

    let processed_img = image::load_from_memory(&result.data).unwrap();
    assert_eq!(processed_img.dimensions(), (200, 200));
    assert_eq!(result.format, SupportedImageFormat::Png);
}

#[test]
fn test_config_validation() {
    let args = args_of(&[
        "rich-thumbnail-uploader",
        "--service",
        "catbox",
        "--format",
        "png",
    ]);
    let cli = Cli::parse_from(&args).unwrap();
    let config = Config::new(&cli);
    assert!(config.is_ok());

    let args = args_of(&[
        "rich-thumbnail-uploader",
        "--service",
        "imgur",
        "--format",
        "webp",
        "--uid",
        "test_id",
    ]);
    let cli = Cli::parse_from(&args).unwrap();
    let config = Config::new(&cli);
    assert!(config.is_err());
}

#[test]
fn test_end_to_end_catbox_upload_flow() {
    // A 400×400 source, edge 200, ServiceB, PNG, no credential: the
    // pipeline yields a 200×200 PNG, the request is the ServiceB shape,
    // and a well-formed answer yields a secure URL.
    let bytes = create_test_image_bytes(400, 400);
    let args = args_of(&[
        "rich-thumbnail-uploader",
        "--dims",
        "200",
        "--format",
        "png",
        "--service",
        "catbox",
    ]);
    let cli = Cli::parse_from(&args).unwrap();

    let request = prepare_run(&cli, None, &bytes).unwrap();
    assert_eq!(request.url, "https://catbox.moe/user/api.php");
    assert_eq!(request.file_field_name, "fileToUpload");
    assert_eq!(request.mime_type, "image/png");
    assert!(request.filename.ends_with(".png"));

    let thumbnail = image::load_from_memory(&request.data).unwrap();
    assert_eq!(thumbnail.dimensions(), (200, 200));

    let outcome =
        CatboxUploader::interpret_response(true, "https://files.example/abc.png".to_string());
    let url = outcome.unwrap();
    assert!(url.starts_with("https://"));
}

#[test]
fn test_config_rejection_precedes_image_work() {
    // ServiceA with WEBP is rejected by the validator, naming both the
    // encoding and the service, before any image byte is looked at: even
    // undecodable bytes never produce an image error here.
    let args = args_of(&[
        "rich-thumbnail-uploader",
        "--service",
        "imgur",
        "--format",
        "webp",
        "--uid",
        "test_id",
    ]);
    let cli = Cli::parse_from(&args).unwrap();

    let not_an_image = b"not an image at all".to_vec();
    let result = prepare_run(&cli, None, &not_an_image);
    match result.unwrap_err() {
        AppError::Config(msg) => assert_eq!(msg, "webp is not a valid format for imgur"),
        _ => panic!("expected a Config error"),
    }
}

#[test]
fn test_prepare_run_reports_undecodable_bytes() {
    let args = args_of(&["rich-thumbnail-uploader", "--service", "catbox"]);
    let cli = Cli::parse_from(&args).unwrap();

    let not_an_image = b"not an image at all".to_vec();
    let result = prepare_run(&cli, None, &not_an_image);
    match result.unwrap_err() {
        AppError::Image(msg) => assert_eq!(msg, "the input bytes are not a decodable image"),
        _ => panic!("expected an Image error"),
    }
}

#[test]
fn test_prepare_run_carries_resolved_credential() {
    let bytes = create_test_image_bytes(32, 32);
    let args = args_of(&["rich-thumbnail-uploader", "--service", "imgur"]);
    let cli = Cli::parse_from(&args).unwrap();

    let request = prepare_run(&cli, Some("default_id".to_string()), &bytes).unwrap();
    assert_eq!(request.url, "https://api.imgur.com/3/image");
    assert_eq!(request.auth_header, Some("Client-ID default_id".to_string()));
}
