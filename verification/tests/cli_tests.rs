use rich_thumbnail_uploader::cli::{Cli, OutputFormat, SupportedImageFormat};
use rich_thumbnail_uploader::errors::AppError;
use rich_thumbnail_uploader::uploaders::UploadServiceIdentifier;

fn args_of(parts: &[&str]) -> Vec<String> {
    parts.iter().map(|s| s.to_string()).collect()
}

#[test]
fn test_cli_default_values() {
    let args = args_of(&["rich-thumbnail-uploader"]);
    let cli = Cli::parse_from(&args).unwrap();

    assert_eq!(cli.dims, 256);
    assert_eq!(cli.service, UploadServiceIdentifier::Imgur);
    assert_eq!(cli.output, OutputFormat::Url);
    assert_eq!(cli.format, SupportedImageFormat::Png);
    assert!(cli.uid.is_none());
}

#[test]
fn test_cli_custom_values() {
    let args = args_of(&[
        "rich-thumbnail-uploader",
        "--dims",
        "512",
        "--service",
        "catbox",
        "--format",
        "webp",
        "--uid",
        "test_user",
    ]);
    let cli = Cli::parse_from(&args).unwrap();

    assert_eq!(cli.dims, 512);
    assert_eq!(cli.service, UploadServiceIdentifier::Catbox);
    assert_eq!(cli.format, SupportedImageFormat::Webp);
    assert_eq!(cli.uid, Some("test_user".to_string()));
}

#[test]
fn test_cli_short_options() {
    let args = args_of(&["rich-thumbnail-uploader", "-d", "64", "-s", "catbox", "-f", "webp"]);
    let cli = Cli::parse_from(&args).unwrap();

    assert_eq!(cli.dims, 64);
    assert_eq!(cli.service, UploadServiceIdentifier::Catbox);
    assert_eq!(cli.format, SupportedImageFormat::Webp);
}

#[test]
fn test_cli_unknown_option_is_rejected() {
    let args = args_of(&["rich-thumbnail-uploader", "--retries", "3"]);
    let result = Cli::parse_from(&args);
    assert!(result.is_err());
}

#[test]
fn test_cli_unknown_service_is_rejected() {
    let args = args_of(&["rich-thumbnail-uploader", "--service", "flickr"]);
    match Cli::parse_from(&args).unwrap_err() {
        AppError::UnsupportedService(name) => assert_eq!(name, "flickr"),
        _ => panic!("expected an UnsupportedService error"),
    }
}

#[test]
fn test_cli_missing_value_is_rejected() {
    let args = args_of(&["rich-thumbnail-uploader", "--dims"]);
    let result = Cli::parse_from(&args);
    assert!(result.is_err());
}

#[test]
fn test_cli_dims_bounds() {
    let max = args_of(&["rich-thumbnail-uploader", "--dims", "4294967295"]);
    assert_eq!(Cli::parse_from(&max).unwrap().dims, 4294967295);

    let over = args_of(&["rich-thumbnail-uploader", "--dims", "4294967296"]);
    assert!(Cli::parse_from(&over).is_err());

    let junk = args_of(&["rich-thumbnail-uploader", "--dims", "12a"]);
    assert!(Cli::parse_from(&junk).is_err());

    let zero = args_of(&["rich-thumbnail-uploader", "--dims", "0"]);
    assert!(Cli::parse_from(&zero).is_err());
}

#[test]
fn test_supported_image_format_conversion() {
    assert_eq!(SupportedImageFormat::Png.to_string(), "png");
    assert_eq!(SupportedImageFormat::Webp.to_string(), "webp");
}

#[test]
fn test_supported_image_format_mime_types() {
    assert_eq!(SupportedImageFormat::Png.to_mime_type(), "image/png");
    assert_eq!(SupportedImageFormat::Webp.to_mime_type(), "image/webp");
}
