//! Tests for the quality model, the options model and the API types.

use imagepress::api::Config;
use imagepress::options::CompressionOptions;
use imagepress::quality::{compression_level_to_range, parse_quality_range, quality_scalar};
use imagepress::route::ext_from_mime;

#[test]
fn lib_test_quality_parsing() {
    assert_eq!(parse_quality_range("50-80"), (50, 80));
    assert_eq!(parse_quality_range("20-60"), (20, 60));
    assert_eq!(parse_quality_range("70-90"), (70, 90));
}

#[test]
fn compression_test_quality_parsing() {
    assert_eq!(parse_quality_range("50-80"), (50, 80));
    assert_eq!(parse_quality_range("20-60"), (20, 60));
    assert_eq!(parse_quality_range("70-90"), (70, 90));
}

#[test]
fn test_compression_level_to_range() {
    assert_eq!(compression_level_to_range("low"), "70-90");
    assert_eq!(compression_level_to_range("mid"), "50-80");
    assert_eq!(compression_level_to_range("max"), "20-60");
    assert_eq!(compression_level_to_range("unknown"), "50-80");
}

#[test]
fn quality_parsing_per_field_fallback() {
    assert_eq!(parse_quality_range("70-"), (70, 80));
    assert_eq!(parse_quality_range("-90"), (50, 90));
    assert_eq!(parse_quality_range("abc"), (50, 80));
    assert_eq!(parse_quality_range(""), (50, 80));
    assert_eq!(parse_quality_range("50"), (50, 80));
    assert_eq!(parse_quality_range("abc-def"), (50, 80));
}

#[test]
fn quality_parsing_edge_tokens() {
    // a leading plus sign is accepted, as str::parse::<u8> accepts it
    assert_eq!(parse_quality_range("+10-20"), (10, 20));
    // a field above 100 violates the documented bounds and falls back per field
    assert_eq!(parse_quality_range("300-50"), (50, 50));
    assert_eq!(parse_quality_range("101-100"), (50, 100));
    // extra pieces beyond the second are ignored
    assert_eq!(parse_quality_range("50-80-90"), (50, 80));
    // leading zeros are fine
    assert_eq!(parse_quality_range("007-080"), (7, 80));
    // the bottom of the scale is a valid range
    assert_eq!(parse_quality_range("0-0"), (0, 0));
}

#[test]
fn quality_parsing_rejects_inverted_ranges() {
    // a pair violating minimum-at-most-maximum is malformed as a whole
    assert_eq!(parse_quality_range("200-150"), (50, 80));
    assert_eq!(parse_quality_range("80-20"), (50, 80));
    // ... including pairs a per-field fallback would leave inverted
    assert_eq!(parse_quality_range("90-"), (50, 80));
    assert_eq!(parse_quality_range("-30"), (50, 80));
}

#[test]
fn compression_level_is_case_insensitive() {
    assert_eq!(compression_level_to_range("LOW"), "70-90");
    assert_eq!(compression_level_to_range("Low"), "70-90");
    assert_eq!(compression_level_to_range("lOw"), "70-90");
    assert_eq!(compression_level_to_range("MAX"), "20-60");
    assert_eq!(compression_level_to_range("MID"), "50-80");
    assert_eq!(compression_level_to_range("extreme"), "50-80");
}

#[test]
fn quality_scalar_is_truncating_midpoint() {
    assert_eq!(quality_scalar(50, 80), 65);
    assert_eq!(quality_scalar(20, 60), 40);
    assert_eq!(quality_scalar(70, 90), 80);
    assert_eq!(quality_scalar(0, 1), 0);
    // no overflow at the top of the range
    assert_eq!(quality_scalar(255, 255), 255);
}

#[test]
fn default_options() {
    let opts = CompressionOptions::default();
    assert!(opts.png_lossy);
    assert_eq!(opts.png_quality, "50-80");
    assert!(opts.oxipng);
    assert!(!opts.to_webp);
    assert!(!opts.to_avif);
    assert!(!opts.to_jpeg);
    assert!(!opts.to_png);
    assert!(!opts.to_tiff);
    assert!(!opts.to_bmp);
    assert!(!opts.to_ico);
}

#[test]
fn apply_option_folds_fields_leniently() {
    let mut opts = CompressionOptions::default();
    opts.apply_option("png_quality", "20-60");
    assert_eq!(opts.png_quality, "20-60");
    opts.apply_option("to_webp", "true");
    assert!(opts.to_webp);
    opts.apply_option("to_webp", "false");
    assert!(!opts.to_webp);
    // a malformed boolean keeps the field's default: true for png_lossy
    opts.apply_option("png_lossy", "banana");
    assert!(opts.png_lossy);
    // ... and false for the others
    opts.apply_option("oxipng", "banana");
    assert!(!opts.oxipng);
    // an unknown field changes nothing
    let before = (opts.png_lossy, opts.oxipng, opts.to_webp);
    opts.apply_option("nonsense", "true");
    assert_eq!(before, (opts.png_lossy, opts.oxipng, opts.to_webp));
}

#[test]
fn select_output_format_sets_one_flag() {
    let mut opts = CompressionOptions::default();
    opts.select_output_format("webp");
    assert!(opts.to_webp);

    let mut opts = CompressionOptions::default();
    opts.select_output_format("ico");
    assert!(opts.to_ico && !opts.to_webp);

    // "original" requests no conversion
    let mut opts = CompressionOptions::default();
    opts.select_output_format("original");
    assert!(
        !opts.to_webp
            && !opts.to_avif
            && !opts.to_jpeg
            && !opts.to_png
            && !opts.to_tiff
            && !opts.to_bmp
            && !opts.to_ico
    );

    // an unrecognized name falls back to WebP
    let mut opts = CompressionOptions::default();
    opts.select_output_format("banana");
    assert!(opts.to_webp);
}

#[test]
fn config_validate_requires_nonzero_port() {
    let config = Config {
        app_env: "test".to_string(),
        port: 0,
        cors_allowed_origins: vec!["*".to_string()],
        rust_log: "info".to_string(),
    };
    let err = config.validate().unwrap_err();
    assert_eq!(err, "PORT must be greater than 0");

    let config = Config {
        app_env: "test".to_string(),
        port: 8080,
        cors_allowed_origins: vec!["*".to_string()],
        rust_log: "info".to_string(),
    };
    assert!(config.validate().is_ok());
}

#[test]
fn ext_from_mime_maps_canonical_types() {
    assert_eq!(ext_from_mime("image/webp"), Some("webp"));
    assert_eq!(ext_from_mime("image/avif"), Some("avif"));
    assert_eq!(ext_from_mime("image/jpeg"), Some("jpg"));
    assert_eq!(ext_from_mime("image/png"), Some("png"));
    assert_eq!(ext_from_mime("image/tiff"), Some("tiff"));
    assert_eq!(ext_from_mime("image/bmp"), Some("bmp"));
    assert_eq!(ext_from_mime("image/x-icon"), Some("ico"));
    assert_eq!(ext_from_mime("text/plain"), None);
}

#[test]
fn api_error_carries_its_message() {
    let err = imagepress::api::ApiError::BadRequest("No files provided".to_string());
    assert_eq!(err.message(), "No files provided");
    let err = imagepress::api::ApiError::InternalError("Compression failed".to_string());
    assert_eq!(err.message(), "Compression failed");
}

#[test]
fn config_from_parts_applies_defaults_and_parses() {
    let c = Config::from_parts(None, None, None, None).unwrap();
    assert_eq!(c.app_env, "development");
    assert_eq!(c.port, 8080);
    assert_eq!(c.cors_allowed_origins, vec!["*".to_string()]);
    assert_eq!(c.rust_log, "info");

    let c = Config::from_parts(
        Some("production".to_string()),
        Some("9000".to_string()),
        Some(" a.example ,, b.example ".to_string()),
        Some("debug".to_string()),
    )
    .unwrap();
    assert_eq!(c.app_env, "production");
    assert_eq!(c.port, 9000);
    // origins are split on commas, trimmed, and empty pieces dropped
    assert_eq!(
        c.cors_allowed_origins,
        vec!["a.example".to_string(), "b.example".to_string()]
    );
    assert_eq!(c.rust_log, "debug");

    let err = Config::from_parts(None, Some("70000".to_string()), None, None).unwrap_err();
    assert_eq!(err, "PORT must be a valid u16");
    let err = Config::from_parts(None, Some("banana".to_string()), None, None).unwrap_err();
    assert_eq!(err, "PORT must be a valid u16");
}
