use caesiumclt::options::{
    png_opt_level_validator, quality_validator, validate_range, verbosity_validator, parse_i64,
    JpegChromaSubsampling, OutputFormat, OverwritePolicy,
};

#[test]
fn test_quality_validator() {
    assert!(quality_validator("50").is_ok());
    assert!(quality_validator("0").is_ok());
    assert!(quality_validator("100").is_ok());
    assert!(quality_validator("101").is_err());
    assert!(quality_validator("-1").is_err());
    assert!(quality_validator("abc").is_err());
}

#[test]
fn test_verbosity_validator() {
    assert!(verbosity_validator("0").is_ok());
    assert!(verbosity_validator("3").is_ok());
    assert!(verbosity_validator("4").is_err());
    assert!(verbosity_validator("255").is_err());
}

#[test]
fn test_png_opt_level_validator() {
    assert!(png_opt_level_validator("3").is_ok());
    assert!(png_opt_level_validator("0").is_ok());
    assert!(png_opt_level_validator("6").is_ok());
    assert!(png_opt_level_validator("7").is_err());
}

#[test]
fn test_validate_range() {
    assert_eq!(validate_range("50", 0, 100, "Test").unwrap(), 50);
    assert!(validate_range("101", 0, 100, "Test").is_err());
    assert!(validate_range("-1", 0, 100, "Test").is_err());
    assert!(validate_range("abc", 0, 100, "Test").is_err());

    assert_eq!(validate_range("-5", -10, 10, "Test").unwrap(), -5);
    assert!(validate_range("-11", -10, 10, "Test").is_err());
    assert!(validate_range("11", -10, 10, "Test").is_err());
}

#[test]
fn range_errors_name_the_bounds_and_value() {
    let err = validate_range("101", 0, 100, "Test").unwrap_err();
    assert_eq!(err, "Test must be between 0 and 100, but got 101");
    let err = validate_range("-11", -10, 10, "Test").unwrap_err();
    assert_eq!(err, "Test must be between -10 and 10, but got -11");
    let err = validate_range("abc", 0, 100, "Test").unwrap_err();
    assert_eq!(err, "'abc' is not a valid number");
}

#[test]
fn test_parse_i64_extremes() {
    assert_eq!(parse_i64("0"), Some(0));
    assert_eq!(parse_i64("+42"), Some(42));
    assert_eq!(parse_i64("007"), Some(7));
    assert_eq!(parse_i64("9223372036854775807"), Some(i64::MAX));
    assert_eq!(parse_i64("-9223372036854775808"), Some(i64::MIN));
    assert_eq!(parse_i64("9223372036854775808"), None);
    assert_eq!(parse_i64("-9223372036854775809"), None);
    assert_eq!(parse_i64("00000000000000000000000001"), Some(1));
    assert_eq!(parse_i64(""), None);
    assert_eq!(parse_i64("-"), None);
    assert_eq!(parse_i64("+"), None);
    assert_eq!(parse_i64("1 2"), None);
    assert_eq!(parse_i64("5.5"), None);
}

#[test]
fn test_overwrite_policy() {
    let all = OverwritePolicy::All;
    let never = OverwritePolicy::Never;
    let bigger = OverwritePolicy::Bigger;

    assert_ne!(format!("{all:?}"), format!("{:?}", never));
    assert_ne!(format!("{all:?}"), format!("{:?}", bigger));
    assert_ne!(format!("{never:?}"), format!("{:?}", bigger));
}

#[test]
fn test_output_format() {
    let jpeg = OutputFormat::Jpeg;
    let png = OutputFormat::Png;
    let webp = OutputFormat::Webp;
    let tiff = OutputFormat::Tiff;
    let gif = OutputFormat::Gif;
    let original = OutputFormat::Original;

    assert_ne!(format!("{jpeg:?}"), format!("{:?}", png));
    assert_ne!(format!("{jpeg:?}"), format!("{:?}", webp));
    assert_ne!(format!("{jpeg:?}"), format!("{:?}", tiff));
    assert_ne!(format!("{jpeg:?}"), format!("{:?}", original));
    assert_ne!(format!("{png:?}"), format!("{:?}", webp));
    assert_ne!(format!("{png:?}"), format!("{:?}", tiff));
    assert_ne!(format!("{png:?}"), format!("{:?}", original));
    assert_ne!(format!("{webp:?}"), format!("{:?}", tiff));
    assert_ne!(format!("{webp:?}"), format!("{:?}", original));
    assert_ne!(format!("{tiff:?}"), format!("{:?}", original));
    assert_ne!(format!("{gif:?}"), format!("{:?}", original));
}

#[test]
fn test_jpeg_chroma_subsampling() {
    let cs444 = JpegChromaSubsampling::ChromaSubsampling444;
    let cs422 = JpegChromaSubsampling::ChromaSubsampling422;
    let cs420 = JpegChromaSubsampling::ChromaSubsampling420;
    let cs411 = JpegChromaSubsampling::ChromaSubsampling411;
    let auto = JpegChromaSubsampling::Auto;

    assert_ne!(format!("{cs444:?}"), format!("{:?}", cs422));
    assert_ne!(format!("{cs444:?}"), format!("{:?}", cs420));
    assert_ne!(format!("{cs444:?}"), format!("{:?}", cs411));
    assert_ne!(format!("{cs444:?}"), format!("{:?}", auto));
    assert_ne!(format!("{cs422:?}"), format!("{:?}", cs420));
    assert_ne!(format!("{cs422:?}"), format!("{:?}", cs411));
    assert_ne!(format!("{cs422:?}"), format!("{:?}", auto));
    assert_ne!(format!("{cs420:?}"), format!("{:?}", cs411));
    assert_ne!(format!("{cs420:?}"), format!("{:?}", auto));
    assert_ne!(format!("{cs411:?}"), format!("{:?}", auto));
}
