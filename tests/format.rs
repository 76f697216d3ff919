use zrraw::{
    format_from_detection, AdobeFormat, CanonFormat, FujifilmFormat, NikonFormat, OlympusFormat,
    RawFormat, SonyFormat, ZrRawError,
};

#[test]
fn zero_code_is_unknown_format() {
    // What the detector reports for a buffer of zeros.
    let format = format_from_detection(0, 0).unwrap();
    assert!(matches!(format, RawFormat::Unknown));
}

#[test]
fn format_codes_map_to_formats() {
    assert_eq!(RawFormat::from(1u32), RawFormat::Canon(CanonFormat::CR2));
    assert_eq!(RawFormat::from(2u32), RawFormat::Nikon(NikonFormat::NEF));
    assert_eq!(RawFormat::from(3u32), RawFormat::Sony(SonyFormat::ARW));
    assert_eq!(RawFormat::from(4u32), RawFormat::Adobe(AdobeFormat::DNG));
    assert_eq!(RawFormat::from(5u32), RawFormat::Fujifilm(FujifilmFormat::RAF));
    assert_eq!(RawFormat::from(6u32), RawFormat::Olympus(OlympusFormat::ORF));
    assert_eq!(RawFormat::from(7u32), RawFormat::Unknown);
    assert_eq!(RawFormat::from(u32::MAX), RawFormat::Unknown);
}

#[test]
fn failed_detection_is_an_error() {
    assert_eq!(format_from_detection(-2, 1), Err(ZrRawError::UnsupportedFormat));
    assert_eq!(format_from_detection(0, 4), Ok(RawFormat::Adobe(AdobeFormat::DNG)));
}
