use zrraw::{c_text, metadata_from_extraction, NativeMetadata, Rational, RawFormat, ZrRawError};

fn field(text: &str, len: usize) -> Vec<u8> {
    let mut v = text.as_bytes().to_vec();
    v.resize(len, 0);
    v
}

#[test]
fn text_stops_at_first_zero() {
    assert_eq!(c_text(b"Canon\0EOS\0"), "Canon");
    assert_eq!(c_text(b"\0abc"), "");
    assert_eq!(c_text(b""), "");
}

#[test]
fn text_without_zero_is_read_whole() {
    assert_eq!(c_text(b"Nikon"), "Nikon");
}

#[test]
fn invalid_utf8_is_replaced() {
    assert_eq!(c_text(b"A\xffB\0"), "A\u{FFFD}B");
    assert_eq!(c_text("Café\0".as_bytes()), "Café");
}

#[test]
fn zero_denominator_gives_zero() {
    assert_eq!(Rational::new_or_zero(1, 0), Rational { num: 0, den: 1 });
    assert_eq!(Rational::new_or_zero(1, 250), Rational { num: 1, den: 250 });
}

#[test]
fn metadata_reads_native_record() {
    let mut m = NativeMetadata::zeroed(32);
    m.format = 2;
    m.width = 6000;
    m.height = 4000;
    m.orientation = 6;
    m.make = field("Unknown Make", 32);
    m.model = field("Z 7", 32);
    m.iso = 400;
    m.shutter_speed_num = 1;
    m.shutter_speed_den = 125;
    m.aperture_num = 28;
    m.aperture_den = 0;
    m.focal_length = 50.0f32.to_bits();
    m.white_level = [16383; 4];
    let r = metadata_from_extraction(0, &m).unwrap();
    assert!(matches!(r.format, RawFormat::Nikon(_)));
    assert_eq!(r.width, 6000);
    assert_eq!(r.height, 4000);
    assert_eq!(r.orientation, 6);
    assert_eq!(r.make, "Unknown Make");
    assert_eq!(r.model, "Z 7");
    assert_eq!(r.iso, 400);
    assert_eq!(r.shutter_speed, Rational { num: 1, den: 125 });
    assert_eq!(r.aperture, Rational { num: 0, den: 1 });
    assert_eq!(f32::from_bits(r.focal_length), 50.0);
    assert_eq!(r.white_level, [16383; 4]);
}

#[test]
fn orientation_keeps_low_byte() {
    let mut m = NativeMetadata::zeroed(4);
    m.orientation = 0x0108;
    assert_eq!(metadata_from_extraction(0, &m).unwrap().orientation, 8);
}

#[test]
fn failed_extraction_is_an_error() {
    let m = NativeMetadata::zeroed(4);
    assert_eq!(metadata_from_extraction(-5, &m).unwrap_err(), ZrRawError::IoError);
}

#[test]
fn zeroed_record_reads_as_empty() {
    let r = metadata_from_extraction(0, &NativeMetadata::zeroed(64)).unwrap();
    assert_eq!(r.make, "");
    assert_eq!(r.model, "");
    assert!(matches!(r.format, RawFormat::Unknown));
    assert_eq!(r.width, 0);
    assert_eq!(r.height, 0);
    assert_eq!(r.shutter_speed, Rational { num: 0, den: 1 });
    assert_eq!(r.aperture, Rational { num: 0, den: 1 });
}

#[test]
fn version_text_reads_whole_string() {
    assert!(c_text(b"zrraw 0.1.0").starts_with("zrraw"));
}
