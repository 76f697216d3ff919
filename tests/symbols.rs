use zrraw::{bind_entry_points, EntryPoint};

#[test]
fn symbol_names() {
    assert_eq!(EntryPoint::DetectFormat.symbol(), "zrraw_detect_format");
    assert_eq!(EntryPoint::ExtractMetadata.symbol(), "zrraw_extract_metadata");
    assert_eq!(EntryPoint::ProcessImage.symbol(), "zrraw_process_image");
    assert_eq!(EntryPoint::FreeImage.symbol(), "zrraw_free_image");
    assert_eq!(EntryPoint::Version.symbol(), "zrraw_version");
}

#[test]
fn all_five_bind() {
    let b = bind_entry_points::<u8, u16, u32, u64, char, &str>(Ok(1), Ok(2), Ok(3), Ok(4), Ok('v')).unwrap();
    assert_eq!(b.detect_format, 1);
    assert_eq!(b.extract_metadata, 2);
    assert_eq!(b.process_image, 3);
    assert_eq!(b.free_image, 4);
    assert_eq!(b.version, 'v');
}

#[test]
fn any_missing_symbol_fails_whole_binding() {
    for missing in 0..5 {
        let r = |i: usize| if i == missing { Err(i) } else { Ok(i) };
        let b = bind_entry_points(r(0), r(1), r(2), r(3), r(4));
        assert_eq!(b.err(), Some(missing));
    }
}

#[test]
fn first_missing_symbol_is_reported() {
    let b = bind_entry_points::<u8, u8, u8, u8, u8, &str>(Ok(0), Err("process"), Ok(0), Err("free"), Err("version"));
    assert_eq!(b.err(), Some("process"));
}
