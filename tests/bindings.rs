use zrraw::{NativeImage, NativeMetadata, NativeProcessParams};

#[test]
fn test_bindings_generated() {
    // The native records can be made zeroed, as before every native call.
    let _metadata: NativeMetadata = NativeMetadata::zeroed(64);
    let _image: NativeImage = NativeImage::zeroed();
    let _params: NativeProcessParams = NativeProcessParams::zeroed();

    // A format code is a plain integer.
    let _format: u32 = 0;

    assert!(std::mem::size_of::<NativeMetadata>() > 0);
    assert!(std::mem::size_of::<NativeImage>() > 0);
    assert!(std::mem::size_of::<NativeProcessParams>() > 0);
}

#[test]
fn zeroed_records_hold_zeros() {
    let m = NativeMetadata::zeroed(8);
    assert_eq!(m.make, vec![0u8; 8]);
    assert_eq!(m.model, vec![0u8; 8]);
    assert_eq!(m.shutter_speed_den, 0);
    assert_eq!(m.color_matrix, [0u32; 9]);
    let i = NativeImage::zeroed();
    assert_eq!(i.channels, 0);
    assert!(i.data.is_empty());
    assert_eq!(NativeProcessParams::zeroed().demosaic_algorithm, 0);
}
