//! Decoded pixel buffers: the native image record and the owned image
//! built from it.
use vstd::prelude::*;
use vstd::slice::{slice_subrange, slice_to_vec};

use image::{DynamicImage, ImageBuffer, Rgb, Rgba};

use crate::metadata::{NativeMetadata, RawMetadata};
use crate::status::{check_status, ZrRawError};

verus! {

#[verifier::external_type_specification]
#[verifier::external_body]
pub struct ExDynamicImage(DynamicImage);

/// The 8-bit RGB image that `ImageBuffer::from_raw` builds from these
/// dimensions and bytes.
pub uninterp spec fn rgb8_image(width: u32, height: u32, pixels: Seq<u8>) -> DynamicImage;

/// The 8-bit RGBA image that `ImageBuffer::from_raw` builds from these
/// dimensions and bytes.
pub uninterp spec fn rgba8_image(width: u32, height: u32, pixels: Seq<u8>) -> DynamicImage;

/// `channels * width * height` bytes fit in memory and in a buffer of
/// `len` bytes: the test `ImageBuffer::from_raw` makes.
pub open spec fn frame_fits(channels: nat, width: u32, height: u32, len: nat) -> bool {
    &&& channels * width <= usize::MAX
    &&& channels * width * height <= len
}

/// Relies on `ImageBuffer::<Rgb<u8>, Vec<u8>>::from_raw`, wrapped as
/// `DynamicImage::ImageRgb8`: an image exactly when three bytes per pixel
/// fit within the buffer, the product taken with checked multiplication.
#[verifier::external_body]
fn rgb8_from_raw(width: u32, height: u32, pixels: Vec<u8>) -> (r: Option<DynamicImage>)
    ensures
        r is Some <==> frame_fits(3, width, height, pixels@.len()),
        r matches Some(img) ==> img == rgb8_image(width, height, pixels@),
{
    ImageBuffer::<Rgb<u8>, Vec<u8>>::from_raw(width, height, pixels).map(DynamicImage::ImageRgb8)
}

/// Relies on `ImageBuffer::<Rgba<u8>, Vec<u8>>::from_raw`, wrapped as
/// `DynamicImage::ImageRgba8`: an image exactly when four bytes per pixel
/// fit within the buffer, the product taken with checked multiplication.
#[verifier::external_body]
fn rgba8_from_raw(width: u32, height: u32, pixels: Vec<u8>) -> (r: Option<DynamicImage>)
    ensures
        r is Some <==> frame_fits(4, width, height, pixels@.len()),
        r matches Some(img) ==> img == rgba8_image(width, height, pixels@),
{
    ImageBuffer::<Rgba<u8>, Vec<u8>>::from_raw(width, height, pixels).map(DynamicImage::ImageRgba8)
}

/// The pixel layouts the library can hand out.
#[derive(Debug, Clone, Copy, PartialEq, Eq, Structural)]
pub enum PixelLayout {
    Rgb8,
    Rgba8,
}

/// The layout for a native `(channels, bits per channel)` pair, if it is
/// supported: three or four channels of eight bits.
pub open spec fn layout_of(channels: u32, bits: u32) -> Option<PixelLayout> {
    if channels == 3 && bits == 8 {
        Some(PixelLayout::Rgb8)
    } else if channels == 4 && bits == 8 {
        Some(PixelLayout::Rgba8)
    } else {
        None
    }
}

/// Bytes per pixel of a layout.
pub open spec fn bytes_per_pixel(l: PixelLayout) -> nat {
    match l {
        PixelLayout::Rgb8 => 3,
        PixelLayout::Rgba8 => 4,
    }
}

/// The image of a layout with the given dimensions and bytes.
pub open spec fn image_of(l: PixelLayout, width: u32, height: u32, pixels: Seq<u8>) -> DynamicImage {
    match l {
        PixelLayout::Rgb8 => rgb8_image(width, height, pixels),
        PixelLayout::Rgba8 => rgba8_image(width, height, pixels),
    }
}

impl PixelLayout {
    /// The supported layout for a `(channels, bits per channel)` pair.
    pub fn from_native(channels: u32, bits: u32) -> (r: Option<PixelLayout>)
        ensures
            r == layout_of(channels, bits),
    {
        if channels == 3 && bits == 8 {
            Some(PixelLayout::Rgb8)
        } else if channels == 4 && bits == 8 {
            Some(PixelLayout::Rgba8)
        } else {
            None
        }
    }

    /// Bytes per pixel.
    pub fn bytes_per_pixel(&self) -> (r: usize)
        ensures
            r == bytes_per_pixel(*self),
    {
        match self {
            PixelLayout::Rgb8 => 3,
            PixelLayout::Rgba8 => 4,
        }
    }
}

/// The native image record, with its pixel bytes already copied out of
/// native memory.
#[derive(Debug, Clone, PartialEq, Eq)]
pub struct NativeImage {
    pub width: u32,
    pub height: u32,
    pub channels: u32,
    pub bits_per_channel: u32,
    pub data: Vec<u8>,
}

impl NativeImage {
    /// A record with every field zero and no pixel bytes, as handed to the
    /// native processor.
    pub fn zeroed() -> (r: NativeImage)
        ensures
            r.width == 0 && r.height == 0 && r.channels == 0 && r.bits_per_channel == 0,
            r.data@.len() == 0,
    {
        NativeImage { width: 0, height: 0, channels: 0, bits_per_channel: 0, data: Vec::new() }
    }
}

/// The image a native record converts to: an unsupported layout is
/// `UnsupportedFormat`; a buffer too short for its dimensions is
/// `CorruptedData`; otherwise the image of exactly `width * height`
/// pixels, from the first bytes of the buffer.
pub open spec fn converted(raw: NativeImage) -> Result<DynamicImage, ZrRawError> {
    match layout_of(raw.channels, raw.bits_per_channel) {
        None => Err(ZrRawError::UnsupportedFormat),
        Some(l) => {
            let n = bytes_per_pixel(l) * raw.width * raw.height;
            if frame_fits(bytes_per_pixel(l), raw.width, raw.height, raw.data@.len()) {
                Ok(image_of(l, raw.width, raw.height, raw.data@.take(n as int)))
            } else {
                Err(ZrRawError::CorruptedData)
            }
        },
    }
}

/// A buffer of exactly `width * height` pixels in a supported layout
/// converts to the image of all its bytes: 8-bit RGB for three channels,
/// 8-bit RGBA for four. Any other `(channels, bits)` pair is
/// `UnsupportedFormat`, whatever the buffer holds.
pub proof fn lemma_exact_buffer_converts(raw: NativeImage)
    ensures
        layout_of(raw.channels, raw.bits_per_channel) is None ==> converted(raw) == Err::<
            DynamicImage,
            ZrRawError,
        >(ZrRawError::UnsupportedFormat),
        raw.channels == 3 && raw.bits_per_channel == 8 && raw.data@.len() == 3 * raw.width * raw.height
            && 3 * raw.width <= usize::MAX ==> converted(raw) == Ok::<DynamicImage, ZrRawError>(
            rgb8_image(raw.width, raw.height, raw.data@),
        ),
        raw.channels == 4 && raw.bits_per_channel == 8 && raw.data@.len() == 4 * raw.width * raw.height
            && 4 * raw.width <= usize::MAX ==> converted(raw) == Ok::<DynamicImage, ZrRawError>(
            rgba8_image(raw.width, raw.height, raw.data@),
        ),
{
    assert(raw.data@.take(raw.data@.len() as int) =~= raw.data@);
}

/// Builds the owned image for a native image record.
pub fn convert_to_dynamic_image(raw: &NativeImage) -> (r: Result<DynamicImage, ZrRawError>)
    ensures
        r == converted(*raw),
{
    let layout = match PixelLayout::from_native(raw.channels, raw.bits_per_channel) {
        Some(l) => l,
        None => {
            return Err(ZrRawError::UnsupportedFormat);
        },
    };
    let bpp = layout.bytes_per_pixel();
    let needed = match bpp.checked_mul(raw.width as usize) {
        Some(row) => row.checked_mul(raw.height as usize),
        None => None,
    };
    let len = raw.data.len();
    let pixels = match needed {
        Some(n) => {
            if n <= len {
                slice_to_vec(slice_subrange(raw.data.as_slice(), 0, n))
            } else {
                slice_to_vec(raw.data.as_slice())
            }
        },
        None => slice_to_vec(raw.data.as_slice()),
    };
    proof {
        let n = bytes_per_pixel(layout) * raw.width * raw.height;
        assert(raw.data@.subrange(0, len as int) =~= raw.data@);
        if frame_fits(bytes_per_pixel(layout), raw.width, raw.height, raw.data@.len()) {
            assert(pixels@ =~= raw.data@.take(n as int));
        }
    }
    let built = match layout {
        PixelLayout::Rgb8 => rgb8_from_raw(raw.width, raw.height, pixels),
        PixelLayout::Rgba8 => rgba8_from_raw(raw.width, raw.height, pixels),
    };
    match built {
        Some(img) => Ok(img),
        None => Err(ZrRawError::CorruptedData),
    }
}

/// A developed RAW file: its image and its metadata.
#[derive(Debug)]
pub struct ProcessedRawFile {
    pub image: DynamicImage,
    pub metadata: RawMetadata,
}

/// The result of a native processing call: the status it returned, the
/// image record and the metadata record it filled.
pub fn processed_from_native(status: i32, raw_image: &NativeImage, raw_metadata: &NativeMetadata) -> (r:
    Result<ProcessedRawFile, ZrRawError>)
    ensures
        status != 0 ==> (r matches Err(e) && e.is_error_of_code(status)),
        status == 0 ==> match converted(*raw_image) {
            Ok(img) => r matches Ok(p) && p.image == img && p.metadata.is_reading_of(*raw_metadata),
            Err(e) => r == Err::<ProcessedRawFile, ZrRawError>(e),
        },
{
    match check_status(status) {
        Ok(()) => {},
        Err(e) => {
            return Err(e);
        },
    }
    let image = match convert_to_dynamic_image(raw_image) {
        Ok(img) => img,
        Err(e) => {
            return Err(e);
        },
    };
    let metadata = RawMetadata::from_native(raw_metadata);
    Ok(ProcessedRawFile { image, metadata })
}

} // verus!
