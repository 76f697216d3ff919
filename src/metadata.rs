//! Camera metadata: the native record and the owned value read from it.
use vstd::prelude::*;
use vstd::slice::slice_subrange;
use vstd::utf8::{decode_utf8, valid_utf8};

use crate::format::{format_of_code, RawFormat};
use crate::status::{check_status, ZrRawError};

verus! {

/// What `String::from_utf8_lossy` makes of a byte sequence.
pub uninterp spec fn lossy_text(bytes: Seq<u8>) -> Seq<char>;

/// Relies on `String::from_utf8_lossy`: the text depends on the bytes
/// alone, and valid UTF-8 decodes to the characters it encodes.
#[verifier::external_body]
fn decode_lossy(bytes: &[u8]) -> (r: String)
    ensures
        r@ == lossy_text(bytes@),
        valid_utf8(bytes@) ==> r@ == decode_utf8(bytes@),
{
    String::from_utf8_lossy(bytes).into_owned()
}

/// The index of the first zero byte, or the length where there is none.
pub open spec fn first_nul(b: Seq<u8>) -> nat
    decreases b.len(),
{
    if b.len() == 0 || b[0] == 0 {
        0
    } else {
        1 + first_nul(b.drop_first())
    }
}

proof fn lemma_first_nul_step(b: Seq<u8>, i: int)
    requires
        0 <= i < b.len(),
        b[i] != 0,
    ensures
        first_nul(b.subrange(i, b.len() as int)) == 1 + first_nul(b.subrange(i + 1, b.len() as int)),
{
    assert(b.subrange(i, b.len() as int).drop_first() =~= b.subrange(i + 1, b.len() as int));
}

/// The bytes of a zero-terminated field before its first zero; all of
/// them where there is none.
pub open spec fn before_nul(b: Seq<u8>) -> Seq<u8> {
    b.take(first_nul(b) as int)
}

/// `s` is the text of the zero-terminated field `b`: its bytes before the
/// first zero, decoded lossily, which for valid UTF-8 is plain decoding.
pub open spec fn is_c_text(s: Seq<char>, b: Seq<u8>) -> bool {
    &&& s == lossy_text(before_nul(b))
    &&& valid_utf8(before_nul(b)) ==> s == decode_utf8(before_nul(b))
}

/// The text of a zero-terminated byte field: the bytes before the first
/// zero, decoded lossily. A field with no zero is read whole.
pub fn c_text(bytes: &[u8]) -> (r: String)
    ensures
        is_c_text(r@, bytes@),
{
    let n = bytes.len();
    let mut i: usize = 0;
    assert(bytes@.subrange(0, n as int) =~= bytes@);
    while i < n && bytes[i] != 0
        invariant
            i <= n,
            n == bytes@.len(),
            first_nul(bytes@) == i + first_nul(bytes@.subrange(i as int, n as int)),
        decreases n - i,
    {
        proof {
            lemma_first_nul_step(bytes@, i as int);
        }
        i = i + 1;
    }
    proof {
        let rest = bytes@.subrange(i as int, n as int);
        assert(rest.len() == 0 || rest[0] == 0);
    }
    let head = slice_subrange(bytes, 0, i);
    assert(head@ =~= bytes@.take(i as int));
    decode_lossy(head)
}

/// A non-negative ratio of two integers; the denominator is never zero.
#[derive(Debug, Clone, Copy, PartialEq, Eq, Structural)]
pub struct Rational {
    pub num: u32,
    pub den: u32,
}

/// The ratio `num / den`, or zero (`0 / 1`) where the denominator is zero.
pub open spec fn ratio_or_zero(num: u32, den: u32) -> Rational {
    if den > 0 {
        Rational { num, den }
    } else {
        Rational { num: 0, den: 1 }
    }
}

impl Rational {
    /// The ratio `num / den`, guarded against a zero denominator.
    pub fn new_or_zero(num: u32, den: u32) -> (r: Rational)
        ensures
            r == ratio_or_zero(num, den),
            r.den > 0,
    {
        if den > 0 {
            Rational { num, den }
        } else {
            Rational { num: 0, den: 1 }
        }
    }
}

/// The native metadata record. Text fields are zero-terminated byte
/// arrays; real-valued fields hold `f32` bit patterns.
#[derive(Debug, Clone, PartialEq, Eq)]
pub struct NativeMetadata {
    pub format: u32,
    pub width: u32,
    pub height: u32,
    pub orientation: u32,
    pub make: Vec<u8>,
    pub model: Vec<u8>,
    pub iso: u32,
    pub shutter_speed_num: u32,
    pub shutter_speed_den: u32,
    pub aperture_num: u32,
    pub aperture_den: u32,
    pub focal_length: u32,
    pub color_matrix: [u32; 9],
    pub white_balance: [u32; 3],
    pub black_level: [u32; 4],
    pub white_level: [u32; 4],
}

impl NativeMetadata {
    /// A record with every field zero, as handed to the native extractor;
    /// `text_len` is the capacity of each text field.
    pub fn zeroed(text_len: usize) -> (r: NativeMetadata)
        ensures
            r.format == 0 && r.width == 0 && r.height == 0 && r.orientation == 0 && r.iso == 0,
            r.make@ == Seq::new(text_len as nat, |i: int| 0u8),
            r.model@ == Seq::new(text_len as nat, |i: int| 0u8),
            r.shutter_speed_num == 0 && r.shutter_speed_den == 0,
            r.aperture_num == 0 && r.aperture_den == 0,
            r.focal_length == 0,
            r.color_matrix@ == Seq::new(9, |i: int| 0u32),
            r.white_balance@ == Seq::new(3, |i: int| 0u32),
            r.black_level@ == Seq::new(4, |i: int| 0u32),
            r.white_level@ == Seq::new(4, |i: int| 0u32),
    {
        let make = zero_bytes(text_len);
        let model = zero_bytes(text_len);
        let r = NativeMetadata {
            format: 0,
            width: 0,
            height: 0,
            orientation: 0,
            make,
            model,
            iso: 0,
            shutter_speed_num: 0,
            shutter_speed_den: 0,
            aperture_num: 0,
            aperture_den: 0,
            focal_length: 0,
            color_matrix: [0u32; 9],
            white_balance: [0u32; 3],
            black_level: [0u32; 4],
            white_level: [0u32; 4],
        };
        assert(r.color_matrix@ =~= Seq::new(9, |i: int| 0u32));
        assert(r.white_balance@ =~= Seq::new(3, |i: int| 0u32));
        assert(r.black_level@ =~= Seq::new(4, |i: int| 0u32));
        assert(r.white_level@ =~= Seq::new(4, |i: int| 0u32));
        r
    }
}

/// `n` zero bytes.
fn zero_bytes(n: usize) -> (r: Vec<u8>)
    ensures
        r@ == Seq::new(n as nat, |i: int| 0u8),
{
    let mut v: Vec<u8> = Vec::new();
    while v.len() < n
        invariant
            v@.len() <= n,
            forall|i: int| 0 <= i < v@.len() ==> v@[i] == 0u8,
        decreases n - v@.len(),
    {
        v.push(0u8);
    }
    assert(v@ =~= Seq::new(n as nat, |i: int| 0u8));
    v
}

/// Metadata of a RAW file, owned. Real-valued fields hold `f32` bit
/// patterns; shutter speed and aperture are exact ratios.
#[derive(Debug, Clone)]
pub struct RawMetadata {
    pub format: RawFormat,
    pub width: u32,
    pub height: u32,
    pub orientation: u8,
    pub make: String,
    pub model: String,
    pub iso: u32,
    pub shutter_speed: Rational,
    pub aperture: Rational,
    pub focal_length: u32,
    pub color_matrix: [u32; 9],
    pub white_balance: [u32; 3],
    pub black_level: [u32; 4],
    pub white_level: [u32; 4],
}

impl RawMetadata {
    /// This value is what the native record `m` reads as.
    pub open spec fn is_reading_of(&self, m: NativeMetadata) -> bool {
        &&& self.format == format_of_code(m.format)
        &&& self.width == m.width
        &&& self.height == m.height
        &&& self.orientation == m.orientation as u8
        &&& is_c_text(self.make@, m.make@)
        &&& is_c_text(self.model@, m.model@)
        &&& self.iso == m.iso
        &&& self.shutter_speed == ratio_or_zero(m.shutter_speed_num, m.shutter_speed_den)
        &&& self.aperture == ratio_or_zero(m.aperture_num, m.aperture_den)
        &&& self.focal_length == m.focal_length
        &&& self.color_matrix == m.color_matrix
        &&& self.white_balance == m.white_balance
        &&& self.black_level == m.black_level
        &&& self.white_level == m.white_level
    }

    /// Reads a native record into owned metadata.
    pub fn from_native(meta: &NativeMetadata) -> (r: RawMetadata)
        ensures
            r.is_reading_of(*meta),
    {
        RawMetadata {
            format: RawFormat::from(meta.format),
            width: meta.width,
            height: meta.height,
            orientation: meta.orientation as u8,
            make: c_text(meta.make.as_slice()),
            model: c_text(meta.model.as_slice()),
            iso: meta.iso,
            shutter_speed: Rational::new_or_zero(meta.shutter_speed_num, meta.shutter_speed_den),
            aperture: Rational::new_or_zero(meta.aperture_num, meta.aperture_den),
            focal_length: meta.focal_length,
            color_matrix: meta.color_matrix,
            white_balance: meta.white_balance,
            black_level: meta.black_level,
            white_level: meta.white_level,
        }
    }
}

/// The result of a native metadata extraction: the status it returned and
/// the record it filled.
pub fn metadata_from_extraction(status: i32, meta: &NativeMetadata) -> (r: Result<RawMetadata, ZrRawError>)
    ensures
        status == 0 <==> r is Ok,
        r matches Ok(m) ==> m.is_reading_of(*meta),
        r matches Err(e) ==> e.is_error_of_code(status),
{
    match check_status(status) {
        Ok(()) => Ok(RawMetadata::from_native(meta)),
        Err(e) => Err(e),
    }
}

} // verus!
