//! Bit-exact conversion between the decimal wire struct and the host
//! decimal type.
//!
//! The wire struct carries a sign byte, a scale byte, a reserved word and a
//! 96-bit magnitude split as a 32-bit high word over a 64-bit low word. The
//! host type is `rust_decimal::Decimal`; its 16-byte serialized form names
//! the sign, scale and magnitude exactly, so both conversions are stated
//! over those bytes.

use vstd::prelude::*;

verus! {

/// The sign byte of a negative decimal wire value.
pub const DECIMAL_NEG: u8 = 0x80;

/// The decimal wire struct: sign, scale in 0..=28, and a 96-bit unsigned
/// magnitude split as a 32-bit high word over a 64-bit low word.
#[derive(Debug, Clone, Copy, PartialEq, Eq, Structural)]
pub struct Decimal96 {
    pub reserved: u16,
    pub scale: u8,
    pub sign: u8,
    pub hi32: u32,
    pub lo64: u64,
}

impl DeepView for Decimal96 {
    type V = Decimal96;

    open spec fn deep_view(&self) -> Decimal96 {
        *self
    }
}

impl Decimal96 {
    /// A well-formed wire decimal: the scale never exceeds the host
    /// decimal's maximum, the sign byte is one of its two defined values,
    /// and the reserved word is clear.
    pub open spec fn wf(&self) -> bool {
        &&& self.scale <= 28
        &&& (self.sign == 0 || self.sign == DECIMAL_NEG)
        &&& self.reserved == 0
    }
}

#[verifier::external_type_specification]
#[verifier::external_body]
pub struct ExDecimal(rust_decimal::Decimal);

/// The 16 bytes that `rust_decimal::Decimal::serialize` returns for a
/// value: bytes 0..4 hold the flags word (scale in byte 2, sign bit in
/// byte 3), bytes 4..16 the magnitude words, least significant first.
pub uninterp spec fn dec_serial(d: rust_decimal::Decimal) -> Seq<u8>;

/// Relies on rust_decimal::Decimal::serialize: the 16-byte form of the
/// value, named by `dec_serial`.
pub assume_specification[ rust_decimal::Decimal::serialize ](
    d: &rust_decimal::Decimal,
) -> (r: [u8; 16])
    ensures
        r@ == dec_serial(*d),
        r@.len() == 16,
;

/// Relies on rust_decimal::Decimal::scale: the scale, which the serialized
/// form keeps in byte 2 of the flags word, and which never exceeds 28.
pub assume_specification[ rust_decimal::Decimal::scale ](d: &rust_decimal::Decimal) -> (r: u32)
    ensures
        r == dec_serial(*d)[2],
        r <= 28,
;

/// Relies on rust_decimal::Decimal::is_sign_positive: the sign bit, which
/// the serialized form keeps as the top bit of byte 3 of the flags word.
pub assume_specification[ rust_decimal::Decimal::is_sign_positive ](
    d: &rust_decimal::Decimal,
) -> (r: bool)
    ensures
        r == (dec_serial(*d)[3] & 0x80u8 == 0),
;

/// The serialized form that `rust_decimal::Decimal::from_parts` gives the
/// value built from three magnitude words, a sign and a scale: the flags
/// word holds the scale in byte 2 and the sign bit in byte 3, and a zero
/// magnitude is always stored with a positive sign.
pub open spec fn spec_serial_of_parts(lo: u32, mid: u32, hi: u32, negative: bool, scale: u32) -> Seq<
    u8,
> {
    seq![
        0u8,
        0u8,
        scale as u8,
        if negative && !(lo == 0 && mid == 0 && hi == 0) {
            0x80u8
        } else {
            0u8
        },
        (lo & 0xFF) as u8,
        ((lo >> 8) & 0xFF) as u8,
        ((lo >> 16) & 0xFF) as u8,
        ((lo >> 24) & 0xFF) as u8,
        (mid & 0xFF) as u8,
        ((mid >> 8) & 0xFF) as u8,
        ((mid >> 16) & 0xFF) as u8,
        ((mid >> 24) & 0xFF) as u8,
        (hi & 0xFF) as u8,
        ((hi >> 8) & 0xFF) as u8,
        ((hi >> 16) & 0xFF) as u8,
        ((hi >> 24) & 0xFF) as u8,
    ]
}

/// Relies on rust_decimal::Decimal::from_parts: builds the value whose
/// serialized form `spec_serial_of_parts` states; panics on a scale above
/// the maximum, so that scale is required here.
pub assume_specification[ rust_decimal::Decimal::from_parts ](
    lo: u32,
    mid: u32,
    hi: u32,
    negative: bool,
    scale: u32,
) -> (r: rust_decimal::Decimal)
    requires
        scale <= 28,
    ensures
        dec_serial(r) == spec_serial_of_parts(lo, mid, hi, negative, scale),
;

/// The wire struct assembled from a 16-byte serialized decimal: scale from
/// byte 2, sign from the top bit of byte 3, and the magnitude words from
/// bytes 4..16, least significant first.
pub open spec fn spec_c_decimal_of(s: Seq<u8>) -> Decimal96 {
    Decimal96 {
        reserved: 0,
        scale: s[2],
        sign: if s[3] & 0x80u8 == 0 {
            0u8
        } else {
            DECIMAL_NEG
        },
        lo64: (s[4] as u64) | ((s[5] as u64) << 8) | ((s[6] as u64) << 16) | ((s[7] as u64) << 24)
            | ((s[8] as u64) << 32) | ((s[9] as u64) << 40) | ((s[10] as u64) << 48) | ((
        s[11] as u64) << 56),
        hi32: (s[12] as u32) | ((s[13] as u32) << 8) | ((s[14] as u32) << 16) | ((s[15] as u32)
            << 24),
    }
}

/// Encodes a host decimal as the wire struct, preserving sign, scale and
/// the 96-bit magnitude exactly.
pub fn build_c_decimal(dec: rust_decimal::Decimal) -> (r: Decimal96)
    ensures
        r == spec_c_decimal_of(dec_serial(dec)),
        r.wf(),
{
    let scale = rust_decimal::Decimal::scale(&dec) as u8;
    let sign: u8 = if rust_decimal::Decimal::is_sign_positive(&dec) {
        0
    } else {
        DECIMAL_NEG
    };
    let serial = rust_decimal::Decimal::serialize(&dec);
    let lo: u64 = (serial[4] as u64) | ((serial[5] as u64) << 8) | ((serial[6] as u64) << 16) | ((
    serial[7] as u64) << 24) | ((serial[8] as u64) << 32) | ((serial[9] as u64) << 40) | ((
    serial[10] as u64) << 48) | ((serial[11] as u64) << 56);
    let hi: u32 = (serial[12] as u32) | ((serial[13] as u32) << 8) | ((serial[14] as u32) << 16)
        | ((serial[15] as u32) << 24);
    Decimal96 { reserved: 0, scale, sign, hi32: hi, lo64: lo }
}

/// Decodes the wire struct back into a host decimal. The serialized form
/// of the result is pinned down exactly by `spec_serial_of_parts`.
pub fn build_rust_decimal(dec: Decimal96) -> (r: rust_decimal::Decimal)
    requires
        dec.scale <= 28,
    ensures
        dec_serial(r) == spec_serial_of_parts(
            (dec.lo64 & 0xFFFFFFFF) as u32,
            ((dec.lo64 >> 32) & 0xFFFFFFFF) as u32,
            dec.hi32,
            dec.sign == DECIMAL_NEG,
            dec.scale as u32,
        ),
{
    let sign = dec.sign == DECIMAL_NEG;
    rust_decimal::Decimal::from_parts(
        (dec.lo64 & 0xFFFFFFFF) as u32,
        ((dec.lo64 >> 32) & 0xFFFFFFFF) as u32,
        dec.hi32,
        sign,
        dec.scale as u32,
    )
}

/// Decimal exactness, wire side: a well-formed wire decimal that does not
/// carry a negative zero survives the trip through the host decimal's
/// parts unchanged — assembling the wire struct from the serialized form
/// that `build_rust_decimal` leaves behind gives back the original.
pub proof fn lemma_decimal_wire_round_trip(w: Decimal96)
    requires
        w.wf(),
        w.sign == DECIMAL_NEG ==> !(w.lo64 == 0 && w.hi32 == 0),
    ensures
        spec_c_decimal_of(
            spec_serial_of_parts(
                (w.lo64 & 0xFFFFFFFF) as u32,
                ((w.lo64 >> 32) & 0xFFFFFFFF) as u32,
                w.hi32,
                w.sign == DECIMAL_NEG,
                w.scale as u32,
            ),
        ) == w,
{
    let x = w.lo64;
    let lo = (w.lo64 & 0xFFFFFFFF) as u32;
    let mid = ((w.lo64 >> 32) & 0xFFFFFFFF) as u32;
    let h = w.hi32;
    assert(lo == (x & 0xFFFFFFFF) as u32 && mid == ((x >> 32) & 0xFFFFFFFF) as u32 ==> ((lo == 0
        && mid == 0) <==> x == 0)) by (bit_vector);
    assert(lo == (x & 0xFFFFFFFF) as u32 && mid == ((x >> 32) & 0xFFFFFFFF) as u32 ==> ((((lo
        & 0xFF) as u8) as u64) | (((((lo >> 8) & 0xFF) as u8) as u64) << 8) | (((((lo >> 16)
        & 0xFF) as u8) as u64) << 16) | (((((lo >> 24) & 0xFF) as u8) as u64) << 24) | ((((mid
        & 0xFF) as u8) as u64) << 32) | (((((mid >> 8) & 0xFF) as u8) as u64) << 40) | (((((mid
        >> 16) & 0xFF) as u8) as u64) << 48) | (((((mid >> 24) & 0xFF) as u8) as u64) << 56)) == x)
        by (bit_vector);
    assert(((((h & 0xFF) as u8) as u32) | (((((h >> 8) & 0xFF) as u8) as u32) << 8) | (((((h >> 16)
        & 0xFF) as u8) as u32) << 16) | (((((h >> 24) & 0xFF) as u8) as u32) << 24)) == h)
        by (bit_vector);
    let s = spec_serial_of_parts(lo, mid, w.hi32, w.sign == DECIMAL_NEG, w.scale as u32);
    assert(0x80u8 & 0x80u8 == 0x80u8) by (bit_vector);
    assert(0u8 & 0x80u8 == 0u8) by (bit_vector);
    assert(s[2] == (w.scale as u32) as u8);
    assert(spec_c_decimal_of(s).scale == w.scale);
    assert(spec_c_decimal_of(s).sign == w.sign);
    assert(spec_c_decimal_of(s).lo64 == w.lo64);
    assert(spec_c_decimal_of(s).hi32 == w.hi32);
    assert(spec_c_decimal_of(s) == w);
}

} // verus!
