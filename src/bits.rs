//! Bit-level access to 32-bit register images.
//!
//! Every register and descriptor in this crate is a `u32` whose named
//! sub-fields are read and written through these helpers, so that the
//! behaviour of each field accessor is stated once, here.

use vstd::prelude::*;

verus! {

/// All ones in the low `width` bits.
pub open spec fn low_mask(width: u32) -> u32 {
    if width >= 32 {
        0xFFFF_FFFFu32
    } else {
        ((1u32 << width) - 1) as u32
    }
}

/// The `width`-bit field of `raw` that starts at bit `lo`.
pub open spec fn field_of(raw: u32, lo: u32, width: u32) -> u32 {
    (raw >> lo) & low_mask(width)
}

/// `raw` with its `width`-bit field at `lo` replaced by the low bits of `v`;
/// every other bit is kept.
pub open spec fn with_field_of(raw: u32, lo: u32, width: u32, v: u32) -> u32 {
    (raw & !(low_mask(width) << lo)) | ((v & low_mask(width)) << lo)
}

/// Bit `n` of `raw`.
pub open spec fn bit_of(raw: u32, n: u32) -> bool {
    (raw >> n) & 1u32 == 1u32
}

/// `raw` with bit `n` set to `v`; every other bit is kept.
pub open spec fn with_bit_of(raw: u32, n: u32, v: bool) -> u32 {
    if v {
        raw | (1u32 << n)
    } else {
        raw & !(1u32 << n)
    }
}

/// Whether `[lo, lo + width)` is a non-empty range of bit positions of a `u32`.
pub open spec fn valid_field(lo: u32, width: u32) -> bool {
    0 < width && width < 32 && lo < 32 && lo + width <= 32
}

/// Reads the `width`-bit field at `lo`.
pub fn get_field(raw: u32, lo: u32, width: u32) -> (r: u32)
    requires
        valid_field(lo, width),
    ensures
        r == field_of(raw, lo, width),
        r <= low_mask(width),
{
    assert(1u32 << width >= 1) by (bit_vector)
        requires
            width < 32,
    ;
    let m: u32 = (1u32 << width) - 1;
    let r = (raw >> lo) & m;
    assert(r <= m && r == field_of(raw, lo, width)) by (bit_vector)
        requires
            0 < width < 32,
            m == ((1u32 << width) - 1) as u32,
            r == (raw >> lo) & m,
            low_mask(width) == ((1u32 << width) - 1) as u32,
            field_of(raw, lo, width) == (raw >> lo) & low_mask(width),
    ;
    r
}

/// Replaces the `width`-bit field at `lo` by `v`.
pub fn put_field(raw: u32, lo: u32, width: u32, v: u32) -> (r: u32)
    requires
        valid_field(lo, width),
    ensures
        r == with_field_of(raw, lo, width, v),
{
    assert(1u32 << width >= 1) by (bit_vector)
        requires
            width < 32,
    ;
    let m: u32 = (1u32 << width) - 1;
    (raw & !(m << lo)) | ((v & m) << lo)
}

/// Reads bit `n`.
pub fn get_bit(raw: u32, n: u32) -> (r: bool)
    requires
        n < 32,
    ensures
        r == bit_of(raw, n),
{
    (raw >> n) & 1 == 1
}

/// Sets bit `n` to `v`.
pub fn put_bit(raw: u32, n: u32, v: bool) -> (r: u32)
    requires
        n < 32,
    ensures
        r == with_bit_of(raw, n, v),
{
    if v {
        raw | (1u32 << n)
    } else {
        raw & !(1u32 << n)
    }
}

/// `1` for a set flag, `0` for a clear one.
pub open spec fn flag(b: bool) -> u32 {
    if b {
        1
    } else {
        0
    }
}

/// Executable form of [`flag`].
pub fn flag_bit(b: bool) -> (r: u32)
    ensures
        r == flag(b),
{
    if b {
        1
    } else {
        0
    }
}

/// The masks of the field widths that registers of this crate use.
pub proof fn lemma_low_masks()
    ensures
        low_mask(1) == 1,
        low_mask(2) == 3,
        low_mask(3) == 7,
        low_mask(4) == 15,
        low_mask(6) == 0x3F,
        low_mask(8) == 0xFF,
        low_mask(12) == 0xFFF,
        low_mask(16) == 0xFFFF,
        low_mask(25) == 0x1FF_FFFF,
{
    assert(((1u32 << 1u32) - 1u32) as u32 == 1u32) by (bit_vector);
    assert(((1u32 << 2u32) - 1u32) as u32 == 3u32) by (bit_vector);
    assert(((1u32 << 3u32) - 1u32) as u32 == 7u32) by (bit_vector);
    assert(((1u32 << 4u32) - 1u32) as u32 == 15u32) by (bit_vector);
    assert(((1u32 << 6u32) - 1u32) as u32 == 0x3Fu32) by (bit_vector);
    assert(((1u32 << 8u32) - 1u32) as u32 == 0xFFu32) by (bit_vector);
    assert(((1u32 << 12u32) - 1u32) as u32 == 0xFFFu32) by (bit_vector);
    assert(((1u32 << 16u32) - 1u32) as u32 == 0xFFFFu32) by (bit_vector);
    assert(((1u32 << 25u32) - 1u32) as u32 == 0x1FF_FFFFu32) by (bit_vector);
}

/// A field never exceeds the mask of its width.
pub proof fn lemma_field_bound(raw: u32, lo: u32, width: u32)
    requires
        valid_field(lo, width),
    ensures
        field_of(raw, lo, width) <= low_mask(width),
{
    let m = low_mask(width);
    assert(((raw >> lo) & m) <= m) by (bit_vector);
}

/// A field reads back what was written into it, when the value fits.
pub proof fn lemma_field_round_trip(raw: u32, lo: u32, width: u32, v: u32)
    requires
        valid_field(lo, width),
        v < (1u64 << width),
    ensures
        field_of(with_field_of(raw, lo, width, v), lo, width) == v,
{
    let m = low_mask(width);
    assert(m == ((1u32 << width) - 1) as u32);
    assert(((((raw & !(m << lo)) | ((v & m) << lo)) >> lo) & m) == v) by (bit_vector)
        requires
            0 < width < 32,
            lo + width <= 32,
            m == ((1u32 << width) - 1) as u32,
            v < (1u64 << width),
    ;
}

/// Writing a field leaves every field that does not overlap it unchanged.
pub proof fn lemma_field_frame(raw: u32, lo: u32, width: u32, v: u32, lo2: u32, width2: u32)
    requires
        valid_field(lo, width),
        valid_field(lo2, width2),
        lo + width <= lo2 || lo2 + width2 <= lo,
    ensures
        field_of(with_field_of(raw, lo, width, v), lo2, width2) == field_of(raw, lo2, width2),
{
    let m = low_mask(width);
    let m2 = low_mask(width2);
    assert(m == ((1u32 << width) - 1) as u32);
    assert(m2 == ((1u32 << width2) - 1) as u32);
    assert(((((raw & !(m << lo)) | ((v & m) << lo)) >> lo2) & m2) == ((raw >> lo2) & m2))
        by (bit_vector)
        requires
            0 < width < 32,
            0 < width2 < 32,
            lo + width <= 32,
            lo2 + width2 <= 32,
            lo + width <= lo2 || lo2 + width2 <= lo,
            m == ((1u32 << width) - 1) as u32,
            m2 == ((1u32 << width2) - 1) as u32,
    ;
}

/// Writing back the value a field holds leaves the word unchanged.
pub proof fn lemma_field_rewrite(raw: u32, lo: u32, width: u32)
    requires
        valid_field(lo, width),
    ensures
        with_field_of(raw, lo, width, field_of(raw, lo, width)) == raw,
{
    let m = low_mask(width);
    assert(m == ((1u32 << width) - 1) as u32);
    assert(((raw & !(m << lo)) | ((((raw >> lo) & m) & m) << lo)) == raw) by (bit_vector)
        requires
            0 < width < 32,
            lo + width <= 32,
            m == ((1u32 << width) - 1) as u32,
    ;
}

} // verus!
