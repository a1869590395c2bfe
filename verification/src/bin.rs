//! Bit-field helpers for 32-bit instruction words.
//!
//! Ranges are inclusive on both ends: `4..5` names bits 4 and 5.

use std::ops::Range;
use vstd::prelude::*;

verus! {

/// The word whose set bits are exactly `start..=end` (for `start <= end <= 31`).
pub open spec fn spec_bit_range(start: u32, end: u32) -> u32 {
    let large: u32 = if end != 31 {
        1u32 << ((end + 1) as u32)
    } else {
        0u32
    };
    large.wrapping_sub(1u32 << start)
}

/// The word whose set bits are exactly `0..=index`.
pub open spec fn spec_bit_range_lower(index: u32) -> u32 {
    let large: u32 = if index != 31 {
        1u32 << ((index + 1) as u32)
    } else {
        0u32
    };
    large.wrapping_sub(1u32)
}

/// `bin` with every bit outside `start..=end` cleared.
pub open spec fn spec_mask(bin: u32, start: u32, end: u32) -> u32 {
    bin & spec_bit_range(start, end)
}

/// `bin` with every bit above `index` cleared.
pub open spec fn spec_mask_lower(bin: u32, index: u32) -> u32 {
    bin & spec_bit_range_lower(index)
}

/// The field `start..=end` of `bin`, moved down to bit 0.
pub open spec fn spec_extract(bin: u32, start: u32, end: u32) -> u32 {
    spec_mask(bin, start, end) >> start
}

/// Bit `index` of `bin`, as 0 or 1.
pub open spec fn spec_at(bin: u32, index: u32) -> u32 {
    (bin >> index) & 1
}

/// `imm` with bits `bit..=31` set when `sign` is non-zero, `imm` itself otherwise.
pub open spec fn spec_sign_extend(bit: u32, sign: u32, imm: u32) -> u32 {
    if sign != 0 {
        spec_bit_range(bit, 31) | imm
    } else {
        imm
    }
}

/// Sign extends an immediate whose sign bit has already been isolated in `sign`.
pub fn sign_extend<const BIT: u32>(sign: u32, imm: u32) -> (r: u32)
    requires
        BIT <= 31,
    ensures
        r == spec_sign_extend(BIT, sign, imm),
{
    if sign != 0 {
        bit_range(BIT..31) | imm
    } else {
        imm
    }
}

pub fn bit_range(r: Range<u32>) -> (m: u32)
    requires
        r.start <= 31,
        r.end <= 31,
    ensures
        m == spec_bit_range(r.start, r.end),
{
    let large: u32 = if r.end != 31 {
        1u32 << (r.end + 1)
    } else {
        0
    };
    large.wrapping_sub(1u32 << r.start)
}

pub fn bit_range_lower(index: u32) -> (m: u32)
    requires
        index <= 31,
    ensures
        m == spec_bit_range_lower(index),
{
    let large: u32 = if index != 31 {
        1u32 << (index + 1)
    } else {
        0
    };
    large.wrapping_sub(1)
}

pub fn mask(bin: u32, r: Range<u32>) -> (m: u32)
    requires
        r.start <= 31,
        r.end <= 31,
    ensures
        m == spec_mask(bin, r.start, r.end),
{
    bin & bit_range(r)
}

pub fn mask_lower(bin: u32, index: u32) -> (m: u32)
    requires
        index <= 31,
    ensures
        m == spec_mask_lower(bin, index),
{
    bin & bit_range_lower(index)
}

pub fn extract(bin: u32, r: Range<u32>) -> (m: u32)
    requires
        r.start <= 31,
        r.end <= 31,
    ensures
        m == spec_extract(bin, r.start, r.end),
{
    let left = r.start;
    mask(bin, r) >> left
}

pub fn at(bin: u32, index: u32) -> (m: u32)
    requires
        index <= 31,
    ensures
        m == spec_at(bin, index),
{
    (bin >> index) & 1
}

/// Bit `i` of `bit_range(start..end)` is set exactly when `start <= i <= end`.
pub proof fn lemma_bit_range_bits(start: u32, end: u32, i: u32)
    requires
        start <= end <= 31,
        i <= 31,
    ensures
        spec_at(spec_bit_range(start, end), i) == (if start <= i <= end { 1u32 } else { 0u32 }),
{
    assert(((if end != 31 {
        1u32 << ((end + 1) as u32)
    } else {
        0u32
    }).wrapping_sub(1u32 << start) >> i) & 1 == (if start <= i <= end {
        1u32
    } else {
        0u32
    })) by (bit_vector)
        requires
            start <= end <= 31,
            i <= 31,
    ;
}

/// An extracted field is smaller than two to the power of its width, and is the
/// word shifted down and cut to that width.
pub proof fn lemma_extract_bound(bin: u32, start: u32, end: u32)
    requires
        start <= end <= 31,
    ensures
        spec_extract(bin, start, end) <= spec_bit_range_lower((end - start) as u32),
        spec_extract(bin, start, end) == (bin >> start) & spec_bit_range_lower((end - start) as u32),
{
    let w = (end - start) as u32;
    assert((bin & (if end != 31 {
        1u32 << ((end + 1) as u32)
    } else {
        0u32
    }).wrapping_sub(1u32 << start)) >> start == (bin >> start) & (if w != 31 {
        1u32 << ((w + 1) as u32)
    } else {
        0u32
    }).wrapping_sub(1u32)) by (bit_vector)
        requires
            start <= end <= 31,
            w == end - start,
    ;
    assert(((bin >> start) & (if w != 31 {
        1u32 << ((w + 1) as u32)
    } else {
        0u32
    }).wrapping_sub(1u32)) <= (if w != 31 {
        1u32 << ((w + 1) as u32)
    } else {
        0u32
    }).wrapping_sub(1u32)) by (bit_vector);
}

/// A field of five bits is below 32, and one of six bits below 64.
pub proof fn lemma_register_field(bin: u32, start: u32)
    requires
        start <= 26,
    ensures
        spec_extract(bin, start, (start + 4) as u32) < 32,
        spec_extract(bin, start, (start + 5) as u32) < 64,
{
    let e5 = (start + 4) as u32;
    let e6 = (start + 5) as u32;
    assert((bin & (if e5 != 31 {
        1u32 << ((e5 + 1) as u32)
    } else {
        0u32
    }).wrapping_sub(1u32 << start)) >> start < 32) by (bit_vector)
        requires
            start <= 26,
            e5 == start + 4,
    ;
    assert((bin & (if e6 != 31 {
        1u32 << ((e6 + 1) as u32)
    } else {
        0u32
    }).wrapping_sub(1u32 << start)) >> start < 64) by (bit_vector)
        requires
            start <= 26,
            e6 == start + 5,
    ;
}

} // verus!
