//! The float unit: arithmetic is done by a backend that the host supplies;
//! sign manipulation, predicates and comparisons are done here, on the bit
//! patterns of IEEE 754 binary32 values.

use vstd::prelude::*;

verus! {

/// The arithmetic backend of the float unit. Every value is the bit pattern
/// of a binary32 float. The library claims nothing about what a backend
/// computes: it may be the host's arithmetic or a model of the hardware.
pub trait Fpu {
    fn fadd(&self, a: u32, b: u32) -> u32;

    fn fsub(&self, a: u32, b: u32) -> u32;

    fn fmul(&self, a: u32, b: u32) -> u32;

    fn fdiv(&self, a: u32, b: u32) -> u32;

    fn fsqrt(&self, a: u32) -> u32;

    /// Half of `a`.
    fn fhalf(&self, a: u32) -> u32;

    /// The largest integral float not above `a`.
    fn ffloor(&self, a: u32) -> u32;

    /// `a` minus its floor.
    fn ffrac(&self, a: u32) -> u32;

    /// The reciprocal of `a`.
    fn finv(&self, a: u32) -> u32;

    /// The float nearest to the integer `a`.
    fn fcvtsw(&self, a: i32) -> u32;

    /// The integer nearest to the float `a`.
    fn fcvtws(&self, a: u32) -> i32;

    /// The float nearest to the decimal numeral `text`: an optional sign,
    /// digits with an optional point, and an optional exponent.
    fn from_decimal(&self, text: &[u8]) -> u32;
}

/// The bit pattern of 1.0.
pub const FLOAT_ONE: u32 = 0x3f80_0000;

/// The float without its sign bit.
pub open spec fn spec_magnitude(x: u32) -> u32 {
    x & 0x7fff_ffff
}

/// The sign bit of the float, in place.
pub open spec fn spec_sign(x: u32) -> u32 {
    x & 0x8000_0000
}

/// Not a number: the exponent is all ones and the fraction is not zero.
pub open spec fn spec_is_nan(x: u32) -> bool {
    spec_magnitude(x) > 0x7f80_0000
}

/// A number that orders floats as IEEE 754 does, for floats that are not
/// NaN: the magnitude, negated when the sign bit is set. Both zeros map to 0.
pub open spec fn spec_order_key(x: u32) -> int {
    if spec_sign(x) == 0 {
        spec_magnitude(x) as int
    } else {
        -(spec_magnitude(x) as int)
    }
}

/// `a < b` as floats: false when either is NaN.
pub open spec fn spec_flt(a: u32, b: u32) -> bool {
    !spec_is_nan(a) && !spec_is_nan(b) && spec_order_key(a) < spec_order_key(b)
}

/// `a >= b` as floats: false when either is NaN.
pub open spec fn spec_fge(a: u32, b: u32) -> bool {
    !spec_is_nan(a) && !spec_is_nan(b) && spec_order_key(a) >= spec_order_key(b)
}

/// `x == 0.0` as floats: either zero.
pub open spec fn spec_fiszero(x: u32) -> bool {
    spec_magnitude(x) == 0
}

/// `x > 0.0` as floats.
pub open spec fn spec_fispos(x: u32) -> bool {
    !spec_is_nan(x) && spec_order_key(x) > 0
}

/// `x < 0.0` as floats.
pub open spec fn spec_fisneg(x: u32) -> bool {
    !spec_is_nan(x) && spec_order_key(x) < 0
}

/// `a` with the sign of `b`.
pub open spec fn spec_fsgnj(a: u32, b: u32) -> u32 {
    spec_magnitude(a) | spec_sign(b)
}

/// `a` with the opposite of the sign of `b`.
pub open spec fn spec_fsgnjn(a: u32, b: u32) -> u32 {
    spec_magnitude(a) | (spec_sign(b) ^ 0x8000_0000)
}

/// `a` with the sign of the product of `a` and `b`.
pub open spec fn spec_fsgnjx(a: u32, b: u32) -> u32 {
    spec_magnitude(a) | (spec_sign(a) ^ spec_sign(b))
}

/// The float with the opposite sign.
pub open spec fn spec_fneg(x: u32) -> u32 {
    x ^ 0x8000_0000
}

pub fn is_nan(x: u32) -> (b: bool)
    ensures
        b == spec_is_nan(x),
{
    (x & 0x7fff_ffff) > 0x7f80_0000
}

fn order_key(x: u32) -> (k: i64)
    ensures
        k == spec_order_key(x),
{
    let m: u32 = x & 0x7fff_ffff;
    if x & 0x8000_0000 == 0 {
        m as i64
    } else {
        -(m as i64)
    }
}

pub fn flt(a: u32, b: u32) -> (r: bool)
    ensures
        r == spec_flt(a, b),
{
    !is_nan(a) && !is_nan(b) && order_key(a) < order_key(b)
}

pub fn fge(a: u32, b: u32) -> (r: bool)
    ensures
        r == spec_fge(a, b),
{
    !is_nan(a) && !is_nan(b) && order_key(a) >= order_key(b)
}

pub fn fiszero(x: u32) -> (r: bool)
    ensures
        r == spec_fiszero(x),
{
    x & 0x7fff_ffff == 0
}

pub fn fispos(x: u32) -> (r: bool)
    ensures
        r == spec_fispos(x),
{
    !is_nan(x) && order_key(x) > 0
}

pub fn fisneg(x: u32) -> (r: bool)
    ensures
        r == spec_fisneg(x),
{
    !is_nan(x) && order_key(x) < 0
}

pub fn fsgnj(a: u32, b: u32) -> (r: u32)
    ensures
        r == spec_fsgnj(a, b),
{
    (a & 0x7fff_ffff) | (b & 0x8000_0000)
}

pub fn fsgnjn(a: u32, b: u32) -> (r: u32)
    ensures
        r == spec_fsgnjn(a, b),
{
    (a & 0x7fff_ffff) | ((b & 0x8000_0000) ^ 0x8000_0000)
}

pub fn fsgnjx(a: u32, b: u32) -> (r: u32)
    ensures
        r == spec_fsgnjx(a, b),
{
    (a & 0x7fff_ffff) | ((a & 0x8000_0000) ^ (b & 0x8000_0000))
}

pub fn fneg(x: u32) -> (r: u32)
    ensures
        r == spec_fneg(x),
{
    x ^ 0x8000_0000
}

/// Sign injection keeps the magnitude and sets the sign bit as named; a
/// float is never below itself, and of two floats that are not NaN exactly
/// one of `a < b` and `a >= b` holds.
pub proof fn lemma_float_bits(a: u32, b: u32)
    ensures
        spec_magnitude(spec_fsgnj(a, b)) == spec_magnitude(a),
        spec_sign(spec_fsgnj(a, b)) == spec_sign(b),
        spec_sign(spec_fsgnjn(a, b)) != spec_sign(b),
        spec_fsgnj(a, a) == a,
        spec_fneg(spec_fneg(a)) == a,
        !spec_flt(a, a),
        !spec_is_nan(a) && !spec_is_nan(b) ==> (spec_flt(a, b) <==> !spec_fge(a, b)),
        spec_fiszero(a) ==> !spec_fispos(a) && !spec_fisneg(a),
{
    assert(((a & 0x7fff_ffff) | (b & 0x8000_0000)) & 0x7fff_ffff == a & 0x7fff_ffff)
        by (bit_vector);
    assert(((a & 0x7fff_ffff) | (b & 0x8000_0000)) & 0x8000_0000 == b & 0x8000_0000)
        by (bit_vector);
    assert(((a & 0x7fff_ffff) | ((b & 0x8000_0000) ^ 0x8000_0000)) & 0x8000_0000 != b
        & 0x8000_0000) by (bit_vector);
    assert((a & 0x7fff_ffff) | (a & 0x8000_0000) == a) by (bit_vector);
    assert((a ^ 0x8000_0000) ^ 0x8000_0000 == a) by (bit_vector);
}

} // verus!
