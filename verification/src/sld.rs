//! Scene descriptions: whitespace-separated numbers in a fixed order, read
//! by the program as its input.
//!
//! A scene is the environment (five floats, an integer, three floats), the
//! objects up to an integer -1 (each an integer that is not -1, three more
//! integers, twelve floats, and three more floats if the last of the
//! integers is not zero), and two networks. A network is a list of groups
//! up to an integer -1; a group is a list of integers up to a -1.

use crate::cpu::InputError;
use crate::execute::{spec_unsigned, unsigned};
use crate::fpu::Fpu;
use crate::io::{Input, IoError};
use crate::text::{decimal_text, push_decimal};
use crate::ty::{Ty, Typed, TypedU32};
use vstd::prelude::*;
use vstd::slice::slice_subrange;
use vstd::string::*;

verus! {

/// What stands at a place of a scene.
pub enum SldKind {
    Int(i32),
    /// A float, as the text that was read for it.
    Float(Seq<u8>),
}

/// Space, tab, carriage return or line feed.
pub open spec fn is_space(b: u8) -> bool {
    b == 0x20 || b == 0x09 || b == 0x0d || b == 0x0a
}

pub open spec fn is_digit(b: u8) -> bool {
    0x30 <= b <= 0x39
}

/// The first position at or behind `pos` that holds no space.
pub open spec fn spec_skip_spaces(s: Seq<u8>, pos: int) -> int
    decreases s.len() - pos,
{
    if 0 <= pos < s.len() && is_space(s[pos]) {
        spec_skip_spaces(s, pos + 1)
    } else {
        pos
    }
}

/// The first position at or behind `pos` that holds no digit.
pub open spec fn spec_digits_end(s: Seq<u8>, pos: int) -> int
    decreases s.len() - pos,
{
    if 0 <= pos < s.len() && is_digit(s[pos]) {
        spec_digits_end(s, pos + 1)
    } else {
        pos
    }
}

/// The number that the digits from `start` up to `end` spell.
pub open spec fn spec_digits_value(s: Seq<u8>, start: int, end: int) -> nat
    decreases end - start,
{
    if end <= start {
        0
    } else {
        spec_digits_value(s, start, end - 1) * 10 + (s[end - 1] - 0x30) as nat
    }
}

/// Whether a sign stands at `pos`.
pub open spec fn spec_sign_at(s: Seq<u8>, pos: int) -> bool {
    0 <= pos < s.len() && (s[pos] == 0x2b || s[pos] == 0x2d)
}

/// The integer that stands at `pos`, and where it ends: an optional sign
/// and at least one digit, spelling a number that a 32-bit integer holds.
pub open spec fn spec_int_at(s: Seq<u8>, pos: int) -> Option<(i32, int)> {
    let negative = spec_sign_at(s, pos) && s[pos] == 0x2d;
    let start = if spec_sign_at(s, pos) {
        pos + 1
    } else {
        pos
    };
    let end = spec_digits_end(s, start);
    let magnitude = spec_digits_value(s, start, end);
    if end == start {
        None
    } else if negative {
        if magnitude <= 0x8000_0000 {
            Some(((-magnitude) as i32, end))
        } else {
            None
        }
    } else if magnitude <= 0x7fff_ffff {
        Some((magnitude as i32, end))
    } else {
        None
    }
}

/// Where the float that stands at `pos` ends: an optional sign; digits
/// with an optional point and optional digits behind it, or a point and
/// digits; and an optional exponent, which is `e` or `E`, an optional sign
/// and digits. An `e` without digits behind it spoils the float.
pub open spec fn spec_float_end(s: Seq<u8>, pos: int) -> Option<int> {
    let start = if spec_sign_at(s, pos) {
        pos + 1
    } else {
        pos
    };
    let whole_end = spec_digits_end(s, start);
    let point = 0 <= whole_end < s.len() && s[whole_end] == 0x2e;
    let mantissa_end = if whole_end > start {
        if point {
            Some(spec_digits_end(s, whole_end + 1))
        } else {
            Some(whole_end)
        }
    } else if point && spec_digits_end(s, whole_end + 1) > whole_end + 1 {
        Some(spec_digits_end(s, whole_end + 1))
    } else {
        None
    };
    match mantissa_end {
        None => None,
        Some(m) => if 0 <= m < s.len() && (s[m] == 0x65 || s[m] == 0x45) {
            let digits = if spec_sign_at(s, m + 1) {
                m + 2
            } else {
                m + 1
            };
            if spec_digits_end(s, digits) > digits {
                Some(spec_digits_end(s, digits))
            } else {
                None
            }
        } else {
            Some(m)
        },
    }
}

/// An integer behind spaces.
pub open spec fn spec_read_int(s: Seq<u8>, pos: int, acc: Seq<SldKind>) -> Option<
    (int, Seq<SldKind>),
> {
    match spec_int_at(s, spec_skip_spaces(s, pos)) {
        Some((v, end)) => Some((end, acc.push(SldKind::Int(v)))),
        None => None,
    }
}

/// A float behind spaces.
pub open spec fn spec_read_float(s: Seq<u8>, pos: int, acc: Seq<SldKind>) -> Option<
    (int, Seq<SldKind>),
> {
    let start = spec_skip_spaces(s, pos);
    match spec_float_end(s, start) {
        Some(end) => Some((end, acc.push(SldKind::Float(s.subrange(start, end))))),
        None => None,
    }
}

/// `count` floats.
pub open spec fn spec_read_floats(s: Seq<u8>, pos: int, acc: Seq<SldKind>, count: nat) -> Option<
    (int, Seq<SldKind>),
>
    decreases count,
{
    if count == 0 {
        Some((pos, acc))
    } else {
        match spec_read_float(s, pos, acc) {
            Some((p, a)) => spec_read_floats(s, p, a, (count - 1) as nat),
            None => None,
        }
    }
}

/// The environment: five floats, an integer, three floats.
pub open spec fn spec_read_env(s: Seq<u8>, pos: int, acc: Seq<SldKind>) -> Option<
    (int, Seq<SldKind>),
> {
    match spec_read_floats(s, pos, acc, 5) {
        Some((p, a)) => match spec_read_int(s, p, a) {
            Some((p, a)) => spec_read_floats(s, p, a, 3),
            None => None,
        },
        None => None,
    }
}

/// The rest of an object behind its first integer: three integers, twelve
/// floats, and three more floats if the last integer is not zero.
pub open spec fn spec_read_object(s: Seq<u8>, pos: int, acc: Seq<SldKind>) -> Option<
    (int, Seq<SldKind>),
> {
    match spec_read_int(s, pos, acc) {
        Some((p, a)) => match spec_read_int(s, p, a) {
            Some((p, a)) => match spec_read_int(s, p, a) {
                Some((p, a)) => {
                    let rotated = !(a.last() matches SldKind::Int(0));
                    match spec_read_floats(s, p, a, 12) {
                        Some((p, a)) => if rotated {
                            spec_read_floats(s, p, a, 3)
                        } else {
                            Some((p, a))
                        },
                        None => None,
                    }
                },
                None => None,
            },
            None => None,
        },
        None => None,
    }
}

/// The objects up to the integer -1, after `count` objects have been read.
pub open spec fn spec_read_objects(s: Seq<u8>, pos: int, acc: Seq<SldKind>, count: nat) -> Option<
    (int, Seq<SldKind>, nat),
>
    decreases s.len() - pos,
{
    match spec_read_int(s, pos, acc) {
        Some((p, a)) => if a.last() matches SldKind::Int(-1) {
            Some((p, a, count))
        } else {
            match spec_read_object(s, p, a) {
                Some((q, b)) => if pos < q <= s.len() {
                    spec_read_objects(s, q, b, count + 1)
                } else {
                    None
                },
                None => None,
            }
        },
        None => None,
    }
}

/// Integers up to a -1.
pub open spec fn spec_read_group(s: Seq<u8>, pos: int, acc: Seq<SldKind>) -> Option<
    (int, Seq<SldKind>),
>
    decreases s.len() - pos,
{
    match spec_read_int(s, pos, acc) {
        Some((p, a)) => if a.last() matches SldKind::Int(-1) {
            Some((p, a))
        } else if pos < p <= s.len() {
            spec_read_group(s, p, a)
        } else {
            None
        },
        None => None,
    }
}

/// Groups up to an integer -1 in place of a group.
pub open spec fn spec_read_net(s: Seq<u8>, pos: int, acc: Seq<SldKind>) -> Option<
    (int, Seq<SldKind>),
>
    decreases s.len() - pos,
{
    match spec_read_int(s, pos, acc) {
        Some((p, a)) => if a.last() matches SldKind::Int(-1) {
            Some((p, a))
        } else {
            match spec_read_group(s, p, a) {
                Some((q, b)) => if pos < q <= s.len() {
                    spec_read_net(s, q, b)
                } else {
                    None
                },
                None => None,
            }
        },
        None => None,
    }
}

/// A whole scene: what stands in it, and how many objects it has. Whatever
/// follows the second network is not looked at.
pub open spec fn spec_read_sld(s: Seq<u8>) -> Option<(Seq<SldKind>, nat)> {
    match spec_read_env(s, 0, Seq::empty()) {
        Some((p, a)) => match spec_read_objects(s, p, a, 0) {
            Some((p, a, count)) => match spec_read_net(s, p, a) {
                Some((p, a)) => match spec_read_net(s, p, a) {
                    Some((_, a)) => Some((a, count)),
                    None => None,
                },
                None => None,
            },
            None => None,
        },
        None => None,
    }
}

/// Whether `seq` holds the values of `kinds`: an integer as a word of type
/// `I32`, a float as a word of type `F32`.
pub open spec fn spec_describes(seq: Seq<TypedU32>, kinds: Seq<SldKind>) -> bool {
    &&& seq.len() == kinds.len()
    &&& forall|i: int|
        0 <= i < seq.len() ==> match #[trigger] kinds[i] {
            SldKind::Int(v) => seq[i] == (TypedU32 { ty: Ty::I32, value: spec_unsigned(v) }),
            SldKind::Float(_) => seq[i].ty == Ty::F32,
        }
}

/// Why a scene could not be read.
#[derive(Debug, Clone, Copy, PartialEq, Eq, Structural)]
pub enum SldError {
    /// No integer that fits 32 bits stands at the byte position.
    IntExpected { at: usize },
    /// No float stands at the byte position.
    FloatExpected { at: usize },
}

impl SldError {
    pub open spec fn spec_message(self) -> Seq<char> {
        match self {
            SldError::IntExpected { at } => "failed to parse: integer expected at byte "@
                + decimal_text(at as nat),
            SldError::FloatExpected { at } => "failed to parse: float expected at byte "@
                + decimal_text(at as nat),
        }
    }

    /// The text of the error as it is shown to the user.
    pub fn message(&self) -> (m: String)
        ensures
            m@ == self.spec_message(),
    {
        match self {
            SldError::IntExpected { at } => {
                let mut m = String::from_str("failed to parse: integer expected at byte ");
                push_decimal(&mut m, *at as u64);
                m
            },
            SldError::FloatExpected { at } => {
                let mut m = String::from_str("failed to parse: float expected at byte ");
                push_decimal(&mut m, *at as u64);
                m
            },
        }
    }

    /// The error as the reason for which a processor cannot be set up.
    pub fn into_input_error(self) -> (e: InputError)
        ensures
            e matches InputError::ParseSld(m) && m@ == self.spec_message(),
    {
        InputError::ParseSld(self.message())
    }
}

pub fn skip_spaces(input: &[u8], pos: usize) -> (end: usize)
    requires
        pos <= input@.len(),
    ensures
        end == spec_skip_spaces(input@, pos as int),
        pos <= end <= input@.len(),
{
    let mut i = pos;
    while i < input.len() && (input[i] == 0x20 || input[i] == 0x09 || input[i] == 0x0d || input[i]
        == 0x0a)
        invariant
            pos <= i <= input@.len(),
            spec_skip_spaces(input@, pos as int) == spec_skip_spaces(input@, i as int),
        decreases input@.len() - i,
    {
        i = i + 1;
    }
    i
}

pub fn digits_end(input: &[u8], pos: usize) -> (end: usize)
    requires
        pos <= input@.len(),
    ensures
        end == spec_digits_end(input@, pos as int),
        pos <= end <= input@.len(),
        forall|k: int| pos <= k < end ==> is_digit(#[trigger] input@[k]),
{
    let mut i = pos;
    while i < input.len() && 0x30 <= input[i] && input[i] <= 0x39
        invariant
            pos <= i <= input@.len(),
            spec_digits_end(input@, pos as int) == spec_digits_end(input@, i as int),
            forall|k: int| pos <= k < i ==> is_digit(#[trigger] input@[k]),
        decreases input@.len() - i,
    {
        i = i + 1;
    }
    i
}

/// The number spelt by a row of digits does not shrink when digits follow.
pub proof fn lemma_digits_grow(s: Seq<u8>, start: int, mid: int, end: int)
    requires
        start <= mid <= end <= s.len(),
        forall|k: int| start <= k < end ==> is_digit(#[trigger] s[k]),
    ensures
        spec_digits_value(s, start, mid) <= spec_digits_value(s, start, end),
    decreases end - mid,
{
    if mid < end {
        lemma_digits_grow(s, start, mid, end - 1);
    }
}

fn sign_at(input: &[u8], pos: usize) -> (b: bool)
    requires
        pos <= input@.len(),
    ensures
        b == spec_sign_at(input@, pos as int),
{
    pos < input.len() && (input[pos] == 0x2b || input[pos] == 0x2d)
}

/// Reads the integer at `pos`; see `spec_int_at`.
#[verifier::loop_isolation(false)]
pub fn int_at(input: &[u8], pos: usize) -> (r: Option<(i32, usize)>)
    requires
        pos <= input@.len(),
    ensures
        match r {
            Some((v, end)) => spec_int_at(input@, pos as int) == Some((v, end as int)) && pos < end
                <= input@.len(),
            None => spec_int_at(input@, pos as int) is None,
        },
{
    let len = input.len();
    let signed = sign_at(input, pos);
    let negative = signed && input[pos] == 0x2d;
    let start: usize = if signed {
        pos + 1
    } else {
        pos
    };
    let end = digits_end(input, start);
    if end == start {
        return None;
    }
    let mut magnitude: u64 = 0;
    let mut i = start;
    while i < end
        invariant
            start <= i <= end <= input@.len(),
            magnitude == spec_digits_value(input@, start as int, i as int),
            magnitude <= 0x8000_0000,
            forall|k: int| start <= k < end ==> is_digit(#[trigger] input@[k]),
        decreases end - i,
    {
        let digit: u64 = (input[i] - 0x30) as u64;
        let next: u64 = magnitude * 10 + digit;
        if next > 0x8000_0000 {
            proof {
                assert(spec_digits_value(input@, start as int, i + 1) == next);
                lemma_digits_grow(input@, start as int, i + 1, end as int);
            }
            return None;
        }
        magnitude = next;
        i = i + 1;
    }
    if negative {
        Some(((-(magnitude as i64)) as i32, end))
    } else if magnitude <= 0x7fff_ffff {
        Some((magnitude as i32, end))
    } else {
        None
    }
}

/// Finds the end of the float at `pos`; see `spec_float_end`.
pub fn float_end(input: &[u8], pos: usize) -> (r: Option<usize>)
    requires
        pos <= input@.len(),
    ensures
        match r {
            Some(end) => spec_float_end(input@, pos as int) == Some(end as int) && pos < end
                <= input@.len(),
            None => spec_float_end(input@, pos as int) is None,
        },
{
    let len = input.len();
    let start: usize = if sign_at(input, pos) {
        pos + 1
    } else {
        pos
    };
    let whole_end = digits_end(input, start);
    let point = whole_end < input.len() && input[whole_end] == 0x2e;
    let mantissa_end: usize = if whole_end > start {
        if point {
            digits_end(input, whole_end + 1)
        } else {
            whole_end
        }
    } else if point {
        let fraction_end = digits_end(input, whole_end + 1);
        if fraction_end > whole_end + 1 {
            fraction_end
        } else {
            return None;
        }
    } else {
        return None;
    };
    if mantissa_end < input.len() && (input[mantissa_end] == 0x65 || input[mantissa_end] == 0x45) {
        let digits: usize = if sign_at(input, mantissa_end + 1) {
            mantissa_end + 2
        } else {
            mantissa_end + 1
        };
        let exponent_end = digits_end(input, digits);
        if exponent_end > digits {
            Some(exponent_end)
        } else {
            None
        }
    } else {
        Some(mantissa_end)
    }
}

/// How many objects a scene has.
#[derive(Debug, Clone, Copy, PartialEq, Eq, Structural)]
pub struct SldInfo {
    pub num_objects: usize,
}

/// Collects the numbers of a scene while it is read.
pub struct SldDataBuilder {
    pub seq: Vec<TypedU32>,
    pub info: Option<SldInfo>,
}

impl SldDataBuilder {
    pub fn new() -> (b: Self)
        ensures
            b.seq@.len() == 0,
            b.info is None,
    {
        Self { seq: Vec::new(), info: None }
    }

    fn push_int(&mut self, v: i32)
        ensures
            final(self).seq@ == old(self).seq@.push(
                TypedU32 { ty: Ty::I32, value: spec_unsigned(v) },
            ),
            final(self).info == old(self).info,
    {
        self.seq.push(unsigned(v).typed(Ty::I32));
    }

    fn push_float(&mut self, bits: u32)
        ensures
            final(self).seq@ == old(self).seq@.push(TypedU32 { ty: Ty::F32, value: bits }),
            final(self).info == old(self).info,
    {
        self.seq.push(bits.typed(Ty::F32));
    }

    /// Reads an integer behind spaces and keeps it.
    pub fn read_int(&mut self, input: &[u8], pos: usize) -> (r: Result<(usize, i32), SldError>)
        requires
            pos <= input@.len(),
        ensures
            final(self).info == old(self).info,
            match r {
                Ok((end, v)) => spec_int_at(input@, spec_skip_spaces(input@, pos as int)) == Some(
                    (v, end as int),
                ) && pos < end <= input@.len() && final(self).seq@ == old(self).seq@.push(
                    TypedU32 { ty: Ty::I32, value: spec_unsigned(v) },
                ),
                Err(e) => spec_int_at(input@, spec_skip_spaces(input@, pos as int)) is None && e == (
                SldError::IntExpected { at: spec_skip_spaces(input@, pos as int) as usize })
                    && final(self).seq@ == old(self).seq@,
            },
    {
        let start = skip_spaces(input, pos);
        match int_at(input, start) {
            Some((v, end)) => {
                self.push_int(v);
                Ok((end, v))
            },
            None => Err(SldError::IntExpected { at: start }),
        }
    }

    /// Reads a float behind spaces and keeps what the backend makes of it.
    pub fn read_float<F: Fpu>(&mut self, input: &[u8], pos: usize, fpu: &F) -> (r: Result<
        usize,
        SldError,
    >)
        requires
            pos <= input@.len(),
        ensures
            final(self).info == old(self).info,
            match r {
                Ok(end) => spec_float_end(input@, spec_skip_spaces(input@, pos as int)) == Some(
                    end as int,
                ) && pos < end <= input@.len() && final(self).seq@.len() == old(self).seq@.len() + 1
                    && final(self).seq@.drop_last() == old(self).seq@ && final(self).seq@.last().ty
                    == Ty::F32,
                Err(e) => spec_float_end(input@, spec_skip_spaces(input@, pos as int)) is None && e
                    == (SldError::FloatExpected {
                    at: spec_skip_spaces(input@, pos as int) as usize,
                }) && final(self).seq@ == old(self).seq@,
            },
    {
        let start = skip_spaces(input, pos);
        match float_end(input, start) {
            Some(end) => {
                let bits = fpu.from_decimal(slice_subrange(input, start, end));
                self.push_float(bits);
                assert(self.seq@.drop_last() =~= old(self).seq@);
                Ok(end)
            },
            None => Err(SldError::FloatExpected { at: start }),
        }
    }

    fn int_item(&mut self, input: &[u8], pos: usize, Ghost(acc): Ghost<Seq<SldKind>>) -> (r: Result<
        (usize, i32),
        SldError,
    >)
        requires
            pos <= input@.len(),
            spec_describes(old(self).seq@, acc),
        ensures
            final(self).info == old(self).info,
            match r {
                Ok((end, v)) => spec_read_int(input@, pos as int, acc) matches Some((e, a)) && e
                    == end && a.last() == SldKind::Int(v) && spec_describes(final(self).seq@, a)
                    && pos < end <= input@.len(),
                Err(_) => spec_read_int(input@, pos as int, acc) is None,
            },
    {
        self.read_int(input, pos)
    }

    fn float_items<F: Fpu>(
        &mut self,
        input: &[u8],
        pos: usize,
        fpu: &F,
        count: usize,
        Ghost(acc): Ghost<Seq<SldKind>>,
    ) -> (r: Result<usize, SldError>)
        requires
            pos <= input@.len(),
            spec_describes(old(self).seq@, acc),
        ensures
            final(self).info == old(self).info,
            match r {
                Ok(end) => spec_read_floats(input@, pos as int, acc, count as nat) matches Some(
                    (e, a),
                ) && e == end && spec_describes(final(self).seq@, a) && pos <= end <= input@.len(),
                Err(_) => spec_read_floats(input@, pos as int, acc, count as nat) is None,
            },
    {
        let mut at = pos;
        let mut left = count;
        let ghost mut now = acc;
        while left > 0
            invariant
                pos <= at <= input@.len(),
                self.info == old(self).info,
                spec_describes(self.seq@, now),
                spec_read_floats(input@, pos as int, acc, count as nat) == spec_read_floats(
                    input@,
                    at as int,
                    now,
                    left as nat,
                ),
            decreases left,
        {
            let ghost start = spec_skip_spaces(input@, at as int);
            match self.read_float(input, at, fpu) {
                Ok(end) => {
                    proof {
                        now = now.push(SldKind::Float(input@.subrange(start, end as int)));
                    }
                    at = end;
                },
                Err(e) => {
                    return Err(e);
                },
            }
            left = left - 1;
        }
        Ok(at)
    }

    fn read_env<F: Fpu>(&mut self, input: &[u8], pos: usize, fpu: &F, Ghost(acc): Ghost<
        Seq<SldKind>,
    >) -> (r: Result<usize, SldError>)
        requires
            pos <= input@.len(),
            spec_describes(old(self).seq@, acc),
        ensures
            final(self).info == old(self).info,
            match r {
                Ok(end) => spec_read_env(input@, pos as int, acc) matches Some((e, a)) && e == end
                    && spec_describes(final(self).seq@, a) && end <= input@.len(),
                Err(_) => spec_read_env(input@, pos as int, acc) is None,
            },
    {
        let at_int = self.float_items(input, pos, fpu, 5, Ghost(acc))?;
        let ghost front = (spec_read_floats(input@, pos as int, acc, 5)->0).1;
        let (at_rest, _) = self.int_item(input, at_int, Ghost(front))?;
        let ghost middle = spec_read_env_mid(input@, pos as int, acc);
        self.float_items(input, at_rest, fpu, 3, Ghost(middle))
    }
}

/// What has been read of the environment when its integer has been read.
pub open spec fn spec_read_env_mid(s: Seq<u8>, pos: int, acc: Seq<SldKind>) -> Seq<SldKind> {
    let first = spec_read_floats(s, pos, acc, 5)->0;
    (spec_read_int(s, first.0, first.1)->0).1
}

impl SldDataBuilder {
    /// Reads the rest of an object behind its first integer.
    fn read_object<F: Fpu>(&mut self, input: &[u8], pos: usize, fpu: &F, Ghost(acc): Ghost<
        Seq<SldKind>,
    >) -> (r: Result<usize, SldError>)
        requires
            pos <= input@.len(),
            spec_describes(old(self).seq@, acc),
        ensures
            final(self).info == old(self).info,
            match r {
                Ok(end) => spec_read_object(input@, pos as int, acc) matches Some((e, a)) && e
                    == end && spec_describes(final(self).seq@, a) && pos < end <= input@.len(),
                Err(_) => spec_read_object(input@, pos as int, acc) is None,
            },
    {
        let (at_form, _) = self.int_item(input, pos, Ghost(acc))?;
        let ghost with_kind = (spec_read_int(input@, pos as int, acc)->0).1;
        let (at_rot, _) = self.int_item(input, at_form, Ghost(with_kind))?;
        let ghost with_form = (spec_read_int(input@, at_form as int, with_kind)->0).1;
        let (at_floats, is_rot) = self.int_item(input, at_rot, Ghost(with_form))?;
        let ghost with_rot = (spec_read_int(input@, at_rot as int, with_form)->0).1;
        let at_end = self.float_items(input, at_floats, fpu, 12, Ghost(with_rot))?;
        let ghost with_floats = (spec_read_floats(input@, at_floats as int, with_rot, 12)->0).1;
        if is_rot != 0 {
            self.float_items(input, at_end, fpu, 3, Ghost(with_floats))
        } else {
            Ok(at_end)
        }
    }

    /// Reads the objects up to the integer -1 and counts them.
    fn read_objects<F: Fpu>(&mut self, input: &[u8], pos: usize, fpu: &F, Ghost(acc): Ghost<
        Seq<SldKind>,
    >) -> (r: Result<(usize, usize), SldError>)
        requires
            pos <= input@.len(),
            spec_describes(old(self).seq@, acc),
        ensures
            final(self).info == old(self).info,
            match r {
                Ok((end, count)) => spec_read_objects(input@, pos as int, acc, 0) matches Some(
                    (e, a, c),
                ) && e == end && c == count && spec_describes(final(self).seq@, a) && end
                    <= input@.len(),
                Err(_) => spec_read_objects(input@, pos as int, acc, 0) is None,
            },
    {
        let len = input.len();
        let mut at = pos;
        let mut count: usize = 0;
        let ghost mut now = acc;
        loop
            invariant
                pos <= at <= input@.len(),
                len == input@.len(),
                count <= at - pos,
                self.info == old(self).info,
                spec_describes(self.seq@, now),
                spec_read_objects(input@, pos as int, acc, 0) == spec_read_objects(
                    input@,
                    at as int,
                    now,
                    count as nat,
                ),
            decreases input@.len() - at,
        {
            let (p, id) = self.int_item(input, at, Ghost(now))?;
            let ghost a = (spec_read_int(input@, at as int, now)->0).1;
            if id == -1 {
                return Ok((p, count));
            }
            let q = self.read_object(input, p, fpu, Ghost(a))?;
            proof {
                now = (spec_read_object(input@, p as int, a)->0).1;
            }
            at = q;
            count = count + 1;
        }
    }

    /// Reads integers up to a -1.
    fn read_group(&mut self, input: &[u8], pos: usize, Ghost(acc): Ghost<Seq<SldKind>>) -> (r:
        Result<usize, SldError>)
        requires
            pos <= input@.len(),
            spec_describes(old(self).seq@, acc),
        ensures
            final(self).info == old(self).info,
            match r {
                Ok(end) => spec_read_group(input@, pos as int, acc) matches Some((e, a)) && e
                    == end && spec_describes(final(self).seq@, a) && pos < end <= input@.len(),
                Err(_) => spec_read_group(input@, pos as int, acc) is None,
            },
    {
        let mut at = pos;
        let ghost mut now = acc;
        loop
            invariant
                pos <= at <= input@.len(),
                self.info == old(self).info,
                spec_describes(self.seq@, now),
                spec_read_group(input@, pos as int, acc) == spec_read_group(input@, at as int, now),
            decreases input@.len() - at,
        {
            let (p, id) = self.int_item(input, at, Ghost(now))?;
            if id == -1 {
                return Ok(p);
            }
            proof {
                now = (spec_read_int(input@, at as int, now)->0).1;
            }
            at = p;
        }
    }

    /// Reads groups up to an integer -1 in place of a group.
    fn read_and_net(&mut self, input: &[u8], pos: usize, Ghost(acc): Ghost<Seq<SldKind>>) -> (r:
        Result<usize, SldError>)
        requires
            pos <= input@.len(),
            spec_describes(old(self).seq@, acc),
        ensures
            final(self).info == old(self).info,
            match r {
                Ok(end) => spec_read_net(input@, pos as int, acc) matches Some((e, a)) && e == end
                    && spec_describes(final(self).seq@, a) && pos < end <= input@.len(),
                Err(_) => spec_read_net(input@, pos as int, acc) is None,
            },
    {
        let mut at = pos;
        let ghost mut now = acc;
        loop
            invariant
                pos <= at <= input@.len(),
                self.info == old(self).info,
                spec_describes(self.seq@, now),
                spec_read_net(input@, pos as int, acc) == spec_read_net(input@, at as int, now),
            decreases input@.len() - at,
        {
            let (p, id) = self.int_item(input, at, Ghost(now))?;
            let ghost a = (spec_read_int(input@, at as int, now)->0).1;
            if id == -1 {
                return Ok(p);
            }
            let q = self.read_group(input, p, Ghost(a))?;
            proof {
                now = (spec_read_group(input@, p as int, a)->0).1;
            }
            at = q;
        }
    }

    /// Reads the second network, which has the form of the first.
    fn read_or_net(&mut self, input: &[u8], pos: usize, Ghost(acc): Ghost<Seq<SldKind>>) -> (r:
        Result<usize, SldError>)
        requires
            pos <= input@.len(),
            spec_describes(old(self).seq@, acc),
        ensures
            final(self).info == old(self).info,
            match r {
                Ok(end) => spec_read_net(input@, pos as int, acc) matches Some((e, a)) && e == end
                    && spec_describes(final(self).seq@, a) && pos < end <= input@.len(),
                Err(_) => spec_read_net(input@, pos as int, acc) is None,
            },
    {
        self.read_and_net(input, pos, Ghost(acc))
    }

    /// Reads a whole scene.
    fn read_sld<F: Fpu>(&mut self, input: &[u8], fpu: &F) -> (r: Result<SldInfo, SldError>)
        requires
            old(self).seq@.len() == 0,
        ensures
            final(self).info == old(self).info,
            match r {
                Ok(info) => spec_read_sld(input@) matches Some((kinds, count)) && info.num_objects
                    == count && spec_describes(final(self).seq@, kinds),
                Err(_) => spec_read_sld(input@) is None,
            },
    {
        let ghost nothing = Seq::<SldKind>::empty();
        let at_objects = self.read_env(input, 0, fpu, Ghost(nothing))?;
        let ghost env = (spec_read_env(input@, 0, nothing)->0).1;
        let (at_and, num_objects) = self.read_objects(input, at_objects, fpu, Ghost(env))?;
        let ghost objects = (spec_read_objects(input@, at_objects as int, env, 0)->0).1;
        let at_or = self.read_and_net(input, at_and, Ghost(objects))?;
        let ghost and_net = (spec_read_net(input@, at_and as int, objects)->0).1;
        let _ = self.read_or_net(input, at_or, Ghost(and_net))?;
        Ok(SldInfo { num_objects })
    }

    /// Reads the scene `input`, with `fpu` to make floats of their text.
    ///
    /// The scene is read if and only if it has the form of a scene. The
    /// builder then holds its numbers in their order: each integer as a word
    /// of type `I32`, each float as a word of type `F32` with the bits that
    /// the backend gave for its text.
    pub fn from_sld<F: Fpu>(input: &str, fpu: &F) -> (r: Result<Self, SldError>)
        ensures
            match r {
                Ok(b) => spec_read_sld(input.spec_bytes()) matches Some((kinds, count))
                    && spec_describes(b.seq@, kinds) && b.info is Some && b.info->0.num_objects
                    == count,
                Err(_) => spec_read_sld(input.spec_bytes()) is None,
            },
    {
        let mut s = Self::new();
        let info = s.read_sld(input.as_bytes(), fpu)?;
        s.info = Some(info);
        Ok(s)
    }
}

/// The numbers of a scene, as the input of a program.
pub struct SldData {
    seq: Vec<TypedU32>,
    read_index: usize,
    info: SldInfo,
}

impl SldData {
    /// The numbers that have not been read yet.
    pub closed spec fn view(&self) -> Seq<TypedU32> {
        self.seq@.subrange(self.read_index as int, self.seq@.len() as int)
    }

    /// How many numbers have been read.
    pub closed spec fn spec_read_index(&self) -> int {
        self.read_index as int
    }

    /// How many objects the scene has.
    pub closed spec fn spec_num_objects(&self) -> usize {
        self.info.num_objects
    }

    #[verifier::type_invariant]
    spec fn in_range(&self) -> bool {
        self.read_index <= self.seq@.len()
    }

    /// Reads the scene `sld_str`; see `SldDataBuilder::from_sld`.
    pub fn parse<F: Fpu>(sld_str: &str, fpu: &F) -> (r: Result<Self, SldError>)
        ensures
            match r {
                Ok(d) => spec_read_sld(sld_str.spec_bytes()) matches Some((kinds, count))
                    && spec_describes(d@, kinds) && d.spec_num_objects() == count
                    && d.spec_read_index() == 0,
                Err(_) => spec_read_sld(sld_str.spec_bytes()) is None,
            },
    {
        match SldDataBuilder::from_sld(sld_str, fpu) {
            Ok(SldDataBuilder { seq, info }) => {
                let d = Self { seq, read_index: 0, info: info.unwrap() };
                assert(d@ =~= d.seq@);
                Ok(d)
            },
            Err(e) => Err(e),
        }
    }

    pub fn num_objects(&self) -> (n: usize)
        ensures
            n == self.spec_num_objects(),
    {
        self.info.num_objects
    }

    /// How many numbers are left.
    pub fn remaining(&self) -> (n: usize)
        ensures
            n == self@.len(),
    {
        proof {
            use_type_invariant(self);
        }
        self.seq.len() - self.read_index
    }

    /// The number at place `index` of the numbers that are left.
    pub fn peek(&self, index: usize) -> (r: Option<TypedU32>)
        ensures
            r == (if index < self@.len() {
                Some(self@[index as int])
            } else {
                None
            }),
    {
        proof {
            use_type_invariant(self);
        }
        if index < self.seq.len() - self.read_index {
            Some(self.seq[self.read_index + index])
        } else {
            None
        }
    }

    /// Takes the next number off the input if its type is `ty`.
    fn take(&mut self, ty: Ty) -> (r: Result<u32, IoError>)
        ensures
            final(self).spec_num_objects() == old(self).spec_num_objects(),
            match r {
                Ok(v) => old(self)@.len() > 0 && old(self)@[0] == (TypedU32 { ty, value: v })
                    && final(self)@ == old(self)@.skip(1) && final(self).spec_read_index() == old(self).spec_read_index() + 1,
                Err(e) => (old(self)@.len() == 0 || old(self)@[0].ty != ty) && final(self)@ == old(self)@ && final(self).spec_read_index() == old(self).spec_read_index() && e.message@
                    == spec_take_message(old(self)@, old(self).spec_read_index(), ty),
            },
    {
        proof {
            use_type_invariant(&*self);
        }
        if self.read_index >= self.seq.len() {
            return Err(IoError { message: String::from_str("input exhausted") });
        }
        let v = self.seq[self.read_index];
        if v.ty == ty {
            self.read_index = self.read_index + 1;
            assert(self@ =~= old(self)@.skip(1));
            Ok(v.get_unchecked())
        } else {
            let mut message = String::from_str("attempted to read ");
            message.append(v.ty.name());
            message.append(" data as ");
            message.append(ty.name());
            message.append(": at index ");
            push_decimal(&mut message, self.read_index as u64);
            Err(IoError { message })
        }
    }
}

/// What the input device says when the next number cannot be taken as `ty`.
pub open spec fn spec_take_message(left: Seq<TypedU32>, index: int, ty: Ty) -> Seq<char> {
    if left.len() == 0 {
        "input exhausted"@
    } else {
        "attempted to read "@ + left[0].ty.spec_name() + " data as "@ + ty.spec_name()
            + ": at index "@ + decimal_text(index as nat)
    }
}

impl Input for SldData {
    /// Takes the next number, which must be an integer.
    fn inw(&mut self) -> (r: Result<u32, IoError>)
        ensures
            match r {
                Ok(v) => old(self)@.len() > 0 && old(self)@[0] == (TypedU32 {
                    ty: Ty::I32,
                    value: v,
                }) && final(self)@ == old(self)@.skip(1),
                Err(_) => (old(self)@.len() == 0 || old(self)@[0].ty != Ty::I32) && final(self)@
                    == old(self)@,
            },
    {
        self.take(Ty::I32)
    }

    /// Takes the next number, which must be a float.
    fn finw(&mut self) -> (r: Result<u32, IoError>)
        ensures
            match r {
                Ok(v) => old(self)@.len() > 0 && old(self)@[0] == (TypedU32 {
                    ty: Ty::F32,
                    value: v,
                }) && final(self)@ == old(self)@.skip(1),
                Err(_) => (old(self)@.len() == 0 || old(self)@[0].ty != Ty::F32) && final(self)@
                    == old(self)@,
            },
    {
        self.take(Ty::F32)
    }
}

} // verus!
