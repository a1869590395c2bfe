//! The picture that a program writes: a binary PPM file, byte by byte.

use crate::io::{IoError, Output};
use crate::sld::{
    digits_end, is_digit, lemma_digits_grow, skip_spaces, spec_digits_end, spec_digits_value,
    spec_skip_spaces,
};
use crate::text::{decimal_text, push_decimal};
use vstd::prelude::*;
use vstd::string::*;

verus! {

pub type PPMData = PPMDataV6;

/// The bytes of a picture in the binary PPM format.
pub struct PPMDataV6 {
    inner: Vec<u8>,
}

/// What the header of a picture says.
#[derive(Debug, Clone, Copy, PartialEq, Eq, Structural)]
pub struct PPMHeaderInfo {
    pub width: u32,
    pub height: u32,
    /// The largest value of a colour.
    pub color: u32,
}

/// Why the bytes do not start with the header of a picture.
#[derive(Debug, Clone, Copy, PartialEq, Eq, Structural)]
pub struct PPMHeaderError {
    /// The byte position at which the header goes wrong.
    pub at: usize,
}

impl PPMHeaderError {
    pub open spec fn spec_message(self) -> Seq<char> {
        "invalid header had been generated. failed to parse header: unexpected byte at "@
            + decimal_text(self.at as nat)
    }

    /// The text of the error as it is shown to the user.
    pub fn message(&self) -> (m: String)
        ensures
            m@ == self.spec_message(),
    {
        let mut m = String::from_str(
            "invalid header had been generated. failed to parse header: unexpected byte at ",
        );
        push_decimal(&mut m, self.at as u64);
        m
    }
}

/// The number at `pos`, and where it ends: at least one digit, spelling a
/// number that 32 bits hold.
pub open spec fn spec_uint_at(s: Seq<u8>, pos: int) -> Option<(u32, int)> {
    let end = spec_digits_end(s, pos);
    if end > pos && spec_digits_value(s, pos, end) <= u32::MAX {
        Some((spec_digits_value(s, pos, end) as u32, end))
    } else {
        None
    }
}

/// A number behind at least one space, and where it ends.
pub open spec fn spec_field(s: Seq<u8>, pos: int) -> Option<(u32, int)> {
    if spec_skip_spaces(s, pos) > pos {
        spec_uint_at(s, spec_skip_spaces(s, pos))
    } else {
        None
    }
}

/// The header at the start of `s`: the two letters that name the binary
/// format, a capital P and the digit six, then width, height and
/// colour range, each behind at least one space, and at least one space
/// behind the last.
pub open spec fn spec_header(s: Seq<u8>) -> Option<PPMHeaderInfo> {
    if s.len() >= 2 && s[0] == 0x50 && s[1] == 0x36 {
        match spec_field(s, 2) {
            Some((width, p)) => match spec_field(s, p) {
                Some((height, p)) => match spec_field(s, p) {
                    Some((color, p)) => if spec_skip_spaces(s, p) > p {
                        Some(PPMHeaderInfo { width, height, color })
                    } else {
                        None
                    },
                    None => None,
                },
                None => None,
            },
            None => None,
        }
    } else {
        None
    }
}

#[verifier::loop_isolation(false)]
fn uint_at(input: &[u8], pos: usize) -> (r: Option<(u32, usize)>)
    requires
        pos <= input@.len(),
    ensures
        match r {
            Some((v, end)) => spec_uint_at(input@, pos as int) == Some((v, end as int)) && pos < end
                <= input@.len(),
            None => spec_uint_at(input@, pos as int) is None,
        },
{
    let end = digits_end(input, pos);
    if end == pos {
        return None;
    }
    let mut value: u64 = 0;
    let mut i = pos;
    while i < end
        invariant
            pos <= i <= end <= input@.len(),
            value == spec_digits_value(input@, pos as int, i as int),
            value <= u32::MAX,
            forall|k: int| pos <= k < end ==> is_digit(#[trigger] input@[k]),
        decreases end - i,
    {
        let digit: u64 = (input[i] - 0x30) as u64;
        let next: u64 = value * 10 + digit;
        if next > 0xffff_ffff {
            proof {
                assert(spec_digits_value(input@, pos as int, i + 1) == next);
                lemma_digits_grow(input@, pos as int, i + 1, end as int);
            }
            return None;
        }
        value = next;
        i = i + 1;
    }
    Some((value as u32, end))
}

fn field(input: &[u8], pos: usize) -> (r: Result<(u32, usize), PPMHeaderError>)
    requires
        pos <= input@.len(),
    ensures
        match r {
            Ok((v, end)) => spec_field(input@, pos as int) == Some((v, end as int)) && pos < end
                <= input@.len(),
            Err(_) => spec_field(input@, pos as int) is None,
        },
{
    let start = skip_spaces(input, pos);
    if start == pos {
        return Err(PPMHeaderError { at: pos });
    }
    match uint_at(input, start) {
        Some(r) => Ok(r),
        None => Err(PPMHeaderError { at: start }),
    }
}

/// Reads the header at the start of `input`.
pub fn parse_ppmv6_header(input: &[u8]) -> (r: Result<PPMHeaderInfo, PPMHeaderError>)
    ensures
        match r {
            Ok(h) => spec_header(input@) == Some(h),
            Err(_) => spec_header(input@) is None,
        },
{
    if !(input.len() >= 2 && input[0] == 0x50 && input[1] == 0x36) {
        return Err(PPMHeaderError { at: 0 });
    }
    let (width, p) = field(input, 2)?;
    let (height, p) = field(input, p)?;
    let (color, p) = field(input, p)?;
    if skip_spaces(input, p) == p {
        return Err(PPMHeaderError { at: p });
    }
    Ok(PPMHeaderInfo { width, height, color })
}

impl PPMDataV6 {
    /// The bytes written so far.
    pub closed spec fn view(&self) -> Seq<u8> {
        self.inner@
    }

    pub fn into_inner(self) -> (v: Vec<u8>)
        ensures
            v@ == self@,
    {
        self.inner
    }

    pub fn new() -> (p: Self)
        ensures
            p@ == Seq::<u8>::empty(),
    {
        Self { inner: Vec::with_capacity(128 * 128 * 3) }
    }

    /// Checks that what has been written starts with a header, and tells
    /// what the header says.
    pub fn verify_header(&self) -> (r: Result<PPMHeaderInfo, PPMHeaderError>)
        ensures
            match r {
                Ok(h) => spec_header(self@) == Some(h),
                Err(_) => spec_header(self@) is None,
            },
    {
        parse_ppmv6_header(self.inner.as_slice())
    }
}

impl Default for PPMDataV6 {
    fn default() -> (p: Self)
        ensures
            p@ == Seq::<u8>::empty(),
    {
        Self::new()
    }
}

impl Output for PPMDataV6 {
    open spec fn written(&self) -> Seq<u8> {
        self@
    }

    fn outb(&mut self, c: u8) -> (r: Result<(), IoError>)
        ensures
            r is Ok,
            final(self)@ == old(self)@.push(c),
    {
        self.inner.push(c);
        Ok(())
    }
}

} // verus!
