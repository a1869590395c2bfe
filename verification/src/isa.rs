//! The two instruction encodings of the processor.

use vstd::prelude::*;

verus! {

/// Which instruction encoding a program image uses.
#[derive(Clone, Copy, Debug, PartialEq, Eq, Structural)]
pub enum Dialect {
    /// The first layout: 7-bit opcodes, 32 registers.
    V1,
    /// The packed layout: 4-bit opcodes, 64 registers.
    V2,
}

impl Dialect {
    /// Number of bits of a register identifier.
    pub open spec fn spec_reg_bit_width(self) -> u32 {
        match self {
            Dialect::V1 => 5,
            Dialect::V2 => 6,
        }
    }

    /// Number of registers of each kind.
    pub open spec fn spec_reg_count(self) -> usize {
        match self {
            Dialect::V1 => 32,
            Dialect::V2 => 64,
        }
    }

    /// The word that encodes the halt instruction.
    pub open spec fn spec_end_word(self) -> u32 {
        match self {
            Dialect::V1 => 0,
            Dialect::V2 => 0x8000_0000,
        }
    }

    pub fn reg_bit_width(self) -> (w: u32)
        ensures
            w == self.spec_reg_bit_width(),
    {
        match self {
            Dialect::V1 => 5,
            Dialect::V2 => 6,
        }
    }

    pub fn reg_count(self) -> (n: usize)
        ensures
            n == self.spec_reg_count(),
    {
        match self {
            Dialect::V1 => 32,
            Dialect::V2 => 64,
        }
    }

    pub fn end_word(self) -> (w: u32)
        ensures
            w == self.spec_end_word(),
    {
        match self {
            Dialect::V1 => 0,
            Dialect::V2 => 0x8000_0000,
        }
    }
}

} // verus!
