//! The instruction model: one tagged variant per instruction form, a numeric
//! identifier per operation, and the assembly text of a decoded instruction.

use crate::isa::Dialect;
use crate::register::{abi_name, f_abi_name, FRegId, RegId};
use crate::execute::{signed, spec_signed};
use crate::text::{decimal_text, push_decimal, push_signed, signed_text};
use vstd::prelude::*;
use vstd::string::*;

verus! {

/// An instruction. Immediates are stored sign-extended, as 32-bit patterns.
/// `IR` and `FR` stand for integer and float sources, `IW` and `FW` for
/// integer and float destinations.
#[allow(inconsistent_fields)]
#[derive(Debug, Clone, Copy, PartialEq, Eq)]
pub enum Instr<IR, IW, FR, FW> {
    R { instr: RInstr, rd: IW, rs1: IR, rs2: IR },
    I { instr: IInstr, rd: IW, rs1: IR, imm: u32 },
    S { instr: SInstr, rs1: IR, rs2: IR, imm: u32 },
    B { instr: BInstr, rs1: IR, rs2: IR, imm: u32 },
    P { instr: PInstr, rs1: IR, imm: u32, imm2: u32 },
    J { instr: JInstr, rd: IW, imm: u32 },
    IO(IOInstr<IR, IW, FW>),
    F(FInstr<IR, IW, FR, FW>),
    Misc(MiscInstr),
}

/// The float instructions.
#[allow(inconsistent_fields)]
#[derive(Debug, Clone, Copy, PartialEq, Eq)]
pub enum FInstr<IR, IW, FR, FW> {
    E { instr: EInstr, rd: FW, rs1: FR, rs2: FR },
    G { instr: GInstr, rd: FW, rs1: FR, rs2: FR, rs3: FR },
    H { instr: HInstr, rd: FW, rs1: FR },
    K { instr: KInstr, rd: IW, rs1: FR, rs2: FR },
    X { instr: XInstr, rd: FW, rs1: IR },
    Y { instr: YInstr, rd: IW, rs1: FR },
    W { instr: WInstr, rs1: FR, rs2: FR, imm: u32 },
    V { instr: VInstr, rs1: FR, imm: u32 },
    /// Float load.
    Flw { rd: FW, rs1: IR, imm: u32 },
    /// Float store.
    Fsw { rs2: FR, rs1: IR, imm: u32 },
}

/// The input and output instructions.
#[allow(inconsistent_fields)]
#[derive(Debug, Clone, Copy, PartialEq, Eq)]
pub enum IOInstr<IR, IW, FW> {
    Outb { rs: IR },
    Inw { rd: IW },
    Finw { rd: FW },
}

#[derive(Debug, Clone, Copy, PartialEq, Eq, Structural)]
pub enum MiscInstr {
    End,
}

/// An instruction as the decoder produces it: every operand is a register.
pub type DecodedInstr = Instr<RegId, RegId, FRegId, FRegId>;

/// An instruction whose sources have been read: integer sources are words,
/// float sources are bit patterns.
pub type FetchedInstr = Instr<u32, RegId, u32, FRegId>;

/// Register-register integer operations.
#[derive(Debug, Clone, Copy, PartialEq, Eq, Structural)]
pub enum RInstr {
    Add,
    Sub,
    Xor,
    Or,
    And,
    Sll,
    Sra,
    Slt,
    Min,
    Max,
}

impl RInstr {
    /// The mnemonic.
    pub open spec fn spec_name(self) -> Seq<char> {
        match self {
            RInstr::Add => "add"@,
            RInstr::Sub => "sub"@,
            RInstr::Xor => "xor"@,
            RInstr::Or => "or"@,
            RInstr::And => "and"@,
            RInstr::Sll => "sll"@,
            RInstr::Sra => "sra"@,
            RInstr::Slt => "slt"@,
            RInstr::Min => "min"@,
            RInstr::Max => "max"@,
        }
    }

    pub fn name(self) -> (s: &'static str)
        ensures
            s@ == self.spec_name(),
    {
        match self {
            RInstr::Add => "add",
            RInstr::Sub => "sub",
            RInstr::Xor => "xor",
            RInstr::Or => "or",
            RInstr::And => "and",
            RInstr::Sll => "sll",
            RInstr::Sra => "sra",
            RInstr::Slt => "slt",
            RInstr::Min => "min",
            RInstr::Max => "max",
        }
    }

    /// The operation's number within its category in encoding `d`, if the
    /// encoding has the operation.
    pub open spec fn spec_index(self, d: Dialect) -> Option<u8> {
        match (d, self) {
            (Dialect::V1, RInstr::Add) => Some(0),
            (Dialect::V1, RInstr::Sub) => Some(1),
            (Dialect::V1, RInstr::Xor) => Some(2),
            (Dialect::V1, RInstr::Or) => Some(3),
            (Dialect::V1, RInstr::And) => Some(4),
            (Dialect::V1, RInstr::Sll) => Some(5),
            (Dialect::V1, RInstr::Sra) => Some(6),
            (Dialect::V1, RInstr::Slt) => Some(7),
            (Dialect::V2, RInstr::Add) => Some(0),
            (Dialect::V2, RInstr::Xor) => Some(1),
            (Dialect::V2, RInstr::Min) => Some(2),
            (Dialect::V2, RInstr::Max) => Some(3),
            _ => None,
        }
    }

    pub fn index(self, d: Dialect) -> (i: Option<u8>)
        ensures
            i == self.spec_index(d),
    {
        match (d, self) {
            (Dialect::V1, RInstr::Add) => Some(0),
            (Dialect::V1, RInstr::Sub) => Some(1),
            (Dialect::V1, RInstr::Xor) => Some(2),
            (Dialect::V1, RInstr::Or) => Some(3),
            (Dialect::V1, RInstr::And) => Some(4),
            (Dialect::V1, RInstr::Sll) => Some(5),
            (Dialect::V1, RInstr::Sra) => Some(6),
            (Dialect::V1, RInstr::Slt) => Some(7),
            (Dialect::V2, RInstr::Add) => Some(0),
            (Dialect::V2, RInstr::Xor) => Some(1),
            (Dialect::V2, RInstr::Min) => Some(2),
            (Dialect::V2, RInstr::Max) => Some(3),
            _ => None,
        }
    }

    /// The operation with number `i` in encoding `d`.
    pub open spec fn spec_from_index(d: Dialect, i: u8) -> Option<Self> {
        match (d, i) {
            (Dialect::V1, 0) => Some(RInstr::Add),
            (Dialect::V1, 1) => Some(RInstr::Sub),
            (Dialect::V1, 2) => Some(RInstr::Xor),
            (Dialect::V1, 3) => Some(RInstr::Or),
            (Dialect::V1, 4) => Some(RInstr::And),
            (Dialect::V1, 5) => Some(RInstr::Sll),
            (Dialect::V1, 6) => Some(RInstr::Sra),
            (Dialect::V1, 7) => Some(RInstr::Slt),
            (Dialect::V2, 0) => Some(RInstr::Add),
            (Dialect::V2, 1) => Some(RInstr::Xor),
            (Dialect::V2, 2) => Some(RInstr::Min),
            (Dialect::V2, 3) => Some(RInstr::Max),
            _ => None,
        }
    }

    pub fn from_index(d: Dialect, i: u8) -> (r: Option<Self>)
        ensures
            r == Self::spec_from_index(d, i),
    {
        match (d, i) {
            (Dialect::V1, 0) => Some(RInstr::Add),
            (Dialect::V1, 1) => Some(RInstr::Sub),
            (Dialect::V1, 2) => Some(RInstr::Xor),
            (Dialect::V1, 3) => Some(RInstr::Or),
            (Dialect::V1, 4) => Some(RInstr::And),
            (Dialect::V1, 5) => Some(RInstr::Sll),
            (Dialect::V1, 6) => Some(RInstr::Sra),
            (Dialect::V1, 7) => Some(RInstr::Slt),
            (Dialect::V2, 0) => Some(RInstr::Add),
            (Dialect::V2, 1) => Some(RInstr::Xor),
            (Dialect::V2, 2) => Some(RInstr::Min),
            (Dialect::V2, 3) => Some(RInstr::Max),
            _ => None,
        }
    }

    /// Numbering and lookup are inverse to each other, and numbers stay below 8.
    pub proof fn lemma_index(self, d: Dialect, i: u8)
        ensures
            self.spec_index(d) == Some(i) <==> Self::spec_from_index(d, i) == Some(self),
            self.spec_index(d) == Some(i) ==> i < 8,
    {
    }
}

/// Register-immediate integer operations, loads and indirect jumps.
#[derive(Debug, Clone, Copy, PartialEq, Eq, Structural)]
pub enum IInstr {
    Addi,
    Xori,
    Ori,
    Andi,
    Slli,
    Slti,
    Lw,
    Jalr,
}

impl IInstr {
    /// The mnemonic.
    pub open spec fn spec_name(self) -> Seq<char> {
        match self {
            IInstr::Addi => "addi"@,
            IInstr::Xori => "xori"@,
            IInstr::Ori => "ori"@,
            IInstr::Andi => "andi"@,
            IInstr::Slli => "slli"@,
            IInstr::Slti => "slti"@,
            IInstr::Lw => "lw"@,
            IInstr::Jalr => "jalr"@,
        }
    }

    pub fn name(self) -> (s: &'static str)
        ensures
            s@ == self.spec_name(),
    {
        match self {
            IInstr::Addi => "addi",
            IInstr::Xori => "xori",
            IInstr::Ori => "ori",
            IInstr::Andi => "andi",
            IInstr::Slli => "slli",
            IInstr::Slti => "slti",
            IInstr::Lw => "lw",
            IInstr::Jalr => "jalr",
        }
    }

    /// The operation's number within its category in encoding `d`, if the
    /// encoding has the operation.
    pub open spec fn spec_index(self, d: Dialect) -> Option<u8> {
        match (d, self) {
            (Dialect::V1, IInstr::Addi) => Some(0),
            (Dialect::V1, IInstr::Xori) => Some(1),
            (Dialect::V1, IInstr::Ori) => Some(2),
            (Dialect::V1, IInstr::Andi) => Some(3),
            (Dialect::V1, IInstr::Slli) => Some(4),
            (Dialect::V1, IInstr::Slti) => Some(5),
            (Dialect::V1, IInstr::Lw) => Some(6),
            (Dialect::V1, IInstr::Jalr) => Some(7),
            (Dialect::V2, IInstr::Addi) => Some(0),
            (Dialect::V2, IInstr::Xori) => Some(1),
            (Dialect::V2, IInstr::Slli) => Some(2),
            (Dialect::V2, IInstr::Lw) => Some(3),
            (Dialect::V2, IInstr::Jalr) => Some(4),
            _ => None,
        }
    }

    pub fn index(self, d: Dialect) -> (i: Option<u8>)
        ensures
            i == self.spec_index(d),
    {
        match (d, self) {
            (Dialect::V1, IInstr::Addi) => Some(0),
            (Dialect::V1, IInstr::Xori) => Some(1),
            (Dialect::V1, IInstr::Ori) => Some(2),
            (Dialect::V1, IInstr::Andi) => Some(3),
            (Dialect::V1, IInstr::Slli) => Some(4),
            (Dialect::V1, IInstr::Slti) => Some(5),
            (Dialect::V1, IInstr::Lw) => Some(6),
            (Dialect::V1, IInstr::Jalr) => Some(7),
            (Dialect::V2, IInstr::Addi) => Some(0),
            (Dialect::V2, IInstr::Xori) => Some(1),
            (Dialect::V2, IInstr::Slli) => Some(2),
            (Dialect::V2, IInstr::Lw) => Some(3),
            (Dialect::V2, IInstr::Jalr) => Some(4),
            _ => None,
        }
    }

    /// The operation with number `i` in encoding `d`.
    pub open spec fn spec_from_index(d: Dialect, i: u8) -> Option<Self> {
        match (d, i) {
            (Dialect::V1, 0) => Some(IInstr::Addi),
            (Dialect::V1, 1) => Some(IInstr::Xori),
            (Dialect::V1, 2) => Some(IInstr::Ori),
            (Dialect::V1, 3) => Some(IInstr::Andi),
            (Dialect::V1, 4) => Some(IInstr::Slli),
            (Dialect::V1, 5) => Some(IInstr::Slti),
            (Dialect::V1, 6) => Some(IInstr::Lw),
            (Dialect::V1, 7) => Some(IInstr::Jalr),
            (Dialect::V2, 0) => Some(IInstr::Addi),
            (Dialect::V2, 1) => Some(IInstr::Xori),
            (Dialect::V2, 2) => Some(IInstr::Slli),
            (Dialect::V2, 3) => Some(IInstr::Lw),
            (Dialect::V2, 4) => Some(IInstr::Jalr),
            _ => None,
        }
    }

    pub fn from_index(d: Dialect, i: u8) -> (r: Option<Self>)
        ensures
            r == Self::spec_from_index(d, i),
    {
        match (d, i) {
            (Dialect::V1, 0) => Some(IInstr::Addi),
            (Dialect::V1, 1) => Some(IInstr::Xori),
            (Dialect::V1, 2) => Some(IInstr::Ori),
            (Dialect::V1, 3) => Some(IInstr::Andi),
            (Dialect::V1, 4) => Some(IInstr::Slli),
            (Dialect::V1, 5) => Some(IInstr::Slti),
            (Dialect::V1, 6) => Some(IInstr::Lw),
            (Dialect::V1, 7) => Some(IInstr::Jalr),
            (Dialect::V2, 0) => Some(IInstr::Addi),
            (Dialect::V2, 1) => Some(IInstr::Xori),
            (Dialect::V2, 2) => Some(IInstr::Slli),
            (Dialect::V2, 3) => Some(IInstr::Lw),
            (Dialect::V2, 4) => Some(IInstr::Jalr),
            _ => None,
        }
    }

    /// Numbering and lookup are inverse to each other, and numbers stay below 8.
    pub proof fn lemma_index(self, d: Dialect, i: u8)
        ensures
            self.spec_index(d) == Some(i) <==> Self::spec_from_index(d, i) == Some(self),
            self.spec_index(d) == Some(i) ==> i < 8,
    {
    }
}

/// Integer stores.
#[derive(Debug, Clone, Copy, PartialEq, Eq, Structural)]
pub enum SInstr {
    Sw,
}

impl SInstr {
    /// The mnemonic.
    pub open spec fn spec_name(self) -> Seq<char> {
        match self {
            SInstr::Sw => "sw"@,
        }
    }

    pub fn name(self) -> (s: &'static str)
        ensures
            s@ == self.spec_name(),
    {
        match self {
            SInstr::Sw => "sw",
        }
    }

    /// The operation's number within its category in encoding `d`, if the
    /// encoding has the operation.
    pub open spec fn spec_index(self, d: Dialect) -> Option<u8> {
        match (d, self) {
            (_, SInstr::Sw) => Some(0),
        }
    }

    pub fn index(self, d: Dialect) -> (i: Option<u8>)
        ensures
            i == self.spec_index(d),
    {
        match (d, self) {
            (_, SInstr::Sw) => Some(0),
        }
    }

    /// The operation with number `i` in encoding `d`.
    pub open spec fn spec_from_index(d: Dialect, i: u8) -> Option<Self> {
        match (d, i) {
            (_, 0) => Some(SInstr::Sw),
            _ => None,
        }
    }

    pub fn from_index(d: Dialect, i: u8) -> (r: Option<Self>)
        ensures
            r == Self::spec_from_index(d, i),
    {
        match (d, i) {
            (_, 0) => Some(SInstr::Sw),
            _ => None,
        }
    }

    /// Numbering and lookup are inverse to each other, and numbers stay below 8.
    pub proof fn lemma_index(self, d: Dialect, i: u8)
        ensures
            self.spec_index(d) == Some(i) <==> Self::spec_from_index(d, i) == Some(self),
            self.spec_index(d) == Some(i) ==> i < 8,
    {
    }
}

/// Branches that compare two integer registers.
#[derive(Debug, Clone, Copy, PartialEq, Eq, Structural)]
pub enum BInstr {
    Beq,
    Bne,
    Blt,
    Bge,
    Bxor,
    Bxnor,
}

impl BInstr {
    /// The mnemonic.
    pub open spec fn spec_name(self) -> Seq<char> {
        match self {
            BInstr::Beq => "beq"@,
            BInstr::Bne => "bne"@,
            BInstr::Blt => "blt"@,
            BInstr::Bge => "bge"@,
            BInstr::Bxor => "bxor"@,
            BInstr::Bxnor => "bxnor"@,
        }
    }

    pub fn name(self) -> (s: &'static str)
        ensures
            s@ == self.spec_name(),
    {
        match self {
            BInstr::Beq => "beq",
            BInstr::Bne => "bne",
            BInstr::Blt => "blt",
            BInstr::Bge => "bge",
            BInstr::Bxor => "bxor",
            BInstr::Bxnor => "bxnor",
        }
    }

    /// The operation's number within its category in encoding `d`, if the
    /// encoding has the operation.
    pub open spec fn spec_index(self, d: Dialect) -> Option<u8> {
        match (d, self) {
            (Dialect::V1, BInstr::Beq) => Some(0),
            (Dialect::V1, BInstr::Bne) => Some(1),
            (Dialect::V1, BInstr::Blt) => Some(2),
            (Dialect::V1, BInstr::Bge) => Some(3),
            (Dialect::V2, BInstr::Beq) => Some(0),
            (Dialect::V2, BInstr::Bne) => Some(1),
            (Dialect::V2, BInstr::Blt) => Some(2),
            (Dialect::V2, BInstr::Bge) => Some(3),
            (Dialect::V2, BInstr::Bxor) => Some(4),
            (Dialect::V2, BInstr::Bxnor) => Some(5),
            _ => None,
        }
    }

    pub fn index(self, d: Dialect) -> (i: Option<u8>)
        ensures
            i == self.spec_index(d),
    {
        match (d, self) {
            (Dialect::V1, BInstr::Beq) => Some(0),
            (Dialect::V1, BInstr::Bne) => Some(1),
            (Dialect::V1, BInstr::Blt) => Some(2),
            (Dialect::V1, BInstr::Bge) => Some(3),
            (Dialect::V2, BInstr::Beq) => Some(0),
            (Dialect::V2, BInstr::Bne) => Some(1),
            (Dialect::V2, BInstr::Blt) => Some(2),
            (Dialect::V2, BInstr::Bge) => Some(3),
            (Dialect::V2, BInstr::Bxor) => Some(4),
            (Dialect::V2, BInstr::Bxnor) => Some(5),
            _ => None,
        }
    }

    /// The operation with number `i` in encoding `d`.
    pub open spec fn spec_from_index(d: Dialect, i: u8) -> Option<Self> {
        match (d, i) {
            (Dialect::V1, 0) => Some(BInstr::Beq),
            (Dialect::V1, 1) => Some(BInstr::Bne),
            (Dialect::V1, 2) => Some(BInstr::Blt),
            (Dialect::V1, 3) => Some(BInstr::Bge),
            (Dialect::V2, 0) => Some(BInstr::Beq),
            (Dialect::V2, 1) => Some(BInstr::Bne),
            (Dialect::V2, 2) => Some(BInstr::Blt),
            (Dialect::V2, 3) => Some(BInstr::Bge),
            (Dialect::V2, 4) => Some(BInstr::Bxor),
            (Dialect::V2, 5) => Some(BInstr::Bxnor),
            _ => None,
        }
    }

    pub fn from_index(d: Dialect, i: u8) -> (r: Option<Self>)
        ensures
            r == Self::spec_from_index(d, i),
    {
        match (d, i) {
            (Dialect::V1, 0) => Some(BInstr::Beq),
            (Dialect::V1, 1) => Some(BInstr::Bne),
            (Dialect::V1, 2) => Some(BInstr::Blt),
            (Dialect::V1, 3) => Some(BInstr::Bge),
            (Dialect::V2, 0) => Some(BInstr::Beq),
            (Dialect::V2, 1) => Some(BInstr::Bne),
            (Dialect::V2, 2) => Some(BInstr::Blt),
            (Dialect::V2, 3) => Some(BInstr::Bge),
            (Dialect::V2, 4) => Some(BInstr::Bxor),
            (Dialect::V2, 5) => Some(BInstr::Bxnor),
            _ => None,
        }
    }

    /// Numbering and lookup are inverse to each other, and numbers stay below 8.
    pub proof fn lemma_index(self, d: Dialect, i: u8)
        ensures
            self.spec_index(d) == Some(i) <==> Self::spec_from_index(d, i) == Some(self),
            self.spec_index(d) == Some(i) ==> i < 8,
    {
    }
}

/// Branches that compare an integer register with a small immediate.
#[derive(Debug, Clone, Copy, PartialEq, Eq, Structural)]
pub enum PInstr {
    Beqi,
    Bnei,
    Blti,
    Bgei,
    Bgti,
    Blei,
}

impl PInstr {
    /// The mnemonic.
    pub open spec fn spec_name(self) -> Seq<char> {
        match self {
            PInstr::Beqi => "beqi"@,
            PInstr::Bnei => "bnei"@,
            PInstr::Blti => "blti"@,
            PInstr::Bgei => "bgei"@,
            PInstr::Bgti => "bgti"@,
            PInstr::Blei => "blei"@,
        }
    }

    pub fn name(self) -> (s: &'static str)
        ensures
            s@ == self.spec_name(),
    {
        match self {
            PInstr::Beqi => "beqi",
            PInstr::Bnei => "bnei",
            PInstr::Blti => "blti",
            PInstr::Bgei => "bgei",
            PInstr::Bgti => "bgti",
            PInstr::Blei => "blei",
        }
    }

    /// The operation's number within its category in encoding `d`, if the
    /// encoding has the operation.
    pub open spec fn spec_index(self, d: Dialect) -> Option<u8> {
        match (d, self) {
            (Dialect::V2, PInstr::Beqi) => Some(0),
            (Dialect::V2, PInstr::Bnei) => Some(1),
            (Dialect::V2, PInstr::Blti) => Some(2),
            (Dialect::V2, PInstr::Bgei) => Some(3),
            (Dialect::V2, PInstr::Bgti) => Some(4),
            (Dialect::V2, PInstr::Blei) => Some(5),
            _ => None,
        }
    }

    pub fn index(self, d: Dialect) -> (i: Option<u8>)
        ensures
            i == self.spec_index(d),
    {
        match (d, self) {
            (Dialect::V2, PInstr::Beqi) => Some(0),
            (Dialect::V2, PInstr::Bnei) => Some(1),
            (Dialect::V2, PInstr::Blti) => Some(2),
            (Dialect::V2, PInstr::Bgei) => Some(3),
            (Dialect::V2, PInstr::Bgti) => Some(4),
            (Dialect::V2, PInstr::Blei) => Some(5),
            _ => None,
        }
    }

    /// The operation with number `i` in encoding `d`.
    pub open spec fn spec_from_index(d: Dialect, i: u8) -> Option<Self> {
        match (d, i) {
            (Dialect::V2, 0) => Some(PInstr::Beqi),
            (Dialect::V2, 1) => Some(PInstr::Bnei),
            (Dialect::V2, 2) => Some(PInstr::Blti),
            (Dialect::V2, 3) => Some(PInstr::Bgei),
            (Dialect::V2, 4) => Some(PInstr::Bgti),
            (Dialect::V2, 5) => Some(PInstr::Blei),
            _ => None,
        }
    }

    pub fn from_index(d: Dialect, i: u8) -> (r: Option<Self>)
        ensures
            r == Self::spec_from_index(d, i),
    {
        match (d, i) {
            (Dialect::V2, 0) => Some(PInstr::Beqi),
            (Dialect::V2, 1) => Some(PInstr::Bnei),
            (Dialect::V2, 2) => Some(PInstr::Blti),
            (Dialect::V2, 3) => Some(PInstr::Bgei),
            (Dialect::V2, 4) => Some(PInstr::Bgti),
            (Dialect::V2, 5) => Some(PInstr::Blei),
            _ => None,
        }
    }

    /// Numbering and lookup are inverse to each other, and numbers stay below 8.
    pub proof fn lemma_index(self, d: Dialect, i: u8)
        ensures
            self.spec_index(d) == Some(i) <==> Self::spec_from_index(d, i) == Some(self),
            self.spec_index(d) == Some(i) ==> i < 8,
    {
    }
}

/// Direct jumps.
#[derive(Debug, Clone, Copy, PartialEq, Eq, Structural)]
pub enum JInstr {
    Jal,
}

impl JInstr {
    /// The mnemonic.
    pub open spec fn spec_name(self) -> Seq<char> {
        match self {
            JInstr::Jal => "jal"@,
        }
    }

    pub fn name(self) -> (s: &'static str)
        ensures
            s@ == self.spec_name(),
    {
        match self {
            JInstr::Jal => "jal",
        }
    }

    /// The operation's number within its category in encoding `d`, if the
    /// encoding has the operation.
    pub open spec fn spec_index(self, d: Dialect) -> Option<u8> {
        match (d, self) {
            (_, JInstr::Jal) => Some(0),
        }
    }

    pub fn index(self, d: Dialect) -> (i: Option<u8>)
        ensures
            i == self.spec_index(d),
    {
        match (d, self) {
            (_, JInstr::Jal) => Some(0),
        }
    }

    /// The operation with number `i` in encoding `d`.
    pub open spec fn spec_from_index(d: Dialect, i: u8) -> Option<Self> {
        match (d, i) {
            (_, 0) => Some(JInstr::Jal),
            _ => None,
        }
    }

    pub fn from_index(d: Dialect, i: u8) -> (r: Option<Self>)
        ensures
            r == Self::spec_from_index(d, i),
    {
        match (d, i) {
            (_, 0) => Some(JInstr::Jal),
            _ => None,
        }
    }

    /// Numbering and lookup are inverse to each other, and numbers stay below 8.
    pub proof fn lemma_index(self, d: Dialect, i: u8)
        ensures
            self.spec_index(d) == Some(i) <==> Self::spec_from_index(d, i) == Some(self),
            self.spec_index(d) == Some(i) ==> i < 8,
    {
    }
}

/// Two-operand float arithmetic.
#[derive(Debug, Clone, Copy, PartialEq, Eq, Structural)]
pub enum EInstr {
    Fadd,
    Fsub,
    Fmul,
    Fdiv,
    Fsgnj,
    Fsgnjn,
    Fsgnjx,
}

impl EInstr {
    /// The mnemonic.
    pub open spec fn spec_name(self) -> Seq<char> {
        match self {
            EInstr::Fadd => "fadd"@,
            EInstr::Fsub => "fsub"@,
            EInstr::Fmul => "fmul"@,
            EInstr::Fdiv => "fdiv"@,
            EInstr::Fsgnj => "fsgnj"@,
            EInstr::Fsgnjn => "fsgnjn"@,
            EInstr::Fsgnjx => "fsgnjx"@,
        }
    }

    pub fn name(self) -> (s: &'static str)
        ensures
            s@ == self.spec_name(),
    {
        match self {
            EInstr::Fadd => "fadd",
            EInstr::Fsub => "fsub",
            EInstr::Fmul => "fmul",
            EInstr::Fdiv => "fdiv",
            EInstr::Fsgnj => "fsgnj",
            EInstr::Fsgnjn => "fsgnjn",
            EInstr::Fsgnjx => "fsgnjx",
        }
    }

    /// The operation's number within its category in encoding `d`, if the
    /// encoding has the operation.
    pub open spec fn spec_index(self, d: Dialect) -> Option<u8> {
        match (d, self) {
            (_, EInstr::Fadd) => Some(0),
            (_, EInstr::Fsub) => Some(1),
            (_, EInstr::Fmul) => Some(2),
            (_, EInstr::Fdiv) => Some(3),
            (_, EInstr::Fsgnj) => Some(4),
            (_, EInstr::Fsgnjn) => Some(5),
            (_, EInstr::Fsgnjx) => Some(6),
        }
    }

    pub fn index(self, d: Dialect) -> (i: Option<u8>)
        ensures
            i == self.spec_index(d),
    {
        match (d, self) {
            (_, EInstr::Fadd) => Some(0),
            (_, EInstr::Fsub) => Some(1),
            (_, EInstr::Fmul) => Some(2),
            (_, EInstr::Fdiv) => Some(3),
            (_, EInstr::Fsgnj) => Some(4),
            (_, EInstr::Fsgnjn) => Some(5),
            (_, EInstr::Fsgnjx) => Some(6),
        }
    }

    /// The operation with number `i` in encoding `d`.
    pub open spec fn spec_from_index(d: Dialect, i: u8) -> Option<Self> {
        match (d, i) {
            (_, 0) => Some(EInstr::Fadd),
            (_, 1) => Some(EInstr::Fsub),
            (_, 2) => Some(EInstr::Fmul),
            (_, 3) => Some(EInstr::Fdiv),
            (_, 4) => Some(EInstr::Fsgnj),
            (_, 5) => Some(EInstr::Fsgnjn),
            (_, 6) => Some(EInstr::Fsgnjx),
            _ => None,
        }
    }

    pub fn from_index(d: Dialect, i: u8) -> (r: Option<Self>)
        ensures
            r == Self::spec_from_index(d, i),
    {
        match (d, i) {
            (_, 0) => Some(EInstr::Fadd),
            (_, 1) => Some(EInstr::Fsub),
            (_, 2) => Some(EInstr::Fmul),
            (_, 3) => Some(EInstr::Fdiv),
            (_, 4) => Some(EInstr::Fsgnj),
            (_, 5) => Some(EInstr::Fsgnjn),
            (_, 6) => Some(EInstr::Fsgnjx),
            _ => None,
        }
    }

    /// Numbering and lookup are inverse to each other, and numbers stay below 8.
    pub proof fn lemma_index(self, d: Dialect, i: u8)
        ensures
            self.spec_index(d) == Some(i) <==> Self::spec_from_index(d, i) == Some(self),
            self.spec_index(d) == Some(i) ==> i < 8,
    {
    }
}

/// Three-operand multiply-add float arithmetic.
#[derive(Debug, Clone, Copy, PartialEq, Eq, Structural)]
pub enum GInstr {
    Fmadd,
    Fmsub,
    Fnmadd,
    Fnmsub,
}

impl GInstr {
    /// The mnemonic.
    pub open spec fn spec_name(self) -> Seq<char> {
        match self {
            GInstr::Fmadd => "fmadd"@,
            GInstr::Fmsub => "fmsub"@,
            GInstr::Fnmadd => "fnmadd"@,
            GInstr::Fnmsub => "fnmsub"@,
        }
    }

    pub fn name(self) -> (s: &'static str)
        ensures
            s@ == self.spec_name(),
    {
        match self {
            GInstr::Fmadd => "fmadd",
            GInstr::Fmsub => "fmsub",
            GInstr::Fnmadd => "fnmadd",
            GInstr::Fnmsub => "fnmsub",
        }
    }

    /// The operation's number within its category in encoding `d`, if the
    /// encoding has the operation.
    pub open spec fn spec_index(self, d: Dialect) -> Option<u8> {
        match (d, self) {
            (Dialect::V2, GInstr::Fmadd) => Some(0),
            (Dialect::V2, GInstr::Fmsub) => Some(1),
            (Dialect::V2, GInstr::Fnmadd) => Some(2),
            (Dialect::V2, GInstr::Fnmsub) => Some(3),
            _ => None,
        }
    }

    pub fn index(self, d: Dialect) -> (i: Option<u8>)
        ensures
            i == self.spec_index(d),
    {
        match (d, self) {
            (Dialect::V2, GInstr::Fmadd) => Some(0),
            (Dialect::V2, GInstr::Fmsub) => Some(1),
            (Dialect::V2, GInstr::Fnmadd) => Some(2),
            (Dialect::V2, GInstr::Fnmsub) => Some(3),
            _ => None,
        }
    }

    /// The operation with number `i` in encoding `d`.
    pub open spec fn spec_from_index(d: Dialect, i: u8) -> Option<Self> {
        match (d, i) {
            (Dialect::V2, 0) => Some(GInstr::Fmadd),
            (Dialect::V2, 1) => Some(GInstr::Fmsub),
            (Dialect::V2, 2) => Some(GInstr::Fnmadd),
            (Dialect::V2, 3) => Some(GInstr::Fnmsub),
            _ => None,
        }
    }

    pub fn from_index(d: Dialect, i: u8) -> (r: Option<Self>)
        ensures
            r == Self::spec_from_index(d, i),
    {
        match (d, i) {
            (Dialect::V2, 0) => Some(GInstr::Fmadd),
            (Dialect::V2, 1) => Some(GInstr::Fmsub),
            (Dialect::V2, 2) => Some(GInstr::Fnmadd),
            (Dialect::V2, 3) => Some(GInstr::Fnmsub),
            _ => None,
        }
    }

    /// Numbering and lookup are inverse to each other, and numbers stay below 8.
    pub proof fn lemma_index(self, d: Dialect, i: u8)
        ensures
            self.spec_index(d) == Some(i) <==> Self::spec_from_index(d, i) == Some(self),
            self.spec_index(d) == Some(i) ==> i < 8,
    {
    }
}

/// One-operand float arithmetic.
#[derive(Debug, Clone, Copy, PartialEq, Eq, Structural)]
pub enum HInstr {
    Fsqrt,
    Fhalf,
    Ffloor,
    Ffrac,
    Finv,
}

impl HInstr {
    /// The mnemonic.
    pub open spec fn spec_name(self) -> Seq<char> {
        match self {
            HInstr::Fsqrt => "fsqrt"@,
            HInstr::Fhalf => "fhalf"@,
            HInstr::Ffloor => "ffloor"@,
            HInstr::Ffrac => "ffrac"@,
            HInstr::Finv => "finv"@,
        }
    }

    pub fn name(self) -> (s: &'static str)
        ensures
            s@ == self.spec_name(),
    {
        match self {
            HInstr::Fsqrt => "fsqrt",
            HInstr::Fhalf => "fhalf",
            HInstr::Ffloor => "ffloor",
            HInstr::Ffrac => "ffrac",
            HInstr::Finv => "finv",
        }
    }

    /// The operation's number within its category in encoding `d`, if the
    /// encoding has the operation.
    pub open spec fn spec_index(self, d: Dialect) -> Option<u8> {
        match (d, self) {
            (Dialect::V1, HInstr::Fsqrt) => Some(0),
            (Dialect::V1, HInstr::Fhalf) => Some(1),
            (Dialect::V1, HInstr::Ffloor) => Some(2),
            (Dialect::V2, HInstr::Fsqrt) => Some(0),
            (Dialect::V2, HInstr::Fhalf) => Some(1),
            (Dialect::V2, HInstr::Ffloor) => Some(2),
            (Dialect::V2, HInstr::Ffrac) => Some(3),
            (Dialect::V2, HInstr::Finv) => Some(4),
            _ => None,
        }
    }

    pub fn index(self, d: Dialect) -> (i: Option<u8>)
        ensures
            i == self.spec_index(d),
    {
        match (d, self) {
            (Dialect::V1, HInstr::Fsqrt) => Some(0),
            (Dialect::V1, HInstr::Fhalf) => Some(1),
            (Dialect::V1, HInstr::Ffloor) => Some(2),
            (Dialect::V2, HInstr::Fsqrt) => Some(0),
            (Dialect::V2, HInstr::Fhalf) => Some(1),
            (Dialect::V2, HInstr::Ffloor) => Some(2),
            (Dialect::V2, HInstr::Ffrac) => Some(3),
            (Dialect::V2, HInstr::Finv) => Some(4),
            _ => None,
        }
    }

    /// The operation with number `i` in encoding `d`.
    pub open spec fn spec_from_index(d: Dialect, i: u8) -> Option<Self> {
        match (d, i) {
            (Dialect::V1, 0) => Some(HInstr::Fsqrt),
            (Dialect::V1, 1) => Some(HInstr::Fhalf),
            (Dialect::V1, 2) => Some(HInstr::Ffloor),
            (Dialect::V2, 0) => Some(HInstr::Fsqrt),
            (Dialect::V2, 1) => Some(HInstr::Fhalf),
            (Dialect::V2, 2) => Some(HInstr::Ffloor),
            (Dialect::V2, 3) => Some(HInstr::Ffrac),
            (Dialect::V2, 4) => Some(HInstr::Finv),
            _ => None,
        }
    }

    pub fn from_index(d: Dialect, i: u8) -> (r: Option<Self>)
        ensures
            r == Self::spec_from_index(d, i),
    {
        match (d, i) {
            (Dialect::V1, 0) => Some(HInstr::Fsqrt),
            (Dialect::V1, 1) => Some(HInstr::Fhalf),
            (Dialect::V1, 2) => Some(HInstr::Ffloor),
            (Dialect::V2, 0) => Some(HInstr::Fsqrt),
            (Dialect::V2, 1) => Some(HInstr::Fhalf),
            (Dialect::V2, 2) => Some(HInstr::Ffloor),
            (Dialect::V2, 3) => Some(HInstr::Ffrac),
            (Dialect::V2, 4) => Some(HInstr::Finv),
            _ => None,
        }
    }

    /// Numbering and lookup are inverse to each other, and numbers stay below 8.
    pub proof fn lemma_index(self, d: Dialect, i: u8)
        ensures
            self.spec_index(d) == Some(i) <==> Self::spec_from_index(d, i) == Some(self),
            self.spec_index(d) == Some(i) ==> i < 8,
    {
    }
}

/// Float comparisons into an integer register.
#[derive(Debug, Clone, Copy, PartialEq, Eq, Structural)]
pub enum KInstr {
    Flt,
}

impl KInstr {
    /// The mnemonic.
    pub open spec fn spec_name(self) -> Seq<char> {
        match self {
            KInstr::Flt => "flt"@,
        }
    }

    pub fn name(self) -> (s: &'static str)
        ensures
            s@ == self.spec_name(),
    {
        match self {
            KInstr::Flt => "flt",
        }
    }

    /// The operation's number within its category in encoding `d`, if the
    /// encoding has the operation.
    pub open spec fn spec_index(self, d: Dialect) -> Option<u8> {
        match (d, self) {
            (_, KInstr::Flt) => Some(0),
        }
    }

    pub fn index(self, d: Dialect) -> (i: Option<u8>)
        ensures
            i == self.spec_index(d),
    {
        match (d, self) {
            (_, KInstr::Flt) => Some(0),
        }
    }

    /// The operation with number `i` in encoding `d`.
    pub open spec fn spec_from_index(d: Dialect, i: u8) -> Option<Self> {
        match (d, i) {
            (_, 0) => Some(KInstr::Flt),
            _ => None,
        }
    }

    pub fn from_index(d: Dialect, i: u8) -> (r: Option<Self>)
        ensures
            r == Self::spec_from_index(d, i),
    {
        match (d, i) {
            (_, 0) => Some(KInstr::Flt),
            _ => None,
        }
    }

    /// Numbering and lookup are inverse to each other, and numbers stay below 8.
    pub proof fn lemma_index(self, d: Dialect, i: u8)
        ensures
            self.spec_index(d) == Some(i) <==> Self::spec_from_index(d, i) == Some(self),
            self.spec_index(d) == Some(i) ==> i < 8,
    {
    }
}

/// Integer to float conversions.
#[derive(Debug, Clone, Copy, PartialEq, Eq, Structural)]
pub enum XInstr {
    Fitof,
}

impl XInstr {
    /// The mnemonic.
    pub open spec fn spec_name(self) -> Seq<char> {
        match self {
            XInstr::Fitof => "fitof"@,
        }
    }

    pub fn name(self) -> (s: &'static str)
        ensures
            s@ == self.spec_name(),
    {
        match self {
            XInstr::Fitof => "fitof",
        }
    }

    /// The operation's number within its category in encoding `d`, if the
    /// encoding has the operation.
    pub open spec fn spec_index(self, d: Dialect) -> Option<u8> {
        match (d, self) {
            (_, XInstr::Fitof) => Some(0),
        }
    }

    pub fn index(self, d: Dialect) -> (i: Option<u8>)
        ensures
            i == self.spec_index(d),
    {
        match (d, self) {
            (_, XInstr::Fitof) => Some(0),
        }
    }

    /// The operation with number `i` in encoding `d`.
    pub open spec fn spec_from_index(d: Dialect, i: u8) -> Option<Self> {
        match (d, i) {
            (_, 0) => Some(XInstr::Fitof),
            _ => None,
        }
    }

    pub fn from_index(d: Dialect, i: u8) -> (r: Option<Self>)
        ensures
            r == Self::spec_from_index(d, i),
    {
        match (d, i) {
            (_, 0) => Some(XInstr::Fitof),
            _ => None,
        }
    }

    /// Numbering and lookup are inverse to each other, and numbers stay below 8.
    pub proof fn lemma_index(self, d: Dialect, i: u8)
        ensures
            self.spec_index(d) == Some(i) <==> Self::spec_from_index(d, i) == Some(self),
            self.spec_index(d) == Some(i) ==> i < 8,
    {
    }
}

/// Float predicates and float to integer conversions.
#[derive(Debug, Clone, Copy, PartialEq, Eq, Structural)]
pub enum YInstr {
    Fiszero,
    Fispos,
    Fisneg,
    Fftoi,
}

impl YInstr {
    /// The mnemonic.
    pub open spec fn spec_name(self) -> Seq<char> {
        match self {
            YInstr::Fiszero => "fiszero"@,
            YInstr::Fispos => "fispos"@,
            YInstr::Fisneg => "fisneg"@,
            YInstr::Fftoi => "fftoi"@,
        }
    }

    pub fn name(self) -> (s: &'static str)
        ensures
            s@ == self.spec_name(),
    {
        match self {
            YInstr::Fiszero => "fiszero",
            YInstr::Fispos => "fispos",
            YInstr::Fisneg => "fisneg",
            YInstr::Fftoi => "fftoi",
        }
    }

    /// The operation's number within its category in encoding `d`, if the
    /// encoding has the operation.
    pub open spec fn spec_index(self, d: Dialect) -> Option<u8> {
        match (d, self) {
            (_, YInstr::Fiszero) => Some(0),
            (_, YInstr::Fispos) => Some(1),
            (_, YInstr::Fisneg) => Some(2),
            (_, YInstr::Fftoi) => Some(3),
        }
    }

    pub fn index(self, d: Dialect) -> (i: Option<u8>)
        ensures
            i == self.spec_index(d),
    {
        match (d, self) {
            (_, YInstr::Fiszero) => Some(0),
            (_, YInstr::Fispos) => Some(1),
            (_, YInstr::Fisneg) => Some(2),
            (_, YInstr::Fftoi) => Some(3),
        }
    }

    /// The operation with number `i` in encoding `d`.
    pub open spec fn spec_from_index(d: Dialect, i: u8) -> Option<Self> {
        match (d, i) {
            (_, 0) => Some(YInstr::Fiszero),
            (_, 1) => Some(YInstr::Fispos),
            (_, 2) => Some(YInstr::Fisneg),
            (_, 3) => Some(YInstr::Fftoi),
            _ => None,
        }
    }

    pub fn from_index(d: Dialect, i: u8) -> (r: Option<Self>)
        ensures
            r == Self::spec_from_index(d, i),
    {
        match (d, i) {
            (_, 0) => Some(YInstr::Fiszero),
            (_, 1) => Some(YInstr::Fispos),
            (_, 2) => Some(YInstr::Fisneg),
            (_, 3) => Some(YInstr::Fftoi),
            _ => None,
        }
    }

    /// Numbering and lookup are inverse to each other, and numbers stay below 8.
    pub proof fn lemma_index(self, d: Dialect, i: u8)
        ensures
            self.spec_index(d) == Some(i) <==> Self::spec_from_index(d, i) == Some(self),
            self.spec_index(d) == Some(i) ==> i < 8,
    {
    }
}

/// Branches that compare two float registers.
#[derive(Debug, Clone, Copy, PartialEq, Eq, Structural)]
pub enum WInstr {
    Fblt,
    Fbge,
}

impl WInstr {
    /// The mnemonic.
    pub open spec fn spec_name(self) -> Seq<char> {
        match self {
            WInstr::Fblt => "fblt"@,
            WInstr::Fbge => "fbge"@,
        }
    }

    pub fn name(self) -> (s: &'static str)
        ensures
            s@ == self.spec_name(),
    {
        match self {
            WInstr::Fblt => "fblt",
            WInstr::Fbge => "fbge",
        }
    }

    /// The operation's number within its category in encoding `d`, if the
    /// encoding has the operation.
    pub open spec fn spec_index(self, d: Dialect) -> Option<u8> {
        match (d, self) {
            (_, WInstr::Fblt) => Some(0),
            (_, WInstr::Fbge) => Some(1),
        }
    }

    pub fn index(self, d: Dialect) -> (i: Option<u8>)
        ensures
            i == self.spec_index(d),
    {
        match (d, self) {
            (_, WInstr::Fblt) => Some(0),
            (_, WInstr::Fbge) => Some(1),
        }
    }

    /// The operation with number `i` in encoding `d`.
    pub open spec fn spec_from_index(d: Dialect, i: u8) -> Option<Self> {
        match (d, i) {
            (_, 0) => Some(WInstr::Fblt),
            (_, 1) => Some(WInstr::Fbge),
            _ => None,
        }
    }

    pub fn from_index(d: Dialect, i: u8) -> (r: Option<Self>)
        ensures
            r == Self::spec_from_index(d, i),
    {
        match (d, i) {
            (_, 0) => Some(WInstr::Fblt),
            (_, 1) => Some(WInstr::Fbge),
            _ => None,
        }
    }

    /// Numbering and lookup are inverse to each other, and numbers stay below 8.
    pub proof fn lemma_index(self, d: Dialect, i: u8)
        ensures
            self.spec_index(d) == Some(i) <==> Self::spec_from_index(d, i) == Some(self),
            self.spec_index(d) == Some(i) ==> i < 8,
    {
    }
}

/// Branches that compare a float register with zero.
#[derive(Debug, Clone, Copy, PartialEq, Eq, Structural)]
pub enum VInstr {
    Fbeqz,
    Fbnez,
}

impl VInstr {
    /// The mnemonic.
    pub open spec fn spec_name(self) -> Seq<char> {
        match self {
            VInstr::Fbeqz => "fbeqz"@,
            VInstr::Fbnez => "fbnez"@,
        }
    }

    pub fn name(self) -> (s: &'static str)
        ensures
            s@ == self.spec_name(),
    {
        match self {
            VInstr::Fbeqz => "fbeqz",
            VInstr::Fbnez => "fbnez",
        }
    }

    /// The operation's number within its category in encoding `d`, if the
    /// encoding has the operation.
    pub open spec fn spec_index(self, d: Dialect) -> Option<u8> {
        match (d, self) {
            (_, VInstr::Fbeqz) => Some(0),
            (_, VInstr::Fbnez) => Some(1),
        }
    }

    pub fn index(self, d: Dialect) -> (i: Option<u8>)
        ensures
            i == self.spec_index(d),
    {
        match (d, self) {
            (_, VInstr::Fbeqz) => Some(0),
            (_, VInstr::Fbnez) => Some(1),
        }
    }

    /// The operation with number `i` in encoding `d`.
    pub open spec fn spec_from_index(d: Dialect, i: u8) -> Option<Self> {
        match (d, i) {
            (_, 0) => Some(VInstr::Fbeqz),
            (_, 1) => Some(VInstr::Fbnez),
            _ => None,
        }
    }

    pub fn from_index(d: Dialect, i: u8) -> (r: Option<Self>)
        ensures
            r == Self::spec_from_index(d, i),
    {
        match (d, i) {
            (_, 0) => Some(VInstr::Fbeqz),
            (_, 1) => Some(VInstr::Fbnez),
            _ => None,
        }
    }

    /// Numbering and lookup are inverse to each other, and numbers stay below 8.
    pub proof fn lemma_index(self, d: Dialect, i: u8)
        ensures
            self.spec_index(d) == Some(i) <==> Self::spec_from_index(d, i) == Some(self),
            self.spec_index(d) == Some(i) ==> i < 8,
    {
    }
}


/// One above the largest instruction identifier.
pub const INSTR_ID_MAX: usize = 123;

/// The numeric identifier of an operation: eight times the category plus the
/// operation's number within the category, in one encoding.
#[derive(Debug, Clone, Copy, PartialEq, Eq, Structural)]
pub struct InstrId {
    value: u8,
    dialect: Dialect,
}

/// Mnemonic of operation `lower` of category `category` in encoding `d`.
pub open spec fn spec_mnemonic(category: int, lower: u8, d: Dialect) -> Option<Seq<char>> {
    if category == 0 {
        match RInstr::spec_from_index(d, lower) {
            Some(i) => Some(i.spec_name()),
            None => None,
        }
    } else if category == 1 {
        match IInstr::spec_from_index(d, lower) {
            Some(i) => Some(i.spec_name()),
            None => None,
        }
    } else if category == 2 {
        match SInstr::spec_from_index(d, lower) {
            Some(i) => Some(i.spec_name()),
            None => None,
        }
    } else if category == 3 {
        match BInstr::spec_from_index(d, lower) {
            Some(i) => Some(i.spec_name()),
            None => None,
        }
    } else if category == 4 {
        match PInstr::spec_from_index(d, lower) {
            Some(i) => Some(i.spec_name()),
            None => None,
        }
    } else if category == 5 {
        match JInstr::spec_from_index(d, lower) {
            Some(i) => Some(i.spec_name()),
            None => None,
        }
    } else if category == 6 {
        if lower == 0 {
            Some("outb"@)
        } else if lower == 1 {
            Some("inw"@)
        } else if lower == 2 {
            Some("finw"@)
        } else {
            None
        }
    } else if category == 7 {
        match EInstr::spec_from_index(d, lower) {
            Some(i) => Some(i.spec_name()),
            None => None,
        }
    } else if category == 8 {
        match GInstr::spec_from_index(d, lower) {
            Some(i) => Some(i.spec_name()),
            None => None,
        }
    } else if category == 9 {
        match HInstr::spec_from_index(d, lower) {
            Some(i) => Some(i.spec_name()),
            None => None,
        }
    } else if category == 10 {
        match KInstr::spec_from_index(d, lower) {
            Some(i) => Some(i.spec_name()),
            None => None,
        }
    } else if category == 11 {
        match XInstr::spec_from_index(d, lower) {
            Some(i) => Some(i.spec_name()),
            None => None,
        }
    } else if category == 12 {
        match YInstr::spec_from_index(d, lower) {
            Some(i) => Some(i.spec_name()),
            None => None,
        }
    } else if category == 13 {
        match WInstr::spec_from_index(d, lower) {
            Some(i) => Some(i.spec_name()),
            None => None,
        }
    } else if category == 14 {
        match VInstr::spec_from_index(d, lower) {
            Some(i) => Some(i.spec_name()),
            None => None,
        }
    } else if category == 15 {
        if lower == 0 {
            Some("flw"@)
        } else if lower == 1 {
            Some("fsw"@)
        } else if lower == 2 {
            Some("end"@)
        } else {
            None
        }
    } else {
        None
    }
}

fn mnemonic(category: u8, lower: u8, d: Dialect) -> (r: Option<&'static str>)
    ensures
        match r {
            Some(s) => spec_mnemonic(category as int, lower, d) == Some(s@),
            None => spec_mnemonic(category as int, lower, d) is None,
        },
{
    if category == 0 {
        match RInstr::from_index(d, lower) {
            Some(i) => Some(i.name()),
            None => None,
        }
    } else if category == 1 {
        match IInstr::from_index(d, lower) {
            Some(i) => Some(i.name()),
            None => None,
        }
    } else if category == 2 {
        match SInstr::from_index(d, lower) {
            Some(i) => Some(i.name()),
            None => None,
        }
    } else if category == 3 {
        match BInstr::from_index(d, lower) {
            Some(i) => Some(i.name()),
            None => None,
        }
    } else if category == 4 {
        match PInstr::from_index(d, lower) {
            Some(i) => Some(i.name()),
            None => None,
        }
    } else if category == 5 {
        match JInstr::from_index(d, lower) {
            Some(i) => Some(i.name()),
            None => None,
        }
    } else if category == 6 {
        if lower == 0 {
            Some("outb")
        } else if lower == 1 {
            Some("inw")
        } else if lower == 2 {
            Some("finw")
        } else {
            None
        }
    } else if category == 7 {
        match EInstr::from_index(d, lower) {
            Some(i) => Some(i.name()),
            None => None,
        }
    } else if category == 8 {
        match GInstr::from_index(d, lower) {
            Some(i) => Some(i.name()),
            None => None,
        }
    } else if category == 9 {
        match HInstr::from_index(d, lower) {
            Some(i) => Some(i.name()),
            None => None,
        }
    } else if category == 10 {
        match KInstr::from_index(d, lower) {
            Some(i) => Some(i.name()),
            None => None,
        }
    } else if category == 11 {
        match XInstr::from_index(d, lower) {
            Some(i) => Some(i.name()),
            None => None,
        }
    } else if category == 12 {
        match YInstr::from_index(d, lower) {
            Some(i) => Some(i.name()),
            None => None,
        }
    } else if category == 13 {
        match WInstr::from_index(d, lower) {
            Some(i) => Some(i.name()),
            None => None,
        }
    } else if category == 14 {
        match VInstr::from_index(d, lower) {
            Some(i) => Some(i.name()),
            None => None,
        }
    } else if category == 15 {
        if lower == 0 {
            Some("flw")
        } else if lower == 1 {
            Some("fsw")
        } else if lower == 2 {
            Some("end")
        } else {
            None
        }
    } else {
        None
    }
}

impl InstrId {
    /// One above the largest instruction identifier.
    pub const MAX: usize = INSTR_ID_MAX;

    /// Whether `value` identifies an operation of encoding `d`.
    pub open spec fn spec_valid(value: u8, d: Dialect) -> bool {
        spec_mnemonic(value as int / 8, (value % 8) as u8, d) is Some
    }

    #[verifier::type_invariant]
    spec fn valid(self) -> bool {
        Self::spec_valid(self.value, self.dialect)
    }

    /// The identifier's number.
    pub closed spec fn view(self) -> int {
        self.value as int
    }

    /// The encoding the identifier belongs to.
    pub closed spec fn spec_dialect(self) -> Dialect {
        self.dialect
    }

    pub fn inner(&self) -> (v: u8)
        ensures
            v == self@,
            v < INSTR_ID_MAX,
            Self::spec_valid(v, self.spec_dialect()),
    {
        proof {
            use_type_invariant(self);
        }
        self.value
    }

    pub fn dialect(&self) -> (d: Dialect)
        ensures
            d == self.spec_dialect(),
    {
        self.dialect
    }

    /// The identifier with number `value` in encoding `d`, if `value` names
    /// an operation there.
    pub fn try_new(value: u8, d: Dialect) -> (r: Option<Self>)
        ensures
            r is Some <==> Self::spec_valid(value, d),
            r matches Some(id) ==> id@ == value && id.spec_dialect() == d,
    {
        match mnemonic(value / 8, value % 8, d) {
            Some(_) => Some(InstrId { value, dialect: d }),
            None => None,
        }
    }

    /// The mnemonic of the identified operation.
    pub fn name(&self) -> (s: &'static str)
        ensures
            spec_mnemonic(self@ / 8, (self@ % 8) as u8, self.spec_dialect()) == Some(s@),
    {
        proof {
            use_type_invariant(self);
        }
        match mnemonic(self.value / 8, self.value % 8, self.dialect) {
            Some(s) => s,
            None => "",
        }
    }
}

impl<IR, IW, FR, FW> Instr<IR, IW, FR, FW> {
    /// The category of the instruction and the operation's number within it.
    pub open spec fn spec_category(self) -> int {
        match self {
            Instr::R { .. } => 0,
            Instr::I { .. } => 1,
            Instr::S { .. } => 2,
            Instr::B { .. } => 3,
            Instr::P { .. } => 4,
            Instr::J { .. } => 5,
            Instr::IO(_) => 6,
            Instr::F(f) => match f {
                FInstr::E { .. } => 7,
                FInstr::G { .. } => 8,
                FInstr::H { .. } => 9,
                FInstr::K { .. } => 10,
                FInstr::X { .. } => 11,
                FInstr::Y { .. } => 12,
                FInstr::W { .. } => 13,
                FInstr::V { .. } => 14,
                FInstr::Flw { .. } => 15,
                FInstr::Fsw { .. } => 15,
            },
            Instr::Misc(_) => 15,
        }
    }

    /// The operation's number within its category in encoding `d`, if the
    /// encoding has the operation.
    pub open spec fn spec_index(self, d: Dialect) -> Option<u8> {
        match self {
            Instr::R { instr, .. } => instr.spec_index(d),
            Instr::I { instr, .. } => instr.spec_index(d),
            Instr::S { instr, .. } => instr.spec_index(d),
            Instr::B { instr, .. } => instr.spec_index(d),
            Instr::P { instr, .. } => instr.spec_index(d),
            Instr::J { instr, .. } => instr.spec_index(d),
            Instr::IO(io) => match io {
                IOInstr::Outb { .. } => Some(0),
                IOInstr::Inw { .. } => Some(1),
                IOInstr::Finw { .. } => Some(2),
            },
            Instr::F(f) => match f {
                FInstr::E { instr, .. } => instr.spec_index(d),
                FInstr::G { instr, .. } => instr.spec_index(d),
                FInstr::H { instr, .. } => instr.spec_index(d),
                FInstr::K { instr, .. } => instr.spec_index(d),
                FInstr::X { instr, .. } => instr.spec_index(d),
                FInstr::Y { instr, .. } => instr.spec_index(d),
                FInstr::W { instr, .. } => instr.spec_index(d),
                FInstr::V { instr, .. } => instr.spec_index(d),
                FInstr::Flw { .. } => Some(0),
                FInstr::Fsw { .. } => Some(1),
            },
            Instr::Misc(_) => Some(2),
        }
    }

    /// The number of the instruction's identifier in encoding `d`.
    pub open spec fn spec_id(self, d: Dialect) -> Option<int> {
        match self.spec_index(d) {
            Some(lower) => Some(self.spec_category() * 8 + lower),
            None => None,
        }
    }

    /// The mnemonic of the instruction.
    pub open spec fn spec_name(self) -> Seq<char> {
        match self {
            Instr::R { instr, .. } => instr.spec_name(),
            Instr::I { instr, .. } => instr.spec_name(),
            Instr::S { instr, .. } => instr.spec_name(),
            Instr::B { instr, .. } => instr.spec_name(),
            Instr::P { instr, .. } => instr.spec_name(),
            Instr::J { instr, .. } => instr.spec_name(),
            Instr::IO(io) => match io {
                IOInstr::Outb { .. } => "outb"@,
                IOInstr::Inw { .. } => "inw"@,
                IOInstr::Finw { .. } => "finw"@,
            },
            Instr::F(f) => match f {
                FInstr::E { instr, .. } => instr.spec_name(),
                FInstr::G { instr, .. } => instr.spec_name(),
                FInstr::H { instr, .. } => instr.spec_name(),
                FInstr::K { instr, .. } => instr.spec_name(),
                FInstr::X { instr, .. } => instr.spec_name(),
                FInstr::Y { instr, .. } => instr.spec_name(),
                FInstr::W { instr, .. } => instr.spec_name(),
                FInstr::V { instr, .. } => instr.spec_name(),
                FInstr::Flw { .. } => "flw"@,
                FInstr::Fsw { .. } => "fsw"@,
            },
            Instr::Misc(_) => "end"@,
        }
    }

    fn category(&self) -> (c: u8)
        ensures
            c == self.spec_category(),
    {
        match self {
            Instr::R { .. } => 0,
            Instr::I { .. } => 1,
            Instr::S { .. } => 2,
            Instr::B { .. } => 3,
            Instr::P { .. } => 4,
            Instr::J { .. } => 5,
            Instr::IO(_) => 6,
            Instr::F(f) => match f {
                FInstr::E { .. } => 7,
                FInstr::G { .. } => 8,
                FInstr::H { .. } => 9,
                FInstr::K { .. } => 10,
                FInstr::X { .. } => 11,
                FInstr::Y { .. } => 12,
                FInstr::W { .. } => 13,
                FInstr::V { .. } => 14,
                FInstr::Flw { .. } => 15,
                FInstr::Fsw { .. } => 15,
            },
            Instr::Misc(_) => 15,
        }
    }

    fn index(&self, d: Dialect) -> (i: Option<u8>)
        ensures
            i == self.spec_index(d),
    {
        match self {
            Instr::R { instr, .. } => instr.index(d),
            Instr::I { instr, .. } => instr.index(d),
            Instr::S { instr, .. } => instr.index(d),
            Instr::B { instr, .. } => instr.index(d),
            Instr::P { instr, .. } => instr.index(d),
            Instr::J { instr, .. } => instr.index(d),
            Instr::IO(io) => match io {
                IOInstr::Outb { .. } => Some(0),
                IOInstr::Inw { .. } => Some(1),
                IOInstr::Finw { .. } => Some(2),
            },
            Instr::F(f) => match f {
                FInstr::E { instr, .. } => instr.index(d),
                FInstr::G { instr, .. } => instr.index(d),
                FInstr::H { instr, .. } => instr.index(d),
                FInstr::K { instr, .. } => instr.index(d),
                FInstr::X { instr, .. } => instr.index(d),
                FInstr::Y { instr, .. } => instr.index(d),
                FInstr::W { instr, .. } => instr.index(d),
                FInstr::V { instr, .. } => instr.index(d),
                FInstr::Flw { .. } => Some(0),
                FInstr::Fsw { .. } => Some(1),
            },
            Instr::Misc(_) => Some(2),
        }
    }

    /// The identifier of an instruction names the instruction's mnemonic.
    pub proof fn lemma_id_names(self, d: Dialect)
        ensures
            self.spec_index(d) matches Some(lower) ==> lower < 8 && spec_mnemonic(
                self.spec_category(),
                lower,
                d,
            ) == Some(self.spec_name()),
    {
        match self {
            Instr::R { instr, .. } => {
                if let Some(i) = instr.spec_index(d) {
                    instr.lemma_index(d, i);
                }
            },
            Instr::I { instr, .. } => {
                if let Some(i) = instr.spec_index(d) {
                    instr.lemma_index(d, i);
                }
            },
            Instr::S { instr, .. } => {
                if let Some(i) = instr.spec_index(d) {
                    instr.lemma_index(d, i);
                }
            },
            Instr::B { instr, .. } => {
                if let Some(i) = instr.spec_index(d) {
                    instr.lemma_index(d, i);
                }
            },
            Instr::P { instr, .. } => {
                if let Some(i) = instr.spec_index(d) {
                    instr.lemma_index(d, i);
                }
            },
            Instr::J { instr, .. } => {
                if let Some(i) = instr.spec_index(d) {
                    instr.lemma_index(d, i);
                }
            },
            Instr::IO(_) => {},
            Instr::F(f) => match f {
                FInstr::E { instr, .. } => {
                    if let Some(i) = instr.spec_index(d) {
                        instr.lemma_index(d, i);
                    }
                },
                FInstr::G { instr, .. } => {
                    if let Some(i) = instr.spec_index(d) {
                        instr.lemma_index(d, i);
                    }
                },
                FInstr::H { instr, .. } => {
                    if let Some(i) = instr.spec_index(d) {
                        instr.lemma_index(d, i);
                    }
                },
                FInstr::K { instr, .. } => {
                    if let Some(i) = instr.spec_index(d) {
                        instr.lemma_index(d, i);
                    }
                },
                FInstr::X { instr, .. } => {
                    if let Some(i) = instr.spec_index(d) {
                        instr.lemma_index(d, i);
                    }
                },
                FInstr::Y { instr, .. } => {
                    if let Some(i) = instr.spec_index(d) {
                        instr.lemma_index(d, i);
                    }
                },
                FInstr::W { instr, .. } => {
                    if let Some(i) = instr.spec_index(d) {
                        instr.lemma_index(d, i);
                    }
                },
                FInstr::V { instr, .. } => {
                    if let Some(i) = instr.spec_index(d) {
                        instr.lemma_index(d, i);
                    }
                },
                FInstr::Flw { .. } => {},
                FInstr::Fsw { .. } => {},
            },
            Instr::Misc(_) => {},
        }
    }

    /// The identifier of the instruction in encoding `d`: eight times the
    /// category plus the operation's number. `None` when the encoding does
    /// not have the operation.
    pub fn id(&self, d: Dialect) -> (r: Option<InstrId>)
        ensures
            match r {
                Some(id) => self.spec_id(d) == Some(id@) && id.spec_dialect() == d,
                None => self.spec_id(d) is None,
            },
    {
        let upper = self.category();
        match self.index(d) {
            Some(lower) => {
                proof {
                    self.lemma_id_names(d);
                }
                let value: u8 = upper * 8 + lower;
                assert(value as int / 8 == upper as int && value % 8 == lower);
                Some(InstrId { value, dialect: d })
            },
            None => None,
        }
    }
}

/// `name a`.
pub open spec fn text_1(name: Seq<char>, a: Seq<char>) -> Seq<char> {
    name + " "@ + a
}

/// `name a, b`.
pub open spec fn text_2(name: Seq<char>, a: Seq<char>, b: Seq<char>) -> Seq<char> {
    name + " "@ + a + ", "@ + b
}

/// `name a, b, c`.
pub open spec fn text_3(name: Seq<char>, a: Seq<char>, b: Seq<char>, c: Seq<char>) -> Seq<char> {
    name + " "@ + a + ", "@ + b + ", "@ + c
}

/// `name a, b, c, d`.
pub open spec fn text_4(
    name: Seq<char>,
    a: Seq<char>,
    b: Seq<char>,
    c: Seq<char>,
    d: Seq<char>,
) -> Seq<char> {
    name + " "@ + a + ", "@ + b + ", "@ + c + ", "@ + d
}

/// `name a, offset(base)`.
pub open spec fn text_mem(name: Seq<char>, a: Seq<char>, offset: Seq<char>, base: Seq<char>) -> Seq<
    char,
> {
    name + " "@ + a + ", "@ + offset + "("@ + base + ")"@
}

/// The immediate as a signed number.
pub open spec fn imm_text(imm: u32) -> Seq<char> {
    signed_text(spec_signed(imm))
}

/// The immediate as an unsigned number.
pub open spec fn uimm_text(imm: u32) -> Seq<char> {
    decimal_text(imm as nat)
}

pub fn join_1(name: &str, a: &str) -> (s: String)
    ensures
        s@ == text_1(name@, a@),
{
    let mut s = String::from_str(name);
    s.append(" ");
    s.append(a);
    s
}

pub fn join_2(name: &str, a: &str, b: &str) -> (s: String)
    ensures
        s@ == text_2(name@, a@, b@),
{
    let mut s = join_1(name, a);
    s.append(", ");
    s.append(b);
    s
}

pub fn join_3(name: &str, a: &str, b: &str, c: &str) -> (s: String)
    ensures
        s@ == text_3(name@, a@, b@, c@),
{
    let mut s = join_2(name, a, b);
    s.append(", ");
    s.append(c);
    s
}

pub fn join_4(name: &str, a: &str, b: &str, c: &str, d: &str) -> (s: String)
    ensures
        s@ == text_4(name@, a@, b@, c@, d@),
{
    let mut s = join_3(name, a, b, c);
    s.append(", ");
    s.append(d);
    s
}

pub fn join_mem(name: &str, a: &str, offset: &str, base: &str) -> (s: String)
    ensures
        s@ == text_mem(name@, a@, offset@, base@),
{
    let mut s = join_2(name, a, offset);
    s.append("(");
    s.append(base);
    s.append(")");
    s
}

pub fn imm_string(imm: u32) -> (s: String)
    ensures
        s@ == imm_text(imm),
{
    let mut s = String::new();
    push_signed(&mut s, signed(imm) as i64);
    assert(s@ =~= imm_text(imm));
    s
}

pub fn uimm_string(imm: u32) -> (s: String)
    ensures
        s@ == uimm_text(imm),
{
    let mut s = String::new();
    push_decimal(&mut s, imm as u64);
    assert(s@ =~= uimm_text(imm));
    s
}

impl Instr<RegId, RegId, FRegId, FRegId> {
    /// The instruction in assembly: the mnemonic, then the operands in the
    /// order of the assembly language. Offsets of loads and stores stand
    /// before the base register in parentheses. Immediates of the integer
    /// instructions are signed, those of the float instructions unsigned.
    pub open spec fn spec_text(self) -> Seq<char> {
        let name = self.spec_name();
        match self {
            Instr::R { rd, rs1, rs2, .. } => text_3(
                name,
                abi_name(rd@),
                abi_name(rs1@),
                abi_name(rs2@),
            ),
            Instr::I { instr, rd, rs1, imm } => if instr == IInstr::Lw {
                text_mem(name, abi_name(rd@), imm_text(imm), abi_name(rs1@))
            } else {
                text_3(name, abi_name(rd@), abi_name(rs1@), imm_text(imm))
            },
            Instr::S { rs1, rs2, imm, .. } => text_mem(
                name,
                abi_name(rs2@),
                imm_text(imm),
                abi_name(rs1@),
            ),
            Instr::B { rs1, rs2, imm, .. } => text_3(
                name,
                abi_name(rs1@),
                abi_name(rs2@),
                imm_text(imm),
            ),
            Instr::P { rs1, imm, imm2, .. } => text_3(
                name,
                abi_name(rs1@),
                imm_text(imm2),
                imm_text(imm),
            ),
            Instr::J { rd, imm, .. } => text_2(name, abi_name(rd@), imm_text(imm)),
            Instr::IO(io) => match io {
                IOInstr::Outb { rs } => text_1(name, abi_name(rs@)),
                IOInstr::Inw { rd } => text_1(name, abi_name(rd@)),
                IOInstr::Finw { rd } => text_1(name, f_abi_name(rd@)),
            },
            Instr::F(f) => match f {
                FInstr::E { rd, rs1, rs2, .. } => text_3(
                    name,
                    f_abi_name(rd@),
                    f_abi_name(rs1@),
                    f_abi_name(rs2@),
                ),
                FInstr::G { rd, rs1, rs2, rs3, .. } => text_4(
                    name,
                    f_abi_name(rd@),
                    f_abi_name(rs1@),
                    f_abi_name(rs2@),
                    f_abi_name(rs3@),
                ),
                FInstr::H { rd, rs1, .. } => text_2(name, f_abi_name(rd@), f_abi_name(rs1@)),
                FInstr::K { rd, rs1, rs2, .. } => text_3(
                    name,
                    abi_name(rd@),
                    f_abi_name(rs1@),
                    f_abi_name(rs2@),
                ),
                FInstr::X { rd, rs1, .. } => text_2(name, f_abi_name(rd@), abi_name(rs1@)),
                FInstr::Y { rd, rs1, .. } => text_2(name, abi_name(rd@), f_abi_name(rs1@)),
                FInstr::W { rs1, rs2, imm, .. } => text_3(
                    name,
                    f_abi_name(rs1@),
                    f_abi_name(rs2@),
                    uimm_text(imm),
                ),
                FInstr::V { rs1, imm, .. } => text_2(name, f_abi_name(rs1@), uimm_text(imm)),
                FInstr::Flw { rd, rs1, imm } => text_mem(
                    name,
                    f_abi_name(rd@),
                    uimm_text(imm),
                    abi_name(rs1@),
                ),
                FInstr::Fsw { rs2, rs1, imm } => text_mem(
                    name,
                    f_abi_name(rs2@),
                    uimm_text(imm),
                    abi_name(rs1@),
                ),
            },
            Instr::Misc(_) => name,
        }
    }

    /// The mnemonic of the instruction.
    pub fn name(&self) -> (s: &'static str)
        ensures
            s@ == self.spec_name(),
    {
        match self {
            Instr::R { instr, .. } => instr.name(),
            Instr::I { instr, .. } => instr.name(),
            Instr::S { instr, .. } => instr.name(),
            Instr::B { instr, .. } => instr.name(),
            Instr::P { instr, .. } => instr.name(),
            Instr::J { instr, .. } => instr.name(),
            Instr::IO(io) => match io {
                IOInstr::Outb { .. } => "outb",
                IOInstr::Inw { .. } => "inw",
                IOInstr::Finw { .. } => "finw",
            },
            Instr::F(f) => match f {
                FInstr::E { instr, .. } => instr.name(),
                FInstr::G { instr, .. } => instr.name(),
                FInstr::H { instr, .. } => instr.name(),
                FInstr::K { instr, .. } => instr.name(),
                FInstr::X { instr, .. } => instr.name(),
                FInstr::Y { instr, .. } => instr.name(),
                FInstr::W { instr, .. } => instr.name(),
                FInstr::V { instr, .. } => instr.name(),
                FInstr::Flw { .. } => "flw",
                FInstr::Fsw { .. } => "fsw",
            },
            Instr::Misc(_) => "end",
        }
    }

    /// The instruction in assembly; see `spec_text`.
    pub fn text(&self) -> (s: String)
        ensures
            s@ == self.spec_text(),
    {
        let name = self.name();
        match self {
            Instr::R { rd, rs1, rs2, .. } => join_3(name, rd.name(), rs1.name(), rs2.name()),
            Instr::I { instr, rd, rs1, imm } => {
                let imm = imm_string(*imm);
                if *instr == IInstr::Lw {
                    join_mem(name, rd.name(), imm.as_str(), rs1.name())
                } else {
                    join_3(name, rd.name(), rs1.name(), imm.as_str())
                }
            },
            Instr::S { rs1, rs2, imm, .. } => {
                let imm = imm_string(*imm);
                join_mem(name, rs2.name(), imm.as_str(), rs1.name())
            },
            Instr::B { rs1, rs2, imm, .. } => {
                let imm = imm_string(*imm);
                join_3(name, rs1.name(), rs2.name(), imm.as_str())
            },
            Instr::P { rs1, imm, imm2, .. } => {
                let imm = imm_string(*imm);
                let imm2 = imm_string(*imm2);
                join_3(name, rs1.name(), imm2.as_str(), imm.as_str())
            },
            Instr::J { rd, imm, .. } => {
                let imm = imm_string(*imm);
                join_2(name, rd.name(), imm.as_str())
            },
            Instr::IO(io) => match io {
                IOInstr::Outb { rs } => join_1(name, rs.name()),
                IOInstr::Inw { rd } => join_1(name, rd.name()),
                IOInstr::Finw { rd } => join_1(name, rd.name()),
            },
            Instr::F(f) => match f {
                FInstr::E { rd, rs1, rs2, .. } => join_3(name, rd.name(), rs1.name(), rs2.name()),
                FInstr::G { rd, rs1, rs2, rs3, .. } => join_4(
                    name,
                    rd.name(),
                    rs1.name(),
                    rs2.name(),
                    rs3.name(),
                ),
                FInstr::H { rd, rs1, .. } => join_2(name, rd.name(), rs1.name()),
                FInstr::K { rd, rs1, rs2, .. } => join_3(name, rd.name(), rs1.name(), rs2.name()),
                FInstr::X { rd, rs1, .. } => join_2(name, rd.name(), rs1.name()),
                FInstr::Y { rd, rs1, .. } => join_2(name, rd.name(), rs1.name()),
                FInstr::W { rs1, rs2, imm, .. } => {
                    let imm = uimm_string(*imm);
                    join_3(name, rs1.name(), rs2.name(), imm.as_str())
                },
                FInstr::V { rs1, imm, .. } => {
                    let imm = uimm_string(*imm);
                    join_2(name, rs1.name(), imm.as_str())
                },
                FInstr::Flw { rd, rs1, imm } => {
                    let imm = uimm_string(*imm);
                    join_mem(name, rd.name(), imm.as_str(), rs1.name())
                },
                FInstr::Fsw { rs2, rs1, imm } => {
                    let imm = uimm_string(*imm);
                    join_mem(name, rs2.name(), imm.as_str(), rs1.name())
                },
            },
            Instr::Misc(_) => String::from_str(name),
        }
    }
}

impl Instr<RegId, RegId, FRegId, FRegId> {
    /// Whether every register that the instruction names has an index
    /// below `bound`.
    pub open spec fn spec_regs_below(self, bound: int) -> bool {
        match self {
            Instr::R { rd, rs1, rs2, .. } => rd@ < bound && rs1@ < bound && rs2@ < bound,
            Instr::I { rd, rs1, .. } => rd@ < bound && rs1@ < bound,
            Instr::S { rs1, rs2, .. } => rs1@ < bound && rs2@ < bound,
            Instr::B { rs1, rs2, .. } => rs1@ < bound && rs2@ < bound,
            Instr::P { rs1, .. } => rs1@ < bound,
            Instr::J { rd, .. } => rd@ < bound,
            Instr::IO(io) => match io {
                IOInstr::Outb { rs } => rs@ < bound,
                IOInstr::Inw { rd } => rd@ < bound,
                IOInstr::Finw { rd } => rd@ < bound,
            },
            Instr::F(f) => match f {
                FInstr::E { rd, rs1, rs2, .. } => rd@ < bound && rs1@ < bound && rs2@ < bound,
                FInstr::G { rd, rs1, rs2, rs3, .. } => rd@ < bound && rs1@ < bound && rs2@ < bound
                    && rs3@ < bound,
                FInstr::H { rd, rs1, .. } => rd@ < bound && rs1@ < bound,
                FInstr::K { rd, rs1, rs2, .. } => rd@ < bound && rs1@ < bound && rs2@ < bound,
                FInstr::X { rd, rs1, .. } => rd@ < bound && rs1@ < bound,
                FInstr::Y { rd, rs1, .. } => rd@ < bound && rs1@ < bound,
                FInstr::W { rs1, rs2, .. } => rs1@ < bound && rs2@ < bound,
                FInstr::V { rs1, .. } => rs1@ < bound,
                FInstr::Flw { rd, rs1, .. } => rd@ < bound && rs1@ < bound,
                FInstr::Fsw { rs2, rs1, .. } => rs2@ < bound && rs1@ < bound,
            },
            Instr::Misc(_) => true,
        }
    }
}

} // verus!
