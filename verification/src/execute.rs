//! What each instruction computes, as a function of the values of its
//! sources.

use crate::fpu::{
    fge, fisneg, fispos, fiszero, flt, fneg, fsgnj, fsgnjn, fsgnjx, spec_fge, spec_fisneg,
    spec_fispos, spec_fiszero, spec_flt, spec_fneg, spec_fsgnj, spec_fsgnjn, spec_fsgnjx,
};
use crate::instr::{
    BInstr, EInstr, FInstr, FetchedInstr, GInstr, HInstr, IInstr, IOInstr, Instr, MiscInstr,
    PInstr, RInstr, VInstr, WInstr, YInstr,
};
use crate::isa::Dialect;
use crate::register::{FRegId, RegId};
use vstd::prelude::*;

verus! {

/// What the memory-access stage is asked to do.
#[allow(inconsistent_fields)]
#[derive(Debug, Clone, Copy, PartialEq, Eq, Structural)]
pub enum MemoryAccessInput {
    /// Store the integer `val` at word `addr`.
    I { addr: usize, val: u32 },
    /// Store the float with bit pattern `val` at word `addr`.
    F { addr: usize, val: u32 },
    /// Load integer register `id` from word `addr`.
    IMem { id: RegId, addr: usize },
    /// Load float register `id` from word `addr`.
    FMem { id: FRegId, addr: usize },
}

/// What the write-back stage is asked to do.
#[allow(inconsistent_fields)]
#[derive(Debug, Clone, Copy, PartialEq, Eq, Structural)]
pub enum WriteBackInput {
    I { id: RegId, val: u32 },
    F { id: FRegId, val: u32 },
}

/// What the execute stage hands on.
#[derive(Debug, Clone, Copy, PartialEq, Eq, Structural)]
pub struct ExecuteOutput {
    /// The memory access to make, if any.
    pub ma_in: Option<MemoryAccessInput>,
    /// The register to write, if any.
    pub wb_in: Option<WriteBackInput>,
    /// Where control goes, if not to the next instruction.
    pub new_pc: Option<usize>,
    /// The result comes from the float unit.
    pub use_fpu: bool,
    /// The instructions fetched behind this one must be thrown away.
    pub flush: bool,
    /// Cycles spent in the execute stage.
    pub cycles: usize,
    /// The program halts.
    pub end: bool,
}

impl ExecuteOutput {
    /// An instruction that spends one cycle and has no effect.
    pub open spec fn idle() -> Self {
        ExecuteOutput {
            ma_in: None,
            wb_in: None,
            new_pc: None,
            use_fpu: false,
            flush: false,
            cycles: 1,
            end: false,
        }
    }
}

impl Default for ExecuteOutput {
    fn default() -> (o: Self)
        ensures
            o == (ExecuteOutput { cycles: 0, ..ExecuteOutput::idle() }),
    {
        ExecuteOutput {
            ma_in: None,
            wb_in: None,
            new_pc: None,
            use_fpu: false,
            flush: false,
            cycles: 0,
            end: false,
        }
    }
}

/// The word read as a signed integer in two's complement.
pub open spec fn spec_signed(x: u32) -> int {
    if x < 0x8000_0000 {
        x as int
    } else {
        x - 0x1_0000_0000
    }
}

pub fn signed(x: u32) -> (v: i32)
    ensures
        v == spec_signed(x),
{
    if x < 0x8000_0000 {
        x as i32
    } else {
        (x as i64 - 0x1_0000_0000) as i32
    }
}

/// The word whose two's complement reading is `v`.
pub open spec fn spec_unsigned(v: i32) -> u32 {
    if v >= 0 {
        v as u32
    } else {
        (v + 0x1_0000_0000) as u32
    }
}

pub fn unsigned(v: i32) -> (x: u32)
    ensures
        x == spec_unsigned(v),
        spec_signed(x) == v,
{
    if v >= 0 {
        v as u32
    } else {
        (v as i64 + 0x1_0000_0000) as u32
    }
}

/// 1 for true, 0 for false.
pub open spec fn spec_flag(b: bool) -> u32 {
    if b {
        1
    } else {
        0
    }
}

pub fn flag(b: bool) -> (v: u32)
    ensures
        v == spec_flag(b),
{
    if b {
        1
    } else {
        0
    }
}

/// By how many bits a shift moves: the low five bits of the operand in the
/// first encoding, the low six in the second.
pub open spec fn spec_shift_amount(d: Dialect, operand: u32) -> u32 {
    match d {
        Dialect::V1 => operand & 0x1f,
        Dialect::V2 => operand & 0x3f,
    }
}

/// `value` shifted left; nothing is left of it after 32 bits or more.
pub open spec fn spec_sll(d: Dialect, value: u32, operand: u32) -> u32 {
    let amount = spec_shift_amount(d, operand);
    if amount >= 32 {
        0
    } else {
        value << amount
    }
}

/// `value` shifted right with copies of its sign bit coming in from the left.
pub open spec fn spec_sra(d: Dialect, value: u32, operand: u32) -> u32 {
    let amount = spec_shift_amount(d, operand);
    let negative = value & 0x8000_0000 != 0;
    if amount >= 32 {
        if negative {
            0xffff_ffff
        } else {
            0
        }
    } else if negative {
        (value >> amount) | !(0xffff_ffffu32 >> amount)
    } else {
        value >> amount
    }
}

fn shift_amount(d: Dialect, operand: u32) -> (amount: u32)
    ensures
        amount == spec_shift_amount(d, operand),
        amount < 64,
{
    match d {
        Dialect::V1 => {
            assert(operand & 0x1f < 64) by (bit_vector);
            operand & 0x1f
        },
        Dialect::V2 => {
            assert(operand & 0x3f < 64) by (bit_vector);
            operand & 0x3f
        },
    }
}

pub fn sll(d: Dialect, value: u32, operand: u32) -> (r: u32)
    ensures
        r == spec_sll(d, value, operand),
{
    let amount: u32 = shift_amount(d, operand);
    if amount >= 32 {
        0
    } else {
        value << amount
    }
}

pub fn sra(d: Dialect, value: u32, operand: u32) -> (r: u32)
    ensures
        r == spec_sra(d, value, operand),
{
    let amount: u32 = shift_amount(d, operand);
    let negative = value & 0x8000_0000 != 0;
    if amount >= 32 {
        if negative {
            0xffff_ffff
        } else {
            0
        }
    } else if negative {
        (value >> amount) | !(0xffff_ffffu32 >> amount)
    } else {
        value >> amount
    }
}

/// Shifting by 31 moves bit 0 to the sign bit, and an arithmetic shift of
/// minus one gives minus one whatever the amount; an arithmetic shift keeps
/// the sign.
pub proof fn lemma_shift_edges(d: Dialect, value: u32, operand: u32)
    ensures
        spec_sll(d, 1, 31) == 0x8000_0000,
        spec_sll(d, value, 0) == value,
        spec_sra(d, 0xffff_ffff, operand) == 0xffff_ffff,
        spec_sra(d, value, operand) & 0x8000_0000 == value & 0x8000_0000,
{
    assert(31u32 & 0x1f == 31 && 31u32 & 0x3f == 31 && 0u32 & 0x1f == 0 && 0u32 & 0x3f == 0
        && 1u32 << 31u32 == 0x8000_0000) by (bit_vector);
    assert(value << 0u32 == value) by (bit_vector);
    let a1 = operand & 0x1f;
    let a2 = operand & 0x3f;
    assert(a1 < 32 && a2 < 64) by (bit_vector)
        requires
            a1 == operand & 0x1f,
            a2 == operand & 0x3f,
    ;
    let amount = spec_shift_amount(d, operand);
    assert(0xffff_ffffu32 & 0x8000_0000 != 0) by (bit_vector);
    if amount < 32 {
        assert((0xffff_ffffu32 >> amount) | !(0xffff_ffffu32 >> amount) == 0xffff_ffff)
            by (bit_vector);
        assert(value & 0x8000_0000 != 0 ==> ((value >> amount) | !(0xffff_ffffu32 >> amount))
            & 0x8000_0000 == value & 0x8000_0000) by (bit_vector)
            requires
                amount < 32,
        ;
        assert(value & 0x8000_0000 == 0 ==> (value >> amount) & 0x8000_0000 == 0) by (bit_vector)
            requires
                amount < 32,
        ;
    } else {
        assert(0xffff_ffffu32 & 0x8000_0000 == 0x8000_0000 && 0u32 & 0x8000_0000 == 0)
            by (bit_vector);
        assert(value & 0x8000_0000 != 0 ==> value & 0x8000_0000 == 0x8000_0000) by (bit_vector);
    }
}

/// The result of a register-register operation.
pub open spec fn spec_alu_r(d: Dialect, instr: RInstr, rs1: u32, rs2: u32) -> u32 {
    match instr {
        RInstr::Add => rs1.wrapping_add(rs2),
        RInstr::Sub => rs1.wrapping_sub(rs2),
        RInstr::Xor => rs1 ^ rs2,
        RInstr::Or => rs1 | rs2,
        RInstr::And => rs1 & rs2,
        RInstr::Sll => spec_sll(d, rs1, rs2),
        RInstr::Sra => spec_sra(d, rs1, rs2),
        RInstr::Slt => spec_flag(spec_signed(rs1) < spec_signed(rs2)),
        RInstr::Min => if spec_signed(rs1) <= spec_signed(rs2) {
            rs1
        } else {
            rs2
        },
        RInstr::Max => if spec_signed(rs1) >= spec_signed(rs2) {
            rs1
        } else {
            rs2
        },
    }
}

pub fn alu_r(d: Dialect, instr: RInstr, rs1: u32, rs2: u32) -> (r: u32)
    ensures
        r == spec_alu_r(d, instr, rs1, rs2),
{
    match instr {
        RInstr::Add => rs1.wrapping_add(rs2),
        RInstr::Sub => rs1.wrapping_sub(rs2),
        RInstr::Xor => rs1 ^ rs2,
        RInstr::Or => rs1 | rs2,
        RInstr::And => rs1 & rs2,
        RInstr::Sll => sll(d, rs1, rs2),
        RInstr::Sra => sra(d, rs1, rs2),
        RInstr::Slt => flag(signed(rs1) < signed(rs2)),
        RInstr::Min => if signed(rs1) <= signed(rs2) {
            rs1
        } else {
            rs2
        },
        RInstr::Max => if signed(rs1) >= signed(rs2) {
            rs1
        } else {
            rs2
        },
    }
}

/// The result of a register-immediate operation; for a load the address
/// that is read, for an indirect jump the address of the next instruction.
pub open spec fn spec_alu_i(d: Dialect, instr: IInstr, rs1: u32, imm: u32, pc_plus4: u32) -> u32 {
    match instr {
        IInstr::Addi => rs1.wrapping_add(imm),
        IInstr::Xori => rs1 ^ imm,
        IInstr::Ori => rs1 | imm,
        IInstr::Andi => rs1 & imm,
        IInstr::Slli => spec_sll(d, rs1, imm),
        IInstr::Slti => spec_flag(spec_signed(rs1) < spec_signed(imm)),
        IInstr::Lw => rs1.wrapping_add(imm),
        IInstr::Jalr => pc_plus4,
    }
}

pub fn alu_i(d: Dialect, instr: IInstr, rs1: u32, imm: u32, pc_plus4: u32) -> (r: u32)
    ensures
        r == spec_alu_i(d, instr, rs1, imm, pc_plus4),
{
    match instr {
        IInstr::Addi => rs1.wrapping_add(imm),
        IInstr::Xori => rs1 ^ imm,
        IInstr::Ori => rs1 | imm,
        IInstr::Andi => rs1 & imm,
        IInstr::Slli => sll(d, rs1, imm),
        IInstr::Slti => flag(signed(rs1) < signed(imm)),
        IInstr::Lw => rs1.wrapping_add(imm),
        IInstr::Jalr => pc_plus4,
    }
}

/// Whether a branch on two integers is taken.
pub open spec fn spec_branch_b(instr: BInstr, rs1: u32, rs2: u32) -> bool {
    match instr {
        BInstr::Beq => rs1 == rs2,
        BInstr::Bne => rs1 != rs2,
        BInstr::Blt => spec_signed(rs1) < spec_signed(rs2),
        BInstr::Bge => spec_signed(rs1) >= spec_signed(rs2),
        BInstr::Bxor => (rs1 ^ rs2) != 0,
        BInstr::Bxnor => (rs1 ^ rs2) == 0,
    }
}

pub fn branch_b(instr: BInstr, rs1: u32, rs2: u32) -> (taken: bool)
    ensures
        taken == spec_branch_b(instr, rs1, rs2),
{
    match instr {
        BInstr::Beq => rs1 == rs2,
        BInstr::Bne => rs1 != rs2,
        BInstr::Blt => signed(rs1) < signed(rs2),
        BInstr::Bge => signed(rs1) >= signed(rs2),
        BInstr::Bxor => (rs1 ^ rs2) != 0,
        BInstr::Bxnor => (rs1 ^ rs2) == 0,
    }
}

/// Whether a branch on an integer and an immediate is taken.
pub open spec fn spec_branch_p(instr: PInstr, rs1: u32, imm2: u32) -> bool {
    match instr {
        PInstr::Beqi => rs1 == imm2,
        PInstr::Bnei => rs1 != imm2,
        PInstr::Blti => spec_signed(rs1) < spec_signed(imm2),
        PInstr::Bgei => spec_signed(rs1) >= spec_signed(imm2),
        PInstr::Bgti => spec_signed(rs1) > spec_signed(imm2),
        PInstr::Blei => spec_signed(rs1) <= spec_signed(imm2),
    }
}

pub fn branch_p(instr: PInstr, rs1: u32, imm2: u32) -> (taken: bool)
    ensures
        taken == spec_branch_p(instr, rs1, imm2),
{
    match instr {
        PInstr::Beqi => rs1 == imm2,
        PInstr::Bnei => rs1 != imm2,
        PInstr::Blti => signed(rs1) < signed(imm2),
        PInstr::Bgei => signed(rs1) >= signed(imm2),
        PInstr::Bgti => signed(rs1) > signed(imm2),
        PInstr::Blei => signed(rs1) <= signed(imm2),
    }
}

/// Whether the instruction is a conditional branch, and if so whether it is taken.
pub open spec fn spec_branch(instr: FetchedInstr) -> Option<bool> {
    match instr {
        Instr::B { instr, rs1, rs2, .. } => Some(spec_branch_b(instr, rs1, rs2)),
        Instr::P { instr, rs1, imm2, .. } => Some(spec_branch_p(instr, rs1, imm2)),
        Instr::F(FInstr::W { instr, rs1, rs2, .. }) => Some(
            match instr {
                WInstr::Fblt => spec_flt(rs1, rs2),
                WInstr::Fbge => spec_fge(rs1, rs2),
            },
        ),
        Instr::F(FInstr::V { instr, rs1, .. }) => Some(
            match instr {
                VInstr::Fbeqz => spec_fiszero(rs1),
                VInstr::Fbnez => !spec_fiszero(rs1),
            },
        ),
        _ => None,
    }
}

pub fn branch(instr: &FetchedInstr) -> (r: Option<bool>)
    ensures
        r == spec_branch(*instr),
{
    match instr {
        Instr::B { instr, rs1, rs2, .. } => Some(branch_b(*instr, *rs1, *rs2)),
        Instr::P { instr, rs1, imm2, .. } => Some(branch_p(*instr, *rs1, *imm2)),
        Instr::F(FInstr::W { instr, rs1, rs2, .. }) => Some(
            match instr {
                WInstr::Fblt => flt(*rs1, *rs2),
                WInstr::Fbge => fge(*rs1, *rs2),
            },
        ),
        Instr::F(FInstr::V { instr, rs1, .. }) => Some(
            match instr {
                VInstr::Fbeqz => fiszero(*rs1),
                VInstr::Fbnez => !fiszero(*rs1),
            },
        ),
        _ => None,
    }
}

/// The immediate of a control transfer relative to the instruction's address.
pub open spec fn spec_offset(instr: FetchedInstr) -> u32 {
    match instr {
        Instr::B { imm, .. } => imm,
        Instr::P { imm, .. } => imm,
        Instr::J { imm, .. } => imm,
        Instr::F(FInstr::W { imm, .. }) => imm,
        Instr::F(FInstr::V { imm, .. }) => imm,
        _ => 0,
    }
}

/// Cycles that a float operation spends in the execute stage.
pub open spec fn spec_float_cycles(f: FInstr<u32, RegId, u32, FRegId>) -> usize {
    match f {
        FInstr::E { instr, .. } => match instr {
            EInstr::Fadd => 5,
            EInstr::Fsub => 5,
            EInstr::Fmul => 2,
            EInstr::Fdiv => 11,
            EInstr::Fsgnj => 1,
            EInstr::Fsgnjn => 1,
            EInstr::Fsgnjx => 1,
        },
        FInstr::G { .. } => 7,
        FInstr::H { instr, .. } => match instr {
            HInstr::Fsqrt => 8,
            HInstr::Fhalf => 1,
            HInstr::Ffloor => 8,
            HInstr::Ffrac => 8,
            HInstr::Finv => 8,
        },
        FInstr::K { .. } => 1,
        FInstr::X { .. } => 4,
        FInstr::Y { instr, .. } => match instr {
            YInstr::Fiszero => 1,
            YInstr::Fispos => 1,
            YInstr::Fisneg => 1,
            YInstr::Fftoi => 2,
        },
        FInstr::W { .. } => 1,
        FInstr::V { .. } => 1,
        FInstr::Flw { .. } => 1,
        FInstr::Fsw { .. } => 1,
    }
}

pub fn float_cycles(f: &FInstr<u32, RegId, u32, FRegId>) -> (c: usize)
    ensures
        c == spec_float_cycles(*f),
        1 <= c <= 11,
{
    match f {
        FInstr::E { instr, .. } => match instr {
            EInstr::Fadd => 5,
            EInstr::Fsub => 5,
            EInstr::Fmul => 2,
            EInstr::Fdiv => 11,
            EInstr::Fsgnj => 1,
            EInstr::Fsgnjn => 1,
            EInstr::Fsgnjx => 1,
        },
        FInstr::G { .. } => 7,
        FInstr::H { instr, .. } => match instr {
            HInstr::Fsqrt => 8,
            HInstr::Fhalf => 1,
            HInstr::Ffloor => 8,
            HInstr::Ffrac => 8,
            HInstr::Finv => 8,
        },
        FInstr::K { .. } => 1,
        FInstr::X { .. } => 4,
        FInstr::Y { instr, .. } => match instr {
            YInstr::Fiszero => 1,
            YInstr::Fispos => 1,
            YInstr::Fisneg => 1,
            YInstr::Fftoi => 2,
        },
        FInstr::W { .. } => 1,
        FInstr::V { .. } => 1,
        FInstr::Flw { .. } => 1,
        FInstr::Fsw { .. } => 1,
    }
}

/// What an instruction asks of the world outside the datapath: of a
/// device, or of the arithmetic backend of the float unit. Floats are bit
/// patterns.
#[derive(Debug, Clone, Copy, PartialEq, Eq, Structural)]
pub enum OutsideRequest {
    /// Nothing.
    Nothing,
    /// Write the byte to the output device.
    Outb(u8),
    /// Read a word from the input device as an integer.
    Inw,
    /// Read a word from the input device as a float.
    Finw,
    Fadd(u32, u32),
    Fsub(u32, u32),
    Fmul(u32, u32),
    Fdiv(u32, u32),
    /// Multiply the first two, then add the third.
    MulAdd(u32, u32, u32),
    /// Multiply the first two, then subtract the third.
    MulSub(u32, u32, u32),
    Fsqrt(u32),
    Fhalf(u32),
    Ffloor(u32),
    Ffrac(u32),
    Finv(u32),
    /// Convert the integer to a float.
    Fcvtsw(i32),
    /// Convert the float to an integer.
    Fcvtws(u32),
}

/// What `instr` asks of the outside. An output writes the low byte of its
/// source. The negated multiply-adds negate their first factor before they
/// ask. Sign injection, predicates and comparisons ask nothing.
pub open spec fn spec_outside_request(instr: FetchedInstr) -> OutsideRequest {
    match instr {
        Instr::IO(io) => match io {
            IOInstr::Outb { rs } => OutsideRequest::Outb((rs % 0x100) as u8),
            IOInstr::Inw { .. } => OutsideRequest::Inw,
            IOInstr::Finw { .. } => OutsideRequest::Finw,
        },
        Instr::F(f) => match f {
            FInstr::E { instr, rs1, rs2, .. } => match instr {
                EInstr::Fadd => OutsideRequest::Fadd(rs1, rs2),
                EInstr::Fsub => OutsideRequest::Fsub(rs1, rs2),
                EInstr::Fmul => OutsideRequest::Fmul(rs1, rs2),
                EInstr::Fdiv => OutsideRequest::Fdiv(rs1, rs2),
                _ => OutsideRequest::Nothing,
            },
            FInstr::G { instr, rs1, rs2, rs3, .. } => match instr {
                GInstr::Fmadd => OutsideRequest::MulAdd(rs1, rs2, rs3),
                GInstr::Fmsub => OutsideRequest::MulSub(rs1, rs2, rs3),
                GInstr::Fnmadd => OutsideRequest::MulAdd(spec_fneg(rs1), rs2, rs3),
                GInstr::Fnmsub => OutsideRequest::MulSub(spec_fneg(rs1), rs2, rs3),
            },
            FInstr::H { instr, rs1, .. } => match instr {
                HInstr::Fsqrt => OutsideRequest::Fsqrt(rs1),
                HInstr::Fhalf => OutsideRequest::Fhalf(rs1),
                HInstr::Ffloor => OutsideRequest::Ffloor(rs1),
                HInstr::Ffrac => OutsideRequest::Ffrac(rs1),
                HInstr::Finv => OutsideRequest::Finv(rs1),
            },
            FInstr::X { rs1, .. } => OutsideRequest::Fcvtsw(spec_signed(rs1) as i32),
            FInstr::Y { instr, rs1, .. } => match instr {
                YInstr::Fftoi => OutsideRequest::Fcvtws(rs1),
                _ => OutsideRequest::Nothing,
            },
            _ => OutsideRequest::Nothing,
        },
        _ => OutsideRequest::Nothing,
    }
}

/// Tells what `instr` asks of the outside; see `spec_outside_request`.
pub fn outside_request(instr: &FetchedInstr) -> (r: OutsideRequest)
    ensures
        r == spec_outside_request(*instr),
{
    match instr {
        Instr::IO(io) => match io {
            IOInstr::Outb { rs } => OutsideRequest::Outb((*rs % 0x100) as u8),
            IOInstr::Inw { .. } => OutsideRequest::Inw,
            IOInstr::Finw { .. } => OutsideRequest::Finw,
        },
        Instr::F(f) => match f {
            FInstr::E { instr, rs1, rs2, .. } => match instr {
                EInstr::Fadd => OutsideRequest::Fadd(*rs1, *rs2),
                EInstr::Fsub => OutsideRequest::Fsub(*rs1, *rs2),
                EInstr::Fmul => OutsideRequest::Fmul(*rs1, *rs2),
                EInstr::Fdiv => OutsideRequest::Fdiv(*rs1, *rs2),
                _ => OutsideRequest::Nothing,
            },
            FInstr::G { instr, rs1, rs2, rs3, .. } => match instr {
                GInstr::Fmadd => OutsideRequest::MulAdd(*rs1, *rs2, *rs3),
                GInstr::Fmsub => OutsideRequest::MulSub(*rs1, *rs2, *rs3),
                GInstr::Fnmadd => OutsideRequest::MulAdd(fneg(*rs1), *rs2, *rs3),
                GInstr::Fnmsub => OutsideRequest::MulSub(fneg(*rs1), *rs2, *rs3),
            },
            FInstr::H { instr, rs1, .. } => match instr {
                HInstr::Fsqrt => OutsideRequest::Fsqrt(*rs1),
                HInstr::Fhalf => OutsideRequest::Fhalf(*rs1),
                HInstr::Ffloor => OutsideRequest::Ffloor(*rs1),
                HInstr::Ffrac => OutsideRequest::Ffrac(*rs1),
                HInstr::Finv => OutsideRequest::Finv(*rs1),
            },
            FInstr::X { rs1, .. } => OutsideRequest::Fcvtsw(signed(*rs1)),
            FInstr::Y { instr, rs1, .. } => match instr {
                YInstr::Fftoi => OutsideRequest::Fcvtws(*rs1),
                _ => OutsideRequest::Nothing,
            },
            _ => OutsideRequest::Nothing,
        },
        _ => OutsideRequest::Nothing,
    }
}

/// Whether the value of the instruction comes from outside the datapath:
/// it asks something, and what it asks has an answer.
pub open spec fn spec_needs_outside(instr: FetchedInstr) -> bool {
    !(spec_outside_request(instr) is Nothing) && !(spec_outside_request(instr) is Outb)
}

/// What the execute stage hands on for `instr`, whose sources hold the
/// values in it.
///
/// `old_pc` is the address of the instruction and `pc_plus4` the address
/// behind it; `predicted` is what the branch predictor said, and `outside`
/// the value that the float backend or the input device delivered (both are
/// ignored by the instructions that do not use them).
pub open spec fn spec_execute(
    d: Dialect,
    instr: FetchedInstr,
    old_pc: u32,
    pc_plus4: u32,
    predicted: bool,
    outside: u32,
) -> ExecuteOutput {
    let idle = ExecuteOutput::idle();
    let target = old_pc.wrapping_add(spec_offset(instr)) as usize;
    match instr {
        Instr::R { instr, rd, rs1, rs2 } => ExecuteOutput {
            wb_in: Some(WriteBackInput::I { id: rd, val: spec_alu_r(d, instr, rs1, rs2) }),
            ..idle
        },
        Instr::I { instr, rd, rs1, imm } => match instr {
            IInstr::Lw => ExecuteOutput {
                ma_in: Some(MemoryAccessInput::IMem { id: rd, addr: rs1.wrapping_add(imm) as usize }),
                ..idle
            },
            IInstr::Jalr => ExecuteOutput {
                wb_in: Some(WriteBackInput::I { id: rd, val: pc_plus4 }),
                new_pc: Some(rs1.wrapping_add(imm) as usize),
                flush: true,
                ..idle
            },
            _ => ExecuteOutput {
                wb_in: Some(
                    WriteBackInput::I { id: rd, val: spec_alu_i(d, instr, rs1, imm, pc_plus4) },
                ),
                ..idle
            },
        },
        Instr::S { instr, rs1, rs2, imm } => ExecuteOutput {
            ma_in: Some(MemoryAccessInput::I { addr: rs1.wrapping_add(imm) as usize, val: rs2 }),
            ..idle
        },
        Instr::J { instr, rd, imm } => ExecuteOutput {
            wb_in: Some(WriteBackInput::I { id: rd, val: pc_plus4 }),
            new_pc: Some(target),
            ..idle
        },
        Instr::IO(io) => match io {
            IOInstr::Outb { .. } => idle,
            IOInstr::Inw { rd } => ExecuteOutput {
                wb_in: Some(WriteBackInput::I { id: rd, val: outside }),
                ..idle
            },
            IOInstr::Finw { rd } => ExecuteOutput {
                wb_in: Some(WriteBackInput::F { id: rd, val: outside }),
                ..idle
            },
        },
        Instr::Misc(MiscInstr::End) => ExecuteOutput { end: true, ..idle },
        Instr::F(f) => match f {
            FInstr::E { instr, rd, rs1, rs2 } => ExecuteOutput {
                wb_in: Some(
                    WriteBackInput::F {
                        id: rd,
                        val: match instr {
                            EInstr::Fsgnj => spec_fsgnj(rs1, rs2),
                            EInstr::Fsgnjn => spec_fsgnjn(rs1, rs2),
                            EInstr::Fsgnjx => spec_fsgnjx(rs1, rs2),
                            _ => outside,
                        },
                    },
                ),
                use_fpu: true,
                cycles: spec_float_cycles(f),
                ..idle
            },
            FInstr::G { rd, .. } => ExecuteOutput {
                wb_in: Some(WriteBackInput::F { id: rd, val: outside }),
                use_fpu: true,
                cycles: spec_float_cycles(f),
                ..idle
            },
            FInstr::H { rd, .. } => ExecuteOutput {
                wb_in: Some(WriteBackInput::F { id: rd, val: outside }),
                use_fpu: true,
                cycles: spec_float_cycles(f),
                ..idle
            },
            FInstr::K { instr, rd, rs1, rs2 } => ExecuteOutput {
                wb_in: Some(WriteBackInput::I { id: rd, val: spec_flag(spec_flt(rs1, rs2)) }),
                ..idle
            },
            FInstr::X { rd, .. } => ExecuteOutput {
                wb_in: Some(WriteBackInput::F { id: rd, val: outside }),
                use_fpu: true,
                cycles: spec_float_cycles(f),
                ..idle
            },
            FInstr::Y { instr, rd, rs1 } => ExecuteOutput {
                wb_in: Some(
                    WriteBackInput::I {
                        id: rd,
                        val: match instr {
                            YInstr::Fiszero => spec_flag(spec_fiszero(rs1)),
                            YInstr::Fispos => spec_flag(spec_fispos(rs1)),
                            YInstr::Fisneg => spec_flag(spec_fisneg(rs1)),
                            YInstr::Fftoi => outside,
                        },
                    },
                ),
                use_fpu: true,
                cycles: spec_float_cycles(f),
                ..idle
            },
            FInstr::Flw { rd, rs1, imm } => ExecuteOutput {
                ma_in: Some(MemoryAccessInput::FMem { id: rd, addr: rs1.wrapping_add(imm) as usize }),
                ..idle
            },
            FInstr::Fsw { rs2, rs1, imm } => ExecuteOutput {
                ma_in: Some(MemoryAccessInput::F { addr: rs1.wrapping_add(imm) as usize, val: rs2 }),
                ..idle
            },
            _ => match spec_branch(instr) {
                Some(taken) => ExecuteOutput {
                    new_pc: if taken {
                        Some(target)
                    } else {
                        None
                    },
                    flush: predicted != taken,
                    ..idle
                },
                None => idle,
            },
        },
        _ => match spec_branch(instr) {
            Some(taken) => ExecuteOutput {
                new_pc: if taken {
                    Some(target)
                } else {
                    None
                },
                flush: predicted != taken,
                ..idle
            },
            None => idle,
        },
    }
}

fn idle() -> (o: ExecuteOutput)
    ensures
        o == ExecuteOutput::idle(),
{
    ExecuteOutput {
        ma_in: None,
        wb_in: None,
        new_pc: None,
        use_fpu: false,
        flush: false,
        cycles: 1,
        end: false,
    }
}

fn branch_output(target: usize, taken: bool, predicted: bool) -> (o: ExecuteOutput)
    ensures
        o == (ExecuteOutput {
            new_pc: if taken {
                Some(target)
            } else {
                None
            },
            flush: predicted != taken,
            ..ExecuteOutput::idle()
        }),
{
    let mut o = idle();
    if taken {
        o.new_pc = Some(target);
    }
    o.flush = predicted != taken;
    o
}

/// Computes what the execute stage hands on; see `spec_execute`.
pub fn execute_output(
    d: Dialect,
    instr: FetchedInstr,
    old_pc: u32,
    pc_plus4: u32,
    predicted: bool,
    outside: u32,
) -> (o: ExecuteOutput)
    ensures
        o == spec_execute(d, instr, old_pc, pc_plus4, predicted, outside),
{
    let mut o = idle();
    match instr {
        Instr::R { instr, rd, rs1, rs2 } => {
            o.wb_in = Some(WriteBackInput::I { id: rd, val: alu_r(d, instr, rs1, rs2) });
        },
        Instr::I { instr, rd, rs1, imm } => match instr {
            IInstr::Lw => {
                o.ma_in = Some(
                    MemoryAccessInput::IMem { id: rd, addr: rs1.wrapping_add(imm) as usize },
                );
            },
            IInstr::Jalr => {
                o.wb_in = Some(WriteBackInput::I { id: rd, val: pc_plus4 });
                o.new_pc = Some(rs1.wrapping_add(imm) as usize);
                o.flush = true;
            },
            _ => {
                o.wb_in = Some(
                    WriteBackInput::I { id: rd, val: alu_i(d, instr, rs1, imm, pc_plus4) },
                );
            },
        },
        Instr::S { instr, rs1, rs2, imm } => {
            o.ma_in = Some(
                MemoryAccessInput::I { addr: rs1.wrapping_add(imm) as usize, val: rs2 },
            );
        },
        Instr::B { instr, rs1, rs2, imm } => {
            o = branch_output(
                old_pc.wrapping_add(imm) as usize,
                branch_b(instr, rs1, rs2),
                predicted,
            );
        },
        Instr::P { instr, rs1, imm, imm2 } => {
            o = branch_output(
                old_pc.wrapping_add(imm) as usize,
                branch_p(instr, rs1, imm2),
                predicted,
            );
        },
        Instr::J { instr, rd, imm } => {
            o.wb_in = Some(WriteBackInput::I { id: rd, val: pc_plus4 });
            o.new_pc = Some(old_pc.wrapping_add(imm) as usize);
        },
        Instr::IO(io) => match io {
            IOInstr::Outb { .. } => {},
            IOInstr::Inw { rd } => {
                o.wb_in = Some(WriteBackInput::I { id: rd, val: outside });
            },
            IOInstr::Finw { rd } => {
                o.wb_in = Some(WriteBackInput::F { id: rd, val: outside });
            },
        },
        Instr::Misc(MiscInstr::End) => {
            o.end = true;
        },
        Instr::F(f) => {
            let cycles = float_cycles(&f);
            match f {
                FInstr::E { instr, rd, rs1, rs2 } => {
                    let val: u32 = match instr {
                        EInstr::Fsgnj => fsgnj(rs1, rs2),
                        EInstr::Fsgnjn => fsgnjn(rs1, rs2),
                        EInstr::Fsgnjx => fsgnjx(rs1, rs2),
                        _ => outside,
                    };
                    o.wb_in = Some(WriteBackInput::F { id: rd, val });
                    o.use_fpu = true;
                    o.cycles = cycles;
                },
                FInstr::G { rd, .. } => {
                    o.wb_in = Some(WriteBackInput::F { id: rd, val: outside });
                    o.use_fpu = true;
                    o.cycles = cycles;
                },
                FInstr::H { rd, .. } => {
                    o.wb_in = Some(WriteBackInput::F { id: rd, val: outside });
                    o.use_fpu = true;
                    o.cycles = cycles;
                },
                FInstr::K { instr, rd, rs1, rs2 } => {
                    o.wb_in = Some(WriteBackInput::I { id: rd, val: flag(flt(rs1, rs2)) });
                },
                FInstr::X { rd, .. } => {
                    o.wb_in = Some(WriteBackInput::F { id: rd, val: outside });
                    o.use_fpu = true;
                    o.cycles = cycles;
                },
                FInstr::Y { instr, rd, rs1 } => {
                    let val: u32 = match instr {
                        YInstr::Fiszero => flag(fiszero(rs1)),
                        YInstr::Fispos => flag(fispos(rs1)),
                        YInstr::Fisneg => flag(fisneg(rs1)),
                        YInstr::Fftoi => outside,
                    };
                    o.wb_in = Some(WriteBackInput::I { id: rd, val });
                    o.use_fpu = true;
                    o.cycles = cycles;
                },
                FInstr::W { instr, rs1, rs2, imm } => {
                    let taken = match instr {
                        WInstr::Fblt => flt(rs1, rs2),
                        WInstr::Fbge => fge(rs1, rs2),
                    };
                    o = branch_output(old_pc.wrapping_add(imm) as usize, taken, predicted);
                },
                FInstr::V { instr, rs1, imm } => {
                    let taken = match instr {
                        VInstr::Fbeqz => fiszero(rs1),
                        VInstr::Fbnez => !fiszero(rs1),
                    };
                    o = branch_output(old_pc.wrapping_add(imm) as usize, taken, predicted);
                },
                FInstr::Flw { rd, rs1, imm } => {
                    o.ma_in = Some(
                        MemoryAccessInput::FMem { id: rd, addr: rs1.wrapping_add(imm) as usize },
                    );
                },
                FInstr::Fsw { rs2, rs1, imm } => {
                    o.ma_in = Some(
                        MemoryAccessInput::F { addr: rs1.wrapping_add(imm) as usize, val: rs2 },
                    );
                },
            }
        },
    }
    o
}

/// What every instruction has in common: it takes between 1 and 11 cycles in
/// the execute stage; only the halt instruction ends the program, and it
/// does nothing else; only branches that went against the prediction and
/// indirect jumps flush; a memory access and a register write exclude each
/// other.
pub proof fn lemma_execute_shape(
    d: Dialect,
    instr: FetchedInstr,
    old_pc: u32,
    pc_plus4: u32,
    predicted: bool,
    outside: u32,
)
    ensures
        ({
            let o = spec_execute(d, instr, old_pc, pc_plus4, predicted, outside);
            &&& 1 <= o.cycles <= 11
            &&& o.end <==> instr is Misc
            &&& o.end ==> o == (ExecuteOutput { end: true, ..ExecuteOutput::idle() })
            &&& !(o.ma_in is Some && o.wb_in is Some)
            &&& o.flush ==> (spec_branch(instr) matches Some(taken) && taken != predicted) || (
            instr matches Instr::I { instr: IInstr::Jalr, .. })
            &&& spec_branch(instr) matches Some(taken) ==> (o.new_pc is Some <==> taken)
                && o.wb_in is None && o.ma_in is None
            &&& !spec_needs_outside(instr) ==> o == spec_execute(
                d,
                instr,
                old_pc,
                pc_plus4,
                predicted,
                0,
            )
        }),
{
}

} // verus!
