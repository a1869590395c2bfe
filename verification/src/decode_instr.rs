//! Decoder of the first encoding: 7-bit opcodes, 5-bit register fields.

use crate::bin::{
    at, extract, lemma_register_field, mask, mask_lower, sign_extend, spec_at, spec_extract,
    spec_mask, spec_mask_lower, spec_sign_extend,
};
use crate::instr::{
    BInstr, DecodedInstr, EInstr, FInstr, HInstr, IInstr, IOInstr, Instr, JInstr, KInstr,
    MiscInstr, RInstr, SInstr, VInstr, WInstr, XInstr, YInstr,
};
use crate::isa::Dialect;
use crate::register::{FRegId, RegId};
use crate::text::{addr_text, push_addr};
use vstd::prelude::*;
use vstd::string::*;

verus! {

/// Why a word is not an instruction.
#[derive(Debug, Clone, Copy, PartialEq, Eq, Structural)]
pub enum DecodeError {
    /// No instruction has this opcode and function fields.
    Invalid(u32),
}

impl DecodeError {
    pub open spec fn spec_message(self) -> Seq<char> {
        match self {
            DecodeError::Invalid(bin) => "invalid opcode found: `"@ + addr_text(bin as nat) + "`"@,
        }
    }

    /// The text of the error as it is shown to the user.
    pub fn message(&self) -> (s: String)
        ensures
            s@ == self.spec_message(),
    {
        match self {
            DecodeError::Invalid(bin) => {
                let mut s = String::from_str("invalid opcode found: `");
                push_addr(&mut s, *bin as u64);
                s.append("`");
                s
            },
        }
    }
}

/// Immediate of the J format: bits 31, 19..12, 20, 30..21 of the word form
/// bits 20..1 of the offset.
pub open spec fn spec_j_imm(bin: u32, sign: u32) -> u32 {
    let part1 = spec_extract(bin, 12, 19);
    let part2 = spec_at(bin, 20);
    let part3 = spec_extract(bin, 21, 30);
    let part4 = sign;
    spec_sign_extend(21, sign, part1 << 12 | part2 << 11 | part3 << 1 | part4 << 20)
}

/// Immediate of the I format: the upper twelve bits of the word.
pub open spec fn spec_i_imm(sign: u32, imm: u32) -> u32 {
    spec_sign_extend(12, sign, imm)
}

/// Immediate of the S format: bits 31..25 and 11..7 of the word.
pub open spec fn spec_s_imm(bin: u32, sign: u32) -> u32 {
    spec_sign_extend(12, sign, (spec_extract(bin, 25, 31) << 5) | spec_extract(bin, 7, 11))
}

/// Immediate of the B format: bits 31, 7, 30..25, 11..8 of the word form
/// bits 12..1 of the offset.
pub open spec fn spec_b_imm(bin: u32, sign: u32) -> u32 {
    let at_7 = spec_at(bin, 7);
    let lower = spec_extract(bin, 8, 11);
    let upper = spec_extract(bin, 25, 30);
    spec_sign_extend(13, sign, lower << 1 | upper << 5 | at_7 << 11 | sign << 12)
}

pub fn j_imm(bin: u32, sign: u32) -> (imm: u32)
    ensures
        imm == spec_j_imm(bin, sign),
{
    let part1: u32 = extract(bin, 12..19);
    let part2: u32 = at(bin, 20);
    let part3: u32 = extract(bin, 21..30);
    let part4: u32 = sign;
    let imm: u32 = part1 << 12 | part2 << 11 | part3 << 1 | part4 << 20;
    sign_extend::<21>(sign, imm)
}

pub fn i_imm(sign: u32, imm: u32) -> (r: u32)
    ensures
        r == spec_i_imm(sign, imm),
{
    sign_extend::<12>(sign, imm)
}

pub fn s_imm(bin: u32, sign: u32) -> (imm: u32)
    ensures
        imm == spec_s_imm(bin, sign),
{
    let imm: u32 = (extract(bin, 25..31) << 5) | (extract(bin, 7..11));
    sign_extend::<12>(sign, imm)
}

pub fn b_imm(bin: u32, sign: u32) -> (imm: u32)
    ensures
        imm == spec_b_imm(bin, sign),
{
    let at_7: u32 = at(bin, 7);
    let lower: u32 = extract(bin, 8..11);
    let upper: u32 = extract(bin, 25..30);
    let imm: u32 = lower << 1 | upper << 5 | at_7 << 11 | sign << 12;
    sign_extend::<13>(sign, imm)
}

/// Operation of the R format with the given function fields.
pub open spec fn spec_r_op(funct3: u32, funct7: u32) -> Option<RInstr> {
    if funct3 == 0 && funct7 == 0 {
        Some(RInstr::Add)
    } else if funct3 == 0 && funct7 == 0x20 {
        Some(RInstr::Sub)
    } else if funct3 == 4 && funct7 == 0 {
        Some(RInstr::Xor)
    } else if funct3 == 6 && funct7 == 0 {
        Some(RInstr::Or)
    } else if funct3 == 7 && funct7 == 0 {
        Some(RInstr::And)
    } else if funct3 == 1 && funct7 == 0 {
        Some(RInstr::Sll)
    } else if funct3 == 5 && funct7 == 0x20 {
        Some(RInstr::Sra)
    } else if funct3 == 2 && funct7 == 0 {
        Some(RInstr::Slt)
    } else {
        None
    }
}

/// Arithmetic operation of the I format with the given function fields.
pub open spec fn spec_i_op(funct3: u32, funct7: u32) -> Option<IInstr> {
    if funct3 == 0 {
        Some(IInstr::Addi)
    } else if funct3 == 4 {
        Some(IInstr::Xori)
    } else if funct3 == 6 {
        Some(IInstr::Ori)
    } else if funct3 == 7 {
        Some(IInstr::Andi)
    } else if funct3 == 1 && funct7 == 0 {
        Some(IInstr::Slli)
    } else if funct3 == 2 {
        Some(IInstr::Slti)
    } else {
        None
    }
}

/// Branch of the B format with the given function field.
pub open spec fn spec_b_op(funct3: u32) -> Option<BInstr> {
    if funct3 == 0 {
        Some(BInstr::Beq)
    } else if funct3 == 1 {
        Some(BInstr::Bne)
    } else if funct3 == 4 {
        Some(BInstr::Blt)
    } else if funct3 == 5 {
        Some(BInstr::Bge)
    } else {
        None
    }
}

/// Two-operand float operation with the given function field.
pub open spec fn spec_e_op(funct7: u32) -> Option<EInstr> {
    if funct7 == 0b0000 {
        Some(EInstr::Fadd)
    } else if funct7 == 0b0100 {
        Some(EInstr::Fsub)
    } else if funct7 == 0b1000 {
        Some(EInstr::Fmul)
    } else if funct7 == 0b1100 {
        Some(EInstr::Fdiv)
    } else if funct7 == 0b011000 {
        Some(EInstr::Fsgnj)
    } else if funct7 == 0b011100 {
        Some(EInstr::Fsgnjn)
    } else if funct7 == 0b100000 {
        Some(EInstr::Fsgnjx)
    } else {
        None
    }
}

/// One-operand float operation with the given function field.
pub open spec fn spec_h_op(funct7: u32) -> Option<HInstr> {
    if funct7 == 0b10000 {
        Some(HInstr::Fsqrt)
    } else if funct7 == 0b10100 {
        Some(HInstr::Fhalf)
    } else if funct7 == 0b1000000 {
        Some(HInstr::Ffloor)
    } else {
        None
    }
}

/// Float predicate with the given function field.
pub open spec fn spec_y_op(funct3: u32) -> Option<YInstr> {
    if funct3 == 0b100 {
        Some(YInstr::Fiszero)
    } else if funct3 == 0b101 {
        Some(YInstr::Fispos)
    } else if funct3 == 0b110 {
        Some(YInstr::Fisneg)
    } else {
        None
    }
}

/// Float branch on two registers with the given function field.
pub open spec fn spec_w_op(funct3: u32) -> Option<WInstr> {
    if funct3 == 0b001 {
        Some(WInstr::Fblt)
    } else if funct3 == 0b010 {
        Some(WInstr::Fbge)
    } else {
        None
    }
}

/// Float branch on zero with the given function field.
pub open spec fn spec_v_op(funct3: u32) -> Option<VInstr> {
    if funct3 == 0b100 {
        Some(VInstr::Fbeqz)
    } else if funct3 == 0b111 {
        Some(VInstr::Fbnez)
    } else {
        None
    }
}

pub fn r_op(funct3: u32, funct7: u32) -> (r: Option<RInstr>)
    ensures
        r == spec_r_op(funct3, funct7),
{
    if funct3 == 0 && funct7 == 0 {
        Some(RInstr::Add)
    } else if funct3 == 0 && funct7 == 0x20 {
        Some(RInstr::Sub)
    } else if funct3 == 4 && funct7 == 0 {
        Some(RInstr::Xor)
    } else if funct3 == 6 && funct7 == 0 {
        Some(RInstr::Or)
    } else if funct3 == 7 && funct7 == 0 {
        Some(RInstr::And)
    } else if funct3 == 1 && funct7 == 0 {
        Some(RInstr::Sll)
    } else if funct3 == 5 && funct7 == 0x20 {
        Some(RInstr::Sra)
    } else if funct3 == 2 && funct7 == 0 {
        Some(RInstr::Slt)
    } else {
        None
    }
}

pub fn i_op(funct3: u32, funct7: u32) -> (r: Option<IInstr>)
    ensures
        r == spec_i_op(funct3, funct7),
{
    if funct3 == 0 {
        Some(IInstr::Addi)
    } else if funct3 == 4 {
        Some(IInstr::Xori)
    } else if funct3 == 6 {
        Some(IInstr::Ori)
    } else if funct3 == 7 {
        Some(IInstr::Andi)
    } else if funct3 == 1 && funct7 == 0 {
        Some(IInstr::Slli)
    } else if funct3 == 2 {
        Some(IInstr::Slti)
    } else {
        None
    }
}

pub fn b_op(funct3: u32) -> (r: Option<BInstr>)
    ensures
        r == spec_b_op(funct3),
{
    if funct3 == 0 {
        Some(BInstr::Beq)
    } else if funct3 == 1 {
        Some(BInstr::Bne)
    } else if funct3 == 4 {
        Some(BInstr::Blt)
    } else if funct3 == 5 {
        Some(BInstr::Bge)
    } else {
        None
    }
}

pub fn e_op(funct7: u32) -> (r: Option<EInstr>)
    ensures
        r == spec_e_op(funct7),
{
    if funct7 == 0b0000 {
        Some(EInstr::Fadd)
    } else if funct7 == 0b0100 {
        Some(EInstr::Fsub)
    } else if funct7 == 0b1000 {
        Some(EInstr::Fmul)
    } else if funct7 == 0b1100 {
        Some(EInstr::Fdiv)
    } else if funct7 == 0b011000 {
        Some(EInstr::Fsgnj)
    } else if funct7 == 0b011100 {
        Some(EInstr::Fsgnjn)
    } else if funct7 == 0b100000 {
        Some(EInstr::Fsgnjx)
    } else {
        None
    }
}

pub fn h_op(funct7: u32) -> (r: Option<HInstr>)
    ensures
        r == spec_h_op(funct7),
{
    if funct7 == 0b10000 {
        Some(HInstr::Fsqrt)
    } else if funct7 == 0b10100 {
        Some(HInstr::Fhalf)
    } else if funct7 == 0b1000000 {
        Some(HInstr::Ffloor)
    } else {
        None
    }
}

pub fn y_op(funct3: u32) -> (r: Option<YInstr>)
    ensures
        r == spec_y_op(funct3),
{
    if funct3 == 0b100 {
        Some(YInstr::Fiszero)
    } else if funct3 == 0b101 {
        Some(YInstr::Fispos)
    } else if funct3 == 0b110 {
        Some(YInstr::Fisneg)
    } else {
        None
    }
}

pub fn w_op(funct3: u32) -> (r: Option<WInstr>)
    ensures
        r == spec_w_op(funct3),
{
    if funct3 == 0b001 {
        Some(WInstr::Fblt)
    } else if funct3 == 0b010 {
        Some(WInstr::Fbge)
    } else {
        None
    }
}

pub fn v_op(funct3: u32) -> (r: Option<VInstr>)
    ensures
        r == spec_v_op(funct3),
{
    if funct3 == 0b100 {
        Some(VInstr::Fbeqz)
    } else if funct3 == 0b111 {
        Some(VInstr::Fbnez)
    } else {
        None
    }
}

/// The integer register named by the five bits of `bin` from bit `start` up.
pub open spec fn spec_reg(bin: u32, start: u32) -> RegId {
    RegId::spec_new(spec_extract(bin, start, (start + 4) as u32) as int)
}

/// The float register named by the five bits of `bin` from bit `start` up.
pub open spec fn spec_freg(bin: u32, start: u32) -> FRegId {
    FRegId::spec_new(spec_extract(bin, start, (start + 4) as u32) as int)
}

fn reg(bin: u32, start: u32) -> (r: RegId)
    requires
        start <= 26,
    ensures
        r == spec_reg(bin, start),
        r@ == spec_extract(bin, start, (start + 4) as u32),
        r@ < 32,
{
    proof {
        lemma_register_field(bin, start);
    }
    let field: u32 = extract(bin, start..(start + 4));
    RegId::try_new(field).unwrap()
}

fn freg(bin: u32, start: u32) -> (r: FRegId)
    requires
        start <= 26,
    ensures
        r == spec_freg(bin, start),
        r@ == spec_extract(bin, start, (start + 4) as u32),
        r@ < 32,
{
    proof {
        lemma_register_field(bin, start);
    }
    let field: u32 = extract(bin, start..(start + 4));
    FRegId::try_new(field).unwrap()
}

/// What the word `bin` means in the first encoding.
///
/// The all-zero word halts. Otherwise bits 6..0 select the format, bits
/// 14..12 and 31..25 the operation; registers stand at bits 11..7, 19..15
/// and 24..20. A word whose fields select no operation is invalid.
pub open spec fn spec_decode(bin: u32) -> Result<DecodedInstr, DecodeError> {
    let opcode = spec_mask_lower(bin, 6);
    let funct3 = spec_extract(bin, 12, 14);
    let funct7 = spec_extract(bin, 25, 31);
    let imm = spec_extract(bin, 20, 31);
    let sign = spec_at(bin, 31);
    let invalid = Err::<DecodedInstr, DecodeError>(DecodeError::Invalid(bin));
    if bin == 0 {
        Ok(Instr::Misc(MiscInstr::End))
    } else if opcode == 0b0110011 {
        match spec_r_op(funct3, funct7) {
            Some(instr) => Ok(
                Instr::R {
                    instr,
                    rd: spec_reg(bin, 7),
                    rs1: spec_reg(bin, 15),
                    rs2: spec_reg(bin, 20),
                },
            ),
            None => invalid,
        }
    } else if opcode == 0b0010011 {
        match spec_i_op(funct3, funct7) {
            Some(instr) => Ok(
                Instr::I {
                    instr,
                    rd: spec_reg(bin, 7),
                    rs1: spec_reg(bin, 15),
                    imm: spec_i_imm(
                        sign,
                        if instr == IInstr::Slli {
                            spec_mask(imm, 0, 4)
                        } else {
                            imm
                        },
                    ),
                },
            ),
            None => invalid,
        }
    } else if opcode == 0b0000011 {
        if funct3 == 2 {
            Ok(
                Instr::I {
                    instr: IInstr::Lw,
                    rd: spec_reg(bin, 7),
                    rs1: spec_reg(bin, 15),
                    imm: spec_i_imm(sign, imm),
                },
            )
        } else {
            invalid
        }
    } else if opcode == 0b1100111 {
        if funct3 == 0 {
            Ok(
                Instr::I {
                    instr: IInstr::Jalr,
                    rd: spec_reg(bin, 7),
                    rs1: spec_reg(bin, 15),
                    imm: spec_i_imm(sign, imm),
                },
            )
        } else {
            invalid
        }
    } else if opcode == 0b0100011 {
        if funct3 == 2 {
            Ok(
                Instr::S {
                    instr: SInstr::Sw,
                    rs1: spec_reg(bin, 15),
                    rs2: spec_reg(bin, 20),
                    imm: spec_s_imm(bin, sign),
                },
            )
        } else {
            invalid
        }
    } else if opcode == 0b1100011 {
        match spec_b_op(funct3) {
            Some(instr) => Ok(
                Instr::B {
                    instr,
                    rs1: spec_reg(bin, 15),
                    rs2: spec_reg(bin, 20),
                    imm: spec_b_imm(bin, sign),
                },
            ),
            None => invalid,
        }
    } else if opcode == 0b1101111 {
        Ok(Instr::J { instr: JInstr::Jal, rd: spec_reg(bin, 7), imm: spec_j_imm(bin, sign) })
    } else if opcode == 0b0001011 {
        Ok(Instr::IO(IOInstr::Inw { rd: spec_reg(bin, 7) }))
    } else if opcode == 0b0101011 {
        Ok(Instr::IO(IOInstr::Outb { rs: spec_reg(bin, 15) }))
    } else if opcode == 0b0001111 {
        Ok(Instr::IO(IOInstr::Finw { rd: spec_freg(bin, 7) }))
    } else if opcode == 0b1010011 {
        spec_decode_float(bin)
    } else if opcode == 0b1010111 {
        if funct3 & 0b100 == 0 {
            match spec_w_op(funct3) {
                Some(instr) => Ok(
                    Instr::F(
                        FInstr::W {
                            instr,
                            rs1: spec_freg(bin, 15),
                            rs2: spec_freg(bin, 20),
                            imm: spec_b_imm(bin, sign),
                        },
                    ),
                ),
                None => invalid,
            }
        } else {
            match spec_v_op(funct3) {
                Some(instr) => Ok(
                    Instr::F(
                        FInstr::V { instr, rs1: spec_freg(bin, 15), imm: spec_b_imm(bin, sign) },
                    ),
                ),
                None => invalid,
            }
        }
    } else if opcode == 0b0000111 {
        Ok(
            Instr::F(
                FInstr::Flw {
                    rd: spec_freg(bin, 7),
                    rs1: spec_reg(bin, 15),
                    imm: spec_i_imm(sign, imm),
                },
            ),
        )
    } else if opcode == 0b0100111 {
        Ok(
            Instr::F(
                FInstr::Fsw {
                    rs2: spec_freg(bin, 20),
                    rs1: spec_reg(bin, 15),
                    imm: spec_s_imm(bin, sign),
                },
            ),
        )
    } else {
        invalid
    }
}

/// What a word with the float arithmetic opcode means.
pub open spec fn spec_decode_float(bin: u32) -> Result<DecodedInstr, DecodeError> {
    let funct3 = spec_extract(bin, 12, 14);
    let funct7 = spec_extract(bin, 25, 31);
    let invalid = Err::<DecodedInstr, DecodeError>(DecodeError::Invalid(bin));
    if funct3 == 0 {
        if let Some(instr) = spec_e_op(funct7) {
            Ok(
                Instr::F(
                    FInstr::E {
                        instr,
                        rd: spec_freg(bin, 7),
                        rs1: spec_freg(bin, 15),
                        rs2: spec_freg(bin, 20),
                    },
                ),
            )
        } else if let Some(instr) = spec_h_op(funct7) {
            Ok(Instr::F(FInstr::H { instr, rd: spec_freg(bin, 7), rs1: spec_freg(bin, 15) }))
        } else if funct7 == 0b1000101 {
            Ok(
                Instr::F(
                    FInstr::Y {
                        instr: YInstr::Fftoi,
                        rd: spec_reg(bin, 7),
                        rs1: spec_freg(bin, 15),
                    },
                ),
            )
        } else if funct7 == 0b0100110 {
            Ok(
                Instr::F(
                    FInstr::X {
                        instr: XInstr::Fitof,
                        rd: spec_freg(bin, 7),
                        rs1: spec_reg(bin, 15),
                    },
                ),
            )
        } else {
            invalid
        }
    } else if funct7 != 0b1010001 {
        invalid
    } else if funct3 & 0b100 == 0 {
        if funct3 == 0b001 {
            Ok(
                Instr::F(
                    FInstr::K {
                        instr: KInstr::Flt,
                        rd: spec_reg(bin, 7),
                        rs1: spec_freg(bin, 15),
                        rs2: spec_freg(bin, 20),
                    },
                ),
            )
        } else {
            invalid
        }
    } else {
        match spec_y_op(funct3) {
            Some(instr) => Ok(
                Instr::F(FInstr::Y { instr, rd: spec_reg(bin, 7), rs1: spec_freg(bin, 15) }),
            ),
            None => invalid,
        }
    }
}

fn decode_float(bin: u32) -> (r: Result<DecodedInstr, DecodeError>)
    ensures
        r == spec_decode_float(bin),
{
    let funct3: u32 = extract(bin, 12..14);
    let funct7: u32 = extract(bin, 25..31);
    if funct3 == 0 {
        if let Some(instr) = e_op(funct7) {
            Ok(Instr::F(FInstr::E { instr, rd: freg(bin, 7), rs1: freg(bin, 15), rs2: freg(bin, 20) }))
        } else if let Some(instr) = h_op(funct7) {
            Ok(Instr::F(FInstr::H { instr, rd: freg(bin, 7), rs1: freg(bin, 15) }))
        } else if funct7 == 0b1000101 {
            Ok(Instr::F(FInstr::Y { instr: YInstr::Fftoi, rd: reg(bin, 7), rs1: freg(bin, 15) }))
        } else if funct7 == 0b0100110 {
            Ok(Instr::F(FInstr::X { instr: XInstr::Fitof, rd: freg(bin, 7), rs1: reg(bin, 15) }))
        } else {
            Err(DecodeError::Invalid(bin))
        }
    } else if funct7 != 0b1010001 {
        Err(DecodeError::Invalid(bin))
    } else if funct3 & 0b100 == 0 {
        if funct3 == 0b001 {
            Ok(
                Instr::F(
                    FInstr::K {
                        instr: KInstr::Flt,
                        rd: reg(bin, 7),
                        rs1: freg(bin, 15),
                        rs2: freg(bin, 20),
                    },
                ),
            )
        } else {
            Err(DecodeError::Invalid(bin))
        }
    } else {
        match y_op(funct3) {
            Some(instr) => Ok(Instr::F(FInstr::Y { instr, rd: reg(bin, 7), rs1: freg(bin, 15) })),
            None => Err(DecodeError::Invalid(bin)),
        }
    }
}

impl Instr<RegId, RegId, FRegId, FRegId> {
    /// Decodes a word of the first encoding.
    pub fn decode_from(bin: u32) -> (r: Result<DecodedInstr, DecodeError>)
        ensures
            r == spec_decode(bin),
    {
        if bin == 0 {
            return Ok(Instr::Misc(MiscInstr::End));
        }
        let opcode: u32 = mask_lower(bin, 6);
        let funct3: u32 = extract(bin, 12..14);
        let funct7: u32 = extract(bin, 25..31);
        let imm: u32 = extract(bin, 20..31);
        let sign: u32 = at(bin, 31);
        if opcode == 0b0110011 {
            match r_op(funct3, funct7) {
                Some(instr) => Ok(
                    Instr::R { instr, rd: reg(bin, 7), rs1: reg(bin, 15), rs2: reg(bin, 20) },
                ),
                None => Err(DecodeError::Invalid(bin)),
            }
        } else if opcode == 0b0010011 {
            match i_op(funct3, funct7) {
                Some(instr) => {
                    let imm: u32 = if instr == IInstr::Slli {
                        mask(imm, 0..4)
                    } else {
                        imm
                    };
                    Ok(Instr::I { instr, rd: reg(bin, 7), rs1: reg(bin, 15), imm: i_imm(sign, imm) })
                },
                None => Err(DecodeError::Invalid(bin)),
            }
        } else if opcode == 0b0000011 {
            if funct3 == 2 {
                Ok(
                    Instr::I {
                        instr: IInstr::Lw,
                        rd: reg(bin, 7),
                        rs1: reg(bin, 15),
                        imm: i_imm(sign, imm),
                    },
                )
            } else {
                Err(DecodeError::Invalid(bin))
            }
        } else if opcode == 0b1100111 {
            if funct3 == 0 {
                Ok(
                    Instr::I {
                        instr: IInstr::Jalr,
                        rd: reg(bin, 7),
                        rs1: reg(bin, 15),
                        imm: i_imm(sign, imm),
                    },
                )
            } else {
                Err(DecodeError::Invalid(bin))
            }
        } else if opcode == 0b0100011 {
            if funct3 == 2 {
                Ok(
                    Instr::S {
                        instr: SInstr::Sw,
                        rs1: reg(bin, 15),
                        rs2: reg(bin, 20),
                        imm: s_imm(bin, sign),
                    },
                )
            } else {
                Err(DecodeError::Invalid(bin))
            }
        } else if opcode == 0b1100011 {
            match b_op(funct3) {
                Some(instr) => Ok(
                    Instr::B { instr, rs1: reg(bin, 15), rs2: reg(bin, 20), imm: b_imm(bin, sign) },
                ),
                None => Err(DecodeError::Invalid(bin)),
            }
        } else if opcode == 0b1101111 {
            Ok(Instr::J { instr: JInstr::Jal, rd: reg(bin, 7), imm: j_imm(bin, sign) })
        } else if opcode == 0b0001011 {
            Ok(Instr::IO(IOInstr::Inw { rd: reg(bin, 7) }))
        } else if opcode == 0b0101011 {
            Ok(Instr::IO(IOInstr::Outb { rs: reg(bin, 15) }))
        } else if opcode == 0b0001111 {
            Ok(Instr::IO(IOInstr::Finw { rd: freg(bin, 7) }))
        } else if opcode == 0b1010011 {
            decode_float(bin)
        } else if opcode == 0b1010111 {
            if funct3 & 0b100 == 0 {
                match w_op(funct3) {
                    Some(instr) => Ok(
                        Instr::F(
                            FInstr::W {
                                instr,
                                rs1: freg(bin, 15),
                                rs2: freg(bin, 20),
                                imm: b_imm(bin, sign),
                            },
                        ),
                    ),
                    None => Err(DecodeError::Invalid(bin)),
                }
            } else {
                match v_op(funct3) {
                    Some(instr) => Ok(
                        Instr::F(FInstr::V { instr, rs1: freg(bin, 15), imm: b_imm(bin, sign) }),
                    ),
                    None => Err(DecodeError::Invalid(bin)),
                }
            }
        } else if opcode == 0b0000111 {
            Ok(Instr::F(FInstr::Flw { rd: freg(bin, 7), rs1: reg(bin, 15), imm: i_imm(sign, imm) }))
        } else if opcode == 0b0100111 {
            Ok(
                Instr::F(
                    FInstr::Fsw { rs2: freg(bin, 20), rs1: reg(bin, 15), imm: s_imm(bin, sign) },
                ),
            )
        } else {
            Err(DecodeError::Invalid(bin))
        }
    }
}

/// Whatever decodes exists in the first encoding, and only a word whose
/// fields select no operation is refused, with the word in the error.
pub proof fn lemma_decode_total(bin: u32)
    ensures
        match spec_decode(bin) {
            Ok(instr) => instr.spec_index(Dialect::V1) is Some,
            Err(e) => e == DecodeError::Invalid(bin),
        },
        spec_decode(0) == Ok::<DecodedInstr, DecodeError>(Instr::Misc(MiscInstr::End)),
{
}

/// The fields of a word in closed form.
pub proof fn lemma_fields(bin: u32)
    ensures
        spec_mask_lower(bin, 6) == bin & 0x7f,
        spec_extract(bin, 7, 11) == (bin >> 7) & 0x1f,
        spec_extract(bin, 12, 14) == (bin >> 12) & 0x7,
        spec_extract(bin, 15, 19) == (bin >> 15) & 0x1f,
        spec_extract(bin, 20, 24) == (bin >> 20) & 0x1f,
        spec_extract(bin, 25, 31) == bin >> 25,
        spec_at(bin, 31) == bin >> 31,
{
    assert(spec_mask_lower(bin, 6) == bin & 0x7f && spec_extract(bin, 7, 11) == (bin >> 7) & 0x1f
        && spec_extract(bin, 12, 14) == (bin >> 12) & 0x7 && spec_extract(bin, 15, 19) == (bin
        >> 15) & 0x1f && spec_extract(bin, 20, 24) == (bin >> 20) & 0x1f && spec_extract(
        bin,
        25,
        31,
    ) == bin >> 25 && spec_at(bin, 31) == bin >> 31) by (bit_vector);
}

/// The immediates in closed form: each is made of the bits of the word that
/// its format names, and the bits above are copies of bit 31 of the word.
/// The offsets of branches and jumps are even.
pub proof fn lemma_immediates(bin: u32)
    ensures
        spec_i_imm(spec_at(bin, 31), spec_extract(bin, 20, 31)) == (bin >> 20) | (if bin
            & 0x8000_0000 != 0 {
            0xffff_f000u32
        } else {
            0u32
        }),
        spec_s_imm(bin, spec_at(bin, 31)) == ((bin >> 25) << 5) | ((bin >> 7) & 0x1f) | (if bin
            & 0x8000_0000 != 0 {
            0xffff_f000u32
        } else {
            0u32
        }),
        spec_b_imm(bin, spec_at(bin, 31)) == (((bin >> 8) & 0xf) << 1) | (((bin >> 25) & 0x3f) << 5)
            | (((bin >> 7) & 1) << 11) | (if bin & 0x8000_0000 != 0 {
            0xffff_f000u32
        } else {
            0u32
        }),
        spec_j_imm(bin, spec_at(bin, 31)) == (((bin >> 21) & 0x3ff) << 1) | (((bin >> 20) & 1)
            << 11) | (((bin >> 12) & 0xff) << 12) | (if bin & 0x8000_0000 != 0 {
            0xfff0_0000u32
        } else {
            0u32
        }),
        spec_b_imm(bin, spec_at(bin, 31)) & 1 == 0,
        spec_j_imm(bin, spec_at(bin, 31)) & 1 == 0,
{
    assert(spec_i_imm(spec_at(bin, 31), spec_extract(bin, 20, 31)) == (bin >> 20) | (if bin
        & 0x8000_0000 != 0 {
        0xffff_f000u32
    } else {
        0u32
    }) && spec_s_imm(bin, spec_at(bin, 31)) == ((bin >> 25) << 5) | ((bin >> 7) & 0x1f) | (if bin
        & 0x8000_0000 != 0 {
        0xffff_f000u32
    } else {
        0u32
    })) by (bit_vector);
    assert(spec_b_imm(bin, spec_at(bin, 31)) == (((bin >> 8) & 0xf) << 1) | (((bin >> 25) & 0x3f)
        << 5) | (((bin >> 7) & 1) << 11) | (if bin & 0x8000_0000 != 0 {
        0xffff_f000u32
    } else {
        0u32
    }) && spec_b_imm(bin, spec_at(bin, 31)) & 1 == 0) by (bit_vector);
    assert(spec_j_imm(bin, spec_at(bin, 31)) == (((bin >> 21) & 0x3ff) << 1) | (((bin >> 20) & 1)
        << 11) | (((bin >> 12) & 0xff) << 12) | (if bin & 0x8000_0000 != 0 {
        0xfff0_0000u32
    } else {
        0u32
    }) && spec_j_imm(bin, spec_at(bin, 31)) & 1 == 0) by (bit_vector);
}

/// The registers that a decoded instruction names are among the 32
/// registers of the first encoding.
pub proof fn lemma_decode_registers(bin: u32)
    ensures
        spec_decode(bin) matches Ok(instr) ==> instr.spec_regs_below(32),
{
    lemma_register_field(bin, 7);
    lemma_register_field(bin, 15);
    lemma_register_field(bin, 20);
    RegId::lemma_spec_new(spec_extract(bin, 7, 11) as int);
    RegId::lemma_spec_new(spec_extract(bin, 15, 19) as int);
    RegId::lemma_spec_new(spec_extract(bin, 20, 24) as int);
    FRegId::lemma_spec_new(spec_extract(bin, 7, 11) as int);
    FRegId::lemma_spec_new(spec_extract(bin, 15, 19) as int);
    FRegId::lemma_spec_new(spec_extract(bin, 20, 24) as int);
}

} // verus!
