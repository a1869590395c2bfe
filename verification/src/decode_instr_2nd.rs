//! Decoder of the second encoding: 4-bit opcodes, 6-bit register fields.

use crate::bin::{
    at, extract, lemma_register_field, mask, mask_lower, sign_extend, spec_at, spec_extract,
    spec_mask, spec_mask_lower, spec_sign_extend,
};
use crate::decode_instr::{
    b_op, spec_b_op, spec_v_op, spec_w_op, spec_y_op, v_op, w_op, y_op, DecodeError,
};
use crate::instr::{
    BInstr, DecodedInstr, EInstr, FInstr, GInstr, HInstr, IInstr, IOInstr, Instr, JInstr, KInstr,
    MiscInstr, PInstr, RInstr, SInstr, XInstr, YInstr,
};
use crate::isa::Dialect;
use crate::register::{FRegId, RegId};
use vstd::prelude::*;

verus! {

/// A 12-bit immediate from its upper and lower six bits.
pub open spec fn spec_compose_3(sign: u32, imm_11_6: u32, imm_5_0: u32) -> u32 {
    spec_sign_extend(12, sign, (imm_11_6 << 6) | imm_5_0)
}

/// A 14-bit immediate: the six-bit field `imm_5_2_13_12` holds bits 5..2 of
/// the immediate in its upper four bits and bits 13..12 in its lower two.
pub open spec fn spec_compose_4(sign: u32, imm_11_6: u32, imm_5_2_13_12: u32) -> u32 {
    let imm_13_12 = spec_mask(imm_5_2_13_12, 0, 1);
    spec_sign_extend(
        14,
        sign,
        (imm_13_12 << 12) | (imm_11_6 << 6) | spec_mask(imm_5_2_13_12, 2, 5),
    )
}

/// A 23-bit immediate: as `spec_compose_4`, with bits 22..17 and 16..14 on top.
pub open spec fn spec_compose_6(
    sign: u32,
    imm_11_6: u32,
    imm_5_2_13_12: u32,
    imm_22_17: u32,
    imm_16_14: u32,
) -> u32 {
    let imm_13_12 = spec_mask(imm_5_2_13_12, 0, 1);
    spec_sign_extend(
        23,
        sign,
        (imm_22_17 << 17) | (imm_16_14 << 14) | (imm_13_12 << 12) | (imm_11_6 << 6) | spec_mask(
            imm_5_2_13_12,
            2,
            5,
        ),
    )
}

pub fn compose_3(sign: u32, imm_11_6: u32, imm_5_0: u32) -> (imm: u32)
    ensures
        imm == spec_compose_3(sign, imm_11_6, imm_5_0),
{
    let imm: u32 = (imm_11_6 << 6) | imm_5_0;
    sign_extend::<12>(sign, imm)
}

pub fn compose_4(sign: u32, imm_11_6: u32, imm_5_2_13_12: u32) -> (imm: u32)
    ensures
        imm == spec_compose_4(sign, imm_11_6, imm_5_2_13_12),
{
    let imm_13_12: u32 = mask(imm_5_2_13_12, 0..1);
    let imm: u32 = (imm_13_12 << 12) | (imm_11_6 << 6) | mask(imm_5_2_13_12, 2..5);
    sign_extend::<14>(sign, imm)
}

pub fn compose_6(
    sign: u32,
    imm_11_6: u32,
    imm_5_2_13_12: u32,
    imm_22_17: u32,
    imm_16_14: u32,
) -> (imm: u32)
    ensures
        imm == spec_compose_6(sign, imm_11_6, imm_5_2_13_12, imm_22_17, imm_16_14),
{
    let imm_13_12: u32 = mask(imm_5_2_13_12, 0..1);
    let imm: u32 = (imm_22_17 << 17) | (imm_16_14 << 14) | (imm_13_12 << 12) | (imm_11_6 << 6)
        | mask(imm_5_2_13_12, 2..5);
    sign_extend::<23>(sign, imm)
}

/// The integer register named by the six bits of `bin` from bit `start` up.
pub open spec fn spec_reg(bin: u32, start: u32) -> RegId {
    RegId::spec_new(spec_extract(bin, start, (start + 5) as u32) as int)
}

/// The float register named by the six bits of `bin` from bit `start` up.
pub open spec fn spec_freg(bin: u32, start: u32) -> FRegId {
    FRegId::spec_new(spec_extract(bin, start, (start + 5) as u32) as int)
}

fn reg(bin: u32, start: u32) -> (r: RegId)
    requires
        start <= 26,
    ensures
        r == spec_reg(bin, start),
        r@ == spec_extract(bin, start, (start + 5) as u32),
{
    proof {
        lemma_register_field(bin, start);
    }
    let field: u32 = extract(bin, start..(start + 5));
    RegId::try_new(field).unwrap()
}

fn freg(bin: u32, start: u32) -> (r: FRegId)
    requires
        start <= 26,
    ensures
        r == spec_freg(bin, start),
        r@ == spec_extract(bin, start, (start + 5) as u32),
{
    proof {
        lemma_register_field(bin, start);
    }
    let field: u32 = extract(bin, start..(start + 5));
    FRegId::try_new(field).unwrap()
}

/// Operation of the R format with the given function field.
pub open spec fn spec_r_op(funct3: u32) -> Option<RInstr> {
    if funct3 == 0 {
        Some(RInstr::Add)
    } else if funct3 == 4 {
        Some(RInstr::Xor)
    } else if funct3 == 1 {
        Some(RInstr::Min)
    } else if funct3 == 3 {
        Some(RInstr::Max)
    } else {
        None
    }
}

/// Arithmetic operation of the I format with the given function field.
pub open spec fn spec_i_op(funct3: u32) -> Option<IInstr> {
    if funct3 == 0 {
        Some(IInstr::Addi)
    } else if funct3 == 4 {
        Some(IInstr::Xori)
    } else if funct3 == 2 {
        Some(IInstr::Slli)
    } else {
        None
    }
}

/// Branch of the B format with the given function field.
pub open spec fn spec_b_op_2nd(funct3: u32) -> Option<BInstr> {
    if funct3 == 2 {
        Some(BInstr::Bxor)
    } else if funct3 == 3 {
        Some(BInstr::Bxnor)
    } else {
        spec_b_op(funct3)
    }
}

/// Branch of the P format with the given function field.
pub open spec fn spec_p_op(funct3: u32) -> Option<PInstr> {
    if funct3 == 0 {
        Some(PInstr::Beqi)
    } else if funct3 == 1 {
        Some(PInstr::Bnei)
    } else if funct3 == 4 {
        Some(PInstr::Blti)
    } else if funct3 == 5 {
        Some(PInstr::Bgei)
    } else if funct3 == 6 {
        Some(PInstr::Bgti)
    } else if funct3 == 7 {
        Some(PInstr::Blei)
    } else {
        None
    }
}

/// Two-operand float operation with the given function field.
pub open spec fn spec_e_op(funct5: u32) -> Option<EInstr> {
    if funct5 == 0 {
        Some(EInstr::Fadd)
    } else if funct5 == 1 {
        Some(EInstr::Fsub)
    } else if funct5 == 2 {
        Some(EInstr::Fmul)
    } else if funct5 == 3 {
        Some(EInstr::Fdiv)
    } else if funct5 == 6 {
        Some(EInstr::Fsgnj)
    } else if funct5 == 7 {
        Some(EInstr::Fsgnjn)
    } else if funct5 == 8 {
        Some(EInstr::Fsgnjx)
    } else {
        None
    }
}

/// One-operand float operation with the given function field.
pub open spec fn spec_h_op(funct5: u32) -> Option<HInstr> {
    if funct5 == 4 {
        Some(HInstr::Fsqrt)
    } else if funct5 == 5 {
        Some(HInstr::Fhalf)
    } else if funct5 == 12 {
        Some(HInstr::Ffrac)
    } else if funct5 == 11 {
        Some(HInstr::Finv)
    } else if funct5 == 9 {
        Some(HInstr::Ffloor)
    } else {
        None
    }
}

/// Multiply-add operation with the given function field.
pub open spec fn spec_g_op(funct3: u32) -> Option<GInstr> {
    if funct3 == 0b001 {
        Some(GInstr::Fmadd)
    } else if funct3 == 0b010 {
        Some(GInstr::Fmsub)
    } else if funct3 == 0b101 {
        Some(GInstr::Fnmadd)
    } else if funct3 == 0b110 {
        Some(GInstr::Fnmsub)
    } else {
        None
    }
}

fn r_op(funct3: u32) -> (r: Option<RInstr>)
    ensures
        r == spec_r_op(funct3),
{
    if funct3 == 0 {
        Some(RInstr::Add)
    } else if funct3 == 4 {
        Some(RInstr::Xor)
    } else if funct3 == 1 {
        Some(RInstr::Min)
    } else if funct3 == 3 {
        Some(RInstr::Max)
    } else {
        None
    }
}

fn i_op(funct3: u32) -> (r: Option<IInstr>)
    ensures
        r == spec_i_op(funct3),
{
    if funct3 == 0 {
        Some(IInstr::Addi)
    } else if funct3 == 4 {
        Some(IInstr::Xori)
    } else if funct3 == 2 {
        Some(IInstr::Slli)
    } else {
        None
    }
}

fn b_op_2nd(funct3: u32) -> (r: Option<BInstr>)
    ensures
        r == spec_b_op_2nd(funct3),
{
    if funct3 == 2 {
        Some(BInstr::Bxor)
    } else if funct3 == 3 {
        Some(BInstr::Bxnor)
    } else {
        b_op(funct3)
    }
}

fn p_op(funct3: u32) -> (r: Option<PInstr>)
    ensures
        r == spec_p_op(funct3),
{
    if funct3 == 0 {
        Some(PInstr::Beqi)
    } else if funct3 == 1 {
        Some(PInstr::Bnei)
    } else if funct3 == 4 {
        Some(PInstr::Blti)
    } else if funct3 == 5 {
        Some(PInstr::Bgei)
    } else if funct3 == 6 {
        Some(PInstr::Bgti)
    } else if funct3 == 7 {
        Some(PInstr::Blei)
    } else {
        None
    }
}

fn e_op(funct5: u32) -> (r: Option<EInstr>)
    ensures
        r == spec_e_op(funct5),
{
    if funct5 == 0 {
        Some(EInstr::Fadd)
    } else if funct5 == 1 {
        Some(EInstr::Fsub)
    } else if funct5 == 2 {
        Some(EInstr::Fmul)
    } else if funct5 == 3 {
        Some(EInstr::Fdiv)
    } else if funct5 == 6 {
        Some(EInstr::Fsgnj)
    } else if funct5 == 7 {
        Some(EInstr::Fsgnjn)
    } else if funct5 == 8 {
        Some(EInstr::Fsgnjx)
    } else {
        None
    }
}

fn h_op(funct5: u32) -> (r: Option<HInstr>)
    ensures
        r == spec_h_op(funct5),
{
    if funct5 == 4 {
        Some(HInstr::Fsqrt)
    } else if funct5 == 5 {
        Some(HInstr::Fhalf)
    } else if funct5 == 12 {
        Some(HInstr::Ffrac)
    } else if funct5 == 11 {
        Some(HInstr::Finv)
    } else if funct5 == 9 {
        Some(HInstr::Ffloor)
    } else {
        None
    }
}

fn g_op(funct3: u32) -> (r: Option<GInstr>)
    ensures
        r == spec_g_op(funct3),
{
    if funct3 == 0b001 {
        Some(GInstr::Fmadd)
    } else if funct3 == 0b010 {
        Some(GInstr::Fmsub)
    } else if funct3 == 0b101 {
        Some(GInstr::Fnmadd)
    } else if funct3 == 0b110 {
        Some(GInstr::Fnmsub)
    } else {
        None
    }
}

/// What the word `bin` means in the second encoding.
///
/// The word with only bit 31 set halts. Otherwise bits 3..0 select the
/// format and bits 12..10 (for float arithmetic also 31..27) the operation;
/// registers stand at bits 9..4, 18..13 and 24..19. A word whose fields
/// select no operation is invalid.
pub open spec fn spec_decode_2nd(bin: u32) -> Result<DecodedInstr, DecodeError> {
    let opcode = spec_mask_lower(bin, 3);
    let rd = spec_extract(bin, 4, 9);
    let funct3 = spec_extract(bin, 10, 12);
    let rs1 = spec_extract(bin, 13, 18);
    let rs2 = spec_extract(bin, 19, 24);
    let imm_11_6 = spec_extract(bin, 25, 30);
    let sign = spec_at(bin, 31);
    let invalid = Err::<DecodedInstr, DecodeError>(DecodeError::Invalid(bin));
    if bin == 0x8000_0000 {
        Ok(Instr::Misc(MiscInstr::End))
    } else if opcode == 0b0000 {
        match spec_r_op(funct3) {
            Some(instr) => Ok(
                Instr::R {
                    instr,
                    rd: spec_reg(bin, 4),
                    rs1: spec_reg(bin, 13),
                    rs2: spec_reg(bin, 19),
                },
            ),
            None => invalid,
        }
    } else if opcode == 0b0010 {
        match spec_i_op(funct3) {
            Some(instr) => Ok(
                Instr::I {
                    instr,
                    rd: spec_reg(bin, 4),
                    rs1: spec_reg(bin, 13),
                    imm: spec_compose_3(sign, imm_11_6, rs2),
                },
            ),
            None => invalid,
        }
    } else if opcode == 0b0110 {
        Ok(
            Instr::I {
                instr: IInstr::Lw,
                rd: spec_reg(bin, 4),
                rs1: spec_reg(bin, 13),
                imm: spec_compose_3(sign, imm_11_6, rs2),
            },
        )
    } else if opcode == 0b1010 {
        if funct3 == 0 {
            Ok(
                Instr::I {
                    instr: IInstr::Jalr,
                    rd: spec_reg(bin, 4),
                    rs1: spec_reg(bin, 13),
                    imm: spec_compose_3(sign, imm_11_6, rs2),
                },
            )
        } else {
            invalid
        }
    } else if opcode == 0b0100 {
        Ok(
            Instr::S {
                instr: SInstr::Sw,
                rs1: spec_reg(bin, 13),
                rs2: spec_reg(bin, 19),
                imm: spec_compose_3(sign, imm_11_6, rd),
            },
        )
    } else if opcode == 0b1000 {
        match spec_b_op_2nd(funct3) {
            Some(instr) => Ok(
                Instr::B {
                    instr,
                    rs1: spec_reg(bin, 13),
                    rs2: spec_reg(bin, 19),
                    imm: spec_compose_4(sign, imm_11_6, rd),
                },
            ),
            None => invalid,
        }
    } else if opcode == 0b1100 {
        match spec_p_op(funct3) {
            Some(instr) => Ok(
                Instr::P {
                    instr,
                    rs1: spec_reg(bin, 13),
                    imm: spec_compose_4(sign, imm_11_6, rd),
                    imm2: spec_sign_extend(5, spec_at(rs2, 5), rs2),
                },
            ),
            None => invalid,
        }
    } else if opcode == 0b1110 {
        Ok(
            Instr::J {
                instr: JInstr::Jal,
                rd: spec_reg(bin, 4),
                imm: spec_compose_6(sign, imm_11_6, rs2, rs1, funct3),
            },
        )
    } else if opcode == 0b0011 {
        if funct3 == 0b001 {
            Ok(Instr::IO(IOInstr::Inw { rd: spec_reg(bin, 4) }))
        } else if funct3 == 0b010 {
            Ok(Instr::IO(IOInstr::Outb { rs: spec_reg(bin, 13) }))
        } else if funct3 == 0b100 {
            Ok(Instr::IO(IOInstr::Finw { rd: spec_freg(bin, 4) }))
        } else {
            invalid
        }
    } else if opcode == 0b0001 {
        spec_decode_float_2nd(bin)
    } else if opcode == 0b1001 {
        if funct3 & 0b100 == 0 {
            match spec_w_op(funct3) {
                Some(instr) => Ok(
                    Instr::F(
                        FInstr::W {
                            instr,
                            rs1: spec_freg(bin, 13),
                            rs2: spec_freg(bin, 19),
                            imm: spec_compose_4(sign, imm_11_6, rd),
                        },
                    ),
                ),
                None => invalid,
            }
        } else {
            match spec_v_op(funct3) {
                Some(instr) => Ok(
                    Instr::F(
                        FInstr::V {
                            instr,
                            rs1: spec_freg(bin, 13),
                            imm: spec_compose_4(sign, imm_11_6, rd),
                        },
                    ),
                ),
                None => invalid,
            }
        }
    } else if opcode == 0b0111 {
        Ok(
            Instr::F(
                FInstr::Flw {
                    rd: spec_freg(bin, 4),
                    rs1: spec_reg(bin, 13),
                    imm: spec_compose_3(sign, imm_11_6, rs2),
                },
            ),
        )
    } else if opcode == 0b0101 {
        Ok(
            Instr::F(
                FInstr::Fsw {
                    rs2: spec_freg(bin, 19),
                    rs1: spec_reg(bin, 13),
                    imm: spec_compose_3(sign, imm_11_6, rd),
                },
            ),
        )
    } else {
        invalid
    }
}

/// What a word with the float arithmetic opcode means in the second encoding.
pub open spec fn spec_decode_float_2nd(bin: u32) -> Result<DecodedInstr, DecodeError> {
    let funct3 = spec_extract(bin, 10, 12);
    let funct5 = spec_extract(bin, 25, 31) >> 2;
    let sign = spec_at(bin, 31);
    let invalid = Err::<DecodedInstr, DecodeError>(DecodeError::Invalid(bin));
    if funct3 == 0 {
        if let Some(instr) = spec_e_op(funct5) {
            Ok(
                Instr::F(
                    FInstr::E {
                        instr,
                        rd: spec_freg(bin, 4),
                        rs1: spec_freg(bin, 13),
                        rs2: spec_freg(bin, 19),
                    },
                ),
            )
        } else if let Some(instr) = spec_h_op(funct5) {
            Ok(Instr::F(FInstr::H { instr, rd: spec_freg(bin, 4), rs1: spec_freg(bin, 13) }))
        } else if funct5 == 0b10001 {
            Ok(
                Instr::F(
                    FInstr::Y {
                        instr: YInstr::Fftoi,
                        rd: spec_reg(bin, 4),
                        rs1: spec_freg(bin, 13),
                    },
                ),
            )
        } else if funct5 == 0b11001 {
            Ok(
                Instr::F(
                    FInstr::X {
                        instr: XInstr::Fitof,
                        rd: spec_freg(bin, 4),
                        rs1: spec_reg(bin, 13),
                    },
                ),
            )
        } else {
            invalid
        }
    } else if sign == 0 {
        match spec_g_op(funct3) {
            Some(instr) => Ok(
                Instr::F(
                    FInstr::G {
                        instr,
                        rd: spec_freg(bin, 4),
                        rs1: spec_freg(bin, 13),
                        rs2: spec_freg(bin, 19),
                        rs3: spec_freg(bin, 25),
                    },
                ),
            ),
            None => invalid,
        }
    } else if funct3 == 0b001 {
        Ok(
            Instr::F(
                FInstr::K {
                    instr: KInstr::Flt,
                    rd: spec_reg(bin, 4),
                    rs1: spec_freg(bin, 13),
                    rs2: spec_freg(bin, 19),
                },
            ),
        )
    } else {
        match spec_y_op(funct3) {
            Some(instr) => Ok(
                Instr::F(FInstr::Y { instr, rd: spec_reg(bin, 4), rs1: spec_freg(bin, 13) }),
            ),
            None => invalid,
        }
    }
}

fn decode_float_2nd(bin: u32) -> (r: Result<DecodedInstr, DecodeError>)
    ensures
        r == spec_decode_float_2nd(bin),
{
    let funct3: u32 = extract(bin, 10..12);
    let funct7: u32 = extract(bin, 25..31);
    let sign: u32 = at(bin, 31);
    if funct3 == 0 {
        let funct5: u32 = funct7 >> 2;
        if let Some(instr) = e_op(funct5) {
            Ok(Instr::F(FInstr::E { instr, rd: freg(bin, 4), rs1: freg(bin, 13), rs2: freg(bin, 19) }))
        } else if let Some(instr) = h_op(funct5) {
            Ok(Instr::F(FInstr::H { instr, rd: freg(bin, 4), rs1: freg(bin, 13) }))
        } else if funct5 == 0b10001 {
            Ok(Instr::F(FInstr::Y { instr: YInstr::Fftoi, rd: reg(bin, 4), rs1: freg(bin, 13) }))
        } else if funct5 == 0b11001 {
            Ok(Instr::F(FInstr::X { instr: XInstr::Fitof, rd: freg(bin, 4), rs1: reg(bin, 13) }))
        } else {
            Err(DecodeError::Invalid(bin))
        }
    } else if sign == 0 {
        match g_op(funct3) {
            Some(instr) => Ok(
                Instr::F(
                    FInstr::G {
                        instr,
                        rd: freg(bin, 4),
                        rs1: freg(bin, 13),
                        rs2: freg(bin, 19),
                        rs3: freg(bin, 25),
                    },
                ),
            ),
            None => Err(DecodeError::Invalid(bin)),
        }
    } else if funct3 == 0b001 {
        Ok(
            Instr::F(
                FInstr::K {
                    instr: KInstr::Flt,
                    rd: reg(bin, 4),
                    rs1: freg(bin, 13),
                    rs2: freg(bin, 19),
                },
            ),
        )
    } else {
        match y_op(funct3) {
            Some(instr) => Ok(Instr::F(FInstr::Y { instr, rd: reg(bin, 4), rs1: freg(bin, 13) })),
            None => Err(DecodeError::Invalid(bin)),
        }
    }
}

impl Instr<RegId, RegId, FRegId, FRegId> {
    /// Decodes a word of the second encoding.
    pub fn decode_from_2nd(bin: u32) -> (r: Result<DecodedInstr, DecodeError>)
        ensures
            r == spec_decode_2nd(bin),
    {
        if bin == 0x8000_0000 {
            return Ok(Instr::Misc(MiscInstr::End));
        }
        let opcode: u32 = mask_lower(bin, 3);
        let rd: u32 = extract(bin, 4..9);
        let funct3: u32 = extract(bin, 10..12);
        let rs1: u32 = extract(bin, 13..18);
        let rs2: u32 = extract(bin, 19..24);
        let imm_11_6: u32 = extract(bin, 25..30);
        let sign: u32 = at(bin, 31);
        if opcode == 0b0000 {
            match r_op(funct3) {
                Some(instr) => Ok(
                    Instr::R { instr, rd: reg(bin, 4), rs1: reg(bin, 13), rs2: reg(bin, 19) },
                ),
                None => Err(DecodeError::Invalid(bin)),
            }
        } else if opcode == 0b0010 {
            match i_op(funct3) {
                Some(instr) => Ok(
                    Instr::I {
                        instr,
                        rd: reg(bin, 4),
                        rs1: reg(bin, 13),
                        imm: compose_3(sign, imm_11_6, rs2),
                    },
                ),
                None => Err(DecodeError::Invalid(bin)),
            }
        } else if opcode == 0b0110 {
            Ok(
                Instr::I {
                    instr: IInstr::Lw,
                    rd: reg(bin, 4),
                    rs1: reg(bin, 13),
                    imm: compose_3(sign, imm_11_6, rs2),
                },
            )
        } else if opcode == 0b1010 {
            if funct3 == 0 {
                Ok(
                    Instr::I {
                        instr: IInstr::Jalr,
                        rd: reg(bin, 4),
                        rs1: reg(bin, 13),
                        imm: compose_3(sign, imm_11_6, rs2),
                    },
                )
            } else {
                Err(DecodeError::Invalid(bin))
            }
        } else if opcode == 0b0100 {
            Ok(
                Instr::S {
                    instr: SInstr::Sw,
                    rs1: reg(bin, 13),
                    rs2: reg(bin, 19),
                    imm: compose_3(sign, imm_11_6, rd),
                },
            )
        } else if opcode == 0b1000 {
            match b_op_2nd(funct3) {
                Some(instr) => Ok(
                    Instr::B {
                        instr,
                        rs1: reg(bin, 13),
                        rs2: reg(bin, 19),
                        imm: compose_4(sign, imm_11_6, rd),
                    },
                ),
                None => Err(DecodeError::Invalid(bin)),
            }
        } else if opcode == 0b1100 {
            match p_op(funct3) {
                Some(instr) => Ok(
                    Instr::P {
                        instr,
                        rs1: reg(bin, 13),
                        imm: compose_4(sign, imm_11_6, rd),
                        imm2: sign_extend::<5>(at(rs2, 5), rs2),
                    },
                ),
                None => Err(DecodeError::Invalid(bin)),
            }
        } else if opcode == 0b1110 {
            Ok(
                Instr::J {
                    instr: JInstr::Jal,
                    rd: reg(bin, 4),
                    imm: compose_6(sign, imm_11_6, rs2, rs1, funct3),
                },
            )
        } else if opcode == 0b0011 {
            if funct3 == 0b001 {
                Ok(Instr::IO(IOInstr::Inw { rd: reg(bin, 4) }))
            } else if funct3 == 0b010 {
                Ok(Instr::IO(IOInstr::Outb { rs: reg(bin, 13) }))
            } else if funct3 == 0b100 {
                Ok(Instr::IO(IOInstr::Finw { rd: freg(bin, 4) }))
            } else {
                Err(DecodeError::Invalid(bin))
            }
        } else if opcode == 0b0001 {
            decode_float_2nd(bin)
        } else if opcode == 0b1001 {
            if funct3 & 0b100 == 0 {
                match w_op(funct3) {
                    Some(instr) => Ok(
                        Instr::F(
                            FInstr::W {
                                instr,
                                rs1: freg(bin, 13),
                                rs2: freg(bin, 19),
                                imm: compose_4(sign, imm_11_6, rd),
                            },
                        ),
                    ),
                    None => Err(DecodeError::Invalid(bin)),
                }
            } else {
                match v_op(funct3) {
                    Some(instr) => Ok(
                        Instr::F(
                            FInstr::V {
                                instr,
                                rs1: freg(bin, 13),
                                imm: compose_4(sign, imm_11_6, rd),
                            },
                        ),
                    ),
                    None => Err(DecodeError::Invalid(bin)),
                }
            }
        } else if opcode == 0b0111 {
            Ok(
                Instr::F(
                    FInstr::Flw {
                        rd: freg(bin, 4),
                        rs1: reg(bin, 13),
                        imm: compose_3(sign, imm_11_6, rs2),
                    },
                ),
            )
        } else if opcode == 0b0101 {
            Ok(
                Instr::F(
                    FInstr::Fsw {
                        rs2: freg(bin, 19),
                        rs1: reg(bin, 13),
                        imm: compose_3(sign, imm_11_6, rd),
                    },
                ),
            )
        } else {
            Err(DecodeError::Invalid(bin))
        }
    }

    /// Decodes a word of encoding `d`.
    pub fn decode_in(d: Dialect, bin: u32) -> (r: Result<DecodedInstr, DecodeError>)
        ensures
            r == spec_decode_in(d, bin),
    {
        match d {
            Dialect::V1 => Self::decode_from(bin),
            Dialect::V2 => Self::decode_from_2nd(bin),
        }
    }
}

/// What the word `bin` means in encoding `d`.
pub open spec fn spec_decode_in(d: Dialect, bin: u32) -> Result<DecodedInstr, DecodeError> {
    match d {
        Dialect::V1 => crate::decode_instr::spec_decode(bin),
        Dialect::V2 => spec_decode_2nd(bin),
    }
}

/// Whatever decodes exists in the encoding it was decoded in, the halt word
/// of the encoding halts, and only a word whose fields select no operation
/// is refused, with the word in the error.
pub proof fn lemma_decode_in_total(d: Dialect, bin: u32)
    ensures
        match spec_decode_in(d, bin) {
            Ok(instr) => instr.spec_index(d) is Some,
            Err(e) => e == DecodeError::Invalid(bin),
        },
        spec_decode_in(d, d.spec_end_word()) == Ok::<DecodedInstr, DecodeError>(
            Instr::Misc(MiscInstr::End),
        ),
{
    crate::decode_instr::lemma_decode_total(bin);
}

/// The fields of a word of the second encoding in closed form.
pub proof fn lemma_fields_2nd(bin: u32)
    ensures
        spec_mask_lower(bin, 3) == bin & 0xf,
        spec_extract(bin, 4, 9) == (bin >> 4) & 0x3f,
        spec_extract(bin, 10, 12) == (bin >> 10) & 0x7,
        spec_extract(bin, 13, 18) == (bin >> 13) & 0x3f,
        spec_extract(bin, 19, 24) == (bin >> 19) & 0x3f,
        spec_extract(bin, 25, 30) == (bin >> 25) & 0x3f,
        spec_extract(bin, 25, 31) >> 2 == bin >> 27,
        spec_at(bin, 31) == bin >> 31,
{
    assert(spec_mask_lower(bin, 3) == bin & 0xf && spec_extract(bin, 4, 9) == (bin >> 4) & 0x3f
        && spec_extract(bin, 10, 12) == (bin >> 10) & 0x7 && spec_extract(bin, 13, 18) == (bin
        >> 13) & 0x3f && spec_extract(bin, 19, 24) == (bin >> 19) & 0x3f && spec_extract(
        bin,
        25,
        30,
    ) == (bin >> 25) & 0x3f && spec_extract(bin, 25, 31) >> 2 == bin >> 27 && spec_at(bin, 31)
        == bin >> 31) by (bit_vector);
}

/// The immediates of the second encoding in closed form, for fields of six
/// bits: the parts stand at their places, and the bits above the immediate
/// are set when the sign is.
pub proof fn lemma_immediates_2nd(sign: u32, high: u32, low: u32, top: u32, mid: u32)
    requires
        high < 64,
        low < 64,
        top < 64,
        mid < 8,
    ensures
        spec_compose_3(sign, high, low) == (high << 6) | low | (if sign != 0 {
            0xffff_f000u32
        } else {
            0u32
        }),
        spec_compose_4(sign, high, low) == ((low & 3) << 12) | (high << 6) | (low & 0x3c) | (
        if sign != 0 {
            0xffff_c000u32
        } else {
            0u32
        }),
        spec_compose_6(sign, high, low, top, mid) == (top << 17) | (mid << 14) | ((low & 3) << 12)
            | (high << 6) | (low & 0x3c) | (if sign != 0 {
            0xff80_0000u32
        } else {
            0u32
        }),
        spec_compose_4(sign, high, low) & 3 == 0,
        spec_compose_6(sign, high, low, top, mid) & 3 == 0,
{
    assert(spec_compose_3(sign, high, low) == (high << 6) | low | (if sign != 0 {
        0xffff_f000u32
    } else {
        0u32
    }) && spec_compose_4(sign, high, low) == ((low & 3) << 12) | (high << 6) | (low & 0x3c) | (
    if sign != 0 {
        0xffff_c000u32
    } else {
        0u32
    }) && spec_compose_4(sign, high, low) & 3 == 0) by (bit_vector)
        requires
            high < 64,
            low < 64,
    ;
    assert(spec_compose_6(sign, high, low, top, mid) == (top << 17) | (mid << 14) | ((low & 3)
        << 12) | (high << 6) | (low & 0x3c) | (if sign != 0 {
        0xff80_0000u32
    } else {
        0u32
    }) && spec_compose_6(sign, high, low, top, mid) & 3 == 0) by (bit_vector)
        requires
            high < 64,
            low < 64,
            top < 64,
            mid < 8,
    ;
}

/// The registers that a decoded instruction names are among the 64
/// registers of the second encoding.
pub proof fn lemma_decode_registers_2nd(bin: u32)
    ensures
        spec_decode_2nd(bin) matches Ok(instr) ==> instr.spec_regs_below(64),
{
    lemma_register_field(bin, 4);
    lemma_register_field(bin, 13);
    lemma_register_field(bin, 19);
    lemma_register_field(bin, 25);
    RegId::lemma_spec_new(spec_extract(bin, 4, 9) as int);
    RegId::lemma_spec_new(spec_extract(bin, 13, 18) as int);
    RegId::lemma_spec_new(spec_extract(bin, 19, 24) as int);
    FRegId::lemma_spec_new(spec_extract(bin, 4, 9) as int);
    FRegId::lemma_spec_new(spec_extract(bin, 13, 18) as int);
    FRegId::lemma_spec_new(spec_extract(bin, 19, 24) as int);
    FRegId::lemma_spec_new(spec_extract(bin, 25, 30) as int);
}

} // verus!
