use core_sim::decode_instr::DecodeError;
use core_sim::instr::{
    BInstr, DecodedInstr, EInstr, FInstr, IInstr, IOInstr, Instr, MiscInstr, RInstr, SInstr,
};
use core_sim::isa::Dialect;
use core_sim::register::{FRegId, RegId};

fn r_word(op: u32, f3: u32, f7: u32, rd: u32, rs1: u32, rs2: u32) -> u32 {
    f7 << 25 | rs2 << 20 | rs1 << 15 | f3 << 12 | rd << 7 | op
}

fn i_word(op: u32, f3: u32, rd: u32, rs1: u32, imm: i32) -> u32 {
    ((imm as u32) & 0xfff) << 20 | rs1 << 15 | f3 << 12 | rd << 7 | op
}

fn s_word(op: u32, f3: u32, rs1: u32, rs2: u32, imm: i32) -> u32 {
    let imm = imm as u32;
    ((imm >> 5) & 0x7f) << 25 | rs2 << 20 | rs1 << 15 | f3 << 12 | (imm & 0x1f) << 7 | op
}

fn b_word(op: u32, f3: u32, rs1: u32, rs2: u32, imm: i32) -> u32 {
    let imm = imm as u32;
    ((imm >> 12) & 1) << 31
        | ((imm >> 5) & 0x3f) << 25
        | rs2 << 20
        | rs1 << 15
        | f3 << 12
        | ((imm >> 1) & 0xf) << 8
        | ((imm >> 11) & 1) << 7
        | op
}

fn j_word(op: u32, rd: u32, imm: i32) -> u32 {
    let imm = imm as u32;
    ((imm >> 20) & 1) << 31
        | ((imm >> 1) & 0x3ff) << 21
        | ((imm >> 11) & 1) << 20
        | ((imm >> 12) & 0xff) << 12
        | rd << 7
        | op
}

fn text_of(bin: u32) -> String {
    DecodedInstr::decode_from(bin).unwrap().text()
}

#[test]
fn test_decode() {
    let i = Instr::decode_from(0x7d008113).unwrap();
    println!("{:?}", i);
    assert_eq!(
        i,
        Instr::I {
            instr: IInstr::Addi,
            rd: RegId::try_new(2).unwrap(),
            rs1: RegId::try_new(1).unwrap(),
            imm: 2000
        }
    );
    assert_eq!(i.text(), "addi sp, ra, 2000");
}

#[test]
fn the_zero_word_halts() {
    assert_eq!(DecodedInstr::decode_from(0).unwrap(), Instr::Misc(MiscInstr::End));
    assert_eq!(text_of(0), "end");
    assert_eq!(
        DecodedInstr::decode_from_2nd(0x8000_0000).unwrap(),
        Instr::Misc(MiscInstr::End)
    );
    assert_eq!(DecodedInstr::decode_in(Dialect::V1, 0).unwrap(), Instr::Misc(MiscInstr::End));
    assert_eq!(
        DecodedInstr::decode_in(Dialect::V2, 0x8000_0000).unwrap(),
        Instr::Misc(MiscInstr::End)
    );
}

#[test]
fn every_instruction_of_the_first_encoding_decodes_to_its_text() {
    let table: Vec<(u32, &str)> = vec![
        (r_word(0b0110011, 0, 0, 7, 5, 6), "add t2, t0, t1"),
        (r_word(0b0110011, 0, 0x20, 7, 5, 6), "sub t2, t0, t1"),
        (r_word(0b0110011, 4, 0, 10, 11, 12), "xor a0, a1, a2"),
        (r_word(0b0110011, 6, 0, 10, 11, 12), "or a0, a1, a2"),
        (r_word(0b0110011, 7, 0, 10, 11, 12), "and a0, a1, a2"),
        (r_word(0b0110011, 1, 0, 8, 9, 18), "sll s0, s1, s2"),
        (r_word(0b0110011, 5, 0x20, 8, 9, 18), "sra s0, s1, s2"),
        (r_word(0b0110011, 2, 0, 28, 29, 31), "slt t3, t4, t6"),
        (i_word(0b0010011, 0, 5, 0, 7), "addi t0, zero, 7"),
        (i_word(0b0010011, 0, 10, 10, -1), "addi a0, a0, -1"),
        (i_word(0b0010011, 4, 5, 6, 255), "xori t0, t1, 255"),
        (i_word(0b0010011, 6, 5, 6, -2048), "ori t0, t1, -2048"),
        (i_word(0b0010011, 7, 5, 6, 2047), "andi t0, t1, 2047"),
        (i_word(0b0010011, 1, 5, 6, 31), "slli t0, t1, 31"),
        (i_word(0b0010011, 2, 5, 6, -3), "slti t0, t1, -3"),
        (i_word(0b0000011, 2, 5, 2, -8), "lw t0, -8(sp)"),
        (i_word(0b1100111, 0, 0, 1, 0), "jalr zero, ra, 0"),
        (s_word(0b0100011, 2, 4, 7, 0), "sw t2, 0(hp)"),
        (s_word(0b0100011, 2, 2, 1, -12), "sw ra, -12(sp)"),
        (b_word(0b1100011, 0, 10, 0, 8), "beq a0, zero, 8"),
        (b_word(0b1100011, 1, 10, 0, -4), "bne a0, zero, -4"),
        (b_word(0b1100011, 4, 10, 11, 4094), "blt a0, a1, 4094"),
        (b_word(0b1100011, 5, 10, 11, -4096), "bge a0, a1, -4096"),
        (j_word(0b1101111, 1, 2048), "jal ra, 2048"),
        (j_word(0b1101111, 0, -16), "jal zero, -16"),
        (r_word(0b0001011, 0, 0, 10, 0, 0), "inw a0"),
        (r_word(0b0101011, 0, 0, 0, 10, 0), "outb a0"),
        (r_word(0b0001111, 0, 0, 10, 0, 0), "finw fa0"),
        (r_word(0b1010011, 0, 0b0000000, 2, 3, 4), "fadd ft2, ft3, ft4"),
        (r_word(0b1010011, 0, 0b0000100, 2, 3, 4), "fsub ft2, ft3, ft4"),
        (r_word(0b1010011, 0, 0b0001000, 2, 3, 4), "fmul ft2, ft3, ft4"),
        (r_word(0b1010011, 0, 0b0001100, 2, 3, 4), "fdiv ft2, ft3, ft4"),
        (r_word(0b1010011, 0, 0b0011000, 2, 3, 4), "fsgnj ft2, ft3, ft4"),
        (r_word(0b1010011, 0, 0b0011100, 2, 3, 4), "fsgnjn ft2, ft3, ft4"),
        (r_word(0b1010011, 0, 0b0100000, 2, 3, 4), "fsgnjx ft2, ft3, ft4"),
        (r_word(0b1010011, 0, 0b0010000, 2, 3, 0), "fsqrt ft2, ft3"),
        (r_word(0b1010011, 0, 0b0010100, 2, 3, 0), "fhalf ft2, ft3"),
        (r_word(0b1010011, 0, 0b1000000, 2, 3, 0), "ffloor ft2, ft3"),
        (r_word(0b1010011, 0, 0b1000101, 10, 3, 0), "fftoi a0, ft3"),
        (r_word(0b1010011, 0, 0b0100110, 3, 10, 0), "fitof ft3, a0"),
        (r_word(0b1010011, 1, 0b1010001, 10, 3, 4), "flt a0, ft3, ft4"),
        (r_word(0b1010011, 4, 0b1010001, 10, 3, 0), "fiszero a0, ft3"),
        (r_word(0b1010011, 5, 0b1010001, 10, 3, 0), "fispos a0, ft3"),
        (r_word(0b1010011, 6, 0b1010001, 10, 3, 0), "fisneg a0, ft3"),
        (b_word(0b1010111, 1, 3, 4, 8), "fblt ft3, ft4, 8"),
        (b_word(0b1010111, 2, 3, 4, 8), "fbge ft3, ft4, 8"),
        (b_word(0b1010111, 4, 3, 0, 8), "fbeqz ft3, 8"),
        (b_word(0b1010111, 7, 3, 0, 8), "fbnez ft3, 8"),
        (i_word(0b0000111, 0, 1, 2, 16), "flw fone, 16(sp)"),
        (s_word(0b0100111, 0, 2, 1, 16), "fsw fone, 16(sp)"),
        (0, "end"),
    ];
    for (bin, text) in table {
        assert_eq!(text_of(bin), text, "{bin:#010x}");
    }
}

#[test]
fn immediates_of_float_instructions_are_shown_unsigned() {
    assert_eq!(text_of(b_word(0b1010111, 1, 3, 4, -4)), "fblt ft3, ft4, 4294967292");
    assert_eq!(text_of(i_word(0b0000111, 0, 1, 2, -4)), "flw fone, 4294967292(sp)");
}

#[test]
fn words_without_an_instruction_are_invalid() {
    let words = [
        0xFFFF_FFFFu32,
        0x0000_007F,
        r_word(0b0110011, 3, 0, 1, 2, 3),
        r_word(0b0110011, 0, 0x10, 1, 2, 3),
        i_word(0b0010011, 3, 1, 2, 3),
        i_word(0b0010011, 5, 1, 2, 3),
        i_word(0b0000011, 0, 1, 2, 3),
        i_word(0b1100111, 1, 1, 2, 3),
        s_word(0b0100011, 0, 1, 2, 3),
        b_word(0b1100011, 2, 1, 2, 4),
        r_word(0b1010011, 0, 0b1111111, 1, 2, 3),
        r_word(0b1010011, 1, 0, 1, 2, 3),
        r_word(0b1010011, 2, 0b1010001, 1, 2, 3),
        r_word(0b1010011, 7, 0b1010001, 1, 2, 3),
        b_word(0b1010111, 0, 1, 2, 4),
        b_word(0b1010111, 5, 1, 2, 4),
    ];
    for bin in words {
        assert_eq!(DecodedInstr::decode_from(bin), Err(DecodeError::Invalid(bin)), "{bin:#010x}");
    }
    assert_eq!(DecodeError::Invalid(0x7f).message(), "invalid opcode found: `0x0000007f`");
}

// second encoding: opcode in bits 3..0, rd in 9..4, funct3 in 12..10,
// rs1 in 18..13, rs2 in 24..19, bits 30..25, sign in 31
fn word_2nd(op: u32, rd: u32, f3: u32, rs1: u32, rs2: u32, hi: u32, sign: u32) -> u32 {
    sign << 31 | hi << 25 | rs2 << 19 | rs1 << 13 | f3 << 10 | rd << 4 | op
}

fn imm12(op: u32, rd: u32, f3: u32, rs1: u32, imm: i32) -> u32 {
    let imm = imm as u32;
    word_2nd(op, rd, f3, rs1, imm & 0x3f, (imm >> 6) & 0x3f, (imm >> 11) & 1)
}

fn store12(op: u32, f3: u32, rs1: u32, rs2: u32, imm: i32) -> u32 {
    let imm = imm as u32;
    word_2nd(op, imm & 0x3f, f3, rs1, rs2, (imm >> 6) & 0x3f, (imm >> 11) & 1)
}

fn imm14(op: u32, f3: u32, rs1: u32, rs2: u32, imm: i32) -> u32 {
    let imm = imm as u32;
    let low = (imm & 0x3c) | ((imm >> 12) & 3);
    word_2nd(op, low, f3, rs1, rs2, (imm >> 6) & 0x3f, (imm >> 13) & 1)
}

fn text_of_2nd(bin: u32) -> String {
    DecodedInstr::decode_from_2nd(bin).unwrap().text()
}

#[test]
fn every_instruction_of_the_second_encoding_decodes_to_its_text() {
    let table: Vec<(u32, &str)> = vec![
        (word_2nd(0b0000, 7, 0, 5, 6, 0, 0), "add t2, t0, t1"),
        (word_2nd(0b0000, 7, 4, 5, 6, 0, 0), "xor t2, t0, t1"),
        (word_2nd(0b0000, 7, 1, 5, 6, 0, 0), "min t2, t0, t1"),
        (word_2nd(0b0000, 40, 3, 50, 63, 0, 0), "max x40, x50, x63"),
        (imm12(0b0010, 5, 0, 0, 7), "addi t0, zero, 7"),
        (imm12(0b0010, 5, 0, 6, -1), "addi t0, t1, -1"),
        (imm12(0b0010, 5, 4, 6, 2047), "xori t0, t1, 2047"),
        (imm12(0b0010, 5, 2, 6, 3), "slli t0, t1, 3"),
        (imm12(0b0110, 5, 0, 2, -2048), "lw t0, -2048(sp)"),
        (imm12(0b1010, 0, 0, 1, 0), "jalr zero, ra, 0"),
        (store12(0b0100, 0, 2, 7, -8), "sw t2, -8(sp)"),
        (imm14(0b1000, 0, 10, 11, 8), "beq a0, a1, 8"),
        (imm14(0b1000, 1, 10, 11, -4), "bne a0, a1, -4"),
        (imm14(0b1000, 4, 10, 11, 8188), "blt a0, a1, 8188"),
        (imm14(0b1000, 5, 10, 11, -8192), "bge a0, a1, -8192"),
        (imm14(0b1000, 2, 10, 11, 4), "bxor a0, a1, 4"),
        (imm14(0b1000, 3, 10, 11, 4), "bxnor a0, a1, 4"),
        (imm14(0b1100, 0, 10, 5, 8), "beqi a0, 5, 8"),
        (imm14(0b1100, 1, 10, 63, 8), "bnei a0, -1, 8"),
        (imm14(0b1100, 4, 10, 32, 8), "blti a0, -32, 8"),
        (imm14(0b1100, 5, 10, 31, 8), "bgei a0, 31, 8"),
        (imm14(0b1100, 6, 10, 0, 8), "bgti a0, 0, 8"),
        (imm14(0b1100, 7, 10, 1, -8), "blei a0, 1, -8"),
        (word_2nd(0b0011, 10, 1, 0, 0, 0, 0), "inw a0"),
        (word_2nd(0b0011, 0, 2, 10, 0, 0, 0), "outb a0"),
        (word_2nd(0b0011, 10, 4, 0, 0, 0, 0), "finw fa0"),
        (word_2nd(0b0001, 2, 0, 3, 4, 0b000000, 0), "fadd ft2, ft3, ft4"),
        (word_2nd(0b0001, 2, 0, 3, 4, 0b000100, 0), "fsub ft2, ft3, ft4"),
        (word_2nd(0b0001, 2, 0, 3, 4, 0b001000, 0), "fmul ft2, ft3, ft4"),
        (word_2nd(0b0001, 2, 0, 3, 4, 0b001100, 0), "fdiv ft2, ft3, ft4"),
        (word_2nd(0b0001, 2, 0, 3, 4, 0b011000, 0), "fsgnj ft2, ft3, ft4"),
        (word_2nd(0b0001, 2, 0, 3, 4, 0b011100, 0), "fsgnjn ft2, ft3, ft4"),
        (word_2nd(0b0001, 2, 0, 3, 4, 0b100000, 0), "fsgnjx ft2, ft3, ft4"),
        (word_2nd(0b0001, 2, 0, 3, 0, 0b010000, 0), "fsqrt ft2, ft3"),
        (word_2nd(0b0001, 2, 0, 3, 0, 0b010100, 0), "fhalf ft2, ft3"),
        (word_2nd(0b0001, 2, 0, 3, 0, 0b110000, 0), "ffrac ft2, ft3"),
        (word_2nd(0b0001, 2, 0, 3, 0, 0b101100, 0), "finv ft2, ft3"),
        (word_2nd(0b0001, 2, 0, 3, 0, 0b100100, 0), "ffloor ft2, ft3"),
        (word_2nd(0b0001, 10, 0, 3, 0, 0b000100, 1), "fftoi a0, ft3"),
        (word_2nd(0b0001, 3, 0, 10, 0, 0b100100, 1), "fitof ft3, a0"),
        (word_2nd(0b0001, 2, 1, 3, 4, 5, 0), "fmadd ft2, ft3, ft4, ft5"),
        (word_2nd(0b0001, 2, 2, 3, 4, 5, 0), "fmsub ft2, ft3, ft4, ft5"),
        (word_2nd(0b0001, 2, 5, 3, 4, 5, 0), "fnmadd ft2, ft3, ft4, ft5"),
        (word_2nd(0b0001, 2, 6, 3, 4, 63, 0), "fnmsub ft2, ft3, ft4, f63"),
        (word_2nd(0b0001, 10, 1, 3, 4, 0, 1), "flt a0, ft3, ft4"),
        (word_2nd(0b0001, 10, 4, 3, 0, 0, 1), "fiszero a0, ft3"),
        (word_2nd(0b0001, 10, 5, 3, 0, 0, 1), "fispos a0, ft3"),
        (word_2nd(0b0001, 10, 6, 3, 0, 0, 1), "fisneg a0, ft3"),
        (imm14(0b1001, 1, 3, 4, 8), "fblt ft3, ft4, 8"),
        (imm14(0b1001, 2, 3, 4, 8), "fbge ft3, ft4, 8"),
        (imm14(0b1001, 4, 3, 0, 8), "fbeqz ft3, 8"),
        (imm14(0b1001, 7, 3, 0, 8), "fbnez ft3, 8"),
        (imm12(0b0111, 1, 0, 2, 16), "flw fone, 16(sp)"),
        (store12(0b0101, 0, 2, 1, 16), "fsw fone, 16(sp)"),
        (0x8000_0000, "end"),
    ];
    for (bin, text) in table {
        assert_eq!(text_of_2nd(bin), text, "{bin:#010x}");
    }
}

#[test]
fn jumps_of_the_second_encoding_carry_23_bits() {
    // bits 22..17 in rs1, 16..14 in funct3, 13..12 and 5..2 in rs2, 11..6 above
    let imm: u32 = 0x12_3454 & 0x3f_fffc;
    let rs2 = (imm & 0x3c) | ((imm >> 12) & 3);
    let bin = word_2nd(0b1110, 1, (imm >> 14) & 7, (imm >> 17) & 0x3f, rs2, (imm >> 6) & 0x3f, 0);
    assert_eq!(
        DecodedInstr::decode_from_2nd(bin).unwrap(),
        Instr::J { instr: core_sim::instr::JInstr::Jal, rd: RegId::try_new(1).unwrap(), imm }
    );
    let bin = word_2nd(0b1110, 1, 7, 0x3f, 0x3f, 0x3f, 1);
    assert_eq!(text_of_2nd(bin), "jal ra, -4");
}

#[test]
fn words_without_an_instruction_in_the_second_encoding_are_invalid() {
    let words = [
        word_2nd(0b0000, 1, 2, 2, 3, 0, 0),
        word_2nd(0b0010, 1, 1, 2, 3, 0, 0),
        word_2nd(0b1010, 1, 1, 2, 3, 0, 0),
        word_2nd(0b1000, 1, 6, 2, 3, 0, 0),
        word_2nd(0b1100, 1, 2, 2, 3, 0, 0),
        word_2nd(0b0011, 1, 0, 2, 3, 0, 0),
        word_2nd(0b0001, 1, 0, 2, 3, 0b111100, 1),
        word_2nd(0b0001, 1, 3, 2, 3, 0, 0),
        word_2nd(0b0001, 1, 7, 2, 3, 0, 1),
        word_2nd(0b1001, 1, 0, 2, 3, 0, 0),
        word_2nd(0b1101, 1, 0, 2, 3, 0, 0),
        word_2nd(0b1111, 1, 0, 2, 3, 0, 0),
        word_2nd(0b1011, 1, 0, 2, 3, 0, 0),
    ];
    for bin in words {
        assert_eq!(
            DecodedInstr::decode_from_2nd(bin),
            Err(DecodeError::Invalid(bin)),
            "{bin:#010x}"
        );
    }
}

#[test]
fn decoded_operands() {
    assert_eq!(
        DecodedInstr::decode_from(r_word(0b0110011, 0, 0, 7, 5, 6)).unwrap(),
        Instr::R {
            instr: RInstr::Add,
            rd: RegId::try_new(7).unwrap(),
            rs1: RegId::try_new(5).unwrap(),
            rs2: RegId::try_new(6).unwrap()
        }
    );
    assert_eq!(
        DecodedInstr::decode_from(s_word(0b0100011, 2, 2, 1, -12)).unwrap(),
        Instr::S {
            instr: SInstr::Sw,
            rs1: RegId::try_new(2).unwrap(),
            rs2: RegId::try_new(1).unwrap(),
            imm: (-12i32) as u32
        }
    );
    assert_eq!(
        DecodedInstr::decode_from(b_word(0b1100011, 1, 10, 0, -4)).unwrap(),
        Instr::B {
            instr: BInstr::Bne,
            rs1: RegId::try_new(10).unwrap(),
            rs2: RegId::try_new(0).unwrap(),
            imm: (-4i32) as u32
        }
    );
    assert_eq!(
        DecodedInstr::decode_from(r_word(0b1010011, 0, 0b0001000, 2, 3, 4)).unwrap(),
        Instr::F(FInstr::E {
            instr: EInstr::Fmul,
            rd: FRegId::try_new(2).unwrap(),
            rs1: FRegId::try_new(3).unwrap(),
            rs2: FRegId::try_new(4).unwrap()
        })
    );
    assert_eq!(
        DecodedInstr::decode_from(r_word(0b0101011, 0, 0, 0, 10, 0)).unwrap(),
        Instr::IO(IOInstr::Outb { rs: RegId::try_new(10).unwrap() })
    );
}
