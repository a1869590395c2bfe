use core_sim::execute::{
    alu_i, alu_r, branch_b, branch_p, execute_output, outside_request, signed, sll, sra, unsigned,
    ExecuteOutput, MemoryAccessInput, OutsideRequest, WriteBackInput,
};
use core_sim::instr::{GInstr, HInstr, XInstr};
use core_sim::instr::{
    BInstr, EInstr, FInstr, IInstr, IOInstr, Instr, JInstr, KInstr, MiscInstr, PInstr, RInstr,
    SInstr, VInstr, WInstr, YInstr,
};
use core_sim::isa::Dialect;
use core_sim::register::{FRegId, RegId};

fn reg(i: u32) -> RegId {
    RegId::try_new(i).unwrap()
}

fn freg(i: u32) -> FRegId {
    FRegId::try_new(i).unwrap()
}

#[test]
fn shifts_at_the_edges() {
    assert_eq!(sll(Dialect::V1, 1, 31), 0x8000_0000);
    assert_eq!(alu_i(Dialect::V1, IInstr::Slli, 1, 31, 0), 0x8000_0000);
    assert_eq!(sll(Dialect::V1, 3, 31), 0x8000_0000);
    assert_eq!(sra(Dialect::V1, 0xFFFF_FFFF, 31), 0xFFFF_FFFF);
    assert_eq!(alu_r(Dialect::V1, RInstr::Sra, (-1i32) as u32, 31), (-1i32) as u32);
    assert_eq!(sra(Dialect::V1, 0x8000_0000, 4), 0xF800_0000);
    assert_eq!(sra(Dialect::V1, 0x4000_0000, 4), 0x0400_0000);
    assert_eq!(sra(Dialect::V1, (-64i32) as u32, 3), (-8i32) as u32);
    // the first encoding uses five bits of the amount, the second six
    assert_eq!(sll(Dialect::V1, 1, 33), 2);
    assert_eq!(sll(Dialect::V2, 1, 33), 0);
    assert_eq!(sra(Dialect::V2, 0x8000_0000, 40), 0xFFFF_FFFF);
    assert_eq!(sra(Dialect::V2, 0x7000_0000, 40), 0);
    assert_eq!(sll(Dialect::V2, 1, 64 + 5), 32);
}

#[test]
fn integer_operations() {
    let d = Dialect::V1;
    assert_eq!(alu_r(d, RInstr::Add, 7, 5), 12);
    assert_eq!(alu_r(d, RInstr::Add, 0xFFFF_FFFF, 2), 1);
    assert_eq!(alu_r(d, RInstr::Sub, 5, 7), (-2i32) as u32);
    assert_eq!(alu_r(d, RInstr::Xor, 0b1100, 0b1010), 0b0110);
    assert_eq!(alu_r(d, RInstr::Or, 0b1100, 0b1010), 0b1110);
    assert_eq!(alu_r(d, RInstr::And, 0b1100, 0b1010), 0b1000);
    assert_eq!(alu_r(d, RInstr::Slt, (-1i32) as u32, 0), 1);
    assert_eq!(alu_r(d, RInstr::Slt, 0, (-1i32) as u32), 0);
    assert_eq!(alu_r(d, RInstr::Min, (-1i32) as u32, 3), (-1i32) as u32);
    assert_eq!(alu_r(d, RInstr::Max, (-1i32) as u32, 3), 3);
    assert_eq!(alu_i(d, IInstr::Addi, 10, (-3i32) as u32, 0), 7);
    assert_eq!(alu_i(d, IInstr::Xori, 6, 1, 0), 7);
    assert_eq!(alu_i(d, IInstr::Ori, 6, 1, 0), 7);
    assert_eq!(alu_i(d, IInstr::Andi, 6, 3, 0), 2);
    assert_eq!(alu_i(d, IInstr::Slti, (-5i32) as u32, (-4i32) as u32, 0), 1);
    assert_eq!(signed(0xFFFF_FFFF), -1);
    assert_eq!(signed(0x8000_0000), i32::MIN);
    assert_eq!(signed(0x7FFF_FFFF), i32::MAX);
    assert_eq!(unsigned(-1), 0xFFFF_FFFF);
    assert_eq!(unsigned(i32::MIN), 0x8000_0000);
}

#[test]
fn branch_conditions() {
    let m1 = (-1i32) as u32;
    assert!(branch_b(BInstr::Beq, 3, 3));
    assert!(!branch_b(BInstr::Beq, 3, 4));
    assert!(branch_b(BInstr::Bne, 3, 4));
    assert!(branch_b(BInstr::Blt, m1, 0));
    assert!(!branch_b(BInstr::Blt, 0, m1));
    assert!(branch_b(BInstr::Bge, 0, m1));
    assert!(branch_b(BInstr::Bge, 2, 2));
    assert!(branch_b(BInstr::Bxor, 1, 2));
    assert!(!branch_b(BInstr::Bxor, 2, 2));
    assert!(branch_b(BInstr::Bxnor, 2, 2));
    assert!(branch_p(PInstr::Beqi, 5, 5));
    assert!(branch_p(PInstr::Bnei, 5, 6));
    assert!(branch_p(PInstr::Blti, m1, 0));
    assert!(branch_p(PInstr::Bgei, 0, m1));
    assert!(branch_p(PInstr::Bgti, 1, 0));
    assert!(!branch_p(PInstr::Bgti, 1, 1));
    assert!(branch_p(PInstr::Blei, 1, 1));
}

fn idle() -> ExecuteOutput {
    ExecuteOutput {
        ma_in: None,
        wb_in: None,
        new_pc: None,
        use_fpu: false,
        flush: false,
        cycles: 1,
        end: false,
    }
}

#[test]
fn execute_stage_of_integer_instructions() {
    let d = Dialect::V1;
    let o = execute_output(d, Instr::R { instr: RInstr::Add, rd: reg(7), rs1: 7, rs2: 5 }, 8, 12, false, 0);
    assert_eq!(o, ExecuteOutput { wb_in: Some(WriteBackInput::I { id: reg(7), val: 12 }), ..idle() });
    let o = execute_output(d, Instr::I { instr: IInstr::Lw, rd: reg(5), rs1: 100, imm: (-4i32) as u32 }, 8, 12, false, 0);
    assert_eq!(o, ExecuteOutput { ma_in: Some(MemoryAccessInput::IMem { id: reg(5), addr: 96 }), ..idle() });
    let o = execute_output(d, Instr::I { instr: IInstr::Jalr, rd: reg(1), rs1: 100, imm: 8 }, 8, 12, false, 0);
    assert_eq!(
        o,
        ExecuteOutput {
            wb_in: Some(WriteBackInput::I { id: reg(1), val: 12 }),
            new_pc: Some(108),
            flush: true,
            ..idle()
        }
    );
    let o = execute_output(d, Instr::S { instr: SInstr::Sw, rs1: 5, rs2: 12, imm: 0 }, 8, 12, false, 0);
    assert_eq!(o, ExecuteOutput { ma_in: Some(MemoryAccessInput::I { addr: 5, val: 12 }), ..idle() });
    let o = execute_output(d, Instr::J { instr: JInstr::Jal, rd: reg(1), imm: (-8i32) as u32 }, 20, 24, false, 0);
    assert_eq!(
        o,
        ExecuteOutput { wb_in: Some(WriteBackInput::I { id: reg(1), val: 24 }), new_pc: Some(12), ..idle() }
    );
    let o = execute_output(d, Instr::Misc(MiscInstr::End), 20, 24, false, 0);
    assert_eq!(o, ExecuteOutput { end: true, ..idle() });
}

#[test]
fn execute_stage_of_branches() {
    let d = Dialect::V1;
    let taken = Instr::B { instr: BInstr::Bne, rs1: 3, rs2: 0, imm: (-4i32) as u32 };
    assert_eq!(
        execute_output(d, taken, 8, 12, true, 0),
        ExecuteOutput { new_pc: Some(4), ..idle() }
    );
    assert_eq!(
        execute_output(d, taken, 8, 12, false, 0),
        ExecuteOutput { new_pc: Some(4), flush: true, ..idle() }
    );
    let untaken = Instr::B { instr: BInstr::Bne, rs1: 0, rs2: 0, imm: (-4i32) as u32 };
    assert_eq!(execute_output(d, untaken, 8, 12, false, 0), idle());
    assert_eq!(execute_output(d, untaken, 8, 12, true, 0), ExecuteOutput { flush: true, ..idle() });
    let one = 1.0f32.to_bits();
    let two = 2.0f32.to_bits();
    let w = Instr::F(FInstr::W { instr: WInstr::Fblt, rs1: one, rs2: two, imm: 16 });
    assert_eq!(execute_output(d, w, 8, 12, true, 0), ExecuteOutput { new_pc: Some(24), ..idle() });
    let v = Instr::F(FInstr::V { instr: VInstr::Fbeqz, rs1: one, imm: 16 });
    assert_eq!(execute_output(d, v, 8, 12, false, 0), idle());
    let v = Instr::F(FInstr::V { instr: VInstr::Fbnez, rs1: one, imm: 16 });
    assert_eq!(execute_output(d, v, 8, 12, true, 0), ExecuteOutput { new_pc: Some(24), ..idle() });
    let p = Instr::P { instr: PInstr::Blti, rs1: (-3i32) as u32, imm: 8, imm2: (-2i32) as u32 };
    assert_eq!(execute_output(Dialect::V2, p, 8, 12, true, 0), ExecuteOutput { new_pc: Some(16), ..idle() });
}

#[test]
fn execute_stage_of_float_and_io_instructions() {
    let d = Dialect::V1;
    let one = 1.0f32.to_bits();
    let two = 2.0f32.to_bits();
    let add = Instr::F(FInstr::E { instr: EInstr::Fadd, rd: freg(3), rs1: one, rs2: two });
    assert_eq!(
        execute_output(d, add, 0, 4, false, 0x4040_0000),
        ExecuteOutput {
            wb_in: Some(WriteBackInput::F { id: freg(3), val: 0x4040_0000 }),
            use_fpu: true,
            cycles: 5,
            ..idle()
        }
    );
    let div = Instr::F(FInstr::E { instr: EInstr::Fdiv, rd: freg(3), rs1: one, rs2: two });
    assert_eq!(execute_output(d, div, 0, 4, false, 9).cycles, 11);
    let sgn = Instr::F(FInstr::E { instr: EInstr::Fsgnjn, rd: freg(3), rs1: one, rs2: two });
    assert_eq!(
        execute_output(d, sgn, 0, 4, false, 1234),
        ExecuteOutput {
            wb_in: Some(WriteBackInput::F { id: freg(3), val: (-1.0f32).to_bits() }),
            use_fpu: true,
            cycles: 1,
            ..idle()
        }
    );
    let lt = Instr::F(FInstr::K { instr: KInstr::Flt, rd: reg(5), rs1: one, rs2: two });
    assert_eq!(
        execute_output(d, lt, 0, 4, false, 1234),
        ExecuteOutput { wb_in: Some(WriteBackInput::I { id: reg(5), val: 1 }), ..idle() }
    );
    let pos = Instr::F(FInstr::Y { instr: YInstr::Fispos, rd: reg(5), rs1: two });
    assert_eq!(
        execute_output(d, pos, 0, 4, false, 1234),
        ExecuteOutput {
            wb_in: Some(WriteBackInput::I { id: reg(5), val: 1 }),
            use_fpu: true,
            ..idle()
        }
    );
    let ftoi = Instr::F(FInstr::Y { instr: YInstr::Fftoi, rd: reg(5), rs1: two });
    assert_eq!(
        execute_output(d, ftoi, 0, 4, false, 2),
        ExecuteOutput {
            wb_in: Some(WriteBackInput::I { id: reg(5), val: 2 }),
            use_fpu: true,
            cycles: 2,
            ..idle()
        }
    );
    let flw = Instr::F(FInstr::Flw { rd: freg(2), rs1: 10, imm: 6 });
    assert_eq!(
        execute_output(d, flw, 0, 4, false, 0),
        ExecuteOutput { ma_in: Some(MemoryAccessInput::FMem { id: freg(2), addr: 16 }), ..idle() }
    );
    let fsw = Instr::F(FInstr::Fsw { rs2: one, rs1: 10, imm: 6 });
    assert_eq!(
        execute_output(d, fsw, 0, 4, false, 0),
        ExecuteOutput { ma_in: Some(MemoryAccessInput::F { addr: 16, val: one }), ..idle() }
    );
    let inw = Instr::IO(IOInstr::Inw { rd: reg(9) });
    assert_eq!(
        execute_output(d, inw, 0, 4, false, 77),
        ExecuteOutput { wb_in: Some(WriteBackInput::I { id: reg(9), val: 77 }), ..idle() }
    );
    let finw = Instr::IO(IOInstr::Finw { rd: freg(9) });
    assert_eq!(
        execute_output(d, finw, 0, 4, false, one),
        ExecuteOutput { wb_in: Some(WriteBackInput::F { id: freg(9), val: one }), ..idle() }
    );
    assert_eq!(execute_output(d, Instr::IO(IOInstr::Outb { rs: 65 }), 0, 4, false, 0), idle());
}

#[test]
fn what_instructions_ask_of_the_outside() {
    let one = 1.0f32.to_bits();
    let two = 2.0f32.to_bits();
    let three = 3.0f32.to_bits();
    assert_eq!(outside_request(&Instr::IO(IOInstr::Outb { rs: 0x1234_5678 })), OutsideRequest::Outb(0x78));
    assert_eq!(outside_request(&Instr::IO(IOInstr::Inw { rd: reg(1) })), OutsideRequest::Inw);
    assert_eq!(outside_request(&Instr::IO(IOInstr::Finw { rd: freg(1) })), OutsideRequest::Finw);
    let e = |instr| Instr::F(FInstr::E { instr, rd: freg(3), rs1: one, rs2: two });
    assert_eq!(outside_request(&e(EInstr::Fadd)), OutsideRequest::Fadd(one, two));
    assert_eq!(outside_request(&e(EInstr::Fsub)), OutsideRequest::Fsub(one, two));
    assert_eq!(outside_request(&e(EInstr::Fmul)), OutsideRequest::Fmul(one, two));
    assert_eq!(outside_request(&e(EInstr::Fdiv)), OutsideRequest::Fdiv(one, two));
    assert_eq!(outside_request(&e(EInstr::Fsgnj)), OutsideRequest::Nothing);
    let g = |instr| Instr::F(FInstr::G { instr, rd: freg(3), rs1: one, rs2: two, rs3: three });
    assert_eq!(outside_request(&g(GInstr::Fmadd)), OutsideRequest::MulAdd(one, two, three));
    assert_eq!(outside_request(&g(GInstr::Fmsub)), OutsideRequest::MulSub(one, two, three));
    assert_eq!(
        outside_request(&g(GInstr::Fnmadd)),
        OutsideRequest::MulAdd((-1.0f32).to_bits(), two, three)
    );
    assert_eq!(
        outside_request(&g(GInstr::Fnmsub)),
        OutsideRequest::MulSub((-1.0f32).to_bits(), two, three)
    );
    let h = |instr| Instr::F(FInstr::H { instr, rd: freg(3), rs1: two });
    assert_eq!(outside_request(&h(HInstr::Fsqrt)), OutsideRequest::Fsqrt(two));
    assert_eq!(outside_request(&h(HInstr::Fhalf)), OutsideRequest::Fhalf(two));
    assert_eq!(outside_request(&h(HInstr::Ffloor)), OutsideRequest::Ffloor(two));
    assert_eq!(outside_request(&h(HInstr::Ffrac)), OutsideRequest::Ffrac(two));
    assert_eq!(outside_request(&h(HInstr::Finv)), OutsideRequest::Finv(two));
    let x = Instr::F(FInstr::X { instr: XInstr::Fitof, rd: freg(3), rs1: (-5i32) as u32 });
    assert_eq!(outside_request(&x), OutsideRequest::Fcvtsw(-5));
    let y = Instr::F(FInstr::Y { instr: YInstr::Fftoi, rd: reg(3), rs1: two });
    assert_eq!(outside_request(&y), OutsideRequest::Fcvtws(two));
    let y = Instr::F(FInstr::Y { instr: YInstr::Fiszero, rd: reg(3), rs1: two });
    assert_eq!(outside_request(&y), OutsideRequest::Nothing);
    let add = Instr::R { instr: RInstr::Add, rd: reg(7), rs1: 7, rs2: 5 };
    assert_eq!(outside_request(&add), OutsideRequest::Nothing);
}
