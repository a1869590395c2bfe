use core_sim::instr::{FInstr, IInstr, Instr, InstrId, RInstr, INSTR_ID_MAX};
use core_sim::isa::Dialect;

#[test]
fn test_instr_id() {
    let instr = IInstr::Addi;
    let instr: Instr<(), (), (), ()> = Instr::I {
        instr,
        rd: (),
        rs1: (),
        imm: 0,
    };
    let s = format!("{}", instr.id(Dialect::V1).unwrap().name());
    assert_eq!(s, "addi");
    let instr: Instr<(), (), (), ()> = Instr::F(FInstr::Fsw {
        rs2: (),
        rs1: (),
        imm: 0,
    });
    let s = format!("{}", instr.id(Dialect::V1).unwrap().name());
    assert_eq!(s, "fsw");
}

#[test]
fn identifiers_are_category_times_eight_plus_number() {
    let addi: Instr<(), (), (), ()> = Instr::I { instr: IInstr::Addi, rd: (), rs1: (), imm: 0 };
    assert_eq!(addi.id(Dialect::V1).unwrap().inner(), 8);
    let jalr: Instr<(), (), (), ()> = Instr::I { instr: IInstr::Jalr, rd: (), rs1: (), imm: 0 };
    assert_eq!(jalr.id(Dialect::V1).unwrap().inner(), 15);
    assert_eq!(jalr.id(Dialect::V2).unwrap().inner(), 12);
    let end: Instr<(), (), (), ()> = Instr::Misc(core_sim::instr::MiscInstr::End);
    assert_eq!(end.id(Dialect::V1).unwrap().inner(), 122);
    assert_eq!(end.id(Dialect::V1).unwrap().name(), "end");
    let sub: Instr<(), (), (), ()> = Instr::R { instr: RInstr::Sub, rd: (), rs1: (), rs2: () };
    assert_eq!(sub.id(Dialect::V1).unwrap().inner(), 1);
    assert!(sub.id(Dialect::V2).is_none());
    let max: Instr<(), (), (), ()> = Instr::R { instr: RInstr::Max, rd: (), rs1: (), rs2: () };
    assert!(max.id(Dialect::V1).is_none());
    assert_eq!(max.id(Dialect::V2).unwrap().inner(), 3);
    assert_eq!(max.id(Dialect::V2).unwrap().dialect(), Dialect::V2);
}

#[test]
fn every_valid_identifier_has_a_name() {
    let mut names_v1 = Vec::new();
    let mut names_v2 = Vec::new();
    for value in 0..=255u8 {
        if let Some(id) = InstrId::try_new(value, Dialect::V1) {
            assert!((value as usize) < INSTR_ID_MAX);
            assert_eq!(id.inner(), value);
            names_v1.push(id.name());
        }
        if let Some(id) = InstrId::try_new(value, Dialect::V2) {
            assert!((value as usize) < INSTR_ID_MAX);
            names_v2.push(id.name());
        }
    }
    assert_eq!(names_v1.len(), 8 + 8 + 1 + 4 + 0 + 1 + 3 + 7 + 0 + 3 + 1 + 1 + 4 + 2 + 2 + 3);
    assert_eq!(names_v2.len(), 4 + 5 + 1 + 6 + 6 + 1 + 3 + 7 + 4 + 5 + 1 + 1 + 4 + 2 + 2 + 3);
    assert_eq!(&names_v1[..8], &["add", "sub", "xor", "or", "and", "sll", "sra", "slt"]);
    assert_eq!(&names_v2[..4], &["add", "xor", "min", "max"]);
    assert!(InstrId::try_new(123, Dialect::V1).is_none());
    assert!(InstrId::try_new(4 << 3, Dialect::V1).is_none());
    assert_eq!(InstrId::try_new(4 << 3, Dialect::V2).unwrap().name(), "beqi");
    assert_eq!(InstrId::try_new(6 << 3, Dialect::V1).unwrap().name(), "outb");
    assert_eq!(InstrId::try_new((15 << 3) + 1, Dialect::V1).unwrap().name(), "fsw");
}
