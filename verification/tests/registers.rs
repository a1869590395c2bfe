use core_sim::common::MemoryRegion;
use core_sim::isa::Dialect;
use core_sim::reg_file::RegFile;
use core_sim::register::{FRegId, RegId};
use core_sim::ty::Ty;

#[test]
fn a_register_holds_what_was_written_last() {
    let mut r = RegFile::new();
    for i in 1..64u32 {
        let id = RegId::try_new(i).unwrap();
        r.set(id, 1000 + i);
        assert_eq!(r.get(id), 1000 + i);
    }
    for i in 1..64u32 {
        assert_eq!(r.get(RegId::try_new(i).unwrap()), 1000 + i);
    }
}

#[test]
fn register_zero_reads_as_zero() {
    let mut r = RegFile::new();
    let zero = RegId::try_new(0).unwrap();
    assert_eq!(r.get(zero), 0);
    r.set(zero, 77);
    assert_eq!(r.get(zero), 0);
    let fzero = FRegId::try_new(0).unwrap();
    r.set_f(fzero, 0x3f80_0000);
    assert_eq!(r.get_f(fzero), 0);
    let fone = FRegId::try_new(1).unwrap();
    r.set_f(fone, 0x3f80_0000);
    assert_eq!(r.get_f(fone), 0x3f80_0000);
}

#[test]
fn reads_and_writes_are_counted() {
    let mut r = RegFile::new();
    let t0 = RegId::try_new(5).unwrap();
    r.set(t0, 1);
    r.set(t0, 2);
    r.get(t0);
    assert_eq!(r.counts(t0), (1, 2));
    assert_eq!(r.peek(t0), 2);
    assert_eq!(r.counts(t0), (1, 2));
    let zero = RegId::try_new(0).unwrap();
    r.set(zero, 1);
    assert_eq!(r.counts(zero), (0, 1));
}

#[test]
fn the_stack_pointer_feeds_the_region_classifier() {
    let mut r = RegFile::new();
    r.set_hp(10);
    r.set_sp(249_999);
    r.end_init();
    assert_eq!(r.get_region(9), MemoryRegion::DataSection);
    assert_eq!(r.get_region(10), MemoryRegion::Heap);
    assert_eq!(r.get_region(248_998), MemoryRegion::Heap);
    assert_eq!(r.get_region(248_999), MemoryRegion::Stack);
    r.set(RegId::try_new(2).unwrap(), 200_000);
    assert_eq!(r.get_region(198_999), MemoryRegion::Heap);
    assert_eq!(r.get_region(199_000), MemoryRegion::Stack);
    // a higher stack pointer does not shrink the stack
    r.set(RegId::try_new(2).unwrap(), 240_000);
    assert_eq!(r.get_region(199_000), MemoryRegion::Stack);
    let s = r.region_stat();
    assert_eq!((s.hp_min, s.hp_max, s.sp_min, s.sp_max), (10, 10, 200_000, 249_999));
}

#[test]
fn a_small_stack_pointer_does_not_wrap() {
    let mut b = core_sim::reg_file::MemoryRegionStatBuilder::default();
    b.init(0, 500);
    assert_eq!(b.get_region(0), MemoryRegion::Stack);
    b.update_sp(1500);
    assert_eq!(b.get_region(0), MemoryRegion::Stack);
}

#[test]
fn register_identifiers_and_names() {
    assert!(RegId::try_new(64).is_none());
    assert!(FRegId::try_new(64).is_none());
    let ra = RegId::try_new(1).unwrap();
    assert_eq!(ra.inner(), 1);
    assert_eq!(ra.ty(), Ty::Usize);
    assert_eq!(RegId::try_new(2).unwrap().ty(), Ty::I32);
    assert!(RegId::try_new(0).unwrap().is_zero());
    assert!(!ra.is_zero());
    assert!(FRegId::try_new(0).unwrap().is_zero());
    let names = [
        "zero", "ra", "sp", "gp", "hp", "t0", "t1", "t2", "s0", "s1", "a0", "a1", "a2", "a3",
        "a4", "a5", "a6", "a7", "s2", "s3", "s4", "s5", "s6", "s7", "s8", "s9", "s10", "s11",
        "t3", "t4", "t5", "t6",
    ];
    for (i, n) in names.iter().enumerate() {
        let id = RegId::try_new(i as u32).unwrap();
        assert_eq!(id.name(), *n);
        assert_eq!(RegId::from_name(n), Some(id));
        assert!(id.fits(Dialect::V1));
    }
    assert_eq!(RegId::try_new(32).unwrap().name(), "x32");
    assert_eq!(RegId::try_new(63).unwrap().name(), "x63");
    assert!(!RegId::try_new(32).unwrap().fits(Dialect::V1));
    assert!(RegId::try_new(32).unwrap().fits(Dialect::V2));
    assert_eq!(RegId::from_name("nosuch"), None);
    let fnames = [
        "fzero", "fone", "ft2", "ft3", "ft4", "ft5", "ft6", "ft7", "fs0", "fs1", "fa0", "fa1",
        "fa2", "fa3", "fa4", "fa5", "fa6", "fa7", "fs2", "fs3", "fs4", "fs5", "fs6", "fs7",
        "fs8", "fs9", "fs10", "fs11", "ft8", "ft9", "ft10", "ft11",
    ];
    for (i, n) in fnames.iter().enumerate() {
        let id = FRegId::try_new(i as u32).unwrap();
        assert_eq!(id.name(), *n);
        assert_eq!(FRegId::from_name(n), Some(id));
    }
    assert_eq!(FRegId::try_new(40).unwrap().name(), "f40");
    assert_eq!(FRegId::from_name("f63").unwrap().inner(), 63);
}
