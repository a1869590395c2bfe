use core_sim::common::{Pc, SpyKind, SpyWatchKind, SpyWatchResultKind};
use core_sim::memory::{Addr, Memory, MemoryAccessError, SpyUnit};
use core_sim::ty::Ty;

#[test]
fn test_memory() {
    let mut m = Memory::<4>::new(Default::default());
    m.set(0, 0xDEADBEEF, &mut None).unwrap();
    assert_eq!(
        0xDEADBEEFu32,
        m.get_i(0, &mut None).unwrap().get_unchecked()
    );
}

#[test]
fn fresh_memory_is_filled_with_cc_and_untyped() {
    let mut m = Memory::<16>::new(Default::default());
    for addr in 0..4 {
        let v = m.get(addr, &mut None).unwrap();
        assert_eq!(v.get_unchecked(), 0xCCCC_CCCC);
        assert_eq!(v.ty, Ty::Unknown);
    }
}

#[test]
fn set_then_get_returns_the_value_and_leaves_other_words() {
    let mut m = Memory::<64>::new(Default::default());
    for (addr, val) in [(0usize, 1u32), (3, 0xFFFF_FFFF), (15, 0x0102_0304), (7, 0)] {
        m.set(addr, val, &mut None).unwrap();
        assert_eq!(m.get(addr, &mut None).unwrap().get_unchecked(), val);
        assert_eq!(m.get_i(addr, &mut None).unwrap().get_unchecked(), val);
    }
    assert_eq!(m.get(0, &mut None).unwrap().get_unchecked(), 1);
    assert_eq!(m.get(1, &mut None).unwrap().get_unchecked(), 0xCCCC_CCCC);
    assert_eq!(m.get(15, &mut None).unwrap().get_unchecked(), 0x0102_0304);
}

#[test]
fn words_are_little_endian() {
    let mut m = Memory::<16>::new(Default::default());
    m.init_from_slice(&[0x78, 0x56, 0x34, 0x12, 0xEF, 0xBE, 0xAD, 0xDE], 4..8);
    assert_eq!(m.get(0, &mut None).unwrap().get_unchecked(), 0x1234_5678);
    assert_eq!(m.get_from_pc(Pc::new(4)).unwrap(), 0xDEAD_BEEF);
}

#[test]
fn data_access_at_the_edges_of_the_instruction_region() {
    let mut m = Memory::<64>::new(Default::default());
    // words 2, 3 and 4 hold instructions
    m.init_from_slice(&[0; 20], 8..20);
    assert!(m.get_i(1, &mut None).is_ok());
    for addr in [2usize, 3, 4] {
        assert_eq!(
            m.get_i(addr, &mut None).unwrap_err(),
            MemoryAccessError::OutOfBounds { accessed_address: addr }
        );
        assert_eq!(
            m.set(addr, 1, &mut None).unwrap_err(),
            MemoryAccessError::OutOfBounds { accessed_address: addr }
        );
    }
    assert!(m.get_i(5, &mut None).is_ok());
    assert!(m.set(5, 9, &mut None).is_ok());
    // past the end of the memory
    assert_eq!(
        m.get(16, &mut None).unwrap_err(),
        MemoryAccessError::OutOfBounds { accessed_address: 16 }
    );
    assert!(m.get(15, &mut None).is_ok());
}

#[test]
fn fetch_outside_the_instruction_region_fails() {
    let mut m = Memory::<64>::new(Default::default());
    m.init_from_slice(&[0; 20], 8..20);
    assert!(m.get_from_pc(Pc::new(8)).is_ok());
    assert!(m.get_from_pc(Pc::new(16)).is_ok());
    assert_eq!(
        m.get_from_pc(Pc::new(20)).unwrap_err(),
        MemoryAccessError::PcOutOfBounds { pc_address: 20 }
    );
    assert_eq!(
        m.get_from_pc(Pc::new(4)).unwrap_err(),
        MemoryAccessError::PcOutOfBounds { pc_address: 4 }
    );
}

#[test]
fn typed_reads_unify_with_the_tag() {
    let mut m = Memory::<16>::new(Default::default());
    // an untyped word takes the type of the first typed read
    assert_eq!(m.get_f(0, &mut None).unwrap(), 0xCCCC_CCCC);
    assert_eq!(m.get(0, &mut None).unwrap().ty, Ty::F32);
    assert_eq!(
        m.get_i(0, &mut None).unwrap_err(),
        MemoryAccessError::ViolateTransmutation { expected: Ty::F32, attempt: Ty::I32OrUsize }
    );
    // a write sets the tag anew
    m.set(0, 5, &mut None).unwrap();
    assert_eq!(m.get(0, &mut None).unwrap().ty, Ty::I32OrUsize);
    assert_eq!(
        m.get_f(0, &mut None).unwrap_err(),
        MemoryAccessError::ViolateTransmutation { expected: Ty::I32OrUsize, attempt: Ty::F32 }
    );
    m.set_f(0, 0x3f80_0000, &mut None).unwrap();
    assert_eq!(m.get_f(0, &mut None).unwrap(), 0x3f80_0000);
}

#[test]
fn spies_report_reads_and_writes() {
    let mut m = Memory::<64>::new(Default::default());
    let unit = SpyUnit { addr: 3, expire_at: None };
    m.add_spy(SpyWatchKind::all(), unit);
    let mut spied = None;
    m.set(2, 1, &mut spied).unwrap();
    assert!(spied.is_none());
    m.set(3, 0xDEAD_BEEF, &mut spied).unwrap();
    let r = spied.take().unwrap();
    assert_eq!(r.target, SpyKind::Memory(unit));
    match r.kind {
        SpyWatchResultKind::Write { before, after } => {
            assert_eq!(before.get_unchecked(), 0xCCCC_CCCC);
            assert_eq!(before.ty, Ty::Unknown);
            assert_eq!(after.get_unchecked(), 0xDEAD_BEEF);
            assert_eq!(after.ty, Ty::I32OrUsize);
        }
        SpyWatchResultKind::Read => panic!("a write was reported as a read"),
    }
    m.get_i(3, &mut spied).unwrap();
    assert_eq!(spied.take().unwrap().kind, SpyWatchResultKind::Read);
    m.remove_spy(SpyWatchKind::read(), unit);
    m.get_i(3, &mut spied).unwrap();
    assert!(spied.is_none());
    m.set(3, 7, &mut spied).unwrap();
    assert!(spied.is_some());
}

#[test]
fn accesses_are_counted_by_region() {
    let mut region = core_sim::reg_file::MemoryRegionStatBuilder::default();
    region.init(4, 15);
    let mut m = Memory::<8000>::new(region);
    m.set(0, 1, &mut None).unwrap();
    m.get(1, &mut None).unwrap();
    m.get(1999, &mut None).unwrap();
    let s = m.stat();
    assert_eq!(s.write.data_section, 1);
    assert_eq!(s.read.data_section, 1);
    assert_eq!(s.read.stack, 1);
    assert_eq!(s.read.heap, 0);
}

#[test]
fn memory_errors_have_their_messages() {
    assert_eq!(
        MemoryAccessError::OutOfBounds { accessed_address: 42 }.message(),
        "address 42 out of range for memory"
    );
    assert_eq!(
        MemoryAccessError::PcOutOfBounds { pc_address: 7 }.message(),
        "pc 7 out of range for instr memory"
    );
    assert_eq!(
        MemoryAccessError::ViolateTransmutation { expected: Ty::F32, attempt: Ty::I32OrUsize }
            .message(),
        "attempted to transmute f32 into i32 | usize, which is not allowed in the semantics of OCaml"
    );
}

#[test]
fn addresses_are_shown_in_hexadecimal() {
    assert_eq!(Addr::new(0).text(), "0x00000000");
    assert_eq!(Addr::new(0x1f4).text(), "0x000001f4");
    assert_eq!(Addr::new(0xdead_beef).text(), "0xdeadbeef");
    assert_eq!(Addr::new(8).disp(4).inner(), 12);
    assert_eq!(Pc::new(20).text(), "0x00000014");
    let mut pc = Pc::new(20);
    pc.incr();
    assert_eq!(pc.into_inner(), 24);
    assert_eq!(pc.into_usize(), 24);
    assert_eq!(pc.into_addr(), Addr::new(24));
}
