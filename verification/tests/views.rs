use core_sim::common::{Spy, SpyKind, SpyWatchKind};
use core_sim::isa::Dialect;
use core_sim::memory::{MemoryRegionCount, MemoryStat, SpyUnit};
use core_sim::reg_file::{MemoryRegionStat, RegFile, ShowRegFileKind};
use core_sim::register::{FRegId, RegId};
use core_sim::stat::{
    chunk_size, line_width, BranchStat, BranchStatView, CacheStat, CacheStatView,
    HeapStackStatView, InstrStat, InstrStatView, MemoryStatView, RegFileAllStatView, StatView,
    Width,
};
use core_sim::ty::{Ty, Typed};

#[test]
fn lines_are_as_wide_as_their_items() {
    assert_eq!(line_width(21, 1), 23);
    assert_eq!(line_width(21, 3), 3 * 21 + 2 * 2 + 2);
    assert_eq!(line_width(31, 2), 66);
    assert_eq!(InstrStatView::width_by_chunk_size(3), 69);
    assert_eq!(RegFileAllStatView::width_by_chunk_size(2), 66);
    assert_eq!(chunk_size(21, 120), 5);
    assert_eq!(chunk_size(21, 115), 5);
    assert_eq!(chunk_size(21, 114), 4);
    assert_eq!(chunk_size(21, 46), 2);
    assert_eq!(chunk_size(21, 45), 1);
    assert_eq!(chunk_size(21, 0), 1);
    assert_eq!(chunk_size(31, 100), 3);
}

#[test]
fn memory_statistics_as_text() {
    let stat = MemoryStat {
        write: MemoryRegionCount { data_section: 1, heap: 22, stack: 333 },
        read: MemoryRegionCount { data_section: 4, heap: 55, stack: 12345678901 },
    };
    let v = MemoryStatView::new(&stat);
    assert_eq!(v.header(), "access count of memory region (format: `# of read / # of write`)");
    assert_eq!(v.width(), 40);
    assert_eq!(
        v.text(),
        "   data section:          4 /          1\n\
         \x20          heap:         55 /         22\n\
         \x20         stack:12345678901 /        333\n"
    );
    let region = MemoryRegionStat { hp_min: 10, hp_max: 110, sp_min: 249_000, sp_max: 249_999 };
    let v = HeapStackStatView::new(&region);
    assert_eq!(v.header(), "used memory");
    assert_eq!(v.width(), 24);
    assert_eq!(v.text(), "  heap:        400 bytes\n  stack:      3996 bytes\n");
}

#[test]
fn instruction_statistics_as_text() {
    let mut stat = InstrStat::new();
    stat.encounter(0);
    stat.encounter(8);
    stat.encounter(8);
    stat.encounter(122);
    let v = InstrStatView::new(&stat, 50, Dialect::V1);
    assert_eq!(v.header(), "executed instructions");
    assert_eq!(v.width(), 46);
    let text = v.text();
    let lines: Vec<&str> = text.lines().collect();
    assert_eq!(lines.len(), 24);
    assert_eq!(lines[0], "       add:           1,      sub:           0");
    assert_eq!(lines[4], "      addi:           2,     xori:           0");
    assert_eq!(lines[23], "       fsw:           0,      end:           1");
    let v = InstrStatView::new(&stat, 50, Dialect::V2);
    assert_eq!(v.text().lines().count(), 28);
    assert_eq!(v.text().lines().next().unwrap(), "       add:           1,      xor:           0");
    let v = InstrStatView::new(&stat, 0, Dialect::V1);
    assert_eq!(v.text().lines().count(), 48);
}

#[test]
fn register_statistics_as_text() {
    let mut r = RegFile::new();
    let t0 = RegId::try_new(5).unwrap();
    r.set(t0, 1);
    r.get(t0);
    r.get(t0);
    r.set_f(FRegId::try_new(1).unwrap(), 7);
    let stat = r.all_stat();
    let v = RegFileAllStatView::new(&stat, 70, Dialect::V1);
    assert_eq!(v.header(), "register load (format: `# of read / # of write`)");
    assert_eq!(v.width(), 66);
    let text = v.text();
    let lines: Vec<&str> = text.lines().collect();
    assert_eq!(lines.len(), 32);
    assert_eq!(
        lines[0],
        "    zero:          0 /          0,     ra:          0 /          0"
    );
    assert_eq!(
        lines[2],
        "      hp:          0 /          0,     t0:          2 /          1"
    );
    assert_eq!(
        lines[16],
        "   fzero:          0 /          0,   fone:          0 /          1"
    );
    assert_eq!(RegFileAllStatView::new(&stat, 70, Dialect::V2).text().lines().count(), 64);
}

#[test]
fn branch_and_cache_views() {
    let b = BranchStat {
        taken_pred_taken_count: 3,
        taken_pred_untaken_count: 0,
        untaken_pred_taken_count: 1,
        untaken_pred_untaken_count: 0,
    };
    let v = BranchStatView::new(&b);
    assert_eq!(v.header(), "branch count");
    assert_eq!(v.width(), 33);
    assert_eq!(v.stat(), b);
    let c = CacheStat { hit_count: 2, miss_count: 1 };
    let v = CacheStatView::new(&c);
    assert_eq!(v.header(), "cache stat");
    assert_eq!(v.width(), 33);
    assert_eq!(v.stat(), c);
}

#[test]
fn a_listing_of_the_registers() {
    let mut r = RegFile::new();
    r.set(RegId::try_new(1).unwrap(), 4096);
    r.set(RegId::try_new(31).unwrap(), 4294967295);
    r.set_f(FRegId::try_new(1).unwrap(), 1.0f32.to_bits());
    let v = r.get_view(ShowRegFileKind::RegFileAll, 2, Dialect::V1);
    assert_eq!(v.float_bits(1), 1.0f32.to_bits());
    let floats: Vec<String> =
        (0..32).map(|i| format!("{}", f32::from_bits(v.float_bits(i)))).collect();
    let text = v.text(&floats);
    let lines: Vec<&str> = text.lines().collect();
    assert_eq!(lines.len(), 1 + 16 + 16 + 1);
    assert_eq!(lines[0], "RegFile (All) {");
    assert_eq!(lines[1], "    zero:                0,     ra:             4096,");
    assert_eq!(lines[16], "      t5:                0,     t6:       4294967295,");
    assert_eq!(lines[17], "   fzero:                0,   fone:                1,");
    assert_eq!(lines[33], "}");
    assert!(text.ends_with(",\n}"));
    let v = r.get_view(ShowRegFileKind::RegFileI, 3, Dialect::V1);
    let text = v.text(&floats);
    assert_eq!(text.lines().count(), 1 + 11 + 1);
    assert!(text.starts_with("RegFile (Integer) {\n    zero:                0,     ra:"));
    assert_eq!(text.lines().nth(11).unwrap(), "      t5:                0,     t6:       4294967295,");
    let v = r.get_view(ShowRegFileKind::RegFileF, 32, Dialect::V1);
    let text = v.text(&floats);
    assert_eq!(text.lines().count(), 3);
    assert!(text.starts_with("RegFile (Float) {\n   fzero:                0,   fone:                1,    ft2:"));
}

#[test]
fn typed_values_as_text() {
    assert_eq!(0xFFFF_FFFFu32.typed(Ty::I32).text("nan"), "-1");
    assert_eq!(0x1f4u32.typed(Ty::Usize).text("0"), "0x000001f4");
    assert_eq!(0xFFFF_FFFCu32.typed(Ty::I32OrUsize).text("nan"), "-4 (0xfffffffc as addr)");
    assert_eq!(0x3f80_0000u32.typed(Ty::F32).text("1"), "1");
    assert_eq!(
        0x3f80_0000u32.typed(Ty::Unknown).text("1"),
        "1065353216 (0x3f800000 as addr) (1 as f32)"
    );
}

#[test]
fn spies_as_text() {
    let unit = SpyUnit { addr: 100, expire_at: None };
    let spy = Spy { kind: SpyWatchKind::all(), target: SpyKind::Memory(unit) };
    assert_eq!(spy.text(), "read/write of M[0x00000064]");
    assert_eq!(SpyKind::RegisterI(RegId::try_new(2).unwrap()).text(), "sp");
    assert_eq!(SpyKind::RegisterF(FRegId::try_new(2).unwrap()).text(), "ft2");
    let spy = Spy {
        kind: SpyWatchKind::write(),
        target: SpyKind::RegisterI(RegId::try_new(10).unwrap()),
    };
    assert_eq!(spy.text(), "write of a0");
}
