use core_sim::common::Pc;
use core_sim::debug_symbol::{DebugSymbol, SymbolDefRaw, SymbolError, SymbolTableIndex};
use core_sim::fpu::Fpu;
use core_sim::io::EmptyIO;
use core_sim::sim::{pretty_instr, DisassembleOption, PrettyInstr, Simulator};
use core_sim::instr::DecodedInstr;

struct NoFpu;

impl Fpu for NoFpu {
    fn fadd(&self, _: u32, _: u32) -> u32 {
        0
    }
    fn fsub(&self, _: u32, _: u32) -> u32 {
        0
    }
    fn fmul(&self, _: u32, _: u32) -> u32 {
        0
    }
    fn fdiv(&self, _: u32, _: u32) -> u32 {
        0
    }
    fn fsqrt(&self, _: u32) -> u32 {
        0
    }
    fn fhalf(&self, _: u32) -> u32 {
        0
    }
    fn ffloor(&self, _: u32) -> u32 {
        0
    }
    fn ffrac(&self, _: u32) -> u32 {
        0
    }
    fn finv(&self, _: u32) -> u32 {
        0
    }
    fn fcvtsw(&self, _: i32) -> u32 {
        0
    }
    fn fcvtws(&self, _: u32) -> i32 {
        0
    }
    fn from_decimal(&self, _: &[u8]) -> u32 {
        0
    }
}

fn sym(addr: u32, label: &str) -> SymbolDefRaw {
    SymbolDefRaw { addr, label: label.to_string() }
}

fn table() -> DebugSymbol {
    let mut d = DebugSymbol::default();
    d.merge(DebugSymbol {
        globals: vec![sym(400, "counter"), sym(404, "total")],
        sorted: vec![sym(40, "loop"), sym(8, "main"), sym(100, "done"), sym(40, "again")],
    });
    d
}

#[test]
fn symbols_are_sorted_and_found() {
    let d = table();
    assert!(!d.is_empty());
    assert!(DebugSymbol::default().is_empty());
    let labels: Vec<&str> = d.sorted.iter().map(|s| s.label.as_str()).collect();
    // symbols at the same address keep their order
    assert_eq!(labels, vec!["main", "loop", "again", "done"]);
    assert_eq!(d.get_nearest_symbol_addr(8), Ok(SymbolTableIndex(0)));
    assert_eq!(d.get_nearest_symbol_addr(39), Ok(SymbolTableIndex(0)));
    assert_eq!(d.get_nearest_symbol_addr(40), Ok(SymbolTableIndex(2)));
    assert_eq!(d.get_nearest_symbol_addr(99), Ok(SymbolTableIndex(2)));
    assert_eq!(d.get_nearest_symbol_addr(100), Ok(SymbolTableIndex(3)));
    assert_eq!(d.get_nearest_symbol_addr(1_000_000), Ok(SymbolTableIndex(3)));
    assert_eq!(d.get_nearest_symbol_addr(7), Err(SymbolError::NoInformation { addr: 7 }));
    assert_eq!(
        DebugSymbol::default().get_nearest_symbol_addr(7),
        Err(SymbolError::NotProvided)
    );
    assert_eq!(d.get_exact_symbol_addr(100), Ok(SymbolTableIndex(3)));
    assert_eq!(d.get_exact_symbol_addr(40), Ok(SymbolTableIndex(2)));
    assert_eq!(d.get_exact_symbol_addr(41), Err(SymbolError::NotAvailable));
    assert_eq!(d.get_exact_symbol_addr(0), Err(SymbolError::NotAvailable));
    assert_eq!(
        DebugSymbol::default().get_exact_symbol_addr(0),
        Err(SymbolError::NotProvided)
    );
    let def = d.get_symbol(SymbolTableIndex(0));
    assert_eq!(def.raw.label, "main");
    assert_eq!(def.raw.addr(), 8);
    assert_eq!(def.size, Some(32));
    assert_eq!(d.get_symbol(SymbolTableIndex(1)).size, Some(0));
    assert_eq!(d.get_symbol(SymbolTableIndex(3)).size, None);
    assert_eq!(d.get_global("total").unwrap().addr, 404);
    assert!(d.get_global("main").is_none());
}

#[test]
fn a_later_global_of_the_same_name_counts() {
    let mut d = table();
    d.merge(DebugSymbol { globals: vec![sym(800, "counter")], sorted: vec![sym(4, "start")] });
    assert_eq!(d.get_global("counter").unwrap().addr, 800);
    assert_eq!(d.sorted[0].label, "start");
    assert_eq!(d.sorted.len(), 5);
}

#[test]
fn symbol_errors_have_their_messages() {
    assert_eq!(SymbolError::NotProvided.message(), "debug symbol not provided.");
    assert_eq!(
        SymbolError::NoInformation { addr: 7 }.message(),
        "address 0000000007 do not have any debug information"
    );
    assert_eq!(SymbolError::NotAvailable.message(), "not available");
}

fn addi(rd: u32, rs1: u32, imm: i32) -> u32 {
    ((imm as u32) & 0xfff) << 20 | rs1 << 15 | rd << 7 | 0b0010011
}

fn xori(rd: u32, rs1: u32, imm: i32) -> u32 {
    ((imm as u32) & 0xfff) << 20 | rs1 << 15 | 4 << 12 | rd << 7 | 0b0010011
}

fn pretty(bin: u32) -> String {
    pretty_instr(DecodedInstr::decode_from(bin).unwrap()).text()
}

#[test]
fn short_forms_of_instructions() {
    assert_eq!(pretty(addi(0, 0, 0)), "nop");
    assert_eq!(pretty(addi(5, 0, 0)), "mv t0, zero");
    assert_eq!(pretty(addi(5, 0, 7)), "li t0, 7");
    assert_eq!(pretty(addi(5, 0, -1)), "li t0, 4294967295");
    assert_eq!(pretty(addi(5, 6, -3)), "subi t0, t1, 3");
    assert_eq!(pretty(addi(5, 6, 3)), "addi t0, t1, 3");
    assert_eq!(pretty(addi(5, 6, 0)), "addi t0, t1, 0");
    assert_eq!(pretty(xori(5, 6, 1)), "not t0, t1");
    assert_eq!(pretty(xori(5, 6, 2)), "xori t0, t1, 2");
    assert_eq!(pretty(0), "end");
    assert!(matches!(
        pretty_instr(DecodedInstr::decode_from(addi(5, 6, 3)).unwrap()),
        PrettyInstr::Unsugared(_)
    ));
    assert!(matches!(
        pretty_instr(DecodedInstr::decode_from(addi(0, 0, 0)).unwrap()),
        PrettyInstr::Sugared(_)
    ));
}

fn image(text: &[u32]) -> Vec<u8> {
    let mut v = Vec::new();
    v.extend_from_slice(&0u32.to_le_bytes());
    v.extend_from_slice(&(text.len() as u32).to_le_bytes());
    for w in text {
        v.extend_from_slice(&w.to_le_bytes());
    }
    v
}

fn listed() -> Simulator<EmptyIO, EmptyIO, NoFpu> {
    let mut text: Vec<u32> = (0..30).map(|i| addi(5, 6, i + 1)).collect();
    text[3] = 0xFFFF_FFFF;
    text[29] = 0;
    let mut sim = Simulator::new(&image(&text), EmptyIO::new(), EmptyIO::new(), NoFpu).unwrap();
    sim.provide_dbg_symb(DebugSymbol {
        globals: vec![],
        sorted: vec![sym(80, "tail"), sym(0, "main"), sym(8, "body")],
    });
    sim
}

#[test]
fn a_listing_without_symbols_fails() {
    let sim = Simulator::new(&image(&[0]), EmptyIO::new(), EmptyIO::new(), NoFpu).unwrap();
    assert_eq!(
        sim.disassemble_near(DisassembleOption::default()).err(),
        Some(SymbolError::NotProvided)
    );
}

#[test]
fn a_listing_of_a_whole_symbol() {
    let sim = listed();
    let listing = sim.disassemble_near(DisassembleOption::default()).unwrap();
    assert!(!listing.did_omit_output());
    assert_eq!(
        listing.text(),
        "main: /* 0x00000000 */\n\
         \x20   *** 0x00000000  0x00130293    addi t0, t1, 1\n\
         \x20       0x00000004  0x00230293    addi t0, t1, 2\n"
    );
    let listing = sim
        .disassemble_near(DisassembleOption { addr: Some(Pc::new(12)), ..Default::default() })
        .unwrap();
    assert_eq!(listing.rows.len(), 18);
    assert_eq!(listing.label, "body");
    assert_eq!(listing.label_addr, Pc::new(8));
    assert_eq!(
        listing.rows[1].text(),
        "    *** 0x0000000c  0xffffffff    ???? (failed to decode)"
    );
    assert_eq!(listing.rows[0].text(), "        0x00000008  0x00330293    addi t0, t1, 3");
}

#[test]
fn a_folded_listing_leaves_out_what_is_far() {
    let sim = listed();
    let opt = DisassembleOption { addr: Some(Pc::new(40)), do_fold: true, window_size_half: Some(2) };
    let listing = sim.disassemble_near(opt).unwrap();
    assert!(listing.omitted_head);
    assert!(listing.omitted_tail);
    assert!(listing.did_omit_output());
    let addrs: Vec<u32> = listing.rows.iter().map(|r| r.addr.into_inner()).collect();
    assert_eq!(addrs, vec![32, 36, 40, 44, 48]);
    assert_eq!(
        listing.text(),
        "body: /* 0x00000008 */\n\
         \x20       ... /* omitted */\n\
         \x20       0x00000020  0x00930293    addi t0, t1, 9\n\
         \x20       0x00000024  0x00a30293    addi t0, t1, 10\n\
         \x20   *** 0x00000028  0x00b30293    addi t0, t1, 11\n\
         \x20       0x0000002c  0x00c30293    addi t0, t1, 12\n\
         \x20       0x00000030  0x00d30293    addi t0, t1, 13\n\
         \x20       ... /* omitted */\n"
    );
    // near the start of the symbol only the tail is left out
    let opt = DisassembleOption { addr: Some(Pc::new(12)), do_fold: true, window_size_half: None };
    let listing = sim.disassemble_near(opt).unwrap();
    assert!(!listing.omitted_head);
    assert!(listing.omitted_tail);
    assert_eq!(listing.rows.len(), 9);
    assert_eq!(listing.rows[0].addr, Pc::new(8));
}

#[test]
fn a_listing_stops_at_the_end_of_the_instructions() {
    let sim = listed();
    let opt = DisassembleOption { addr: Some(Pc::new(116)), do_fold: false, window_size_half: None };
    let listing = sim.disassemble_near(opt).unwrap();
    assert_eq!(listing.label, "tail");
    // the last symbol has no known extent: a window and a byte are assumed
    let addrs: Vec<u32> = listing.rows.iter().map(|r| r.addr.into_inner()).collect();
    assert_eq!(addrs, vec![80, 84, 88, 92, 96, 100, 104, 108, 112]);
    assert!(listing.rows.iter().all(|r| r.special.is_none()));
    let opt = DisassembleOption { addr: Some(Pc::new(112)), do_fold: true, window_size_half: None };
    let listing = sim.disassemble_near(opt).unwrap();
    assert!(listing.omitted_head);
    assert!(!listing.omitted_tail);
    let addrs: Vec<u32> = listing.rows.iter().map(|r| r.addr.into_inner()).collect();
    assert_eq!(addrs, vec![96, 100, 104, 108, 112]);
    assert_eq!(listing.rows[4].text(), "    *** 0x00000070  0x01d30293    addi t0, t1, 29");
    // a symbol that reaches past the instructions is cut where they end
    let mut sim = listed();
    sim.provide_dbg_symb(DebugSymbol { globals: vec![], sorted: vec![sym(400, "beyond")] });
    let opt = DisassembleOption { addr: Some(Pc::new(116)), do_fold: false, window_size_half: None };
    let listing = sim.disassemble_near(opt).unwrap();
    let addrs: Vec<u32> = listing.rows.iter().map(|r| r.addr.into_inner()).collect();
    assert_eq!(addrs, vec![80, 84, 88, 92, 96, 100, 104, 108, 112, 116]);
    assert_eq!(listing.rows[9].text(), "    *** 0x00000074  0x00000000    end");
}
