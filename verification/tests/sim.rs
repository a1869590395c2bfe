use core_sim::branch_predictor::SaturatingCounter;
use core_sim::breakpoint::BreakPoint;
use core_sim::common::{
    ExecuteMode, Pc, RunStep, SimulationOption, SpyWatchKind, SpyWatchResultKind,
};
use core_sim::cpu::{Cpu, InputError, RuntimeError};
use core_sim::fpu::Fpu;
use core_sim::io::{BinaryInput, BinaryOutput, EmptyIO};
use core_sim::isa::Dialect;
use core_sim::memory::{Addr, MemoryAccessError, SpyUnit};
use core_sim::register::{FRegId, RegId};
use core_sim::sim::{BreakReason, ControlFlow, ExitCode, Simulator};
use core_sim::ty::Ty;

struct HostFpu;

fn f(bits: u32) -> f32 {
    f32::from_bits(bits)
}

impl Fpu for HostFpu {
    fn fadd(&self, a: u32, b: u32) -> u32 {
        (f(a) + f(b)).to_bits()
    }
    fn fsub(&self, a: u32, b: u32) -> u32 {
        (f(a) - f(b)).to_bits()
    }
    fn fmul(&self, a: u32, b: u32) -> u32 {
        (f(a) * f(b)).to_bits()
    }
    fn fdiv(&self, a: u32, b: u32) -> u32 {
        (f(a) / f(b)).to_bits()
    }
    fn fsqrt(&self, a: u32) -> u32 {
        f(a).sqrt().to_bits()
    }
    fn fhalf(&self, a: u32) -> u32 {
        (f(a) * 0.5).to_bits()
    }
    fn ffloor(&self, a: u32) -> u32 {
        f(a).floor().to_bits()
    }
    fn ffrac(&self, a: u32) -> u32 {
        (f(a) - f(a).floor()).to_bits()
    }
    fn finv(&self, a: u32) -> u32 {
        (1.0 / f(a)).to_bits()
    }
    fn fcvtsw(&self, a: i32) -> u32 {
        (a as f32).to_bits()
    }
    fn fcvtws(&self, a: u32) -> i32 {
        f(a).round() as i32
    }
    fn from_decimal(&self, text: &[u8]) -> u32 {
        std::str::from_utf8(text).unwrap().parse::<f32>().unwrap().to_bits()
    }
}

fn image(data: &[u32], text: &[u32]) -> Vec<u8> {
    let mut v = Vec::new();
    v.extend_from_slice(&(data.len() as u32).to_le_bytes());
    v.extend_from_slice(&(text.len() as u32).to_le_bytes());
    for w in data.iter().chain(text.iter()) {
        v.extend_from_slice(&w.to_le_bytes());
    }
    v
}

fn reg(i: u32) -> RegId {
    RegId::try_new(i).unwrap()
}

const ZERO: u32 = 0;
const HP: u32 = 4;
const T0: u32 = 5;
const T1: u32 = 6;
const T2: u32 = 7;
const A0: u32 = 10;
const A1: u32 = 11;

fn addi(rd: u32, rs1: u32, imm: i32) -> u32 {
    ((imm as u32) & 0xfff) << 20 | rs1 << 15 | rd << 7 | 0b0010011
}

fn add(rd: u32, rs1: u32, rs2: u32) -> u32 {
    rs2 << 20 | rs1 << 15 | rd << 7 | 0b0110011
}

fn lw(rd: u32, rs1: u32, imm: i32) -> u32 {
    ((imm as u32) & 0xfff) << 20 | rs1 << 15 | 2 << 12 | rd << 7 | 0b0000011
}

fn sw(rs2: u32, rs1: u32, imm: i32) -> u32 {
    let imm = imm as u32;
    ((imm >> 5) & 0x7f) << 25 | rs2 << 20 | rs1 << 15 | 2 << 12 | (imm & 0x1f) << 7 | 0b0100011
}

fn bne(rs1: u32, rs2: u32, imm: i32) -> u32 {
    let imm = imm as u32;
    ((imm >> 12) & 1) << 31
        | ((imm >> 5) & 0x3f) << 25
        | rs2 << 20
        | rs1 << 15
        | 1 << 12
        | ((imm >> 1) & 0xf) << 8
        | ((imm >> 11) & 1) << 7
        | 0b1100011
}

fn jal(rd: u32, imm: i32) -> u32 {
    let imm = imm as u32;
    ((imm >> 20) & 1) << 31
        | ((imm >> 1) & 0x3ff) << 21
        | ((imm >> 11) & 1) << 20
        | ((imm >> 12) & 0xff) << 12
        | rd << 7
        | 0b1101111
}

fn outb(rs: u32) -> u32 {
    rs << 15 | 0b0101011
}

fn inw(rd: u32) -> u32 {
    rd << 7 | 0b0001011
}

fn finw(rd: u32) -> u32 {
    rd << 7 | 0b0001111
}

fn float_r(f7: u32, f3: u32, rd: u32, rs1: u32, rs2: u32) -> u32 {
    f7 << 25 | rs2 << 20 | rs1 << 15 | f3 << 12 | rd << 7 | 0b1010011
}

const END: u32 = 0;

fn run_opt() -> SimulationOption {
    SimulationOption::default()
}

fn simulator(data: &[u32], text: &[u32]) -> Simulator<EmptyIO, EmptyIO, HostFpu> {
    Simulator::new(&image(data, text), EmptyIO::new(), EmptyIO::new(), HostFpu).unwrap()
}

fn reason(flow: &ControlFlow) -> BreakReason {
    match flow {
        ControlFlow::Break(b) => b.reason,
        ControlFlow::Exit => panic!("the program halted"),
    }
}

fn the_loop() -> Vec<u32> {
    vec![addi(A0, ZERO, 4), addi(A0, A0, -1), bne(A0, ZERO, -4), END]
}

#[test]
fn minimal_program() {
    let mut sim = simulator(&[], &[END]);
    assert_eq!(sim.get_pc(), Pc::new(0));
    let flow = sim.single_cycle(&run_opt());
    assert!(matches!(flow, ControlFlow::Exit));
    assert_eq!(flow.exit_code(), Some(ExitCode::Success));
    assert_eq!(sim.cycle(), 1);
    assert_eq!(sim.elapsed_clocks(), 0);
    assert_eq!(sim.get_pc(), Pc::new(4));
    assert!(sim.get_error_msg().is_none());
    let stat = sim.stat().unwrap();
    assert_eq!(stat.cycle, 1);
    assert_eq!(stat.instr_file_len, 1);
}

#[test]
fn arithmetic_and_store() {
    let mut sim = simulator(
        &[],
        &[addi(T0, ZERO, 7), addi(T1, ZERO, 5), add(T2, T0, T1), sw(T2, HP, 0), END],
    );
    let hp = sim.get_reg(reg(HP)).get_unchecked();
    assert_eq!(hp, 5);
    assert_eq!(sim.get_reg(reg(2)).get_unchecked(), 249_999);
    assert_eq!(sim.get_freg(FRegId::try_new(1).unwrap()), 1.0f32.to_bits());
    assert!(matches!(sim.single_cycle(&run_opt()), ControlFlow::Exit));
    assert_eq!(sim.get_reg(reg(T2)).get_unchecked(), 12);
    assert_eq!(sim.get_reg(reg(T2)).ty, Ty::I32);
    assert_eq!(sim.get_reg(reg(1)).ty, Ty::Usize);
    assert_eq!(sim.get_mem(Addr::new(hp as usize)).unwrap().get_unchecked(), 12);
    assert_eq!(sim.cycle(), 5);
    assert_eq!(sim.get_pc(), Pc::new(20));
}

#[test]
fn branch_prediction_training() {
    let mut sim = simulator(&[], &the_loop());
    assert!(matches!(sim.single_cycle(&run_opt()), ControlFlow::Exit));
    assert_eq!(sim.cycle(), 10);
    assert_eq!(sim.get_reg(reg(A0)).get_unchecked(), 0);
    let b = sim.cpu_mut().b_stat();
    assert_eq!(b.taken_pred_taken_count, 3);
    assert_eq!(b.untaken_pred_taken_count, 1);
    assert_eq!(b.taken_pred_untaken_count, 0);
    assert_eq!(b.untaken_pred_untaken_count, 0);
    // the predictor is asked with the address behind the branch: three
    // taken branches saturate the counter, the last branch steps it back
    assert_eq!(sim.cpu_mut().predictor_state(Pc::new(12)), SaturatingCounter::WeaklyTaken);
    assert_eq!(sim.cpu_mut().predictor_state(Pc::new(8)), SaturatingCounter::WeaklyTaken);
}

#[test]
fn predictor_after_three_taken_branches() {
    let mut sim = simulator(&[], &the_loop());
    let opt = SimulationOption {
        mode: ExecuteMode::RunStep(RunStep::new(Some(7))),
        ..SimulationOption::default()
    };
    assert_eq!(reason(&sim.single_cycle(&opt)), BreakReason::StepEnded);
    assert_eq!(sim.cpu_mut().b_stat().taken_pred_taken_count, 3);
    assert_eq!(sim.cpu_mut().predictor_state(Pc::new(12)), SaturatingCounter::StronglyTaken);
}

#[test]
fn step_mode() {
    let mut sim = simulator(&[], &the_loop());
    let opt = SimulationOption {
        mode: ExecuteMode::RunStep(RunStep::new(Some(2))),
        ..SimulationOption::default()
    };
    let first = sim.single_cycle(&opt);
    assert_eq!(reason(&first), BreakReason::StepEnded);
    assert_eq!(first.exit_code(), None);
    assert_eq!(sim.cycle(), 2);
    assert_eq!(sim.get_pc(), Pc::new(8));
    let mut calls = 1;
    loop {
        calls += 1;
        match sim.single_cycle(&opt) {
            ControlFlow::Exit => break,
            ControlFlow::Break(b) => assert_eq!(b.reason, BreakReason::StepEnded),
        }
    }
    assert_eq!(sim.cycle(), 10);
    assert_eq!(calls, 5);
}

#[test]
fn step_mode_defaults_to_one_step() {
    let mut sim = simulator(&[], &the_loop());
    let opt = SimulationOption {
        mode: ExecuteMode::RunStep(RunStep::new(None)),
        ..SimulationOption::default()
    };
    assert_eq!(reason(&sim.single_cycle(&opt)), BreakReason::StepEnded);
    assert_eq!(sim.cycle(), 1);
    let none = SimulationOption {
        mode: ExecuteMode::RunStep(RunStep::new(Some(0))),
        ..SimulationOption::default()
    };
    assert_eq!(reason(&sim.single_cycle(&none)), BreakReason::StepEnded);
    assert_eq!(sim.cycle(), 1);
}

#[test]
fn breakpoint() {
    let mut sim = simulator(&[], &the_loop());
    let mut opt = SimulationOption::default();
    opt.breakpoints.insert(8, BreakPoint::new(Addr::new(8)));
    let flow = sim.single_cycle(&opt);
    assert_eq!(reason(&flow), BreakReason::BreakPoint(Addr::new(8)));
    assert_eq!(sim.get_pc(), Pc::new(8));
    assert_eq!(sim.cycle(), 2);
    // the break stands before the instruction: the next call executes it
    // without stopping on it again, and stops when it comes round
    let flow = sim.single_cycle(&opt);
    assert_eq!(reason(&flow), BreakReason::BreakPoint(Addr::new(8)));
    assert_eq!(sim.cycle(), 4);
    opt.breakpoints.remove(&8);
    assert!(matches!(sim.single_cycle(&opt), ControlFlow::Exit));
}

#[test]
fn breakpoint_on_the_first_instruction_is_passed_on_entry() {
    let mut sim = simulator(&[], &the_loop());
    let mut opt = SimulationOption::default();
    opt.breakpoints.insert(0, BreakPoint::new(Addr::new(0)));
    assert!(matches!(sim.single_cycle(&opt), ControlFlow::Exit));
}

#[test]
fn skip_until() {
    let mut sim = simulator(&[], &the_loop());
    let opt = SimulationOption {
        mode: ExecuteMode::SkipUntil { pc: Addr::new(12) },
        ..SimulationOption::default()
    };
    let flow = sim.single_cycle(&opt);
    assert_eq!(reason(&flow), BreakReason::Reached(Addr::new(12)));
    assert_eq!(sim.get_pc(), Pc::new(12));
    assert_eq!(sim.cycle(), 9);
    let here = SimulationOption {
        mode: ExecuteMode::SkipUntil { pc: Addr::new(12) },
        ..SimulationOption::default()
    };
    // the address is not looked at before the first instruction has run
    assert!(matches!(sim.single_cycle(&here), ControlFlow::Exit));
}

#[test]
fn spy() {
    let mut sim = simulator(&[0xDEAD_BEEF], &[lw(T0, ZERO, 0), sw(T0, ZERO, 100), lw(T1, ZERO, 100), END]);
    let unit = SpyUnit { addr: 100, expire_at: None };
    sim.cpu_mut().add_mem_spy(SpyWatchKind::all(), unit);
    let first = sim.single_cycle(&run_opt());
    match reason(&first) {
        BreakReason::Spy(s) => match s.kind {
            SpyWatchResultKind::Write { before, after } => {
                assert_eq!(before.get_unchecked(), 0xCCCC_CCCC);
                assert_eq!(after.get_unchecked(), 0xDEAD_BEEF);
            }
            SpyWatchResultKind::Read => panic!("a read was reported first"),
        },
        other => panic!("{other:?}"),
    }
    assert_eq!(sim.cycle(), 2);
    let second = sim.single_cycle(&run_opt());
    match reason(&second) {
        BreakReason::Spy(s) => assert_eq!(s.kind, SpyWatchResultKind::Read),
        other => panic!("{other:?}"),
    }
    assert_eq!(sim.cycle(), 3);
    assert_eq!(sim.get_reg(reg(T1)).get_unchecked(), 0xDEAD_BEEF);
    sim.cpu_mut().remove_mem_spy(SpyWatchKind::all(), unit);
    assert!(matches!(sim.single_cycle(&run_opt()), ControlFlow::Exit));
}

#[test]
fn watched_values_are_reported_at_a_break() {
    let mut sim = simulator(&[11, 22], &[addi(T0, ZERO, 7), addi(T1, ZERO, 5), END]);
    let mut opt = SimulationOption::default();
    opt.mode = ExecuteMode::RunStep(RunStep::new(Some(2)));
    opt.watchings.reg.push(reg(T0));
    opt.watchings.reg.push(reg(T1));
    opt.watchings.freg.push(FRegId::try_new(1).unwrap());
    opt.watchings.memory.push(Addr::new(1));
    opt.watchings.memory.push(Addr::new(2));
    match sim.single_cycle(&opt) {
        ControlFlow::Break(b) => {
            assert_eq!(b.reason, BreakReason::StepEnded);
            assert_eq!(b.watchings.reg_map[&5].get_unchecked(), 7);
            assert_eq!(b.watchings.reg_map[&6].get_unchecked(), 5);
            assert_eq!(b.watchings.freg_map[&1], 1.0f32.to_bits());
            assert_eq!(b.watchings.memory_map[&1].get_unchecked(), 22);
            // word 2 holds an instruction: it has no value
            assert!(!b.watchings.memory_map.contains_key(&2));
        }
        ControlFlow::Exit => panic!("the program halted"),
    }
}

#[test]
fn a_fatal_error_is_kept() {
    // jumps out of the instruction region
    let mut sim = simulator(&[], &[jal(ZERO, 400)]);
    let flow = sim.single_cycle(&run_opt());
    assert_eq!(reason(&flow), BreakReason::Failed);
    assert_eq!(flow.exit_code(), Some(ExitCode::Failure));
    assert_eq!(sim.cycle(), 1);
    assert_eq!(sim.get_error_msg().unwrap(), "pc 400 out of range for instr memory");
    let again = sim.single_cycle(&run_opt());
    assert_eq!(reason(&again), BreakReason::CannotRestart);
    assert_eq!(again.exit_code(), Some(ExitCode::Failure));
    assert_eq!(sim.cycle(), 1);
    assert_eq!(sim.get_pc(), Pc::new(400));
}

#[test]
fn running_off_the_end_of_the_program_fails() {
    let mut sim = simulator(&[], &[addi(T0, ZERO, 1)]);
    assert_eq!(reason(&sim.single_cycle(&run_opt())), BreakReason::Failed);
    assert_eq!(sim.get_error_msg().unwrap(), "pc 4 out of range for instr memory");
    assert_eq!(sim.get_pc(), Pc::new(4));
}

#[test]
fn an_invalid_word_fails() {
    let mut sim = simulator(&[], &[0xFFFF_FFFF]);
    assert_eq!(reason(&sim.single_cycle(&run_opt())), BreakReason::Failed);
    assert_eq!(sim.get_error_msg().unwrap(), "invalid opcode found: `0xffffffff`");
    assert_eq!(sim.get_pc(), Pc::new(4));
    assert_eq!(sim.cycle(), 0);
}

#[test]
fn a_load_from_the_instruction_region_fails() {
    let mut sim = simulator(&[7], &[lw(T0, ZERO, 1), END]);
    assert_eq!(reason(&sim.single_cycle(&run_opt())), BreakReason::Failed);
    assert_eq!(sim.get_error_msg().unwrap(), "address 1 out of range for memory");
    let mut sim = simulator(&[7], &[lw(T0, ZERO, 2), END]);
    assert_eq!(reason(&sim.single_cycle(&run_opt())), BreakReason::Failed);
    let mut sim = simulator(&[7], &[lw(T0, ZERO, 3), END]);
    assert!(matches!(sim.single_cycle(&run_opt()), ControlFlow::Exit));
    assert_eq!(sim.get_reg(reg(T0)).get_unchecked(), 0xCCCC_CCCC);
}

#[test]
fn input_and_output() {
    let program = [inw(A0), outb(A0), finw(1), inw(A1), END];
    let input = BinaryInput::new(vec![0x41, 0x42, 0, 0, 0, 0, 0x80, 0x3f]);
    let mut sim =
        Simulator::new(&image(&[], &program), input, BinaryOutput::new(), HostFpu).unwrap();
    // the third word of the input is missing
    assert_eq!(reason(&sim.single_cycle(&run_opt())), BreakReason::Failed);
    assert_eq!(sim.get_error_msg().unwrap(), "input exhausted");
    assert_eq!(sim.get_reg(reg(A0)).get_unchecked(), 0x4241);
    assert_eq!(sim.get_freg(FRegId::try_new(1).unwrap()), 1.0f32.to_bits());
    assert_eq!(sim.cycle(), 3);
    assert_eq!(sim.into_output().cpu_output.into_inner(), vec![0x41]);
}

#[test]
fn a_device_that_is_not_there_fails() {
    let mut sim = simulator(&[], &[outb(A0), END]);
    assert_eq!(reason(&sim.single_cycle(&run_opt())), BreakReason::Failed);
    assert_eq!(sim.get_error_msg().unwrap(), "outb called");
    let mut sim = simulator(&[], &[inw(A0), END]);
    assert_eq!(reason(&sim.single_cycle(&run_opt())), BreakReason::Failed);
    assert_eq!(sim.get_error_msg().unwrap(), "inw called");
    let mut sim = simulator(&[], &[finw(2), END]);
    assert_eq!(reason(&sim.single_cycle(&run_opt())), BreakReason::Failed);
    assert_eq!(sim.get_error_msg().unwrap(), "finw called");
}

#[test]
fn integer_to_float_and_back() {
    // fitof ft2, a0; fftoi a1, ft2
    let program = [lw(A0, ZERO, 0), float_r(0b0100110, 0, 2, A0, 0), float_r(0b1000101, 0, A1, 2, 0), END];
    for x in [0i32, 1, -1, 7, -200, 1 << 24, -(1 << 24), (1 << 24) - 1, 65_536, -12_345_678] {
        let mut sim = simulator(&[x as u32], &program);
        assert!(matches!(sim.single_cycle(&run_opt()), ControlFlow::Exit));
        assert_eq!(sim.get_reg(reg(A1)).get_unchecked(), x as u32, "{x}");
        assert_eq!(sim.get_freg(FRegId::try_new(2).unwrap()), (x as f32).to_bits());
    }
}

#[test]
fn float_arithmetic_goes_through_the_backend() {
    // fadd ft3, fone, fone; fmul ft4, ft3, ft3; fsgnjn ft5, ft4, fone; flt a0, ft5, ft4
    let program = [
        float_r(0b0000000, 0, 3, 1, 1),
        float_r(0b0001000, 0, 4, 3, 3),
        float_r(0b0011100, 0, 5, 4, 1),
        float_r(0b1010001, 1, A0, 5, 4),
        END,
    ];
    let mut sim = simulator(&[], &program);
    assert!(matches!(sim.single_cycle(&run_opt()), ControlFlow::Exit));
    assert_eq!(sim.get_freg(FRegId::try_new(3).unwrap()), 2.0f32.to_bits());
    assert_eq!(sim.get_freg(FRegId::try_new(4).unwrap()), 4.0f32.to_bits());
    assert_eq!(sim.get_freg(FRegId::try_new(5).unwrap()), (-4.0f32).to_bits());
    assert_eq!(sim.get_reg(reg(A0)).get_unchecked(), 1);
}

#[test]
fn the_program_counter_advances_by_four_or_jumps() {
    let mut sim = simulator(&[], &[jal(1, 8), END, addi(T0, ZERO, 1), jal(ZERO, -8)]);
    let step = SimulationOption {
        mode: ExecuteMode::RunStep(RunStep::new(Some(1))),
        ..SimulationOption::default()
    };
    let mut seen = vec![sim.get_pc().into_inner()];
    loop {
        let flow = sim.single_cycle(&step);
        seen.push(sim.get_pc().into_inner());
        if matches!(flow, ControlFlow::Exit) {
            break;
        }
    }
    assert_eq!(seen, vec![0, 8, 12, 4, 8]);
    assert_eq!(sim.get_reg(reg(1)).get_unchecked(), 4);
}

#[test]
fn cycles_of_the_pipeline() {
    // no hazards, no memory: one cycle each, none for the halt
    let mut sim = simulator(&[], &[addi(T0, ZERO, 7), addi(T1, ZERO, 5), END]);
    assert!(matches!(sim.single_cycle(&run_opt()), ControlFlow::Exit));
    assert_eq!(sim.elapsed_clocks(), 2);
    // a load from on-chip memory is ready at write-back: its user stalls twice
    let mut sim = simulator(&[3], &[lw(T0, ZERO, 0), add(T1, T0, T0), END]);
    assert!(matches!(sim.single_cycle(&run_opt()), ControlFlow::Exit));
    assert_eq!(sim.elapsed_clocks(), 1 + 3);
    // a store to on-chip memory takes one cycle
    let mut sim = simulator(&[], &[addi(T0, ZERO, 1), sw(T0, HP, 2047), add(T1, ZERO, ZERO), END]);
    assert!(matches!(sim.single_cycle(&run_opt()), ControlFlow::Exit));
    assert_eq!(sim.elapsed_clocks(), 3);
    assert_eq!(sim.cpu_mut().c_stat().hit_count + sim.cpu_mut().c_stat().miss_count, 0);
    // a taken branch that was predicted taken costs no flush; the last,
    // untaken one was predicted taken and costs two bubbles
    let mut sim = simulator(&[], &the_loop());
    assert!(matches!(sim.single_cycle(&run_opt()), ControlFlow::Exit));
    assert_eq!(sim.elapsed_clocks(), 9 + 2);
}

#[test]
fn stalls_and_flushes_of_the_pipeline() {
    // the load is two slots ahead of its user: one cycle of stall
    let mut sim = simulator(&[3], &[lw(T0, ZERO, 0), addi(T1, ZERO, 1), add(T2, T0, T0), END]);
    assert!(matches!(sim.single_cycle(&run_opt()), ControlFlow::Exit));
    assert_eq!(sim.elapsed_clocks(), 1 + 1 + 2);
    assert_eq!(sim.get_reg(reg(T2)).get_unchecked(), 6);
    // the load is three slots ahead: no stall
    let mut sim = simulator(
        &[3],
        &[lw(T0, ZERO, 0), addi(T1, ZERO, 1), addi(T1, ZERO, 1), add(T2, T0, T0), END],
    );
    assert!(matches!(sim.single_cycle(&run_opt()), ControlFlow::Exit));
    assert_eq!(sim.elapsed_clocks(), 4);
    // a float sum takes five cycles and is ready a stage late: its user
    // stalls once, and a float product takes two cycles
    let mut sim = simulator(&[], &[float_r(0b0000000, 0, 3, 1, 1), float_r(0b0001000, 0, 4, 3, 3), END]);
    assert!(matches!(sim.single_cycle(&run_opt()), ControlFlow::Exit));
    assert_eq!(sim.elapsed_clocks(), 5 + 1 + 2);
    // an indirect jump always flushes: two bubbles
    let jalr = 8 << 20 | 0b1100111;
    let mut sim = simulator(&[], &[jalr, END, END]);
    assert!(matches!(sim.single_cycle(&run_opt()), ControlFlow::Exit));
    assert_eq!(sim.elapsed_clocks(), 1 + 2);
    assert_eq!(sim.get_pc(), Pc::new(12));
    // a direct jump does not
    let mut sim = simulator(&[], &[jal(ZERO, 8), END, END]);
    assert!(matches!(sim.single_cycle(&run_opt()), ControlFlow::Exit));
    assert_eq!(sim.elapsed_clocks(), 1);
}

fn lui_like(rd: u32, value: u32) -> Vec<u32> {
    // builds `value` in `rd` from twelve-bit pieces: addi, then shifts and adds
    let mut v = vec![addi(rd, ZERO, ((value >> 22) & 0x3ff) as i32)];
    for shift in [11u32, 11] {
        v.push(((shift) << 20) | rd << 15 | 1 << 12 | rd << 7 | 0b0010011);
        let piece = (value >> if v.len() == 2 { 11 } else { 0 }) & 0x7ff;
        v.push(addi(rd, rd, piece as i32));
    }
    v
}

#[test]
fn memory_behind_on_chip_memory_goes_through_the_cache() {
    // word 20000 lies behind the on-chip memory
    let mut program = lui_like(T0, 20000);
    program.extend([sw(T0, T0, 0), lw(T1, T0, 0), lw(T2, T0, 0), END]);
    let mut sim = simulator(&[], &program);
    assert!(matches!(sim.single_cycle(&run_opt()), ControlFlow::Exit));
    assert_eq!(sim.get_reg(reg(T0)).get_unchecked(), 20000);
    assert_eq!(sim.get_reg(reg(T2)).get_unchecked(), 20000);
    let c = sim.cpu_mut().c_stat();
    // line 5000 holds tag 0 from the start: all three accesses hit
    assert_eq!((c.hit_count, c.miss_count), (3, 0));
    // five instructions of one cycle and the store; each load waits for
    // the two cycles that the access before it takes in memory
    assert_eq!(sim.elapsed_clocks(), 5 + 1 + 2 + 2);
}

#[test]
fn a_miss_of_the_cache_costs_ninety_cycles() {
    // word 20000 + 4 * 16384 shares its line with no word used before, but
    // has tag 1
    let mut program = lui_like(T0, 20000 + 4 * 16384);
    program.extend([sw(T0, T0, 0), add(T1, ZERO, ZERO), END]);
    let mut sim = simulator(&[], &program);
    assert!(matches!(sim.single_cycle(&run_opt()), ControlFlow::Exit));
    let c = sim.cpu_mut().c_stat();
    assert_eq!((c.hit_count, c.miss_count), (0, 1));
    assert_eq!(sim.elapsed_clocks(), 5 + 1 + 90);
}

#[test]
fn traces_are_collected() {
    let mut sim = simulator(&[], &[addi(T0, ZERO, 7), sw(T0, HP, 0), END]);
    let opt = SimulationOption { do_trace: true, ..SimulationOption::default() };
    assert!(matches!(sim.single_cycle(&opt), ControlFlow::Exit));
    let lines: Vec<String> = sim.take_traces().iter().map(|t| t.text()).collect();
    assert_eq!(
        lines,
        vec![
            "#0000000001, pc: 0x00000000,\tinstr: 0x00700293\taddi t0, zero, 7",
            "#0000000002, pc: 0x00000004,\tinstr: 0x00522023\tsw t0, 0(hp)",
        ]
    );
    assert!(sim.take_traces().is_empty());
}

#[test]
fn a_bad_image_is_refused() {
    let short = [0u8; 7];
    assert_eq!(
        Simulator::new(&short, EmptyIO::new(), EmptyIO::new(), HostFpu).err(),
        Some(InputError::BadImage)
    );
    let huge = image(&[], &[]);
    let mut huge_text = huge.clone();
    huge_text[4..8].copy_from_slice(&250_001u32.to_le_bytes());
    assert_eq!(
        Simulator::new(&huge_text, EmptyIO::new(), EmptyIO::new(), HostFpu).err(),
        Some(InputError::BadImage)
    );
    let mut full = huge.clone();
    full[4..8].copy_from_slice(&250_000u32.to_le_bytes());
    assert!(Simulator::new(&full, EmptyIO::new(), EmptyIO::new(), HostFpu).is_ok());
    let long = vec![0u8; 8 + 1_000_001];
    assert_eq!(
        Simulator::new(&long, EmptyIO::new(), EmptyIO::new(), HostFpu).err(),
        Some(InputError::BadImage)
    );
}

#[test]
fn the_second_encoding_runs() {
    // addi t0, zero, 7; addi t1, zero, 5; max t2, t0, t1; end
    fn word(op: u32, rd: u32, f3: u32, rs1: u32, rs2: u32, hi: u32, sign: u32) -> u32 {
        sign << 31 | hi << 25 | rs2 << 19 | rs1 << 13 | f3 << 10 | rd << 4 | op
    }
    let program = [
        word(0b0010, T0, 0, 0, 7, 0, 0),
        word(0b0010, T1, 0, 0, 5, 0, 0),
        word(0b0000, T2, 3, T0, T1, 0, 0),
        0x8000_0000,
    ];
    let mut sim = Simulator::with_dialect(
        &image(&[], &program),
        EmptyIO::new(),
        EmptyIO::new(),
        HostFpu,
        Dialect::V2,
    )
    .unwrap();
    assert!(matches!(sim.single_cycle(&run_opt()), ControlFlow::Exit));
    assert_eq!(sim.get_reg(reg(T2)).get_unchecked(), 7);
    assert_eq!(sim.cpu_mut().dialect(), Dialect::V2);
}

#[test]
fn the_processor_can_be_driven_directly() {
    let mut cpu = Cpu::new(
        &image(&[], &[addi(T0, ZERO, 7), END]),
        EmptyIO::new(),
        EmptyIO::new(),
        HostFpu,
        Dialect::V1,
    )
    .unwrap();
    let r = cpu.cycle_one_full(true).unwrap();
    assert_eq!(r.flow, core_sim::cpu::ControlFlow::Continue);
    assert_eq!(r.cycles, 1);
    assert_eq!(r.trace.unwrap().pc, Pc::new(0));
    assert_eq!(r.trace.unwrap().undecoded_instr, addi(T0, ZERO, 7));
    assert_eq!(cpu.get_reg(reg(T0)), 7);
    assert_eq!(cpu.executed(8), 1);
    let r = cpu.cycle_one_full(false).unwrap();
    assert_eq!(r.flow, core_sim::cpu::ControlFlow::Exit);
    assert!(r.trace.is_none());
    assert_eq!(cpu.retired(), 2);
    assert_eq!(
        cpu.cycle_one_full(false).unwrap_err(),
        RuntimeError::MemoryAccessError(MemoryAccessError::PcOutOfBounds { pc_address: 8 })
    );
    assert_eq!(cpu.get_pc_addr(), Addr::new(8));
}
