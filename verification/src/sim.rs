//! The simulator: runs the processor as the debugger asks, stops at
//! breakpoints and spies, reports watched values, and remembers the first
//! fatal error.

use crate::breakpoint::BreakPoint;
use crate::common::{ExecuteMode, Pc, SimulationOption, SpyResult, Watchings};
use crate::cpu::{
    Cpu, CpuState, ExecutionTrace, InputError, RuntimeError, MAX_CYCLES_PER_INSTR,
};
use crate::debug_symbol::DebugSymbol;
use crate::fpu::Fpu;
use crate::io::{Input, IoError, Output};
use crate::debug_symbol::SymbolError;
use crate::decode_instr_2nd::spec_decode_in;
use crate::execute::{signed, spec_signed};
use crate::instr::{
    join_2, join_3, text_2, text_3, uimm_string, uimm_text, DecodedInstr, IInstr, Instr,
};
use crate::isa::Dialect;
use crate::memory::{word_at, Addr, MemoryAccessError, MemoryView};
use crate::register::abi_name;
use crate::text::{push_right_aligned, push_signed, right_aligned, signed_text, spaces};
use crate::reg_file::{RegFileState, RegFileView, ShowRegFileKind};
use crate::register::{FRegId, RegId};
use crate::text::{addr_text, decimal_text, push_addr, push_decimal, push_right_aligned_zero, right_aligned_zero};
use crate::ty::{Ty, Typed, TypedU32};
use std::collections::HashMap;
use vstd::prelude::*;
use vstd::string::*;

verus! {

/// Clock frequency of the processor in cycles per second.
pub const CPU_CLOCK_FREQ: usize = 183_333_333;

/// Speed of the serial line of the processor in bits per second.
pub const CPU_BAUDRATE: usize = 2_304_000;

/// Why the simulator stopped without the program having halted.
#[derive(Debug, Clone, Copy, PartialEq, Eq, Structural)]
pub enum BreakReason {
    /// An earlier call failed; the simulator does not run any more.
    CannotRestart,
    /// This call failed; the error is kept.
    Failed,
    /// The program counter reached the address that was to be run to.
    Reached(Addr),
    /// The instructions that were asked for have been executed.
    StepEnded,
    /// The program counter stands on a breakpoint.
    BreakPoint(Addr),
    /// A spy saw an access.
    Spy(SpyResult),
}

impl BreakReason {
    /// The reason that the simulator gives for a break of the processor.
    pub fn from_cpu(v: crate::cpu::BreakReason) -> (r: Self)
        ensures
            r == (match v {
                crate::cpu::BreakReason::Spy(s) => BreakReason::Spy(s),
            }),
    {
        match v {
            crate::cpu::BreakReason::Spy(s) => BreakReason::Spy(s),
        }
    }
}

/// How a call of the simulator ended, before the watched values are read.
#[derive(Debug, Clone, Copy, PartialEq, Eq, Structural)]
pub enum SimFlow {
    Break(BreakReason),
    Exit,
}

/// The values of the watched registers and memory words at a break, by
/// register index and by word address. Float registers give bit patterns.
pub struct WatchingValues {
    pub reg_map: HashMap<usize, TypedU32>,
    pub freg_map: HashMap<usize, u32>,
    pub memory_map: HashMap<usize, TypedU32>,
}

/// A break: why, and what the watched values are.
pub struct OnBreak {
    pub watchings: WatchingValues,
    pub reason: BreakReason,
}

/// How a call of the simulator ended.
pub enum ControlFlow {
    Break(OnBreak),
    Exit,
}

#[derive(Debug, Clone, Copy, PartialEq, Eq, Structural)]
pub enum ExitCode {
    Success,
    Failure,
}

impl ExitCode {
    #[must_use]
    pub fn is_success(&self) -> (b: bool)
        ensures
            b == (*self == ExitCode::Success),
    {
        match self {
            ExitCode::Success => true,
            ExitCode::Failure => false,
        }
    }
}

impl ControlFlow {
    /// How the host should exit: with success after a halt, with failure
    /// after an error, not at all after any other break.
    pub fn exit_code(&self) -> (c: Option<ExitCode>)
        ensures
            c == (match self {
                ControlFlow::Exit => Some(ExitCode::Success),
                ControlFlow::Break(b) => match b.reason {
                    BreakReason::CannotRestart => Some(ExitCode::Failure),
                    BreakReason::Failed => Some(ExitCode::Failure),
                    _ => None,
                },
            }),
    {
        match self {
            ControlFlow::Exit => Some(ExitCode::Success),
            ControlFlow::Break(b) => match b.reason {
                BreakReason::CannotRestart => Some(ExitCode::Failure),
                BreakReason::Failed => Some(ExitCode::Failure),
                _ => None,
            },
        }
    }
}

/// What is left of a simulator when it is taken apart.
pub struct SimOutput<O> {
    pub cpu_output: O,
}

/// An instruction that was executed while the trace was on, with the
/// number of its cycle.
#[derive(Debug, Clone, Copy)]
pub struct TraceEntry {
    pub cycle: usize,
    pub trace: ExecutionTrace,
}

impl TraceEntry {
    pub open spec fn spec_text(self) -> Seq<char> {
        "#"@ + right_aligned_zero(decimal_text(self.cycle as nat), 10) + ", pc: "@ + addr_text(
            self.trace.pc@ as nat,
        ) + ",\tinstr: "@ + addr_text(self.trace.undecoded_instr as nat) + "\t"@
            + self.trace.decoded_instr.spec_text()
    }

    /// The line of the trace: the cycle in ten digits, the address and the
    /// word of the instruction in hexadecimal, and the instruction.
    pub fn text(&self) -> (s: String)
        ensures
            s@ == self.spec_text(),
    {
        let mut s = String::from_str("#");
        let mut digits = String::new();
        push_decimal(&mut digits, self.cycle as u64);
        assert(digits@ =~= decimal_text(self.cycle as nat));
        push_right_aligned_zero(&mut s, digits.as_str(), 10);
        s.append(", pc: ");
        push_addr(&mut s, self.trace.pc.into_inner() as u64);
        s.append(",\tinstr: ");
        push_addr(&mut s, self.trace.undecoded_instr as u64);
        s.append("\t");
        let instr = self.trace.decoded_instr.text();
        s.append(instr.as_str());
        s
    }
}

/// What a simulator holds, as plain values.
pub struct SimState {
    pub cpu: CpuState,
    /// Instructions executed.
    pub cycle: usize,
    /// Cycles that the pipeline took.
    pub elapsed_clocks: usize,
    /// The first fatal error.
    pub fatal: Option<RuntimeError>,
    /// The instructions traced since the trace was last taken.
    pub traces: Seq<TraceEntry>,
}

/// One turn of the loop of the simulator: it goes on, or it stops.
pub enum SimStep {
    Go(SimState),
    Stop(SimState, SimFlow),
}

impl SimState {
    /// Whether a counter is full, so that no further instruction can be counted.
    pub open spec fn exhausted(self) -> bool {
        self.cycle == usize::MAX || self.elapsed_clocks > usize::MAX - MAX_CYCLES_PER_INSTR
            || self.cpu.retired == usize::MAX
    }

    /// One turn of the loop, the `done`-th of this call, where `outside` is
    /// what the float backend or a device answers.
    ///
    /// In step mode the loop stops once the steps are done; in skip mode it
    /// stops when the program counter is the address to run to, but not
    /// before the first instruction. Then, again not before the first
    /// instruction, a breakpoint at the program counter stops it. Otherwise
    /// the processor runs one instruction: an error is kept and stops the
    /// loop, and so do a halt and a spy.
    #[verifier::opaque]
    pub open spec fn iterate(
        self,
        opt: SimulationOption,
        done: nat,
        outside: Result<u32, IoError>,
    ) -> SimStep {
        let pc = self.cpu.pc as usize;
        let steps_done = match opt.mode {
            ExecuteMode::RunStep(r) => done == r.spec_get_step(),
            _ => false,
        };
        let reached = match opt.mode {
            ExecuteMode::SkipUntil { pc: target } => done > 0 && target@ == pc,
            _ => false,
        };
        if steps_done {
            SimStep::Stop(self, SimFlow::Break(BreakReason::StepEnded))
        } else if reached {
            SimStep::Stop(self, SimFlow::Break(BreakReason::Reached(Addr(pc))))
        } else if done > 0 && opt.breakpoints@.contains_key(pc) {
            SimStep::Stop(self, SimFlow::Break(BreakReason::BreakPoint(opt.breakpoints@[pc].addr)))
        } else if self.exhausted() {
            SimStep::Stop(
                SimState { fatal: Some(RuntimeError::CounterExhausted), ..self },
                SimFlow::Break(BreakReason::Failed),
            )
        } else {
            let step = self.cpu.cycle(opt.do_trace, outside);
            match step.result {
                Err(e) => SimStep::Stop(
                    SimState { cpu: step.state, fatal: Some(e), ..self },
                    SimFlow::Break(BreakReason::Failed),
                ),
                Ok(res) => {
                    let next = SimState {
                        cpu: step.state,
                        cycle: (self.cycle + 1) as usize,
                        elapsed_clocks: (self.elapsed_clocks + res.cycles) as usize,
                        ..self
                    };
                    match res.flow {
                        crate::cpu::ControlFlow::Continue => SimStep::Go(
                            SimState {
                                traces: match res.trace {
                                    Some(trace) => self.traces.push(
                                        TraceEntry { cycle: next.cycle, trace },
                                    ),
                                    None => self.traces,
                                },
                                ..next
                            },
                        ),
                        crate::cpu::ControlFlow::Break(crate::cpu::BreakReason::Spy(s)) =>
                            SimStep::Stop(next, SimFlow::Break(BreakReason::Spy(s))),
                        crate::cpu::ControlFlow::Exit => SimStep::Stop(next, SimFlow::Exit),
                    }
                },
            }
        }
    }

    /// The loop of the simulator from its `done`-th turn on, where
    /// `answers` holds what the outside answers in each turn. `None` when
    /// the loop is still running after the last answer.
    pub open spec fn run(
        self,
        opt: SimulationOption,
        done: nat,
        answers: Seq<Result<u32, IoError>>,
    ) -> Option<(SimState, SimFlow)>
        decreases answers.len(),
    {
        if answers.len() == 0 {
            None
        } else {
            match self.iterate(opt, done, answers[0]) {
                SimStep::Stop(s, flow) => Some((s, flow)),
                SimStep::Go(s) => s.run(opt, done + 1, answers.skip(1)),
            }
        }
    }

    /// One call of the simulator. After a fatal error it does not run.
    pub open spec fn single_cycle(
        self,
        opt: SimulationOption,
        answers: Seq<Result<u32, IoError>>,
    ) -> Option<(SimState, SimFlow)> {
        if self.fatal is Some {
            Some((self, SimFlow::Break(BreakReason::CannotRestart)))
        } else {
            self.run(opt, 0, answers)
        }
    }
}

/// Reading the watched integer registers in turn: the register file with
/// the reads counted, and the values by register index.
pub open spec fn spec_gather_regs(regs: RegFileState, ids: Seq<RegId>) -> (
    RegFileState,
    Map<usize, TypedU32>,
)
    decreases ids.len(),
{
    if ids.len() == 0 {
        (regs, Map::empty())
    } else {
        let (r, m) = spec_gather_regs(regs, ids.drop_last());
        let id = ids.last();
        (
            r.after_get(id@),
            m.insert(
                id@ as usize,
                TypedU32 {
                    ty: if id@ == 1 {
                        Ty::Usize
                    } else {
                        Ty::I32
                    },
                    value: r.ints[id@],
                },
            ),
        )
    }
}

/// Reading the watched float registers in turn.
pub open spec fn spec_gather_fregs(regs: RegFileState, ids: Seq<FRegId>) -> (
    RegFileState,
    Map<usize, u32>,
)
    decreases ids.len(),
{
    if ids.len() == 0 {
        (regs, Map::empty())
    } else {
        let (r, m) = spec_gather_fregs(regs, ids.drop_last());
        let id = ids.last();
        (r.after_get_f(id@), m.insert(id@ as usize, r.floats[id@]))
    }
}

/// Reading the watched memory words in turn. A word that cannot be read
/// has no value.
pub open spec fn spec_gather_mem(mem: MemoryView, addrs: Seq<Addr>) -> (
    MemoryView,
    Map<usize, TypedU32>,
)
    decreases addrs.len(),
{
    if addrs.len() == 0 {
        (mem, Map::empty())
    } else {
        let (r, m) = spec_gather_mem(mem, addrs.drop_last());
        let addr = addrs.last().0;
        match r.read_result(addr, Ty::Unknown) {
            Ok(v) => (r.after_read(addr, Ty::Unknown), m.insert(addr, v)),
            Err(_) => (r, m),
        }
    }
}

/// The processor after the watched values have been read.
pub open spec fn spec_after_gather(cpu: CpuState, w: Watchings) -> CpuState {
    CpuState {
        regs: spec_gather_fregs(spec_gather_regs(cpu.regs, w.reg@).0, w.freg@).0,
        mem: spec_gather_mem(cpu.mem, w.memory@).0,
        ..cpu
    }
}

#[verifier::external_type_specification]
#[verifier::external_body]
pub struct ExInstant(std::time::Instant);

/// The present moment, from `Instant::now` of the standard library.
/// Nothing is claimed of it.
#[verifier::external_body]
fn clock_now() -> std::time::Instant {
    std::time::Instant::now()
}

/// The time that has passed since `begin`, from `Instant::elapsed` of the
/// standard library. Nothing is claimed of it.
#[verifier::external_body]
fn clock_elapsed(begin: &std::time::Instant) -> std::time::Duration {
    begin.elapsed()
}

/// The whole milliseconds of a duration, from `Duration::as_millis` of the
/// standard library. Nothing is claimed of them.
#[verifier::external_body]
fn duration_millis(d: &std::time::Duration) -> u128 {
    d.as_millis()
}

/// Collects what the simulator knows of a run when the run is over.
pub struct SimStatBuilder {
    begin: std::time::Instant,
    instr_file_len: Option<u32>,
    elapsed_clocks: Option<usize>,
    cycle: Option<usize>,
    elapsed: Option<std::time::Duration>,
}

/// What the simulator knows of a run that is over.
pub struct SimStat {
    /// Words of the program image.
    pub instr_file_len: u32,
    /// Cycles that the pipeline took.
    pub elapsed_clocks: usize,
    /// Instructions executed.
    pub cycle: usize,
    /// Milliseconds that the simulation took on the host.
    pub elapsed_millis: u128,
}

impl SimStatBuilder {
    pub closed spec fn spec_instr_file_len(&self) -> Option<u32> {
        self.instr_file_len
    }

    pub closed spec fn spec_elapsed_clocks(&self) -> Option<usize> {
        self.elapsed_clocks
    }

    pub closed spec fn spec_cycle(&self) -> Option<usize> {
        self.cycle
    }

    /// Whether the timer has been stopped.
    pub closed spec fn stopped(&self) -> bool {
        self.elapsed is Some
    }

    /// Everything that `finish` reports has been recorded.
    pub open spec fn complete(&self) -> bool {
        self.spec_instr_file_len() is Some && self.spec_elapsed_clocks() is Some
            && self.spec_cycle() is Some && self.stopped()
    }

    /// A builder that knows nothing yet. Its timer runs from now.
    pub fn new() -> (b: Self)
        ensures
            b.spec_instr_file_len() is None,
            b.spec_elapsed_clocks() is None,
            b.spec_cycle() is None,
            !b.stopped(),
    {
        Self {
            begin: clock_now(),
            instr_file_len: None,
            elapsed_clocks: None,
            cycle: None,
            elapsed: None,
        }
    }

    pub fn instr_file_len(&mut self, instr_file_len: u32)
        ensures
            final(self).spec_instr_file_len() == Some(instr_file_len),
            final(self).spec_elapsed_clocks() == old(self).spec_elapsed_clocks(),
            final(self).spec_cycle() == old(self).spec_cycle(),
            final(self).stopped() == old(self).stopped(),
    {
        self.instr_file_len = Some(instr_file_len)
    }

    pub fn elapsed_clocks(&mut self, elapsed_clocks: usize)
        ensures
            final(self).spec_elapsed_clocks() == Some(elapsed_clocks),
            final(self).spec_instr_file_len() == old(self).spec_instr_file_len(),
            final(self).spec_cycle() == old(self).spec_cycle(),
            final(self).stopped() == old(self).stopped(),
    {
        self.elapsed_clocks = Some(elapsed_clocks)
    }

    pub fn cycle(&mut self, cycle: usize)
        ensures
            final(self).spec_cycle() == Some(cycle),
            final(self).spec_instr_file_len() == old(self).spec_instr_file_len(),
            final(self).spec_elapsed_clocks() == old(self).spec_elapsed_clocks(),
            final(self).stopped() == old(self).stopped(),
    {
        self.cycle = Some(cycle)
    }

    /// Stops the timer: the time since the builder was made is kept.
    pub fn stop_timer(&mut self)
        ensures
            final(self).stopped(),
            final(self).spec_instr_file_len() == old(self).spec_instr_file_len(),
            final(self).spec_elapsed_clocks() == old(self).spec_elapsed_clocks(),
            final(self).spec_cycle() == old(self).spec_cycle(),
    {
        self.elapsed = Some(clock_elapsed(&self.begin))
    }

    pub fn finish(&self) -> (s: SimStat)
        requires
            self.complete(),
        ensures
            Some(s.instr_file_len) == self.spec_instr_file_len(),
            Some(s.elapsed_clocks) == self.spec_elapsed_clocks(),
            Some(s.cycle) == self.spec_cycle(),
    {
        let elapsed_millis = match &self.elapsed {
            Some(d) => duration_millis(d),
            None => 0,
        };
        SimStat {
            instr_file_len: self.instr_file_len.unwrap(),
            elapsed_clocks: self.elapsed_clocks.unwrap(),
            cycle: self.cycle.unwrap(),
            elapsed_millis,
        }
    }
}

/// The simulator. `I` and `O` are the devices of the processor, `F` the
/// arithmetic backend of its float unit.
pub struct Simulator<I, O, F> {
    cpu: Cpu<I, O, F>,
    elapsed_clocks: usize,
    cycle: usize,
    debug_symbol: DebugSymbol,
    fatal_error: Option<RuntimeError>,
    stat_builder: SimStatBuilder,
    traces: Vec<TraceEntry>,
}

impl<I: Input, O: Output, F: Fpu> Simulator<I, O, F> {
    pub closed spec fn view(&self) -> SimState {
        SimState {
            cpu: self.cpu@,
            cycle: self.cycle,
            elapsed_clocks: self.elapsed_clocks,
            fatal: self.fatal_error,
            traces: self.traces@,
        }
    }

    /// What the simulator will report of the run.
    pub closed spec fn spec_stat(&self) -> SimStatBuilder {
        self.stat_builder
    }

    /// The debug symbols.
    pub closed spec fn spec_debug_symbol(&self) -> DebugSymbol {
        self.debug_symbol
    }

    /// The processor is well formed and the table of symbols is sorted.
    pub open spec fn wf(&self) -> bool {
        self@.cpu.wf() && self.spec_debug_symbol().wf()
    }

    /// A simulator that is about to run the program image `mem` in the
    /// first encoding.
    pub fn new(mem: &[u8], input: I, output: O, fpu: F) -> (r: Result<Self, InputError>)
        ensures
            match r {
                Ok(sim) => crate::cpu::image_fits(mem@) && sim.wf() && sim@ == (SimState {
                    cpu: crate::cpu::initial_state(mem@, Dialect::V1, output.written()),
                    cycle: 0,
                    elapsed_clocks: 0,
                    fatal: None,
                    traces: Seq::empty(),
                }),
                Err(e) => !crate::cpu::image_fits(mem@) && e == InputError::BadImage,
            },
    {
        Self::with_dialect(mem, input, output, fpu, Dialect::V1)
    }

    /// A simulator that is about to run the program image `mem` in the
    /// encoding `dialect`.
    pub fn with_dialect(mem: &[u8], input: I, output: O, fpu: F, dialect: Dialect) -> (r: Result<
        Self,
        InputError,
    >)
        ensures
            match r {
                Ok(sim) => crate::cpu::image_fits(mem@) && sim.wf() && sim@ == (SimState {
                    cpu: crate::cpu::initial_state(mem@, dialect, output.written()),
                    cycle: 0,
                    elapsed_clocks: 0,
                    fatal: None,
                    traces: Seq::empty(),
                }) && sim.spec_stat().spec_instr_file_len() == Some(
                    (crate::cpu::image_word(mem@, 0) + crate::cpu::image_word(mem@, 4)) as u32,
                ),
                Err(e) => !crate::cpu::image_fits(mem@) && e == InputError::BadImage,
            },
    {
        let cpu = match Cpu::new(mem, input, output, fpu, dialect) {
            Ok(cpu) => cpu,
            Err(e) => {
                return Err(e);
            },
        };
        let mut stat_builder = SimStatBuilder::new();
        let (data_sec_size, text_sec_size) = Cpu::<I, O, F>::get_data_and_text_len(mem);
        stat_builder.instr_file_len(data_sec_size + text_sec_size);
        Ok(
            Self {
                cpu,
                elapsed_clocks: 0,
                cycle: 0,
                debug_symbol: DebugSymbol::default(),
                fatal_error: None,
                stat_builder,
                traces: Vec::new(),
            },
        )
    }

    /// Takes debug symbols in, unless there are none.
    pub fn provide_dbg_symb(&mut self, debug_symbol: DebugSymbol)
        requires
            old(self).wf(),
        ensures
            final(self).wf(),
            final(self)@ == old(self)@,
            debug_symbol.globals@.len() == 0 && debug_symbol.sorted@.len() == 0 ==> final(self).spec_debug_symbol() == old(self).spec_debug_symbol(),
            !(debug_symbol.globals@.len() == 0 && debug_symbol.sorted@.len() == 0) ==> {
                &&& final(self).spec_debug_symbol().globals@ == old(self).spec_debug_symbol().globals@
                    + debug_symbol.globals@
                &&& forall|addr: u32|
                    crate::debug_symbol::symbols_at(final(self).spec_debug_symbol().sorted@, addr)
                        == crate::debug_symbol::symbols_at(
                        old(self).spec_debug_symbol().sorted@ + debug_symbol.sorted@,
                        addr,
                    )
            },
    {
        if !debug_symbol.is_empty() {
            self.debug_symbol.merge(debug_symbol)
        }
    }

    /// Takes the simulator apart and hands out the output device.
    pub fn into_output(self) -> (o: SimOutput<O>)
        ensures
            o.cpu_output == self.spec_output(),
            o.cpu_output.written() == self@.cpu.output,
    {
        let cpu_output = self.cpu.into_output();
        SimOutput { cpu_output: cpu_output.value }
    }

    /// The output device.
    pub closed spec fn spec_output(self) -> O {
        self.cpu.spec_output()
    }

    /// Records the counts of the run and stops the timer.
    pub fn exit_sim(&mut self)
        ensures
            final(self).wf() == old(self).wf(),
            final(self)@ == old(self)@,
            final(self).spec_debug_symbol() == old(self).spec_debug_symbol(),
            final(self).spec_stat().spec_cycle() == Some(old(self)@.cycle),
            final(self).spec_stat().spec_elapsed_clocks() == Some(old(self)@.elapsed_clocks),
            final(self).spec_stat().spec_instr_file_len() == old(self).spec_stat().spec_instr_file_len(),
            final(self).spec_stat().stopped(),
    {
        self.stat_builder.cycle(self.cycle);
        self.stat_builder.elapsed_clocks(self.elapsed_clocks);
        self.stat_builder.stop_timer();
    }

    /// What the simulator knows of the run, once `exit_sim` has recorded it.
    pub fn stat(&self) -> (s: Option<SimStat>)
        ensures
            s is Some <==> self.spec_stat().complete(),
            s matches Some(st) ==> Some(st.cycle) == self.spec_stat().spec_cycle() && Some(
                st.elapsed_clocks,
            ) == self.spec_stat().spec_elapsed_clocks() && Some(st.instr_file_len)
                == self.spec_stat().spec_instr_file_len(),
    {
        if self.stat_builder.instr_file_len.is_some() && self.stat_builder.elapsed_clocks.is_some()
            && self.stat_builder.cycle.is_some() && self.stat_builder.elapsed.is_some() {
            Some(self.stat_builder.finish())
        } else {
            None
        }
    }

    pub fn get_pc(&self) -> (pc: Pc)
        ensures
            pc@ == self@.cpu.pc,
    {
        self.cpu.get_pc()
    }

    /// Reads the bit pattern of float register `id`. The read is counted.
    pub fn get_freg(&mut self, id: FRegId) -> (v: u32)
        requires
            old(self).wf(),
        ensures
            final(self).wf(),
            final(self).spec_debug_symbol() == old(self).spec_debug_symbol(),
            final(self).spec_stat() == old(self).spec_stat(),
            v == old(self)@.cpu.regs.floats[id@],
            final(self)@ == (SimState {
                cpu: CpuState { regs: old(self)@.cpu.regs.after_get_f(id@), ..old(self)@.cpu },
                ..old(self)@
            }),
    {
        self.cpu.get_freg(id)
    }

    /// Reads integer register `id` with its type. The read is counted.
    pub fn get_reg(&mut self, id: RegId) -> (v: TypedU32)
        requires
            old(self).wf(),
        ensures
            final(self).wf(),
            final(self).spec_debug_symbol() == old(self).spec_debug_symbol(),
            final(self).spec_stat() == old(self).spec_stat(),
            v == (TypedU32 {
                ty: if id@ == 1 {
                    Ty::Usize
                } else {
                    Ty::I32
                },
                value: old(self)@.cpu.regs.ints[id@],
            }),
            final(self)@ == (SimState {
                cpu: CpuState { regs: old(self)@.cpu.regs.after_get(id@), ..old(self)@.cpu },
                ..old(self)@
            }),
    {
        self.cpu.get_reg(id).typed(id.ty())
    }

    /// Reads the word at word address `addr`. The read is counted.
    pub fn get_mem(&mut self, addr: Addr) -> (r: Result<TypedU32, MemoryAccessError>)
        requires
            old(self).wf(),
        ensures
            final(self).wf(),
            final(self).spec_debug_symbol() == old(self).spec_debug_symbol(),
            final(self).spec_stat() == old(self).spec_stat(),
            r == old(self)@.cpu.mem.read_result(addr@ as usize, Ty::Unknown),
            final(self)@ == (if r is Ok {
                SimState {
                    cpu: CpuState {
                        mem: old(self)@.cpu.mem.after_read(addr@ as usize, Ty::Unknown),
                        ..old(self)@.cpu
                    },
                    ..old(self)@
                }
            } else {
                old(self)@
            }),
    {
        self.cpu.get_mem(addr)
    }

    /// Reads the instruction word at byte address `addr`.
    pub fn get_mem_pc(&self, addr: Pc) -> (r: Result<u32, RuntimeError>)
        requires
            self.wf(),
        ensures
            r == (if self@.cpu.mem.instr_word(addr@) {
                Ok::<u32, RuntimeError>(crate::memory::word_at(self@.cpu.mem.bytes, addr@))
            } else {
                Err::<u32, RuntimeError>(
                    RuntimeError::MemoryAccessError(
                        MemoryAccessError::PcOutOfBounds { pc_address: addr@ as usize },
                    ),
                )
            }),
    {
        self.cpu.get_mem_pc(addr)
    }

    /// A listing of the registers of kind `k`, in lines of `chunk_size`
    /// registers.
    pub fn get_regfile_view(&self, k: ShowRegFileKind, chunk_size: usize) -> (v: RegFileView<'_>)
        requires
            self.wf(),
            chunk_size > 0,
        ensures
            v.spec_regs() == self@.cpu.regs,
            v.spec_kind() == k,
            v.spec_chunk_size() == chunk_size,
            v.spec_dialect() == self@.cpu.dialect,
    {
        self.cpu.get_regfile_view(k, chunk_size)
    }

    /// Instructions executed so far.
    pub fn cycle(&self) -> (n: usize)
        ensures
            n == self@.cycle,
    {
        self.cycle
    }

    /// Cycles that the pipeline took so far.
    pub fn elapsed_clocks(&self) -> (n: usize)
        ensures
            n == self@.elapsed_clocks,
    {
        self.elapsed_clocks
    }

    pub fn debug_symbol(&self) -> (d: &DebugSymbol)
        ensures
            *d == self.spec_debug_symbol(),
    {
        &self.debug_symbol
    }

    /// The processor, to attach spies and to read its statistics.
    pub fn cpu_mut(&mut self) -> (cpu: &mut Cpu<I, O, F>)
        ensures
            cpu@ == old(self)@.cpu,
            final(self)@ == (SimState { cpu: final(cpu)@, ..old(self)@ }),
            final(self).spec_debug_symbol() == old(self).spec_debug_symbol(),
            final(self).spec_stat() == old(self).spec_stat(),
    {
        &mut self.cpu
    }

    /// The text of the fatal error, if there was one.
    pub fn get_error_msg(&self) -> (m: Option<String>)
        ensures
            match m {
                Some(s) => self@.fatal matches Some(e) && s@ == e.spec_message(),
                None => self@.fatal is None,
            },
    {
        match &self.fatal_error {
            Some(e) => Some(e.message()),
            None => None,
        }
    }

    /// Hands out the instructions traced since the last call.
    pub fn take_traces(&mut self) -> (t: Vec<TraceEntry>)
        ensures
            t@ == old(self)@.traces,
            final(self)@ == (SimState { traces: Seq::empty(), ..old(self)@ }),
            final(self).spec_debug_symbol() == old(self).spec_debug_symbol(),
            final(self).spec_stat() == old(self).spec_stat(),
    {
        let mut t: Vec<TraceEntry> = Vec::new();
        std::mem::swap(&mut t, &mut self.traces);
        t
    }
}

/// How a call of the simulator that started in `before` and was given
/// `answers` by the outside ends: in which state, and with what result.
///
/// The loop stops with a flow; at a break the watched values are read, at
/// an exit the counts of the run are recorded.
pub open spec fn spec_outcome(
    before: SimState,
    opt: SimulationOption,
    answers: Seq<Result<u32, IoError>>,
    after: SimState,
    result: ControlFlow,
) -> bool {
    match before.single_cycle(opt, answers) {
        Some((s, SimFlow::Exit)) => after == s && result is Exit,
        Some((s, SimFlow::Break(reason))) => {
            &&& after == (SimState { cpu: spec_after_gather(s.cpu, opt.watchings), ..s })
            &&& result matches ControlFlow::Break(b)
            &&& b.reason == reason
            &&& b.watchings.reg_map@ == spec_gather_regs(s.cpu.regs, opt.watchings.reg@).1
            &&& b.watchings.freg_map@ == spec_gather_fregs(
                spec_gather_regs(s.cpu.regs, opt.watchings.reg@).0,
                opt.watchings.freg@,
            ).1
            &&& b.watchings.memory_map@ == spec_gather_mem(s.cpu.mem, opt.watchings.memory@).1
        },
        None => false,
    }
}

impl<I: Input, O: Output, F: Fpu> Simulator<I, O, F> {
    /// Reads the watched registers and memory words.
    fn gather_watchings(&mut self, w: &Watchings) -> (v: WatchingValues)
        requires
            old(self).wf(),
        ensures
            final(self).wf(),
            final(self).spec_debug_symbol() == old(self).spec_debug_symbol(),
            final(self).spec_stat() == old(self).spec_stat(),
            final(self)@ == (SimState { cpu: spec_after_gather(old(self)@.cpu, *w), ..old(self)@ }),
            v.reg_map@ == spec_gather_regs(old(self)@.cpu.regs, w.reg@).1,
            v.freg_map@ == spec_gather_fregs(
                spec_gather_regs(old(self)@.cpu.regs, w.reg@).0,
                w.freg@,
            ).1,
            v.memory_map@ == spec_gather_mem(old(self)@.cpu.mem, w.memory@).1,
    {
        let mut reg_map: HashMap<usize, TypedU32> = HashMap::new();
        let mut freg_map: HashMap<usize, u32> = HashMap::new();
        let mut memory_map: HashMap<usize, TypedU32> = HashMap::new();
        let mut i: usize = 0;
        while i < w.reg.len()
            invariant
                i <= w.reg@.len(),
                self.wf(),
                self.spec_debug_symbol() == old(self).spec_debug_symbol(),
                self.spec_stat() == old(self).spec_stat(),
                self@ == (SimState {
                    cpu: CpuState {
                        regs: spec_gather_regs(old(self)@.cpu.regs, w.reg@.take(i as int)).0,
                        ..old(self)@.cpu
                    },
                    ..old(self)@
                }),
                reg_map@ == spec_gather_regs(old(self)@.cpu.regs, w.reg@.take(i as int)).1,
            decreases w.reg@.len() - i,
        {
            let id = w.reg[i];
            assert(w.reg@.take(i + 1).drop_last() =~= w.reg@.take(i as int));
            let v = self.get_reg(id);
            reg_map.insert(id.inner(), v);
            i = i + 1;
        }
        assert(w.reg@.take(i as int) =~= w.reg@);
        let ghost mid = self@.cpu.regs;
        let mut j: usize = 0;
        while j < w.freg.len()
            invariant
                j <= w.freg@.len(),
                self.wf(),
                self.spec_debug_symbol() == old(self).spec_debug_symbol(),
                self.spec_stat() == old(self).spec_stat(),
                mid == spec_gather_regs(old(self)@.cpu.regs, w.reg@).0,
                self@ == (SimState {
                    cpu: CpuState {
                        regs: spec_gather_fregs(mid, w.freg@.take(j as int)).0,
                        ..old(self)@.cpu
                    },
                    ..old(self)@
                }),
                freg_map@ == spec_gather_fregs(mid, w.freg@.take(j as int)).1,
            decreases w.freg@.len() - j,
        {
            let id = w.freg[j];
            assert(w.freg@.take(j + 1).drop_last() =~= w.freg@.take(j as int));
            let v = self.get_freg(id);
            freg_map.insert(id.inner(), v);
            j = j + 1;
        }
        assert(w.freg@.take(j as int) =~= w.freg@);
        let ghost regs = self@.cpu.regs;
        let mut k: usize = 0;
        while k < w.memory.len()
            invariant
                k <= w.memory@.len(),
                self.wf(),
                self.spec_debug_symbol() == old(self).spec_debug_symbol(),
                self.spec_stat() == old(self).spec_stat(),
                regs == spec_gather_fregs(
                    spec_gather_regs(old(self)@.cpu.regs, w.reg@).0,
                    w.freg@,
                ).0,
                self@ == (SimState {
                    cpu: CpuState {
                        regs,
                        mem: spec_gather_mem(old(self)@.cpu.mem, w.memory@.take(k as int)).0,
                        ..old(self)@.cpu
                    },
                    ..old(self)@
                }),
                memory_map@ == spec_gather_mem(old(self)@.cpu.mem, w.memory@.take(k as int)).1,
            decreases w.memory@.len() - k,
        {
            let addr = w.memory[k];
            assert(w.memory@.take(k + 1).drop_last() =~= w.memory@.take(k as int));
            match self.get_mem(addr) {
                Ok(v) => {
                    memory_map.insert(addr.inner(), v);
                },
                Err(_) => {},
            }
            k = k + 1;
        }
        assert(w.memory@.take(k as int) =~= w.memory@);
        WatchingValues { reg_map, freg_map, memory_map }
    }

    /// Whether the breakpoint stops the simulator. Conditions are not
    /// evaluated: every breakpoint does.
    fn do_break(&self, bp: &BreakPoint) -> (b: bool)
        ensures
            b,
    {
        true
    }

    /// Ends a call with a break: reads the watched values.
    fn break_sim(&mut self, opt: &SimulationOption, reason: BreakReason) -> (r: ControlFlow)
        requires
            old(self).wf(),
        ensures
            final(self).wf(),
            final(self).spec_debug_symbol() == old(self).spec_debug_symbol(),
            final(self).spec_stat() == old(self).spec_stat(),
            final(self)@ == (SimState {
                cpu: spec_after_gather(old(self)@.cpu, opt.watchings),
                ..old(self)@
            }),
            r matches ControlFlow::Break(b) && b.reason == reason && b.watchings.reg_map@
                == spec_gather_regs(old(self)@.cpu.regs, opt.watchings.reg@).1
                && b.watchings.freg_map@ == spec_gather_fregs(
                spec_gather_regs(old(self)@.cpu.regs, opt.watchings.reg@).0,
                opt.watchings.freg@,
            ).1 && b.watchings.memory_map@ == spec_gather_mem(
                old(self)@.cpu.mem,
                opt.watchings.memory@,
            ).1,
    {
        let watchings = self.gather_watchings(&opt.watchings);
        ControlFlow::Break(OnBreak { watchings, reason })
    }

    /// One turn of the loop; see `SimState::iterate`. The ghost result is
    /// what the outside answered.
    #[verifier::rlimit(40)]
    fn iterate(&mut self, opt: &SimulationOption, done: usize) -> (r: (
        Option<SimFlow>,
        Ghost<Result<u32, IoError>>,
    ))
        requires
            old(self).wf(),
        ensures
            final(self).wf(),
            final(self).spec_debug_symbol() == old(self).spec_debug_symbol(),
            final(self).spec_stat() == old(self).spec_stat(),
            old(self)@.iterate(*opt, done as nat, r.1@) == (match r.0 {
                Some(flow) => SimStep::Stop(final(self)@, flow),
                None => SimStep::Go(final(self)@),
            }),
            r.0 is None ==> final(self)@.cycle == old(self)@.cycle + 1 && final(self)@.fatal == old(self)@.fatal,
    {
        reveal(SimState::iterate);
        let pc = self.cpu.get_pc().into_usize();
        match &opt.mode {
            ExecuteMode::RunStep(r) => {
                if done == r.get_step() {
                    return (Some(SimFlow::Break(BreakReason::StepEnded)), Ghost(Ok(0)));
                }
            },
            ExecuteMode::SkipUntil { pc: target } => {
                if done > 0 && target.inner() == pc {
                    return (Some(SimFlow::Break(BreakReason::Reached(*target))), Ghost(Ok(0)));
                }
            },
            ExecuteMode::Run => {},
        }
        if done > 0 {
            match opt.breakpoints.get(&pc) {
                Some(bp) => {
                    if self.do_break(bp) {
                        return (Some(SimFlow::Break(BreakReason::BreakPoint(bp.addr))), Ghost(Ok(0)));
                    }
                },
                None => {},
            }
        }
        if self.cycle == usize::MAX || self.elapsed_clocks > usize::MAX - MAX_CYCLES_PER_INSTR
            || self.cpu.retired() == usize::MAX {
            self.fatal_error = Some(RuntimeError::CounterExhausted);
            return (Some(SimFlow::Break(BreakReason::Failed)), Ghost(Ok(0)));
        }
        let ghost before = self.cpu@;
        let r = self.cpu.cycle_one_full(opt.do_trace);
        let ghost outside = choose|outside: Result<u32, IoError>|
            (crate::cpu::CycleStep { state: self.cpu@, result: r }) == #[trigger] before.cycle(
                opt.do_trace,
                outside,
            );
        let res = match r {
            Ok(res) => res,
            Err(e) => {
                if e.level().is_fatal() {
                    self.fatal_error = Some(e);
                }
                return (Some(SimFlow::Break(BreakReason::Failed)), Ghost(outside));
            },
        };
        self.elapsed_clocks = self.elapsed_clocks + res.cycles;
        self.cycle = self.cycle + 1;
        match res.flow {
            crate::cpu::ControlFlow::Continue => {
                match res.trace {
                    Some(trace) => {
                        self.traces.push(TraceEntry { cycle: self.cycle, trace });
                    },
                    None => {},
                }
                (None, Ghost(outside))
            },
            crate::cpu::ControlFlow::Break(reason) => (
                Some(SimFlow::Break(BreakReason::from_cpu(reason))),
                Ghost(outside),
            ),
            crate::cpu::ControlFlow::Exit => (Some(SimFlow::Exit), Ghost(outside)),
        }
    }

    /// Runs the processor as `opt` asks: until the program halts, until the
    /// steps are done or the address is reached, or until a breakpoint, a
    /// spy or an error stops it.
    ///
    /// Whatever the float backend and the devices answer, the call ends as
    /// `spec_outcome` says for those answers. After a fatal error every
    /// call breaks at once with `CannotRestart`.
    #[verifier::rlimit(40)]
    pub fn single_cycle(&mut self, opt: &SimulationOption) -> (r: ControlFlow)
        requires
            old(self).wf(),
        ensures
            final(self).wf(),
            final(self).spec_debug_symbol() == old(self).spec_debug_symbol(),
            exists|answers: Seq<Result<u32, IoError>>|
                spec_outcome(old(self)@, *opt, answers, final(self)@, r),
            r is Exit ==> final(self).spec_stat().spec_cycle() == Some(final(self)@.cycle)
                && final(self).spec_stat().spec_elapsed_clocks() == Some(
                final(self)@.elapsed_clocks,
            ) && final(self).spec_stat().stopped(),
    {
        if self.fatal_error.is_some() {
            let r = self.break_sim(opt, BreakReason::CannotRestart);
            assert(spec_outcome(old(self)@, *opt, Seq::empty(), self@, r));
            return r;
        }
        let mut done: usize = 0;
        let ghost mut answers: Seq<Result<u32, IoError>> = Seq::empty();
        assert forall|rest: Seq<Result<u32, IoError>>|
            #[trigger] old(self)@.run(*opt, 0, answers + rest) == self@.run(*opt, 0, rest) by {
            assert(answers + rest =~= rest);
        }
        loop
            invariant
                self.wf(),
                self.spec_debug_symbol() == old(self).spec_debug_symbol(),
                old(self)@.fatal is None,
                self@.fatal is None,
                self@.cycle == old(self)@.cycle + done,
                forall|rest: Seq<Result<u32, IoError>>|
                    #[trigger] old(self)@.run(*opt, 0, answers + rest) == self@.run(
                        *opt,
                        done as nat,
                        rest,
                    ),
            decreases usize::MAX - self@.cycle,
        {
            let ghost before = self@;
            let (flow, Ghost(answer)) = self.iterate(opt, done);
            proof {
                let last = seq![answer];
                assert(last.len() == 1 && last[0] == answer);
            }
            match flow {
                Some(SimFlow::Exit) => {
                    proof {
                        let total = answers.push(answer);
                        assert(total =~= answers + seq![answer]);
                        assert(old(self)@.run(*opt, 0, total) == before.run(
                            *opt,
                            done as nat,
                            seq![answer],
                        ));
                    }
                    self.exit_sim();
                    assert(spec_outcome(old(self)@, *opt, answers.push(answer), self@, ControlFlow::Exit));
                    return ControlFlow::Exit;
                },
                Some(SimFlow::Break(reason)) => {
                    proof {
                        let total = answers.push(answer);
                        assert(total =~= answers + seq![answer]);
                        assert(old(self)@.run(*opt, 0, total) == before.run(
                            *opt,
                            done as nat,
                            seq![answer],
                        ));
                    }
                    let r = self.break_sim(opt, reason);
                    assert(spec_outcome(old(self)@, *opt, answers.push(answer), self@, r));
                    return r;
                },
                None => {
                    proof {
                        let next = answers.push(answer);
                        assert forall|rest: Seq<Result<u32, IoError>>|
                            #[trigger] old(self)@.run(*opt, 0, next + rest) == self@.run(
                                *opt,
                                (done + 1) as nat,
                                rest,
                            ) by {
                            let tail = seq![answer] + rest;
                            assert(next + rest =~= answers + tail);
                            assert(tail[0] == answer);
                            assert(tail.skip(1) =~= rest);
                            assert(old(self)@.run(*opt, 0, answers + tail) == before.run(
                                *opt,
                                done as nat,
                                tail,
                            ));
                        }
                        answers = next;
                    }
                    done = done + 1;
                },
            }
        }
    }
}

/// An instruction as it is listed: in a shorter form where the assembly
/// language has one for it, else as it is.
pub enum PrettyInstr {
    Sugared(String),
    Unsugared(DecodedInstr),
}

/// The shorter form of an instruction, if it has one: `nop` for adding 0 to
/// zero into zero, `mv` for copying zero, `li` for loading an immediate,
/// `subi` for adding a negative immediate, `not` for flipping bit 0.
pub open spec fn spec_sugar(instr: DecodedInstr) -> Option<Seq<char>> {
    match instr {
        Instr::I { instr: IInstr::Addi, rd, rs1, imm } => if rs1@ == 0 {
            if imm == 0 {
                if rd@ == 0 {
                    Some("nop"@)
                } else {
                    Some(text_2("mv"@, abi_name(rd@), abi_name(rs1@)))
                }
            } else {
                Some(text_2("li"@, abi_name(rd@), uimm_text(imm)))
            }
        } else if spec_signed(imm) < 0 {
            Some(text_3("subi"@, abi_name(rd@), abi_name(rs1@), signed_text(-spec_signed(imm))))
        } else {
            None
        },
        Instr::I { instr: IInstr::Xori, rd, rs1, imm } => if imm == 1 {
            Some(text_2("not"@, abi_name(rd@), abi_name(rs1@)))
        } else {
            None
        },
        _ => None,
    }
}

/// The text of an instruction in a listing.
pub open spec fn spec_pretty_text(instr: DecodedInstr) -> Seq<char> {
    match spec_sugar(instr) {
        Some(s) => s,
        None => instr.spec_text(),
    }
}

impl PrettyInstr {
    pub open spec fn spec_text(self) -> Seq<char> {
        match self {
            PrettyInstr::Sugared(s) => s@,
            PrettyInstr::Unsugared(i) => i.spec_text(),
        }
    }

    pub fn text(&self) -> (s: String)
        ensures
            s@ == self.spec_text(),
    {
        match self {
            PrettyInstr::Sugared(s) => s.clone(),
            PrettyInstr::Unsugared(i) => i.text(),
        }
    }
}

/// Gives an instruction the form in which it is listed.
pub fn pretty_instr(instr: DecodedInstr) -> (p: PrettyInstr)
    ensures
        p.spec_text() == spec_pretty_text(instr),
        match p {
            PrettyInstr::Sugared(s) => spec_sugar(instr) == Some(s@),
            PrettyInstr::Unsugared(i) => spec_sugar(instr) is None && i == instr,
        },
{
    match instr {
        Instr::I { instr: IInstr::Addi, rd, rs1, imm } => {
            if rs1.is_zero() {
                if imm == 0 {
                    if rd.is_zero() {
                        PrettyInstr::Sugared(String::from_str("nop"))
                    } else {
                        PrettyInstr::Sugared(join_2("mv", rd.name(), rs1.name()))
                    }
                } else {
                    let imm = uimm_string(imm);
                    PrettyInstr::Sugared(join_2("li", rd.name(), imm.as_str()))
                }
            } else if signed(imm) < 0 {
                let mut magnitude = String::new();
                push_signed(&mut magnitude, -(signed(imm) as i64));
                assert(magnitude@ =~= signed_text(-spec_signed(imm)));
                PrettyInstr::Sugared(join_3("subi", rd.name(), rs1.name(), magnitude.as_str()))
            } else {
                PrettyInstr::Unsugared(instr)
            }
        },
        Instr::I { instr: IInstr::Xori, rd, rs1, imm } => {
            if imm == 1 {
                PrettyInstr::Sugared(join_2("not", rd.name(), rs1.name()))
            } else {
                PrettyInstr::Unsugared(instr)
            }
        },
        _ => PrettyInstr::Unsugared(instr),
    }
}

/// A line of a listing.
pub struct AssemblyRow {
    /// The mark of the line, if it has one.
    pub special: Option<String>,
    pub addr: Pc,
    pub bin: u32,
    /// The instruction, if the word is one.
    pub decoded: Option<PrettyInstr>,
}

impl AssemblyRow {
    pub open spec fn spec_text(self) -> Seq<char> {
        right_aligned(
            match self.special {
                Some(s) => s@,
                None => ""@,
            },
            7,
        ) + " "@ + addr_text(self.addr@ as nat) + "  "@ + addr_text(self.bin as nat) + "    "@ + (
        match self.decoded {
            Some(p) => p.spec_text(),
            None => "???? (failed to decode)"@,
        })
    }

    /// The line: the mark in seven columns, the address, the word, and the
    /// instruction.
    pub fn text(&self) -> (s: String)
        ensures
            s@ == self.spec_text(),
    {
        let mut s = String::new();
        match &self.special {
            Some(m) => push_right_aligned(&mut s, m.as_str(), 7),
            None => push_right_aligned(&mut s, "", 7),
        }
        s.append(" ");
        push_addr(&mut s, self.addr.into_inner() as u64);
        s.append("  ");
        push_addr(&mut s, self.bin as u64);
        s.append("    ");
        match &self.decoded {
            Some(p) => {
                let t = p.text();
                s.append(t.as_str());
            },
            None => {
                s.append("???? (failed to decode)");
            },
        }
        assert(s@ =~= self.spec_text());
        s
    }
}

/// The lines of `rows`, each ended by a line feed.
pub open spec fn spec_rows_text(rows: Seq<AssemblyRow>) -> Seq<char>
    decreases rows.len(),
{
    if rows.len() == 0 {
        Seq::empty()
    } else {
        spec_rows_text(rows.drop_last()) + rows.last().spec_text() + "\n"@
    }
}

/// The line that stands for lines left out.
pub open spec fn spec_omitted_text() -> Seq<char> {
    spaces(8) + "... /* omitted */\n"@
}

/// A listing of the instructions around an address, under the label they
/// belong to.
pub struct Assembly {
    pub label: String,
    pub label_addr: Pc,
    /// Lines were left out between the label and the first line.
    pub omitted_head: bool,
    pub rows: Vec<AssemblyRow>,
    /// Lines were left out behind the last line.
    pub omitted_tail: bool,
}

impl Assembly {
    pub fn did_omit_output(&self) -> (b: bool)
        ensures
            b == (self.omitted_head || self.omitted_tail),
    {
        self.omitted_head || self.omitted_tail
    }

    pub open spec fn spec_text(self) -> Seq<char> {
        self.label@ + ": /* "@ + addr_text(self.label_addr@ as nat) + " */\n"@ + (
        if self.omitted_head {
            spec_omitted_text()
        } else {
            Seq::empty()
        }) + spec_rows_text(self.rows@) + (if self.omitted_tail {
            spec_omitted_text()
        } else {
            Seq::empty()
        })
    }

    /// The listing: the label with its address, then the lines, with a line
    /// of dots wherever lines were left out.
    pub fn text(&self) -> (s: String)
        ensures
            s@ == self.spec_text(),
    {
        let mut s = self.label.clone();
        s.append(": /* ");
        push_addr(&mut s, self.label_addr.into_inner() as u64);
        s.append(" */\n");
        if self.omitted_head {
            crate::text::push_spaces(&mut s, 8);
            s.append("... /* omitted */\n");
        }
        let ghost head = s@;
        let mut i: usize = 0;
        while i < self.rows.len()
            invariant
                i <= self.rows@.len(),
                s@ == head + spec_rows_text(self.rows@.take(i as int)),
            decreases self.rows@.len() - i,
        {
            assert(self.rows@.take(i + 1).drop_last() =~= self.rows@.take(i as int));
            let line = self.rows[i].text();
            s.append(line.as_str());
            s.append("\n");
            i = i + 1;
        }
        assert(self.rows@.take(i as int) =~= self.rows@);
        if self.omitted_tail {
            crate::text::push_spaces(&mut s, 8);
            s.append("... /* omitted */\n");
        }
        assert(s@ =~= self.spec_text());
        s
    }
}

/// What to list: around which address (the program counter if none is
/// given), whether to leave out what is far from it, and how many words on
/// either side count as near (four if none is given).
#[derive(Debug, Clone, Copy, PartialEq, Eq, Structural)]
pub struct DisassembleOption {
    pub addr: Option<Pc>,
    pub do_fold: bool,
    pub window_size_half: Option<u32>,
}

impl Default for DisassembleOption {
    fn default() -> (o: Self)
        ensures
            o == (DisassembleOption { addr: None, do_fold: false, window_size_half: None }),
    {
        DisassembleOption { addr: None, do_fold: false, window_size_half: None }
    }
}

/// The part of a symbol that a listing shows.
pub struct Window {
    /// Byte address of the first line.
    pub begin: int,
    /// Bytes that the lines cover at most.
    pub len: int,
    pub omitted_head: bool,
    pub omitted_tail: bool,
}

/// The window of a listing around `cursor`, for the symbol at `sym_addr`
/// that extends over `size` bytes (over the size of a window and one byte
/// more if its size is not known), with `half` words on either side.
///
/// Without folding the window is the whole symbol. With folding, the head
/// is left out when the cursor stands more than `half` words behind the
/// symbol, and the tail when more than `2 * half + 1` words are left.
pub open spec fn spec_window(
    sym_addr: u32,
    size: Option<u32>,
    cursor: u32,
    half: u32,
    do_fold: bool,
) -> Window {
    let half_bytes = 4 * half;
    let window_bytes = 2 * half_bytes + 4;
    let omitted_head = do_fold && sym_addr + half_bytes < cursor;
    let begin = if omitted_head {
        cursor - half_bytes
    } else {
        sym_addr as int
    };
    let end = sym_addr + (match size {
        Some(n) => n as int,
        None => window_bytes + 1,
    });
    let omitted_tail = do_fold && begin + window_bytes < end;
    let len = if omitted_tail {
        window_bytes
    } else if end >= begin {
        end - begin
    } else {
        0
    };
    Window { begin, len, omitted_head, omitted_tail }
}

/// Whether `row` is the line of the word at byte address `addr`.
pub open spec fn spec_row_of(row: AssemblyRow, mem: MemoryView, d: Dialect, addr: int, cursor: u32) -> bool {
    &&& row.addr@ == addr
    &&& mem.instr_word(addr)
    &&& row.bin == word_at(mem.bytes, addr)
    &&& match spec_decode_in(d, row.bin) {
        Ok(instr) => row.decoded matches Some(p) && p.spec_text() == spec_pretty_text(instr),
        Err(_) => row.decoded is None,
    }
    &&& if addr == cursor {
        row.special matches Some(m) && m@ == "***"@
    } else {
        row.special is None
    }
}

impl<I: Input, O: Output, F: Fpu> Simulator<I, O, F> {
    /// Lists the instructions around an address.
    ///
    /// The listing is that of the symbol nearest before the address; it
    /// fails when there is none. The lines are those of the words of the
    /// window, one after the other, up to the first word that lies outside
    /// the instruction region. The line of the address is marked `***`.
    pub fn disassemble_near(&self, opt: DisassembleOption) -> (r: Result<Assembly, SymbolError>)
        requires
            self.wf(),
        ensures
            ({
                let cursor = match opt.addr {
                    Some(pc) => pc.0,
                    None => self@.cpu.pc,
                };
                let half = match opt.window_size_half {
                    Some(w) => w,
                    None => 4,
                };
                match self.spec_debug_symbol().spec_nearest(cursor) {
                    Err(e) => r == Err::<Assembly, SymbolError>(e),
                    Ok(index) => {
                        let table = self.spec_debug_symbol().sorted@;
                        let sym = table[index.0 as int];
                        let size = if index.0 + 1 < table.len() {
                            Some((table[index.0 + 1].addr - sym.addr) as u32)
                        } else {
                            None
                        };
                        let w = spec_window(sym.addr, size, cursor, half, opt.do_fold);
                        &&& r matches Ok(listing)
                        &&& listing.label@ == sym.label@
                        &&& listing.label_addr@ == sym.addr
                        &&& listing.omitted_head == w.omitted_head
                        &&& listing.omitted_tail == w.omitted_tail
                        &&& listing.rows@.len() <= w.len / 4
                        &&& forall|k: int|
                            0 <= k < listing.rows@.len() ==> spec_row_of(
                                #[trigger] listing.rows@[k],
                                self@.cpu.mem,
                                self@.cpu.dialect,
                                w.begin + 4 * k,
                                cursor,
                            )
                        &&& listing.rows@.len() < w.len / 4 ==> !self@.cpu.mem.instr_word(
                            w.begin + 4 * listing.rows@.len(),
                        )
                    },
                }
            }),
    {
        let half_bytes: u64 = (match opt.window_size_half {
            Some(w) => w,
            None => 4,
        }) as u64 * 4;
        let window_bytes: u64 = half_bytes * 2 + 4;
        let cursor = match opt.addr {
            Some(pc) => pc,
            None => self.get_pc(),
        };
        let pc_addr: u64 = cursor.into_inner() as u64;
        let index = match self.debug_symbol.get_nearest_symbol_addr(cursor.into_inner()) {
            Ok(i) => i,
            Err(e) => {
                return Err(e);
            },
        };
        let def = self.debug_symbol.get_symbol(index);
        let sym_addr: u64 = def.raw.addr as u64;
        let omitted_head = opt.do_fold && sym_addr + half_bytes < pc_addr;
        let begin: u64 = if omitted_head {
            pc_addr - half_bytes
        } else {
            sym_addr
        };
        let end: u64 = sym_addr + (match def.size {
            Some(n) => n as u64,
            None => window_bytes + 1,
        });
        let omitted_tail = opt.do_fold && begin + window_bytes < end;
        let len: u64 = if omitted_tail {
            window_bytes
        } else if end >= begin {
            end - begin
        } else {
            0
        };
        let count: u64 = len / 4;
        let mut rows: Vec<AssemblyRow> = Vec::new();
        let mut disp: u64 = 0;
        while disp < count
            invariant
                disp <= count,
                count == len / 4,
                begin <= u32::MAX,
                len <= 0x10_0000_0000,
                self.wf(),
                rows@.len() == disp,
                forall|k: int|
                    0 <= k < rows@.len() ==> spec_row_of(
                        #[trigger] rows@[k],
                        self@.cpu.mem,
                        self@.cpu.dialect,
                        begin + 4 * k,
                        cursor.0,
                    ),
            ensures
                rows@.len() <= count,
                forall|k: int|
                    0 <= k < rows@.len() ==> spec_row_of(
                        #[trigger] rows@[k],
                        self@.cpu.mem,
                        self@.cpu.dialect,
                        begin + 4 * k,
                        cursor.0,
                    ),
                rows@.len() < count ==> !self@.cpu.mem.instr_word(begin + 4 * rows@.len()),
            decreases count - disp,
        {
            let at: u64 = begin + disp * 4;
            if at > 0xffff_ffff {
                break ;
            }
            let addr = Pc::new(at as u32);
            let bin = match self.get_mem_pc(addr) {
                Ok(bin) => bin,
                Err(_) => {
                    break ;
                },
            };
            let decoded = match DecodedInstr::decode_in(self.cpu.dialect(), bin) {
                Ok(i) => Some(pretty_instr(i)),
                Err(_) => None,
            };
            let special = if cursor.into_inner() == addr.into_inner() {
                Some(String::from_str("***"))
            } else {
                None
            };
            rows.push(AssemblyRow { special, addr, bin, decoded });
            disp = disp + 1;
        }
        Ok(
            Assembly {
                label: def.raw.label.clone(),
                label_addr: Pc::new(def.raw.addr),
                omitted_head,
                rows,
                omitted_tail,
            },
        )
    }
}

/// Only an error is kept: a turn of the loop that stops with `Failed` has
/// kept an error, and every other turn leaves what was kept as it was. A
/// turn that goes on has counted one instruction, and no turn takes
/// instructions back.
pub proof fn lemma_latch(s: SimState, opt: SimulationOption, done: nat, outside: Result<u32, IoError>)
    ensures
        match s.iterate(opt, done, outside) {
            SimStep::Stop(after, flow) => (flow == SimFlow::Break(BreakReason::Failed)
                ==> after.fatal is Some) && (flow != SimFlow::Break(BreakReason::Failed)
                ==> after.fatal == s.fatal) && after.cycle >= s.cycle,
            SimStep::Go(after) => after.fatal == s.fatal && after.cycle == s.cycle + 1
                && s.cycle < usize::MAX,
        },
{
    reveal(SimState::iterate);
}

/// After a fatal error a call does nothing but report that it cannot go on.
pub proof fn lemma_cannot_restart(s: SimState, opt: SimulationOption, answers: Seq<Result<u32, IoError>>)
    requires
        s.fatal is Some,
    ensures
        s.single_cycle(opt, answers) == Some((s, SimFlow::Break(BreakReason::CannotRestart))),
{
}

} // verus!
