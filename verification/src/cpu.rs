//! The processor: one call of `cycle_one_full` runs one instruction through
//! fetch, decode, register read, execute, memory access and write-back, and
//! counts the cycles that the five-stage pipeline would have taken.

use crate::branch_predictor::{BranchPredictor, SaturatingCounter, NUM_COUNTERS};
use crate::cache::{spec_line, spec_tag, Cache, CACHE_NUM_LINES};
use crate::common::{Pc, SpyResult, SpyWatchKind};
use crate::decode_instr::DecodeError;
use crate::decode_instr_2nd::{lemma_decode_in_total, spec_decode_in};
use crate::execute::{
    branch, execute_output, lemma_execute_shape, outside_request, spec_branch, spec_execute,
    spec_outside_request, unsigned, ExecuteOutput, MemoryAccessInput, OutsideRequest,
    WriteBackInput,
};
use crate::fpu::{Fpu, FLOAT_ONE};
use crate::instr::{DecodedInstr, FInstr, FetchedInstr, IOInstr, Instr, INSTR_ID_MAX};
use crate::io::{Input, IoError, Output};
use crate::isa::Dialect;
use crate::memory::{
    word_at, Addr, Memory, MemoryAccessError, MemoryStat, MemoryView, SpyUnit, RAM_BYTE_SIZE,
};
use crate::reg_file::{
    MemoryRegionStat, MemoryRegionStatBuilder, RegFile, RegFileAllStat, RegFileState, RegFileView,
    ShowRegFileKind,
};
use crate::register::{FRegId, RegId};
use crate::stat::{BranchStat, CacheStat, InstrStat};
use crate::ty::{Ty, TypedU32};
use std::collections::VecDeque;
use vstd::prelude::*;
use vstd::slice::slice_subrange;
use vstd::string::*;

verus! {

/// Cycles of an access that misses the cache and goes to the slow memory.
pub const DDR2_ACCESS_CYCLES: usize = 90;

/// Words at the bottom of the memory that lie in fast on-chip memory.
pub const BRAM_WORD_SIZE: usize = 16384;

/// Words at the top of the memory that lie in fast on-chip memory.
pub const STACK_WORD_SIZE: usize = 256;

/// Number of slots of the pipeline.
pub const PIPELINE_DEPTH: usize = 5;

/// The most cycles that one instruction can account for.
pub const MAX_CYCLES_PER_INSTR: usize = 450;

#[derive(Debug, Clone, Copy, PartialEq, Eq, Structural)]
pub enum PipelineStage {
    InstrFetch,
    InstrDecode,
    Execute,
    MemoryAccess,
    WriteBack,
}

/// What the timing model remembers of an instruction in flight.
#[derive(Debug, Clone, Copy, PartialEq, Eq, Structural)]
pub struct PipelineStat {
    pub ex_cycles: usize,
    pub ma_cycles: usize,
    /// The stage from which the result can be forwarded.
    pub result_ready_stage: Option<PipelineStage>,
    pub write_back_id: Option<RegId>,
    pub float_write_back_id: Option<FRegId>,
}

#[derive(Debug, Clone, Copy, PartialEq, Eq, Structural)]
pub struct InstrDecodeInput {
    pub bin: u32,
}

#[derive(Debug, Clone, Copy, PartialEq, Eq, Structural)]
pub struct InstrFetchOutput {
    pub id_in: InstrDecodeInput,
    pub old_pc: Pc,
    pub pc_plus4: Pc,
}

#[derive(Debug, Clone, Copy)]
pub struct RegFetchInput {
    pub instr: DecodedInstr,
    pub old_pc: u32,
    pub pc_plus4: u32,
}

#[derive(Debug, Clone, Copy)]
pub struct ExecuteInput {
    pub instr: FetchedInstr,
    pub old_pc: u32,
    pub pc_plus4: u32,
}

#[derive(Debug, Clone, Copy, PartialEq, Eq, Structural)]
pub struct MemoryAccessOutput {
    pub cycles: usize,
    pub cache_hit: bool,
    pub use_bram: bool,
    pub wb_in: Option<WriteBackInput>,
}

/// What is left of a processor when it is taken apart.
pub struct CpuOutput<O> {
    pub value: O,
}

/// Why a processor could not be set up.
#[derive(Debug, Clone, PartialEq, Eq)]
pub enum InputError {
    /// The scene description could not be parsed.
    ParseSld(String),
    /// The program image has no header, or its sections do not fit the memory.
    BadImage,
}

/// Why an instruction could not be completed.
#[derive(Debug, Clone, PartialEq, Eq)]
pub enum RuntimeError {
    MemoryAccessError(MemoryAccessError),
    DecodeError(DecodeError),
    Io(IoError),
    /// A counter of cycles or of instructions cannot count any further.
    CounterExhausted,
}

#[derive(Debug, Clone, Copy, PartialEq, Eq, Structural)]
pub enum RuntimeErrorLevel {
    /// The simulation cannot go on, but the host need not halt.
    Fatal,
}

impl RuntimeError {
    pub fn level(&self) -> (l: RuntimeErrorLevel)
        ensures
            l == RuntimeErrorLevel::Fatal,
    {
        RuntimeErrorLevel::Fatal
    }

    pub open spec fn spec_message(self) -> Seq<char> {
        match self {
            RuntimeError::MemoryAccessError(e) => e.spec_message(),
            RuntimeError::DecodeError(e) => e.spec_message(),
            RuntimeError::Io(e) => e.message@,
            RuntimeError::CounterExhausted => "cycle counter exhausted"@,
        }
    }

    /// The text of the error as it is shown to the user.
    pub fn message(&self) -> (s: String)
        ensures
            s@ == self.spec_message(),
    {
        match self {
            RuntimeError::MemoryAccessError(e) => e.message(),
            RuntimeError::DecodeError(e) => e.message(),
            RuntimeError::Io(e) => e.message.clone(),
            RuntimeError::CounterExhausted => String::from_str("cycle counter exhausted"),
        }
    }
}

impl RuntimeErrorLevel {
    #[must_use]
    pub fn is_fatal(&self) -> (b: bool)
        ensures
            b == (*self == RuntimeErrorLevel::Fatal),
    {
        match self {
            RuntimeErrorLevel::Fatal => true,
        }
    }
}

/// The instruction that a cycle executed, for the trace.
#[derive(Debug, Clone, Copy)]
pub struct ExecutionTrace {
    pub pc: Pc,
    pub undecoded_instr: u32,
    pub decoded_instr: DecodedInstr,
}

/// Why the processor wants the simulation to stop for a moment.
#[derive(Debug, Clone, Copy, PartialEq, Eq, Structural)]
pub enum BreakReason {
    Spy(SpyResult),
}

/// What the simulation should do after a cycle.
#[derive(Debug, Clone, Copy, PartialEq, Eq, Structural)]
pub enum ControlFlow {
    Continue,
    Break(BreakReason),
    Exit,
}

impl Default for ControlFlow {
    fn default() -> (c: Self)
        ensures
            c == ControlFlow::Continue,
    {
        ControlFlow::Continue
    }
}

/// What one cycle did.
#[derive(Debug, Clone, Copy)]
pub struct CycleResult {
    /// The cycles that the pipeline took.
    pub cycles: usize,
    pub trace: Option<ExecutionTrace>,
    pub flow: ControlFlow,
}

/// Whether the decoded instruction reads integer register `id`.
pub open spec fn spec_reads_reg(instr: DecodedInstr, id: RegId) -> bool {
    match instr {
        Instr::R { rs1, rs2, .. } => rs1 == id || rs2 == id,
        Instr::I { rs1, .. } => rs1 == id,
        Instr::S { rs1, rs2, .. } => rs1 == id || rs2 == id,
        Instr::B { rs1, rs2, .. } => rs1 == id || rs2 == id,
        Instr::P { rs1, .. } => rs1 == id,
        Instr::J { .. } => false,
        Instr::IO(io) => match io {
            IOInstr::Outb { rs } => rs == id,
            IOInstr::Inw { .. } => false,
            IOInstr::Finw { .. } => false,
        },
        Instr::F(f) => match f {
            FInstr::X { rs1, .. } => rs1 == id,
            FInstr::Flw { rs1, .. } => rs1 == id,
            FInstr::Fsw { rs1, .. } => rs1 == id,
            _ => false,
        },
        Instr::Misc(_) => false,
    }
}

/// Whether the decoded instruction reads float register `id`.
pub open spec fn spec_reads_freg(instr: DecodedInstr, id: FRegId) -> bool {
    match instr {
        Instr::F(f) => match f {
            FInstr::E { rs1, rs2, .. } => rs1 == id || rs2 == id,
            FInstr::G { rs1, rs2, rs3, .. } => rs1 == id || rs2 == id || rs3 == id,
            FInstr::H { rs1, .. } => rs1 == id,
            FInstr::K { rs1, rs2, .. } => rs1 == id || rs2 == id,
            FInstr::X { .. } => false,
            FInstr::Y { rs1, .. } => rs1 == id,
            FInstr::W { rs1, rs2, .. } => rs1 == id || rs2 == id,
            FInstr::V { rs1, .. } => rs1 == id,
            FInstr::Flw { .. } => false,
            FInstr::Fsw { rs2, .. } => rs2 == id,
        },
        _ => false,
    }
}

pub fn reads_reg(instr: &DecodedInstr, id: &RegId) -> (b: bool)
    ensures
        b == spec_reads_reg(*instr, *id),
{
    match instr {
        Instr::R { rs1, rs2, .. } => rs1 == id || rs2 == id,
        Instr::I { rs1, .. } => rs1 == id,
        Instr::S { rs1, rs2, .. } => rs1 == id || rs2 == id,
        Instr::B { rs1, rs2, .. } => rs1 == id || rs2 == id,
        Instr::P { rs1, .. } => rs1 == id,
        Instr::J { .. } => false,
        Instr::IO(io) => match io {
            IOInstr::Outb { rs } => rs == id,
            IOInstr::Inw { .. } => false,
            IOInstr::Finw { .. } => false,
        },
        Instr::F(f) => match f {
            FInstr::X { rs1, .. } => rs1 == id,
            FInstr::Flw { rs1, .. } => rs1 == id,
            FInstr::Fsw { rs1, .. } => rs1 == id,
            _ => false,
        },
        Instr::Misc(_) => false,
    }
}

pub fn reads_freg(instr: &DecodedInstr, id: &FRegId) -> (b: bool)
    ensures
        b == spec_reads_freg(*instr, *id),
{
    match instr {
        Instr::F(f) => match f {
            FInstr::E { rs1, rs2, .. } => rs1 == id || rs2 == id,
            FInstr::G { rs1, rs2, rs3, .. } => rs1 == id || rs2 == id || rs3 == id,
            FInstr::H { rs1, .. } => rs1 == id,
            FInstr::K { rs1, rs2, .. } => rs1 == id || rs2 == id,
            FInstr::X { .. } => false,
            FInstr::Y { rs1, .. } => rs1 == id,
            FInstr::W { rs1, rs2, .. } => rs1 == id || rs2 == id,
            FInstr::V { rs1, .. } => rs1 == id,
            FInstr::Flw { .. } => false,
            FInstr::Fsw { rs2, .. } => rs2 == id,
        },
        _ => false,
    }
}

/// Whether `instr` reads a register that the instruction in `slot` writes.
pub open spec fn spec_hazard(slot: PipelineStat, instr: DecodedInstr) -> bool {
    (slot.write_back_id matches Some(id) && spec_reads_reg(instr, id)) || (
    slot.float_write_back_id matches Some(id) && spec_reads_freg(instr, id))
}

/// Cycles that `instr` waits for the instruction in the execute slot.
pub open spec fn spec_stall_with_ex(slot: Option<PipelineStat>, instr: DecodedInstr) -> usize {
    match slot {
        Some(s) => if spec_hazard(s, instr) {
            match s.result_ready_stage {
                Some(PipelineStage::WriteBack) => 2,
                Some(PipelineStage::MemoryAccess) => 1,
                _ => 0,
            }
        } else {
            0
        },
        None => 0,
    }
}

/// Cycles that `instr` waits for the instruction in the memory-access slot.
pub open spec fn spec_stall_with_ma(slot: Option<PipelineStat>, instr: DecodedInstr) -> usize {
    match slot {
        Some(s) => if spec_hazard(s, instr) {
            match s.result_ready_stage {
                Some(PipelineStage::WriteBack) => 1,
                _ => 0,
            }
        } else {
            0
        },
        None => 0,
    }
}

/// Cycles that `instr` stalls behind the instructions in flight: the larger
/// of what the execute slot and the memory-access slot ask for.
pub open spec fn spec_stall_cycles(pipeline: Seq<Option<PipelineStat>>, instr: DecodedInstr) -> usize {
    let ex = spec_stall_with_ex(pipeline[0], instr);
    let ma = spec_stall_with_ma(pipeline[1], instr);
    if ex >= ma {
        ex
    } else {
        ma
    }
}

/// Cycles that entering `slot` into the pipeline takes: the larger of the
/// cycles the newcomer spends in the execute stage and the cycles its
/// predecessor spends in memory access; an empty slot counts 1 for each.
pub open spec fn spec_push_cycles(pipeline: Seq<Option<PipelineStat>>, slot: Option<PipelineStat>) -> usize {
    let ex = match slot {
        Some(s) => s.ex_cycles,
        None => 1,
    };
    let ma = match pipeline[0] {
        Some(s) => s.ma_cycles,
        None => 1,
    };
    if ex >= ma {
        ex
    } else {
        ma
    }
}

/// The pipeline after `slot` has entered and the oldest slot has left.
pub open spec fn spec_push(pipeline: Seq<Option<PipelineStat>>, slot: Option<PipelineStat>) -> Seq<
    Option<PipelineStat>,
> {
    seq![slot] + pipeline.drop_last()
}

/// The pipeline after `count` empty slots have entered.
pub open spec fn spec_push_bubbles(pipeline: Seq<Option<PipelineStat>>, count: nat) -> Seq<
    Option<PipelineStat>,
>
    decreases count,
{
    if count == 0 {
        pipeline
    } else {
        spec_push(spec_push_bubbles(pipeline, (count - 1) as nat), None)
    }
}

/// Cycles that entering `count` empty slots takes.
pub open spec fn spec_bubble_cycles(pipeline: Seq<Option<PipelineStat>>, count: nat) -> int
    decreases count,
{
    if count == 0 {
        0
    } else {
        spec_bubble_cycles(pipeline, (count - 1) as nat) + spec_push_cycles(
            spec_push_bubbles(pipeline, (count - 1) as nat),
            None,
        )
    }
}

/// Whether word `addr` lies in fast on-chip memory: the bottom 16384 words
/// and the top 256 words of the memory.
pub open spec fn spec_use_bram(addr: usize) -> bool {
    !(BRAM_WORD_SIZE <= addr < RAM_BYTE_SIZE / 4 - STACK_WORD_SIZE)
}

pub fn use_bram(addr: usize) -> (b: bool)
    ensures
        b == spec_use_bram(addr),
{
    !(BRAM_WORD_SIZE <= addr && addr < RAM_BYTE_SIZE / 4 - STACK_WORD_SIZE)
}

/// Cycles of a memory access: 1 in on-chip memory, 2 on a cache hit, 90 on a miss.
pub open spec fn spec_access_cycles(use_bram: bool, cache_hit: bool) -> usize {
    if use_bram {
        1
    } else if cache_hit {
        2
    } else {
        DDR2_ACCESS_CYCLES
    }
}

/// The values that the sources of `instr` hold in `regs`.
pub open spec fn spec_fetched(regs: RegFileState, instr: DecodedInstr) -> FetchedInstr {
    match instr {
        Instr::R { instr, rd, rs1, rs2 } => Instr::R {
            instr,
            rd,
            rs1: regs.ints[rs1@],
            rs2: regs.ints[rs2@],
        },
        Instr::I { instr, rd, rs1, imm } => Instr::I { instr, rd, rs1: regs.ints[rs1@], imm },
        Instr::S { instr, rs1, rs2, imm } => Instr::S {
            instr,
            rs1: regs.ints[rs1@],
            rs2: regs.ints[rs2@],
            imm,
        },
        Instr::B { instr, rs1, rs2, imm } => Instr::B {
            instr,
            rs1: regs.ints[rs1@],
            rs2: regs.ints[rs2@],
            imm,
        },
        Instr::P { instr, rs1, imm, imm2 } => Instr::P { instr, rs1: regs.ints[rs1@], imm, imm2 },
        Instr::J { instr, rd, imm } => Instr::J { instr, rd, imm },
        Instr::IO(io) => Instr::IO(
            match io {
                IOInstr::Outb { rs } => IOInstr::Outb { rs: regs.ints[rs@] },
                IOInstr::Inw { rd } => IOInstr::Inw { rd },
                IOInstr::Finw { rd } => IOInstr::Finw { rd },
            },
        ),
        Instr::F(f) => Instr::F(
            match f {
                FInstr::E { instr, rd, rs1, rs2 } => FInstr::E {
                    instr,
                    rd,
                    rs1: regs.floats[rs1@],
                    rs2: regs.floats[rs2@],
                },
                FInstr::G { instr, rd, rs1, rs2, rs3 } => FInstr::G {
                    instr,
                    rd,
                    rs1: regs.floats[rs1@],
                    rs2: regs.floats[rs2@],
                    rs3: regs.floats[rs3@],
                },
                FInstr::H { instr, rd, rs1 } => FInstr::H { instr, rd, rs1: regs.floats[rs1@] },
                FInstr::K { instr, rd, rs1, rs2 } => FInstr::K {
                    instr,
                    rd,
                    rs1: regs.floats[rs1@],
                    rs2: regs.floats[rs2@],
                },
                FInstr::X { instr, rd, rs1 } => FInstr::X { instr, rd, rs1: regs.ints[rs1@] },
                FInstr::Y { instr, rd, rs1 } => FInstr::Y { instr, rd, rs1: regs.floats[rs1@] },
                FInstr::W { instr, rs1, rs2, imm } => FInstr::W {
                    instr,
                    rs1: regs.floats[rs1@],
                    rs2: regs.floats[rs2@],
                    imm,
                },
                FInstr::V { instr, rs1, imm } => FInstr::V { instr, rs1: regs.floats[rs1@], imm },
                FInstr::Flw { rd, rs1, imm } => FInstr::Flw { rd, rs1: regs.ints[rs1@], imm },
                FInstr::Fsw { rs2, rs1, imm } => FInstr::Fsw {
                    rs2: regs.floats[rs2@],
                    rs1: regs.ints[rs1@],
                    imm,
                },
            },
        ),
        Instr::Misc(m) => Instr::Misc(m),
    }
}

/// The register file after the sources of `instr` have been read: each read
/// is counted, in the order in which the instruction names its sources.
pub open spec fn spec_after_fetch(regs: RegFileState, instr: DecodedInstr) -> RegFileState {
    match instr {
        Instr::R { rs1, rs2, .. } => regs.after_get(rs1@).after_get(rs2@),
        Instr::I { rs1, .. } => regs.after_get(rs1@),
        Instr::S { rs1, rs2, .. } => regs.after_get(rs1@).after_get(rs2@),
        Instr::B { rs1, rs2, .. } => regs.after_get(rs1@).after_get(rs2@),
        Instr::P { rs1, .. } => regs.after_get(rs1@),
        Instr::J { .. } => regs,
        Instr::IO(io) => match io {
            IOInstr::Outb { rs } => regs.after_get(rs@),
            _ => regs,
        },
        Instr::F(f) => match f {
            FInstr::E { rs1, rs2, .. } => regs.after_get_f(rs1@).after_get_f(rs2@),
            FInstr::G { rs1, rs2, rs3, .. } => regs.after_get_f(rs1@).after_get_f(rs2@).after_get_f(
                rs3@,
            ),
            FInstr::H { rs1, .. } => regs.after_get_f(rs1@),
            FInstr::K { rs1, rs2, .. } => regs.after_get_f(rs1@).after_get_f(rs2@),
            FInstr::X { rs1, .. } => regs.after_get(rs1@),
            FInstr::Y { rs1, .. } => regs.after_get_f(rs1@),
            FInstr::W { rs1, rs2, .. } => regs.after_get_f(rs1@).after_get_f(rs2@),
            FInstr::V { rs1, .. } => regs.after_get_f(rs1@),
            FInstr::Flw { rs1, .. } => regs.after_get(rs1@),
            FInstr::Fsw { rs2, rs1, .. } => regs.after_get_f(rs2@).after_get(rs1@),
        },
        Instr::Misc(_) => regs,
    }
}

/// What a processor holds, as plain values.
pub struct CpuState {
    pub dialect: Dialect,
    pub regs: RegFileState,
    pub mem: MemoryView,
    /// The tag in each line of the cache.
    pub cache: Seq<u32>,
    /// The program counter.
    pub pc: u32,
    /// The counters of the branch predictor.
    pub predictor: Seq<SaturatingCounter>,
    /// The instructions in flight, the youngest first.
    pub pipeline: Seq<Option<PipelineStat>>,
    /// How often each operation was executed, by instruction identifier.
    pub executed: Seq<usize>,
    /// How many instructions were executed in all.
    pub retired: usize,
    pub b_stat: BranchStat,
    pub c_stat: CacheStat,
    /// The bytes that the output device has taken.
    pub output: Seq<u8>,
}

/// What the memory-access stage did.
pub struct MemoryAccessStep {
    pub state: CpuState,
    pub result: Result<MemoryAccessOutput, RuntimeError>,
    pub spied: Option<SpyResult>,
}

/// What a cycle did.
pub struct CycleStep {
    pub state: CpuState,
    pub result: Result<CycleResult, RuntimeError>,
}

impl CpuState {
    /// Every part has its size, the memory classifies regions as the
    /// register file does, and no instruction in flight takes longer than
    /// the slowest instruction and the slowest memory access.
    pub open spec fn structural(self) -> bool {
        &&& self.regs.wf()
        &&& self.mem.wf(RAM_BYTE_SIZE)
        &&& self.mem.region == self.regs.region
        &&& self.cache.len() == CACHE_NUM_LINES
        &&& self.predictor.len() == NUM_COUNTERS
        &&& self.pipeline.len() == PIPELINE_DEPTH
        &&& self.executed.len() == INSTR_ID_MAX
        &&& forall|k: int|
            0 <= k < PIPELINE_DEPTH ==> (#[trigger] self.pipeline[k] matches Some(s) ==> s.ex_cycles
                <= 11 && s.ma_cycles <= DDR2_ACCESS_CYCLES)
    }

    /// No counter of the statistics exceeds the number of instructions executed.
    pub open spec fn counted(self) -> bool {
        &&& forall|i: int| 0 <= i < INSTR_ID_MAX ==> #[trigger] self.executed[i] <= self.retired
        &&& self.b_stat.total() <= self.retired
        &&& self.c_stat.total() <= self.retired
    }

    pub open spec fn wf(self) -> bool {
        self.structural() && self.counted()
    }

    /// `later` has counted the same instructions and branches as `self`,
    /// and at most `accesses` more accesses to the cache.
    pub open spec fn same_counts(self, later: CpuState, accesses: int) -> bool {
        &&& later.executed == self.executed
        &&& later.retired == self.retired
        &&& later.b_stat == self.b_stat
        &&& self.c_stat.total() <= later.c_stat.total() <= self.c_stat.total() + accesses
        &&& later.dialect == self.dialect
    }

    /// The word that a fetch at the program counter delivers.
    pub open spec fn fetch_result(self) -> Result<u32, MemoryAccessError> {
        if self.mem.instr_word(self.pc as int) {
            Ok(word_at(self.mem.bytes, self.pc as int))
        } else {
            Err(MemoryAccessError::PcOutOfBounds { pc_address: self.pc as usize })
        }
    }

    /// What the predictor says of a branch, asked with the program counter
    /// as it is while the branch executes: already behind the branch.
    pub open spec fn predicted(self) -> bool {
        self.predictor[self.pc as int % NUM_COUNTERS as int].spec_taken()
    }

    /// After a branch with the given outcome trained the predictor and was counted.
    pub open spec fn after_branch(self, taken: bool) -> Self {
        CpuState {
            predictor: self.predictor.update(
                self.pc as int % NUM_COUNTERS as int,
                self.predictor[self.pc as int % NUM_COUNTERS as int].observe(taken),
            ),
            b_stat: self.b_stat.spec_update(self.predicted(), taken),
            ..self
        }
    }

    /// After the output device has taken what `instr` hands to it: the low
    /// byte of the source of an output instruction.
    pub open spec fn after_output(self, instr: FetchedInstr) -> Self {
        match spec_outside_request(instr) {
            OutsideRequest::Outb(c) => CpuState { output: self.output.push(c), ..self },
            _ => self,
        }
    }

    /// After the execute stage: only a conditional branch leaves a trace.
    pub open spec fn after_execute(self, instr: FetchedInstr) -> Self {
        match spec_branch(instr) {
            Some(taken) => self.after_branch(taken),
            None => self,
        }
    }

    /// After control was committed to `new_pc`, if the instruction set one.
    pub open spec fn after_commit(self, new_pc: Option<usize>) -> Self {
        match new_pc {
            Some(target) => CpuState { pc: target as u32, ..self },
            None => self,
        }
    }

    /// The memory-access stage: the access goes through the cache unless the
    /// word lies in on-chip memory; then the memory is read or written; a
    /// completed access through the cache is counted as hit or miss.
    #[verifier::opaque]
    pub open spec fn memory_access(
        self,
        ma_in: MemoryAccessInput,
        spied: Option<SpyResult>,
    ) -> MemoryAccessStep {
        let addr = match ma_in {
            MemoryAccessInput::I { addr, .. } => addr,
            MemoryAccessInput::F { addr, .. } => addr,
            MemoryAccessInput::IMem { addr, .. } => addr,
            MemoryAccessInput::FMem { addr, .. } => addr,
        };
        let bram = spec_use_bram(addr);
        let hit = !bram && self.cache[spec_line(addr, CACHE_NUM_LINES)] == spec_tag(
            addr,
            CACHE_NUM_LINES,
        ) as usize as u32;
        let cache = if bram {
            self.cache
        } else {
            self.cache.update(
                spec_line(addr, CACHE_NUM_LINES),
                spec_tag(addr, CACHE_NUM_LINES) as usize as u32,
            )
        };
        let c_stat = if bram {
            self.c_stat
        } else {
            self.c_stat.spec_update(hit)
        };
        let cycles = spec_access_cycles(bram, hit);
        let failed = |e: MemoryAccessError|
            MemoryAccessStep {
                state: CpuState { cache, ..self },
                result: Err(RuntimeError::MemoryAccessError(e)),
                spied,
            };
        let done = |mem: MemoryView, wb_in: Option<WriteBackInput>, spied: Option<SpyResult>|
            MemoryAccessStep {
                state: CpuState { cache, c_stat, mem, ..self },
                result: Ok(MemoryAccessOutput { cycles, cache_hit: hit, use_bram: bram, wb_in }),
                spied,
            };
        match ma_in {
            MemoryAccessInput::I { addr, val } => match self.mem.write_result(addr) {
                Ok(_) => done(
                    self.mem.after_write(addr, val, Ty::I32OrUsize),
                    None,
                    self.mem.spied_write(addr, TypedU32 { ty: Ty::I32OrUsize, value: val }, spied),
                ),
                Err(e) => failed(e),
            },
            MemoryAccessInput::F { addr, val } => match self.mem.write_result(addr) {
                Ok(_) => done(
                    self.mem.after_write(addr, val, Ty::F32),
                    None,
                    self.mem.spied_write(addr, TypedU32 { ty: Ty::F32, value: val }, spied),
                ),
                Err(e) => failed(e),
            },
            MemoryAccessInput::IMem { id, addr } => match self.mem.read_result(
                addr,
                Ty::I32OrUsize,
            ) {
                Ok(v) => done(
                    self.mem.after_read(addr, Ty::I32OrUsize),
                    Some(WriteBackInput::I { id, val: v.value }),
                    self.mem.spied_read(addr, spied),
                ),
                Err(e) => failed(e),
            },
            MemoryAccessInput::FMem { id, addr } => match self.mem.read_result(addr, Ty::F32) {
                Ok(v) => done(
                    self.mem.after_read(addr, Ty::F32),
                    Some(WriteBackInput::F { id, val: v.value }),
                    self.mem.spied_read(addr, spied),
                ),
                Err(e) => failed(e),
            },
        }
    }

    /// After the write-back stage wrote a register. The memory learns of a
    /// new stack pointer at once.
    pub open spec fn after_write_back(self, wb_in: WriteBackInput) -> Self {
        let regs = match wb_in {
            WriteBackInput::I { id, val } => self.regs.after_set(id@, val),
            WriteBackInput::F { id, val } => self.regs.after_set_f(id@, val),
        };
        CpuState { regs, mem: MemoryView { region: regs.region, ..self.mem }, ..self }
    }

    /// The last part of a cycle: the register is written and the pipeline
    /// takes the instruction in, behind the bubbles of its stall and before
    /// the two bubbles of a flush.
    #[verifier::opaque]
    pub open spec fn retire(
        self,
        trace: Option<ExecutionTrace>,
        instr: DecodedInstr,
        out: ExecuteOutput,
        ma_out: Option<MemoryAccessOutput>,
        spied: Option<SpyResult>,
    ) -> CycleStep {
        let loaded = ma_out matches Some(m) && m.wb_in is Some;
        let wb_in = if loaded {
            ma_out->0.wb_in
        } else {
            out.wb_in
        };
        let written = match wb_in {
            Some(wb) => self.after_write_back(wb),
            None => self,
        };
        let slot = PipelineStat {
            ex_cycles: out.cycles,
            ma_cycles: match ma_out {
                Some(m) => m.cycles,
                None => 1,
            },
            result_ready_stage: Some(
                if loaded {
                    if ma_out->0.use_bram {
                        PipelineStage::WriteBack
                    } else {
                        PipelineStage::MemoryAccess
                    }
                } else if out.use_fpu {
                    PipelineStage::MemoryAccess
                } else {
                    PipelineStage::Execute
                },
            ),
            write_back_id: match wb_in {
                Some(WriteBackInput::I { id, .. }) => Some(id),
                _ => None,
            },
            float_write_back_id: match wb_in {
                Some(WriteBackInput::F { id, .. }) => Some(id),
                _ => None,
            },
        };
        let stall = spec_stall_cycles(written.pipeline, instr) as nat;
        let stalled = spec_push_bubbles(written.pipeline, stall);
        let stall_cycles = spec_bubble_cycles(written.pipeline, stall);
        let entered = spec_push(stalled, Some(slot));
        let entry_cycles = spec_push_cycles(stalled, Some(slot));
        let bubbles: nat = if out.flush {
            2
        } else {
            0
        };
        let flushed = spec_push_bubbles(entered, bubbles);
        let flush_cycles = spec_bubble_cycles(entered, bubbles);
        CycleStep {
            state: CpuState { pipeline: flushed, ..written },
            result: Ok(
                CycleResult {
                    cycles: (stall_cycles + entry_cycles + flush_cycles) as usize,
                    trace,
                    flow: match spied {
                        Some(s) => ControlFlow::Break(BreakReason::Spy(s)),
                        None => ControlFlow::Continue,
                    },
                },
            ),
        }
    }

    /// The part of a cycle behind the execute stage: control is committed,
    /// then memory is accessed, then the instruction retires.
    #[verifier::opaque]
    pub open spec fn finish(
        self,
        trace: Option<ExecutionTrace>,
        instr: DecodedInstr,
        out: ExecuteOutput,
    ) -> CycleStep {
        let committed = self.after_commit(out.new_pc);
        match out.ma_in {
            Some(ma_in) => {
                let step = committed.memory_access(ma_in, None);
                match step.result {
                    Ok(ma_out) => step.state.retire(trace, instr, out, Some(ma_out), step.spied),
                    Err(e) => CycleStep { state: step.state, result: Err(e) },
                }
            },
            None => committed.retire(trace, instr, out, None, None),
        }
    }

    /// The part of a cycle behind the decoder, for the instruction `instr`
    /// that was fetched as the word `bin` from address `old_pc`.
    pub open spec fn run(
        self,
        do_trace: bool,
        old_pc: u32,
        bin: u32,
        instr: DecodedInstr,
        outside: Result<u32, IoError>,
    ) -> CycleStep {
        let trace = if do_trace {
            Some(ExecutionTrace { pc: Pc(old_pc), undecoded_instr: bin, decoded_instr: instr })
        } else {
            None
        };
        let id = instr.spec_id(self.dialect)->0;
        let counted = CpuState {
            executed: self.executed.update(id, (self.executed[id] + 1) as usize),
            retired: (self.retired + 1) as usize,
            regs: spec_after_fetch(self.regs, instr),
            ..self
        };
        let fetched = spec_fetched(self.regs, instr);
        if fetched is IO && outside is Err {
            CycleStep { state: counted, result: Err(RuntimeError::Io(outside->Err_0)) }
        } else {
            let counted = counted.after_output(fetched);
            let value = match outside {
                Ok(v) => v,
                Err(_) => 0,
            };
            let out = spec_execute(
                self.dialect,
                fetched,
                old_pc,
                self.pc,
                counted.predicted(),
                value,
            );
            let executed = counted.after_execute(fetched);
            if out.end {
                CycleStep {
                    state: executed,
                    result: Ok(CycleResult { cycles: 0, trace, flow: ControlFlow::Exit }),
                }
            } else {
                executed.finish(trace, instr, out)
            }
        }
    }

    /// One cycle, where `outside` is what the float backend or the input or
    /// output device answers if the instruction asks one of them; what it
    /// asks is told by `spec_outside_request` of the instruction with the
    /// values of its sources.
    ///
    /// A failed fetch changes nothing. Once the fetch has succeeded the
    /// program counter has moved on by 4, whatever follows.
    pub open spec fn cycle(self, do_trace: bool, outside: Result<u32, IoError>) -> CycleStep {
        match self.fetch_result() {
            Err(e) => CycleStep { state: self, result: Err(RuntimeError::MemoryAccessError(e)) },
            Ok(bin) => {
                let fetched = CpuState { pc: (self.pc + 4) as u32, ..self };
                match spec_decode_in(self.dialect, bin) {
                    Err(e) => CycleStep {
                        state: fetched,
                        result: Err(RuntimeError::DecodeError(e)),
                    },
                    Ok(instr) => fetched.run(do_trace, self.pc, bin, instr, outside),
                }
            },
        }
    }
}

/// The processor. `I` and `O` are its input and output devices, `F` the
/// arithmetic backend of its float unit.
pub struct Cpu<I, O, F> {
    reg_file: RegFile,
    memory: Memory<RAM_BYTE_SIZE>,
    cache: Cache<CACHE_NUM_LINES>,
    pc: Pc,
    input: I,
    output: O,
    fpu: F,
    dialect: Dialect,
    branch_predictor: BranchPredictor<NUM_COUNTERS>,
    pipeline_state: VecDeque<Option<PipelineStat>>,
    i_stat: InstrStat,
    c_stat: CacheStat,
    b_stat: BranchStat,
}

/// The little-endian word that starts at byte `index` of a program image.
pub open spec fn image_word(mem: Seq<u8>, index: int) -> u32 {
    word_at(mem, index)
}

/// Whether `mem` is a program image that fits the memory: it has the two
/// words of the header, its bytes behind the header fit, and so do the data
/// and text sections that the header announces.
pub open spec fn image_fits(mem: Seq<u8>) -> bool {
    &&& mem.len() >= 8
    &&& mem.len() - 8 <= RAM_BYTE_SIZE
    &&& 4 * (image_word(mem, 0) + image_word(mem, 4)) <= RAM_BYTE_SIZE
}

/// The state in which a processor starts on the image `mem`: the image
/// behind its header lies at the bottom of the memory, the text section is
/// the instruction region and the program counter stands at its start; the
/// stack pointer is the last word of the memory, the heap pointer the first
/// word behind the text, and float register 1 holds 1.0. `written` is what
/// the output device has taken before.
pub open spec fn initial_state(mem: Seq<u8>, dialect: Dialect, written: Seq<u8>) -> CpuState {
    let data_len = image_word(mem, 0);
    let text_len = image_word(mem, 4);
    let hp = (data_len + text_len) as u32;
    let sp = (RAM_BYTE_SIZE / 4 - 1) as u32;
    let region = MemoryRegionStatBuilder { hp_min: hp, sp_min: sp, sp_max: sp };
    let zeros = Seq::new(crate::register::MAX_REG_ID as nat, |i: int| 0u32);
    CpuState {
        dialect,
        regs: RegFileState {
            ints: zeros.update(4, hp).update(2, sp),
            floats: zeros.update(1, FLOAT_ONE),
            region,
            stat_i: crate::reg_file::RegFileCounts::zero(),
            stat_f: crate::reg_file::RegFileCounts::zero().after_write(1),
        },
        mem: MemoryView {
            bytes: mem.skip(8) + Seq::new(RAM_BYTE_SIZE as nat, |i: int| 0xCCu8).subrange(
                mem.len() - 8,
                RAM_BYTE_SIZE as int,
            ),
            tags: Seq::new((RAM_BYTE_SIZE / 4) as nat, |i: int| Ty::Unknown),
            instr_begin: 4 * data_len,
            instr_end: 4 * data_len + 4 * text_len,
            on_read: Map::empty(),
            on_write: Map::empty(),
            stat: MemoryStat {
                write: crate::memory::MemoryRegionCount { data_section: 0, heap: 0, stack: 0 },
                read: crate::memory::MemoryRegionCount { data_section: 0, heap: 0, stack: 0 },
            },
            region,
        },
        cache: Seq::new(CACHE_NUM_LINES as nat, |i: int| 0u32),
        pc: (4 * data_len) as u32,
        predictor: Seq::new(NUM_COUNTERS as nat, |i: int| SaturatingCounter::WeaklyTaken),
        pipeline: Seq::new(PIPELINE_DEPTH as nat, |i: int| None::<PipelineStat>),
        executed: Seq::new(INSTR_ID_MAX as nat, |i: int| 0usize),
        retired: 0,
        b_stat: BranchStat {
            taken_pred_taken_count: 0,
            taken_pred_untaken_count: 0,
            untaken_pred_taken_count: 0,
            untaken_pred_untaken_count: 0,
        },
        c_stat: CacheStat { hit_count: 0, miss_count: 0 },
        output: written,
    }
}

fn read_image_word(mem: &[u8], index: usize) -> (w: u32)
    requires
        index + 4 <= mem@.len(),
    ensures
        w == image_word(mem@, index as int),
{
    let len = mem.len();
    let b0: u32 = mem[index] as u32;
    let b1: u32 = mem[index + 1] as u32;
    let b2: u32 = mem[index + 2] as u32;
    let b3: u32 = mem[index + 3] as u32;
    b0 + 0x100 * b1 + 0x1_0000 * b2 + 0x100_0000 * b3
}

impl<I: Input, O: Output, F: Fpu> Cpu<I, O, F> {
    pub closed spec fn view(&self) -> CpuState {
        CpuState {
            dialect: self.dialect,
            regs: self.reg_file@,
            mem: self.memory@,
            cache: self.cache@,
            pc: self.pc.0,
            predictor: self.branch_predictor@,
            pipeline: self.pipeline_state@,
            executed: self.i_stat@,
            retired: self.i_stat.spec_total(),
            b_stat: self.b_stat,
            c_stat: self.c_stat,
            output: self.output.written(),
        }
    }

    pub open spec fn wf(&self) -> bool {
        self@.wf()
    }

    /// The numbers of data words and of instruction words that the header of
    /// a program image announces.
    pub fn get_data_and_text_len(mem: &[u8]) -> (r: (u32, u32))
        requires
            mem@.len() >= 8,
        ensures
            r.0 == image_word(mem@, 0),
            r.1 == image_word(mem@, 4),
    {
        (read_image_word(mem, 0), read_image_word(mem, 4))
    }

    /// A processor that is about to run the program image `mem`.
    pub fn new(mem: &[u8], input: I, output: O, fpu: F, dialect: Dialect) -> (r: Result<
        Self,
        InputError,
    >)
        ensures
            match r {
                Ok(cpu) => image_fits(mem@) && cpu.wf() && cpu@ == initial_state(
                    mem@,
                    dialect,
                    output.written(),
                ),
                Err(e) => !image_fits(mem@) && e == InputError::BadImage,
            },
    {
        if mem.len() < 8 || mem.len() - 8 > RAM_BYTE_SIZE {
            return Err(InputError::BadImage);
        }
        let (data_len, text_len) = Self::get_data_and_text_len(mem);
        if (data_len as u64 + text_len as u64) * 4 > RAM_BYTE_SIZE as u64 {
            return Err(InputError::BadImage);
        }
        let mut reg_file = RegFile::new();
        reg_file.set_hp(data_len + text_len);
        reg_file.set_sp((RAM_BYTE_SIZE / 4) as u32 - 1);
        reg_file.set_f(FRegId::try_new(1).unwrap(), FLOAT_ONE);
        reg_file.end_init();
        let mut memory = Memory::<RAM_BYTE_SIZE>::new(reg_file.mem_region());
        let text_begin: u32 = data_len * 4;
        let text_end: u32 = text_begin + text_len * 4;
        memory.init_from_slice(slice_subrange(mem, 8, mem.len()), text_begin..text_end);
        let mut pipeline_state: VecDeque<Option<PipelineStat>> = VecDeque::new();
        pipeline_state.push_back(None);
        pipeline_state.push_back(None);
        pipeline_state.push_back(None);
        pipeline_state.push_back(None);
        pipeline_state.push_back(None);
        let cpu = Self {
            reg_file,
            memory,
            cache: Cache::<CACHE_NUM_LINES>::new(),
            pc: Pc::new(text_begin),
            input,
            output,
            fpu,
            dialect,
            branch_predictor: BranchPredictor::<NUM_COUNTERS>::new(),
            pipeline_state,
            i_stat: InstrStat::new(),
            c_stat: CacheStat::default(),
            b_stat: BranchStat::default(),
        };
        proof {
            let init = initial_state(mem@, dialect, output.written());
            assert(cpu@.regs.ints =~= init.regs.ints);
            assert(cpu@.regs.floats =~= init.regs.floats);
            assert(cpu@.regs.stat_f.write =~= init.regs.stat_f.write);
            assert(cpu@.regs.stat_f.read =~= init.regs.stat_f.read);
            assert(cpu@.regs.stat_i.write =~= init.regs.stat_i.write);
            assert(cpu@.regs.stat_i.read =~= init.regs.stat_i.read);
            assert(cpu@.mem.bytes =~= init.mem.bytes);
            assert(cpu@.pipeline =~= init.pipeline);
            assert(cpu@.regs == init.regs);
            assert(cpu@.mem == init.mem);
        }
        Ok(cpu)
    }

    /// Takes the processor apart and hands out its output device.
    pub fn into_output(self) -> (o: CpuOutput<O>)
        ensures
            o.value == self.spec_output(),
            o.value.written() == self@.output,
    {
        CpuOutput { value: self.output }
    }

    /// The output device.
    pub closed spec fn spec_output(self) -> O {
        self.output
    }

    pub fn get_pc(&self) -> (pc: Pc)
        ensures
            pc@ == self@.pc,
    {
        self.pc
    }

    pub fn get_pc_addr(&self) -> (a: Addr)
        ensures
            a@ == self@.pc,
    {
        self.pc.into_addr()
    }

    pub fn dialect(&self) -> (d: Dialect)
        ensures
            d == self@.dialect,
    {
        self.dialect
    }

    /// The statistics of the branches.
    pub fn b_stat(&self) -> (s: BranchStat)
        ensures
            s == self@.b_stat,
    {
        self.b_stat
    }

    /// The statistics of the cache.
    pub fn c_stat(&self) -> (s: CacheStat)
        ensures
            s == self@.c_stat,
    {
        self.c_stat
    }

    /// How often the operation with identifier `id` was executed.
    pub fn executed(&self, id: u8) -> (n: usize)
        requires
            self.wf(),
            id < INSTR_ID_MAX,
        ensures
            n == self@.executed[id as int],
    {
        self.i_stat.count(id)
    }

    /// How many instructions were executed.
    pub fn retired(&self) -> (n: usize)
        ensures
            n == self@.retired,
    {
        self.i_stat.total()
    }

    /// The access counts of the memory.
    pub fn memory_stat(&self) -> (s: MemoryStat)
        ensures
            s == self@.mem.stat,
    {
        self.memory.stat()
    }

    /// The extent of heap and stack so far.
    pub fn region_stat(&self) -> (s: MemoryRegionStat)
        requires
            self.wf(),
        ensures
            s == (MemoryRegionStat {
                hp_min: self@.regs.region.hp_min,
                hp_max: self@.regs.ints[4],
                sp_min: self@.regs.region.sp_min,
                sp_max: self@.regs.region.sp_max,
            }),
    {
        self.reg_file.region_stat()
    }

    /// The counts of the executed operations.
    pub fn i_stat(&self) -> (s: &InstrStat)
        requires
            self.wf(),
        ensures
            s.wf(),
            s@ == self@.executed,
            s.spec_total() == self@.retired,
    {
        &self.i_stat
    }

    /// The counts of reads and writes of all registers.
    pub fn reg_stat(&self) -> (s: RegFileAllStat)
        requires
            self.wf(),
        ensures
            s.i.wf(),
            s.f.wf(),
            s.i@ == self@.regs.stat_i,
            s.f@ == self@.regs.stat_f,
    {
        self.reg_file.all_stat()
    }

    /// A listing of the registers of kind `k`, in lines of `chunk_size`
    /// registers.
    pub fn get_regfile_view(&self, k: ShowRegFileKind, chunk_size: usize) -> (v: RegFileView<'_>)
        requires
            self.wf(),
            chunk_size > 0,
        ensures
            v.spec_regs() == self@.regs,
            v.spec_kind() == k,
            v.spec_chunk_size() == chunk_size,
            v.spec_dialect() == self@.dialect,
    {
        self.reg_file.get_view(k, chunk_size, self.dialect)
    }

    /// The state of the predictor's counter for the branch behind which the
    /// program counter `pc` stands.
    pub fn predictor_state(&self, pc: Pc) -> (s: SaturatingCounter)
        requires
            self.wf(),
        ensures
            s == self@.predictor[pc@ % NUM_COUNTERS as int],
    {
        self.branch_predictor.state(pc.into_usize())
    }

    /// Fetches the word at the program counter and moves the counter on.
    pub fn instr_fetch(&mut self) -> (r: Result<InstrFetchOutput, RuntimeError>)
        requires
            old(self)@.structural(),
        ensures
            match r {
                Ok(out) => old(self)@.fetch_result() == Ok::<u32, MemoryAccessError>(out.id_in.bin)
                    && out.old_pc@ == old(self)@.pc && out.pc_plus4@ == old(self)@.pc + 4
                    && final(self)@ == (CpuState { pc: (old(self)@.pc + 4) as u32, ..old(self)@ }),
                Err(e) => old(self)@.fetch_result() matches Err(m) && e
                    == RuntimeError::MemoryAccessError(m) && final(self)@ == old(self)@,
            },
    {
        let old_pc = self.pc;
        let bin = match self.memory.get_from_pc(old_pc) {
            Ok(bin) => bin,
            Err(e) => {
                return Err(RuntimeError::MemoryAccessError(e));
            },
        };
        self.pc.incr();
        let pc_plus4 = self.pc;
        Ok(InstrFetchOutput { id_in: InstrDecodeInput { bin }, old_pc, pc_plus4 })
    }

    /// Decodes a fetched word in the encoding of the processor.
    pub fn instr_decode(&self, id_in: &InstrDecodeInput) -> (r: Result<DecodedInstr, RuntimeError>)
        ensures
            match r {
                Ok(instr) => spec_decode_in(self@.dialect, id_in.bin) == Ok::<
                    DecodedInstr,
                    DecodeError,
                >(instr),
                Err(e) => spec_decode_in(self@.dialect, id_in.bin) matches Err(d) && e
                    == RuntimeError::DecodeError(d),
            },
    {
        match DecodedInstr::decode_in(self.dialect, id_in.bin) {
            Ok(instr) => Ok(instr),
            Err(e) => Err(RuntimeError::DecodeError(e)),
        }
    }

    /// Reads the sources of the instruction from the register file.
    pub fn reg_fetch(&mut self, rf_in: RegFetchInput) -> (ex_in: ExecuteInput)
        requires
            old(self)@.structural(),
        ensures
            final(self)@.structural(),
            ex_in.instr == spec_fetched(old(self)@.regs, rf_in.instr),
            ex_in.old_pc == rf_in.old_pc,
            ex_in.pc_plus4 == rf_in.pc_plus4,
            final(self)@ == (CpuState {
                regs: spec_after_fetch(old(self)@.regs, rf_in.instr),
                ..old(self)@
            }),
    {
        let RegFetchInput { instr, old_pc, pc_plus4 } = rf_in;
        let instr: FetchedInstr = match instr {
            Instr::R { instr, rd, rs1, rs2 } => {
                let rs1 = self.reg_file.get(rs1);
                let rs2 = self.reg_file.get(rs2);
                Instr::R { instr, rd, rs1, rs2 }
            },
            Instr::I { instr, rd, rs1, imm } => Instr::I {
                instr,
                rd,
                rs1: self.reg_file.get(rs1),
                imm,
            },
            Instr::S { instr, rs1, rs2, imm } => {
                let rs1 = self.reg_file.get(rs1);
                let rs2 = self.reg_file.get(rs2);
                Instr::S { instr, rs1, rs2, imm }
            },
            Instr::B { instr, rs1, rs2, imm } => {
                let rs1 = self.reg_file.get(rs1);
                let rs2 = self.reg_file.get(rs2);
                Instr::B { instr, rs1, rs2, imm }
            },
            Instr::P { instr, rs1, imm, imm2 } => Instr::P {
                instr,
                rs1: self.reg_file.get(rs1),
                imm,
                imm2,
            },
            Instr::J { instr, rd, imm } => Instr::J { instr, rd, imm },
            Instr::IO(io) => Instr::IO(
                match io {
                    IOInstr::Outb { rs } => IOInstr::Outb { rs: self.reg_file.get(rs) },
                    IOInstr::Inw { rd } => IOInstr::Inw { rd },
                    IOInstr::Finw { rd } => IOInstr::Finw { rd },
                },
            ),
            Instr::F(f) => Instr::F(
                match f {
                    FInstr::E { instr, rd, rs1, rs2 } => {
                        let rs1 = self.reg_file.get_f(rs1);
                        let rs2 = self.reg_file.get_f(rs2);
                        FInstr::E { instr, rd, rs1, rs2 }
                    },
                    FInstr::G { instr, rd, rs1, rs2, rs3 } => {
                        let rs1 = self.reg_file.get_f(rs1);
                        let rs2 = self.reg_file.get_f(rs2);
                        let rs3 = self.reg_file.get_f(rs3);
                        FInstr::G { instr, rd, rs1, rs2, rs3 }
                    },
                    FInstr::H { instr, rd, rs1 } => FInstr::H {
                        instr,
                        rd,
                        rs1: self.reg_file.get_f(rs1),
                    },
                    FInstr::K { instr, rd, rs1, rs2 } => {
                        let rs1 = self.reg_file.get_f(rs1);
                        let rs2 = self.reg_file.get_f(rs2);
                        FInstr::K { instr, rd, rs1, rs2 }
                    },
                    FInstr::X { instr, rd, rs1 } => FInstr::X {
                        instr,
                        rd,
                        rs1: self.reg_file.get(rs1),
                    },
                    FInstr::Y { instr, rd, rs1 } => FInstr::Y {
                        instr,
                        rd,
                        rs1: self.reg_file.get_f(rs1),
                    },
                    FInstr::W { instr, rs1, rs2, imm } => {
                        let rs1 = self.reg_file.get_f(rs1);
                        let rs2 = self.reg_file.get_f(rs2);
                        FInstr::W { instr, rs1, rs2, imm }
                    },
                    FInstr::V { instr, rs1, imm } => FInstr::V {
                        instr,
                        rs1: self.reg_file.get_f(rs1),
                        imm,
                    },
                    FInstr::Flw { rd, rs1, imm } => FInstr::Flw {
                        rd,
                        rs1: self.reg_file.get(rs1),
                        imm,
                    },
                    FInstr::Fsw { rs2, rs1, imm } => {
                        let rs2 = self.reg_file.get_f(rs2);
                        let rs1 = self.reg_file.get(rs1);
                        FInstr::Fsw { rs2, rs1, imm }
                    },
                },
            ),
            Instr::Misc(m) => Instr::Misc(m),
        };
        ExecuteInput { instr, old_pc, pc_plus4 }
    }
}

impl<I: Input, O: Output, F: Fpu> Cpu<I, O, F> {
    /// Asks the outside for what `request` says: a device, or the arithmetic
    /// backend of the float unit. Only a device can refuse. A request for
    /// nothing, and an output that succeeds, give 0.
    fn perform(&mut self, request: OutsideRequest) -> (r: Result<u32, IoError>)
        ensures
            final(self)@ == (match request {
                OutsideRequest::Outb(c) => if r is Ok {
                    CpuState { output: old(self)@.output.push(c), ..old(self)@ }
                } else {
                    old(self)@
                },
                _ => old(self)@,
            }),
            r is Err ==> request is Outb || request is Inw || request is Finw,
    {
        match request {
            OutsideRequest::Nothing => Ok(0),
            OutsideRequest::Outb(c) => match self.output.outb(c) {
                Ok(_) => Ok(0),
                Err(e) => Err(e),
            },
            OutsideRequest::Inw => self.input.inw(),
            OutsideRequest::Finw => self.input.finw(),
            OutsideRequest::Fadd(a, b) => Ok(self.fpu.fadd(a, b)),
            OutsideRequest::Fsub(a, b) => Ok(self.fpu.fsub(a, b)),
            OutsideRequest::Fmul(a, b) => Ok(self.fpu.fmul(a, b)),
            OutsideRequest::Fdiv(a, b) => Ok(self.fpu.fdiv(a, b)),
            OutsideRequest::MulAdd(a, b, c) => {
                let product = self.fpu.fmul(a, b);
                Ok(self.fpu.fadd(product, c))
            },
            OutsideRequest::MulSub(a, b, c) => {
                let product = self.fpu.fmul(a, b);
                Ok(self.fpu.fsub(product, c))
            },
            OutsideRequest::Fsqrt(a) => Ok(self.fpu.fsqrt(a)),
            OutsideRequest::Fhalf(a) => Ok(self.fpu.fhalf(a)),
            OutsideRequest::Ffloor(a) => Ok(self.fpu.ffloor(a)),
            OutsideRequest::Ffrac(a) => Ok(self.fpu.ffrac(a)),
            OutsideRequest::Finv(a) => Ok(self.fpu.finv(a)),
            OutsideRequest::Fcvtsw(a) => Ok(self.fpu.fcvtsw(a)),
            OutsideRequest::Fcvtws(a) => Ok(unsigned(self.fpu.fcvtws(a))),
        }
    }

    /// Asks the outside for what the instruction needs; see
    /// `spec_outside_request` for what it asks.
    fn outside_value(&mut self, instr: &FetchedInstr) -> (r: Result<u32, IoError>)
        ensures
            final(self)@ == (if r is Ok {
                old(self)@.after_output(*instr)
            } else {
                old(self)@
            }),
            r is Err ==> *instr is IO,
    {
        self.perform(outside_request(instr))
    }

    /// The execute stage, once the outside has answered with `outside`: a
    /// conditional branch asks the predictor, trains it and is counted; then
    /// the result of the instruction is computed.
    fn execute_on(&mut self, ex_in: ExecuteInput, outside: u32) -> (out: ExecuteOutput)
        requires
            old(self)@.structural(),
            old(self)@.b_stat.total() < usize::MAX,
        ensures
            final(self)@.structural(),
            final(self)@ == old(self)@.after_execute(ex_in.instr),
            out == spec_execute(
                old(self)@.dialect,
                ex_in.instr,
                ex_in.old_pc,
                ex_in.pc_plus4,
                old(self)@.predicted(),
                outside,
            ),
    {
        let mut predicted = false;
        match branch(&ex_in.instr) {
            Some(taken) => {
                predicted = self.branch_predictor.predict(self.pc.into_usize());
                self.branch_predictor.update_state(self.pc.into_usize(), taken);
                self.b_stat.update_stat(predicted, taken);
            },
            None => {},
        }
        proof {
            lemma_execute_shape(
                self.dialect,
                ex_in.instr,
                ex_in.old_pc,
                ex_in.pc_plus4,
                predicted,
                outside,
            );
            lemma_execute_shape(
                self.dialect,
                ex_in.instr,
                ex_in.old_pc,
                ex_in.pc_plus4,
                old(self)@.predicted(),
                outside,
            );
        }
        execute_output(self.dialect, ex_in.instr, ex_in.old_pc, ex_in.pc_plus4, predicted, outside)
    }

    /// The execute stage. Whatever the float backend or the input device
    /// answers, the result is what `spec_execute` gives for that answer; the
    /// stage fails only when a device refuses an input or output instruction.
    pub fn execute(&mut self, ex_in: ExecuteInput) -> (r: Result<ExecuteOutput, RuntimeError>)
        requires
            old(self)@.structural(),
            old(self)@.b_stat.total() < usize::MAX,
        ensures
            final(self)@.structural(),
            match r {
                Ok(out) => final(self)@ == old(self)@.after_output(ex_in.instr).after_execute(
                    ex_in.instr,
                ) && exists|outside: u32|
                    out == spec_execute(
                        old(self)@.dialect,
                        ex_in.instr,
                        ex_in.old_pc,
                        ex_in.pc_plus4,
                        old(self)@.predicted(),
                        outside,
                    ),
                Err(e) => ex_in.instr is IO && e is Io && final(self)@ == old(self)@,
            },
    {
        match self.outside_value(&ex_in.instr) {
            Ok(outside) => {
                let out = self.execute_on(ex_in, outside);
                assert(old(self)@.after_output(ex_in.instr).predicted() == old(self)@.predicted());
                assert(out == spec_execute(
                    old(self)@.dialect,
                    ex_in.instr,
                    ex_in.old_pc,
                    ex_in.pc_plus4,
                    old(self)@.predicted(),
                    outside,
                ));
                Ok(out)
            },
            Err(e) => Err(RuntimeError::Io(e)),
        }
    }

    /// The memory-access stage.
    pub fn memory_access(&mut self, ma_in: MemoryAccessInput, spied: &mut Option<SpyResult>) -> (r:
        Result<MemoryAccessOutput, RuntimeError>)
        requires
            old(self)@.structural(),
            old(self)@.c_stat.total() < usize::MAX,
        ensures
            final(self)@.structural(),
            (MemoryAccessStep { state: final(self)@, result: r, spied: *final(spied) })
                == old(self)@.memory_access(ma_in, *old(spied)),
            old(self)@.same_counts(final(self)@, 1),
            r matches Ok(m) ==> m.cycles <= DDR2_ACCESS_CYCLES,
    {
        reveal(CpuState::memory_access);
        let addr = match ma_in {
            MemoryAccessInput::I { addr, .. } => addr,
            MemoryAccessInput::F { addr, .. } => addr,
            MemoryAccessInput::IMem { addr, .. } => addr,
            MemoryAccessInput::FMem { addr, .. } => addr,
        };
        let bram = use_bram(addr);
        let mut cache_hit = false;
        if !bram {
            cache_hit = self.cache.access_cache(addr);
        }
        let mut wb_in: Option<WriteBackInput> = None;
        match ma_in {
            MemoryAccessInput::I { addr, val } => {
                match self.memory.set(addr, val, spied) {
                    Ok(_) => {},
                    Err(e) => {
                        return Err(RuntimeError::MemoryAccessError(e));
                    },
                }
            },
            MemoryAccessInput::F { addr, val } => {
                match self.memory.set_f(addr, val, spied) {
                    Ok(_) => {},
                    Err(e) => {
                        return Err(RuntimeError::MemoryAccessError(e));
                    },
                }
            },
            MemoryAccessInput::IMem { id, addr } => {
                match self.memory.get_i(addr, spied) {
                    Ok(v) => {
                        wb_in = Some(WriteBackInput::I { id, val: v.get_unchecked() });
                    },
                    Err(e) => {
                        return Err(RuntimeError::MemoryAccessError(e));
                    },
                }
            },
            MemoryAccessInput::FMem { id, addr } => {
                match self.memory.get_f(addr, spied) {
                    Ok(val) => {
                        wb_in = Some(WriteBackInput::F { id, val });
                    },
                    Err(e) => {
                        return Err(RuntimeError::MemoryAccessError(e));
                    },
                }
            },
        }
        if !bram {
            self.c_stat.update_stat(cache_hit);
        }
        let cycles: usize = if bram {
            1
        } else if cache_hit {
            2
        } else {
            DDR2_ACCESS_CYCLES
        };
        Ok(MemoryAccessOutput { cycles, cache_hit, use_bram: bram, wb_in })
    }

    /// The write-back stage.
    pub fn write_back(&mut self, wb_in: WriteBackInput)
        requires
            old(self)@.structural(),
        ensures
            final(self)@.structural(),
            final(self)@ == old(self)@.after_write_back(wb_in),
            old(self)@.same_counts(final(self)@, 0),
    {
        match wb_in {
            WriteBackInput::I { id, val } => self.reg_file.set(id, val),
            WriteBackInput::F { id, val } => self.reg_file.set_f(id, val),
        }
        self.memory.set_region(self.reg_file.mem_region());
    }

    /// How many cycles `instr` stalls behind the instructions in flight.
    pub fn calc_stall_cycles(&self, instr: &DecodedInstr) -> (n: usize)
        requires
            self@.structural(),
        ensures
            n == spec_stall_cycles(self@.pipeline, *instr),
            n <= 2,
    {
        let ex: usize = match &self.pipeline_state[0] {
            Some(slot) => {
                let hazard = (match &slot.write_back_id {
                    Some(id) => reads_reg(instr, id),
                    None => false,
                }) || (match &slot.float_write_back_id {
                    Some(id) => reads_freg(instr, id),
                    None => false,
                });
                if hazard {
                    match slot.result_ready_stage {
                        Some(PipelineStage::WriteBack) => 2,
                        Some(PipelineStage::MemoryAccess) => 1,
                        _ => 0,
                    }
                } else {
                    0
                }
            },
            None => 0,
        };
        let ma: usize = match &self.pipeline_state[1] {
            Some(slot) => {
                let hazard = (match &slot.write_back_id {
                    Some(id) => reads_reg(instr, id),
                    None => false,
                }) || (match &slot.float_write_back_id {
                    Some(id) => reads_freg(instr, id),
                    None => false,
                });
                if hazard {
                    match slot.result_ready_stage {
                        Some(PipelineStage::WriteBack) => 1,
                        _ => 0,
                    }
                } else {
                    0
                }
            },
            None => 0,
        };
        if ex >= ma {
            ex
        } else {
            ma
        }
    }

    /// Enters `slot` into the pipeline and tells how many cycles that takes.
    pub fn push_instr_to_pipeline_and_get_cycles(&mut self, slot: Option<PipelineStat>) -> (c:
        usize)
        requires
            old(self)@.structural(),
            slot matches Some(s) ==> s.ex_cycles <= 11 && s.ma_cycles <= DDR2_ACCESS_CYCLES,
        ensures
            final(self)@.structural(),
            final(self)@ == (CpuState {
                pipeline: spec_push(old(self)@.pipeline, slot),
                ..old(self)@
            }),
            c == spec_push_cycles(old(self)@.pipeline, slot),
            c <= DDR2_ACCESS_CYCLES,
    {
        let ex: usize = match &slot {
            Some(s) => s.ex_cycles,
            None => 1,
        };
        let ma: usize = match &self.pipeline_state[0] {
            Some(s) => s.ma_cycles,
            None => 1,
        };
        assert(old(self)@.pipeline[0] matches Some(s) ==> s.ma_cycles <= DDR2_ACCESS_CYCLES);
        self.pipeline_state.pop_back();
        self.pipeline_state.push_front(slot);
        proof {
            let p = spec_push(old(self)@.pipeline, slot);
            assert(self@.pipeline =~= p);
            assert forall|k: int| 0 <= k < PIPELINE_DEPTH implies (#[trigger] p[k] matches Some(s)
                ==> s.ex_cycles <= 11 && s.ma_cycles <= DDR2_ACCESS_CYCLES) by {
                if k > 0 {
                    assert(p[k] == old(self)@.pipeline[k - 1]);
                }
            }
        }
        if ex >= ma {
            ex
        } else {
            ma
        }
    }

    /// Enters `count` empty slots into the pipeline.
    fn push_bubbles(&mut self, count: usize) -> (c: usize)
        requires
            old(self)@.structural(),
            count <= 2,
        ensures
            final(self)@.structural(),
            final(self)@ == (CpuState {
                pipeline: spec_push_bubbles(old(self)@.pipeline, count as nat),
                ..old(self)@
            }),
            c == spec_bubble_cycles(old(self)@.pipeline, count as nat),
            c <= DDR2_ACCESS_CYCLES * count,
    {
        let mut c: usize = 0;
        let mut i: usize = 0;
        while i < count
            invariant
                i <= count <= 2,
                self@.structural(),
                self@ == (CpuState {
                    pipeline: spec_push_bubbles(old(self)@.pipeline, i as nat),
                    ..old(self)@
                }),
                c == spec_bubble_cycles(old(self)@.pipeline, i as nat),
                c <= DDR2_ACCESS_CYCLES * i,
            decreases count - i,
        {
            let step = self.push_instr_to_pipeline_and_get_cycles(None);
            c = c + step;
            i = i + 1;
        }
        c
    }

    /// The last part of a cycle; see `CpuState::retire`.
    fn retire(
        &mut self,
        trace: Option<ExecutionTrace>,
        instr: &DecodedInstr,
        out: ExecuteOutput,
        ma_out: Option<MemoryAccessOutput>,
        spied: Option<SpyResult>,
    ) -> (res: CycleResult)
        requires
            old(self)@.structural(),
            out.cycles <= 11,
            ma_out matches Some(m) ==> m.cycles <= DDR2_ACCESS_CYCLES,
        ensures
            final(self)@.structural(),
            (CycleStep { state: final(self)@, result: Ok(res) }) == old(self)@.retire(
                trace,
                *instr,
                out,
                ma_out,
                spied,
            ),
            res.cycles <= MAX_CYCLES_PER_INSTR,
            old(self)@.same_counts(final(self)@, 0),
    {
        reveal(CpuState::retire);
        let mut wb_in = out.wb_in;
        let mut result_ready_stage = if out.use_fpu {
            PipelineStage::MemoryAccess
        } else {
            PipelineStage::Execute
        };
        let mut ma_cycles: usize = 1;
        match ma_out {
            Some(m) => {
                ma_cycles = m.cycles;
                if m.wb_in.is_some() {
                    result_ready_stage = if m.use_bram {
                        PipelineStage::WriteBack
                    } else {
                        PipelineStage::MemoryAccess
                    };
                    wb_in = m.wb_in;
                }
            },
            None => {},
        }
        match wb_in {
            Some(wb) => self.write_back(wb),
            None => {},
        }
        let slot = PipelineStat {
            ex_cycles: out.cycles,
            ma_cycles,
            result_ready_stage: Some(result_ready_stage),
            write_back_id: match wb_in {
                Some(WriteBackInput::I { id, .. }) => Some(id),
                _ => None,
            },
            float_write_back_id: match wb_in {
                Some(WriteBackInput::F { id, .. }) => Some(id),
                _ => None,
            },
        };
        let stall_cycles = self.calc_stall_cycles(instr);
        let stalled = self.push_bubbles(stall_cycles);
        let entered = self.push_instr_to_pipeline_and_get_cycles(Some(slot));
        let flushed = self.push_bubbles(
            if out.flush {
                2
            } else {
                0
            },
        );
        let flow = match spied {
            Some(s) => ControlFlow::Break(BreakReason::Spy(s)),
            None => ControlFlow::Continue,
        };
        CycleResult { cycles: stalled + entered + flushed, trace, flow }
    }

    /// The part of a cycle behind the execute stage; see `CpuState::finish`.
    fn finish(&mut self, trace: Option<ExecutionTrace>, instr: &DecodedInstr, out: ExecuteOutput) -> (r:
        Result<CycleResult, RuntimeError>)
        requires
            old(self)@.structural(),
            old(self)@.c_stat.total() < usize::MAX,
            out.cycles <= 11,
        ensures
            final(self)@.structural(),
            (CycleStep { state: final(self)@, result: r }) == old(self)@.finish(trace, *instr, out),
            r matches Ok(res) ==> res.cycles <= MAX_CYCLES_PER_INSTR,
            old(self)@.same_counts(final(self)@, 1),
    {
        reveal(CpuState::finish);
        match out.new_pc {
            Some(target) => {
                self.pc = Pc::new(target as u32);
            },
            None => {},
        }
        match out.ma_in {
            Some(ma_in) => {
                let mut spied: Option<SpyResult> = None;
                match self.memory_access(ma_in, &mut spied) {
                    Ok(ma_out) => Ok(self.retire(trace, instr, out, Some(ma_out), spied)),
                    Err(e) => Err(e),
                }
            },
            None => Ok(self.retire(trace, instr, out, None, None)),
        }
    }

    /// Runs one instruction through all stages.
    ///
    /// Whatever the float backend and the devices answer, the processor ends
    /// in the state, and returns the result, that `CpuState::cycle` gives for
    /// that answer. It fails when the program counter is outside the
    /// instruction region, when the word there is no instruction, when a
    /// load or store is refused by the memory, or when a device refuses.
    pub fn cycle_one_full(&mut self, do_trace: bool) -> (r: Result<CycleResult, RuntimeError>)
        requires
            old(self).wf(),
            old(self)@.retired < usize::MAX,
        ensures
            final(self).wf(),
            exists|outside: Result<u32, IoError>|
                (CycleStep { state: final(self)@, result: r }) == #[trigger] old(self)@.cycle(
                    do_trace,
                    outside,
                ),
            r matches Ok(res) ==> res.cycles <= MAX_CYCLES_PER_INSTR,
            old(self)@.retired <= final(self)@.retired <= old(self)@.retired + 1,
    {
        let id_rf_in = match self.instr_fetch() {
            Ok(f) => f,
            Err(e) => {
                assert((CycleStep { state: self@, result: Err::<CycleResult, RuntimeError>(e) })
                    == old(self)@.cycle(do_trace, Ok(0)));
                return Err(e);
            },
        };
        let instr = match self.instr_decode(&id_rf_in.id_in) {
            Ok(i) => i,
            Err(e) => {
                assert((CycleStep { state: self@, result: Err::<CycleResult, RuntimeError>(e) })
                    == old(self)@.cycle(do_trace, Ok(0)));
                return Err(e);
            },
        };
        proof {
            lemma_decode_in_total(self.dialect, id_rf_in.id_in.bin);
        }
        let (r, Ghost(outside)) = self.run(
            do_trace,
            id_rf_in.old_pc,
            id_rf_in.pc_plus4,
            id_rf_in.id_in.bin,
            instr,
        );
        assert((CycleStep { state: self@, result: r }) == old(self)@.cycle(do_trace, outside));
        r
    }

    /// The part of a cycle behind the decoder; see `CpuState::run`. The
    /// ghost result is what the outside answered.
    #[verifier::rlimit(40)]
    fn run(&mut self, do_trace: bool, old_pc: Pc, pc_plus4: Pc, bin: u32, instr: DecodedInstr) -> (r:
        (Result<CycleResult, RuntimeError>, Ghost<Result<u32, IoError>>))
        requires
            old(self).wf(),
            old(self)@.retired < usize::MAX,
            pc_plus4@ == old(self)@.pc,
            instr.spec_index(old(self)@.dialect) is Some,
        ensures
            final(self).wf(),
            (CycleStep { state: final(self)@, result: r.0 }) == old(self)@.run(
                do_trace,
                old_pc.0,
                bin,
                instr,
                r.1@,
            ),
            r.0 matches Ok(res) ==> res.cycles <= MAX_CYCLES_PER_INSTR,
            final(self)@.retired == old(self)@.retired + 1,
    {
        let trace = if do_trace {
            Some(ExecutionTrace { pc: old_pc, undecoded_instr: bin, decoded_instr: instr })
        } else {
            None
        };
        self.i_stat.encounter_instr(&instr, self.dialect);
        let ex_in = self.reg_fetch(
            RegFetchInput { instr, old_pc: old_pc.into_inner(), pc_plus4: pc_plus4.into_inner() },
        );
        let ghost counted = self@;
        let outside = self.outside_value(&ex_in.instr);
        let value = match outside {
            Ok(v) => v,
            Err(e) => {
                return (Err(RuntimeError::Io(e)), Ghost(outside));
            },
        };
        let out = self.execute_on(ex_in, value);
        proof {
            lemma_execute_shape(
                self.dialect,
                ex_in.instr,
                ex_in.old_pc,
                ex_in.pc_plus4,
                counted.predicted(),
                value,
            );
        }
        if out.end {
            return (Ok(CycleResult { cycles: 0, trace, flow: ControlFlow::Exit }), Ghost(outside));
        }
        let r = self.finish(trace, &instr, out);
        (r, Ghost(outside))
    }

    /// Reads the bit pattern of float register `id` for the debugger. The
    /// read is counted.
    pub fn get_freg(&mut self, id: FRegId) -> (v: u32)
        requires
            old(self)@.structural(),
        ensures
            0 <= id@ < crate::register::MAX_REG_ID,
            v == old(self)@.regs.floats[id@],
            final(self)@ == (CpuState { regs: old(self)@.regs.after_get_f(id@), ..old(self)@ }),
            final(self)@.structural(),
            old(self).wf() ==> final(self).wf(),
    {
        let index = id.inner();
        self.reg_file.get_f(id)
    }

    /// Reads integer register `id` for the debugger. The read is counted.
    pub fn get_reg(&mut self, id: RegId) -> (v: u32)
        requires
            old(self)@.structural(),
        ensures
            0 <= id@ < crate::register::MAX_REG_ID,
            v == old(self)@.regs.ints[id@],
            final(self)@ == (CpuState { regs: old(self)@.regs.after_get(id@), ..old(self)@ }),
            final(self)@.structural(),
            old(self).wf() ==> final(self).wf(),
    {
        let index = id.inner();
        self.reg_file.get(id)
    }

    /// Reads the word at word address `addr` for the debugger. The read is
    /// counted, but no spy reports it.
    pub fn get_mem(&mut self, addr: Addr) -> (r: Result<TypedU32, MemoryAccessError>)
        requires
            old(self)@.structural(),
        ensures
            r == old(self)@.mem.read_result(addr@ as usize, Ty::Unknown),
            final(self)@ == (if r is Ok {
                CpuState {
                    mem: old(self)@.mem.after_read(addr@ as usize, Ty::Unknown),
                    ..old(self)@
                }
            } else {
                old(self)@
            }),
            final(self)@.structural(),
            old(self).wf() ==> final(self).wf(),
    {
        let mut spied: Option<SpyResult> = None;
        self.memory.get(addr.inner(), &mut spied)
    }

    /// Reads the instruction word at byte address `addr` for the debugger.
    pub fn get_mem_pc(&self, addr: Pc) -> (r: Result<u32, RuntimeError>)
        requires
            self@.structural(),
        ensures
            r == (if self@.mem.instr_word(addr@) {
                Ok::<u32, RuntimeError>(word_at(self@.mem.bytes, addr@))
            } else {
                Err::<u32, RuntimeError>(
                    RuntimeError::MemoryAccessError(
                        MemoryAccessError::PcOutOfBounds { pc_address: addr@ as usize },
                    ),
                )
            }),
    {
        match self.memory.get_from_pc(addr) {
            Ok(w) => Ok(w),
            Err(e) => Err(RuntimeError::MemoryAccessError(e)),
        }
    }

    /// Attaches a spy to a word of the memory.
    pub fn add_mem_spy(&mut self, k: SpyWatchKind, u: SpyUnit)
        ensures
            final(self)@ == (CpuState {
                mem: MemoryView {
                    on_read: if k.spec_read() {
                        old(self)@.mem.on_read.insert(u.addr, u)
                    } else {
                        old(self)@.mem.on_read
                    },
                    on_write: if k.spec_write() {
                        old(self)@.mem.on_write.insert(u.addr, u)
                    } else {
                        old(self)@.mem.on_write
                    },
                    ..old(self)@.mem
                },
                ..old(self)@
            }),
            old(self)@.structural() ==> final(self)@.structural(),
            old(self).wf() ==> final(self).wf(),
    {
        self.memory.add_spy(k, u)
    }

    /// Removes a spy from a word of the memory.
    pub fn remove_mem_spy(&mut self, k: SpyWatchKind, u: SpyUnit)
        ensures
            final(self)@ == (CpuState {
                mem: MemoryView {
                    on_read: if k.spec_read() {
                        old(self)@.mem.on_read.remove(u.addr)
                    } else {
                        old(self)@.mem.on_read
                    },
                    on_write: if k.spec_write() {
                        old(self)@.mem.on_write.remove(u.addr)
                    } else {
                        old(self)@.mem.on_write
                    },
                    ..old(self)@.mem
                },
                ..old(self)@
            }),
            old(self)@.structural() ==> final(self)@.structural(),
            old(self).wf() ==> final(self).wf(),
    {
        self.memory.remove_spy(k, u)
    }
}

/// How the program counter moves in one cycle: it stays where it is when
/// the fetch fails; otherwise it advances by 4, unless the instruction
/// transfers control, in which case it is the target that the execute stage
/// committed. The halt instruction transfers nothing: the counter rests
/// behind it.
pub proof fn lemma_pc_moves(s: CpuState, do_trace: bool, outside: Result<u32, IoError>)
    ensures
        ({
            let step = s.cycle(do_trace, outside);
            let next = (s.pc + 4) as u32;
            match s.fetch_result() {
                Err(_) => step.state.pc == s.pc,
                Ok(bin) => match spec_decode_in(s.dialect, bin) {
                    Err(_) => step.state.pc == next,
                    Ok(instr) => {
                        let fetched = spec_fetched(s.regs, instr);
                        let value = match outside {
                            Ok(v) => v,
                            Err(_) => 0,
                        };
                        let out = spec_execute(
                            s.dialect,
                            fetched,
                            s.pc,
                            next,
                            s.predictor[next as int % NUM_COUNTERS as int].spec_taken(),
                            value,
                        );
                        if (fetched is IO && outside is Err) || out.end {
                            step.state.pc == next
                        } else {
                            step.state.pc == (match out.new_pc {
                                Some(target) => target as u32,
                                None => next,
                            })
                        }
                    },
                },
            }
        }),
        s.cycle(do_trace, outside).result matches Ok(res) && res.flow is Exit ==> s.cycle(
            do_trace,
            outside,
        ).state.pc == (s.pc + 4) as u32,
{
    reveal(CpuState::finish);
    reveal(CpuState::retire);
    reveal(CpuState::memory_access);
}

} // verus!
