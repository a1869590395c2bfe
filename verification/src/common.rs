//! Types shared by the processor, the memory and the debugger facade.

use crate::breakpoint::BreakPoint;
use crate::memory::{Addr, SpyUnit};
use crate::register::{abi_name, f_abi_name, FRegId, RegId};
use crate::text::{addr_text, decimal_text, push_addr, push_decimal};
use crate::ty::{Ty, TypedU32};
use std::collections::HashMap;
use vstd::prelude::*;
use vstd::string::*;

verus! {

/// The program counter: a byte address into the instruction region.
#[derive(Default, Debug, Clone, Copy, PartialEq, Eq, Hash, PartialOrd, Ord, Structural)]
pub struct Pc(pub u32);

impl Pc {
    pub open spec fn view(self) -> int {
        self.0 as int
    }

    pub fn new(v: u32) -> (pc: Self)
        ensures
            pc@ == v,
    {
        Self(v)
    }

    /// Moves to the next instruction word.
    pub fn incr(&mut self)
        requires
            old(self)@ + 4 <= u32::MAX,
        ensures
            final(self)@ == old(self)@ + 4,
    {
        self.0 = self.0 + 4;
    }

    pub fn into_usize(self) -> (v: usize)
        ensures
            v == self@,
    {
        self.0 as usize
    }

    pub fn into_inner(self) -> (v: u32)
        ensures
            v == self@,
    {
        self.0
    }

    pub fn into_addr(self) -> (a: Addr)
        ensures
            a@ == self@,
    {
        Addr::new(self.into_usize())
    }

    /// The counter as it is shown to the user: `0x` and eight digits.
    pub fn text(&self) -> (s: String)
        ensures
            s@ == addr_text(self@ as nat),
    {
        let mut s = String::new();
        push_addr(&mut s, self.0 as u64);
        assert(s@ =~= addr_text(self@ as nat));
        s
    }
}

/// How many instructions a step command executes; one when unspecified.
#[derive(Default, Debug, Clone, Copy, PartialEq, Eq, Structural)]
pub struct RunStep {
    pub step: Option<usize>,
}

impl RunStep {
    pub fn new(step: Option<usize>) -> (r: Self)
        ensures
            r.step == step,
    {
        Self { step }
    }

    pub open spec fn spec_get_step(self) -> usize {
        match self.step {
            Some(n) => n,
            None => 1,
        }
    }

    pub fn get_step(&self) -> (n: usize)
        ensures
            n == self.spec_get_step(),
    {
        match self.step {
            Some(n) => n,
            None => 1,
        }
    }
}

/// How far one call of the simulator runs.
#[derive(Debug, Clone, Copy, PartialEq, Eq, Structural)]
pub enum ExecuteMode {
    /// Until the program halts or something breaks in.
    Run,
    /// Until the program counter is `pc`.
    SkipUntil { pc: Addr },
    /// For a number of instructions.
    RunStep(RunStep),
}

impl Default for ExecuteMode {
    fn default() -> (m: Self)
        ensures
            m == ExecuteMode::Run,
    {
        ExecuteMode::Run
    }
}

impl ExecuteMode {
    pub open spec fn spec_text(self) -> Seq<char> {
        match self {
            ExecuteMode::Run => "running simply"@,
            ExecuteMode::SkipUntil { pc } => "running until "@ + addr_text(pc@ as nat),
            ExecuteMode::RunStep(r) => "step execution by "@ + decimal_text(
                r.spec_get_step() as nat,
            ),
        }
    }

    /// The mode as it is shown to the user.
    pub fn text(&self) -> (s: String)
        ensures
            s@ == self.spec_text(),
    {
        match self {
            ExecuteMode::Run => String::from_str("running simply"),
            ExecuteMode::SkipUntil { pc } => {
                let mut s = String::from_str("running until ");
                push_addr(&mut s, pc.inner() as u64);
                s
            },
            ExecuteMode::RunStep(r) => {
                let mut s = String::from_str("step execution by ");
                push_decimal(&mut s, r.get_step() as u64);
                s
            },
        }
    }
}

/// What the debugger asks of one call of the simulator. Breakpoints are
/// keyed by the byte address of the instruction they stand on.
pub struct SimulationOption {
    pub do_trace: bool,
    pub mode: ExecuteMode,
    pub breakpoints: HashMap<usize, BreakPoint>,
    pub watchings: Watchings,
}

impl Default for SimulationOption {
    fn default() -> (o: Self)
        ensures
            !o.do_trace,
            o.mode == ExecuteMode::Run,
            o.breakpoints@ == Map::<usize, BreakPoint>::empty(),
            o.watchings.reg@.len() == 0,
            o.watchings.freg@.len() == 0,
            o.watchings.memory@.len() == 0,
    {
        SimulationOption {
            do_trace: false,
            mode: ExecuteMode::Run,
            breakpoints: HashMap::new(),
            watchings: Watchings::default(),
        }
    }
}

/// The registers and memory words whose values are reported at each break.
pub struct Watchings {
    pub reg: Vec<RegId>,
    pub freg: Vec<FRegId>,
    pub memory: Vec<Addr>,
}

impl Default for Watchings {
    fn default() -> (w: Self)
        ensures
            w.reg@.len() == 0,
            w.freg@.len() == 0,
            w.memory@.len() == 0,
    {
        Watchings { reg: Vec::new(), freg: Vec::new(), memory: Vec::new() }
    }
}

/// Which accesses a spy reports: reads (bit 0), writes (bit 1), both or none.
#[derive(Debug, Clone, Copy, PartialEq, Eq, Structural)]
pub struct SpyWatchKind {
    bits: u8,
}

impl SpyWatchKind {
    #[verifier::type_invariant]
    spec fn in_range(self) -> bool {
        self.bits < 4
    }

    /// Whether reads are reported.
    pub closed spec fn spec_read(self) -> bool {
        self.bits % 2 == 1
    }

    /// Whether writes are reported.
    pub closed spec fn spec_write(self) -> bool {
        self.bits / 2 == 1
    }

    pub fn none() -> (k: Self)
        ensures
            !k.spec_read(),
            !k.spec_write(),
    {
        Self { bits: 0 }
    }

    pub fn read() -> (k: Self)
        ensures
            k.spec_read(),
            !k.spec_write(),
    {
        Self { bits: 1 }
    }

    pub fn write() -> (k: Self)
        ensures
            !k.spec_read(),
            k.spec_write(),
    {
        Self { bits: 2 }
    }

    pub fn all() -> (k: Self)
        ensures
            k.spec_read(),
            k.spec_write(),
    {
        Self { bits: 3 }
    }

    pub fn bits(&self) -> (b: u8)
        ensures
            b < 4,
            (b % 2 == 1) == self.spec_read(),
            (b / 2 == 1) == self.spec_write(),
    {
        proof {
            use_type_invariant(self);
        }
        self.bits
    }

    pub fn has_read(&self) -> (b: bool)
        ensures
            b == self.spec_read(),
    {
        self.bits % 2 == 1
    }

    pub fn has_write(&self) -> (b: bool)
        ensures
            b == self.spec_write(),
    {
        proof {
            use_type_invariant(self);
        }
        self.bits / 2 == 1
    }

    /// Whether every access that `other` reports is reported by `self` too.
    pub fn contains(&self, other: Self) -> (b: bool)
        ensures
            b == ((other.spec_read() ==> self.spec_read()) && (other.spec_write()
                ==> self.spec_write())),
    {
        (!other.has_read() || self.has_read()) && (!other.has_write() || self.has_write())
    }

    /// The kind that reports what either of the two reports.
    pub fn union(self, other: Self) -> (k: Self)
        ensures
            k.spec_read() == (self.spec_read() || other.spec_read()),
            k.spec_write() == (self.spec_write() || other.spec_write()),
    {
        let r: u8 = if self.has_read() || other.has_read() {
            1
        } else {
            0
        };
        let w: u8 = if self.has_write() || other.has_write() {
            2
        } else {
            0
        };
        Self { bits: r + w }
    }

    pub open spec fn spec_name(self) -> Seq<char> {
        if self.spec_read() {
            if self.spec_write() {
                "read/write"@
            } else {
                "read"@
            }
        } else if self.spec_write() {
            "write"@
        } else {
            ""@
        }
    }

    /// The kind as it is shown to the user.
    pub fn name(&self) -> (s: &'static str)
        ensures
            s@ == self.spec_name(),
    {
        if self.has_read() {
            if self.has_write() {
                "read/write"
            } else {
                "read"
            }
        } else if self.has_write() {
            "write"
        } else {
            ""
        }
    }
}

/// A probe: what is watched, and for which accesses.
#[derive(Debug, Clone, Copy, PartialEq, Eq)]
pub struct Spy {
    pub kind: SpyWatchKind,
    pub target: SpyKind,
}

/// What a probe is attached to.
#[derive(Debug, Clone, Copy, PartialEq, Eq, Structural)]
pub enum SpyKind {
    Memory(SpyUnit),
    RegisterI(RegId),
    RegisterF(FRegId),
}

impl SpyKind {
    pub open spec fn spec_ty(self) -> Ty {
        match self {
            SpyKind::Memory(_) => Ty::Unknown,
            SpyKind::RegisterI(i) => if i@ == 1 {
                Ty::Usize
            } else {
                Ty::I32
            },
            SpyKind::RegisterF(_) => Ty::F32,
        }
    }

    /// The tag of the values the target holds.
    pub fn ty(&self) -> (t: Ty)
        ensures
            t == self.spec_ty(),
    {
        match self {
            SpyKind::Memory(_) => Ty::Unknown,
            SpyKind::RegisterI(i) => i.ty(),
            SpyKind::RegisterF(_) => Ty::F32,
        }
    }
}

impl SpyKind {
    pub open spec fn spec_text(self) -> Seq<char> {
        match self {
            SpyKind::Memory(u) => "M["@ + addr_text(u.addr as nat) + "]"@,
            SpyKind::RegisterI(r) => abi_name(r@),
            SpyKind::RegisterF(r) => f_abi_name(r@),
        }
    }

    /// The target as it is shown: a memory word by its address, a register
    /// by its name.
    pub fn text(&self) -> (s: String)
        ensures
            s@ == self.spec_text(),
    {
        match self {
            SpyKind::Memory(u) => {
                let mut s = String::from_str("M[");
                push_addr(&mut s, u.addr as u64);
                s.append("]");
                s
            },
            SpyKind::RegisterI(r) => String::from_str(r.name()),
            SpyKind::RegisterF(r) => String::from_str(r.name()),
        }
    }
}

impl Spy {
    pub open spec fn spec_text(self) -> Seq<char> {
        self.kind.spec_name() + " of "@ + self.target.spec_text()
    }

    /// The probe as it is shown: what it watches for, and where.
    pub fn text(&self) -> (s: String)
        ensures
            s@ == self.spec_text(),
    {
        let mut s = String::from_str(self.kind.name());
        s.append(" of ");
        let target = self.target.text();
        s.append(target.as_str());
        s
    }
}

/// What a probe saw: a read, or a write with the value it replaced and the
/// value it stored.
#[derive(Debug, Clone, Copy, PartialEq, Eq, Structural)]
pub enum SpyWatchResultKind {
    Read,
    Write { before: TypedU32, after: TypedU32 },
}

/// The report of a probe that fired.
#[derive(Debug, Clone, Copy, PartialEq, Eq, Structural)]
pub struct SpyResult {
    pub kind: SpyWatchResultKind,
    pub target: SpyKind,
}

/// The part of the address space a word belongs to.
#[derive(Debug, Clone, Copy, PartialEq, Eq, Structural)]
pub enum MemoryRegion {
    DataSection,
    Heap,
    Stack,
}

} // verus!
