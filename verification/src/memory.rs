//! Word-addressed memory with type tags, access statistics and spies.

use crate::common::{MemoryRegion, Pc, SpyKind, SpyResult, SpyWatchKind, SpyWatchResultKind};
use crate::reg_file::MemoryRegionStatBuilder;
use crate::text::{addr_text, decimal_text, push_addr, push_decimal};
use crate::ty::{Ty, Typed, TypedU32};
use std::collections::HashMap;
use std::ops::Range;
use vstd::prelude::*;
use vstd::string::*;

verus! {

/// Size of the processor's memory in bytes.
pub const RAM_BYTE_SIZE: usize = 1000000;

/// An address as the debugger names it.
#[derive(Debug, Clone, Copy, PartialEq, Eq, Hash, PartialOrd, Ord, Structural)]
pub struct Addr(pub usize);

impl Addr {
    pub open spec fn view(self) -> int {
        self.0 as int
    }

    pub fn new(v: usize) -> (a: Self)
        ensures
            a@ == v,
    {
        Self(v)
    }

    pub fn inner(self) -> (v: usize)
        ensures
            v == self@,
    {
        self.0
    }

    /// The address `amount` further on.
    pub fn disp(&self, amount: usize) -> (a: Self)
        requires
            self@ + amount <= usize::MAX,
        ensures
            a@ == self@ + amount,
    {
        Self(self.0 + amount)
    }

    /// The address as it is shown to the user: `0x` and at least eight digits.
    pub fn text(&self) -> (s: String)
        ensures
            s@ == addr_text(self@ as nat),
    {
        let mut s = String::new();
        push_addr(&mut s, self.0 as u64);
        assert(s@ =~= addr_text(self@ as nat));
        s
    }
}

/// A spy on the word at word address `addr`.
#[derive(Debug, Clone, Copy, PartialEq, Eq, Structural)]
pub struct SpyUnit {
    pub addr: usize,
    pub expire_at: Option<usize>,
}

/// Why a memory access failed.
#[derive(Debug, Clone, Copy, PartialEq, Eq, Structural)]
pub enum MemoryAccessError {
    /// The word address is outside the memory or inside the instruction region.
    OutOfBounds { accessed_address: usize },
    /// The program counter is outside the instruction region.
    PcOutOfBounds { pc_address: usize },
    /// The word holds a value of a type that cannot be read as the type asked for.
    ViolateTransmutation { expected: Ty, attempt: Ty },
}

impl MemoryAccessError {
    pub open spec fn spec_message(self) -> Seq<char> {
        match self {
            MemoryAccessError::OutOfBounds { accessed_address } => "address "@ + decimal_text(
                accessed_address as nat,
            ) + " out of range for memory"@,
            MemoryAccessError::PcOutOfBounds { pc_address } => "pc "@ + decimal_text(
                pc_address as nat,
            ) + " out of range for instr memory"@,
            MemoryAccessError::ViolateTransmutation { expected, attempt } =>
                "attempted to transmute "@ + expected.spec_name() + " into "@ + attempt.spec_name()
                    + ", which is not allowed in the semantics of OCaml"@,
        }
    }

    /// The text of the error as it is shown to the user.
    pub fn message(&self) -> (s: String)
        ensures
            s@ == self.spec_message(),
    {
        match self {
            MemoryAccessError::OutOfBounds { accessed_address } => {
                let mut s = String::from_str("address ");
                push_decimal(&mut s, *accessed_address as u64);
                s.append(" out of range for memory");
                s
            },
            MemoryAccessError::PcOutOfBounds { pc_address } => {
                let mut s = String::from_str("pc ");
                push_decimal(&mut s, *pc_address as u64);
                s.append(" out of range for instr memory");
                s
            },
            MemoryAccessError::ViolateTransmutation { expected, attempt } => {
                let mut s = String::from_str("attempted to transmute ");
                s.append(expected.name());
                s.append(" into ");
                s.append(attempt.name());
                s.append(", which is not allowed in the semantics of OCaml");
                s
            },
        }
    }
}

/// How often each region of the memory was read and written. The counts
/// stop at the largest number a counter holds.
#[derive(Debug, Clone, Copy, PartialEq, Eq, Structural)]
pub struct MemoryStat {
    pub write: MemoryRegionCount,
    pub read: MemoryRegionCount,
}

#[derive(Debug, Clone, Copy, PartialEq, Eq, Structural)]
pub struct MemoryRegionCount {
    pub data_section: usize,
    pub heap: usize,
    pub stack: usize,
}

/// One more than `n`, or `n` when the counter is full.
pub open spec fn spec_count_up(n: usize) -> usize {
    if n < usize::MAX {
        (n + 1) as usize
    } else {
        n
    }
}

pub fn count_up(n: usize) -> (m: usize)
    ensures
        m == spec_count_up(n),
{
    if n < usize::MAX {
        n + 1
    } else {
        n
    }
}

impl MemoryRegionCount {
    pub open spec fn spec_incr(self, r: MemoryRegion) -> Self {
        match r {
            MemoryRegion::DataSection => MemoryRegionCount {
                data_section: spec_count_up(self.data_section),
                ..self
            },
            MemoryRegion::Heap => MemoryRegionCount { heap: spec_count_up(self.heap), ..self },
            MemoryRegion::Stack => MemoryRegionCount { stack: spec_count_up(self.stack), ..self },
        }
    }

    pub fn incr(&mut self, r: MemoryRegion)
        ensures
            *final(self) == old(self).spec_incr(r),
    {
        match r {
            MemoryRegion::DataSection => self.data_section = count_up(self.data_section),
            MemoryRegion::Heap => self.heap = count_up(self.heap),
            MemoryRegion::Stack => self.stack = count_up(self.stack),
        }
    }
}

impl MemoryStat {
    pub open spec fn spec_on_write(self, r: MemoryRegion) -> Self {
        MemoryStat { write: self.write.spec_incr(r), ..self }
    }

    pub open spec fn spec_on_read(self, r: MemoryRegion) -> Self {
        MemoryStat { read: self.read.spec_incr(r), ..self }
    }

    pub fn on_write(&mut self, r: MemoryRegion)
        ensures
            *final(self) == old(self).spec_on_write(r),
    {
        self.write.incr(r);
    }

    pub fn on_read(&mut self, r: MemoryRegion)
        ensures
            *final(self) == old(self).spec_on_read(r),
    {
        self.read.incr(r);
    }
}

impl Default for MemoryStat {
    fn default() -> (s: Self)
        ensures
            s == (MemoryStat {
                write: MemoryRegionCount { data_section: 0, heap: 0, stack: 0 },
                read: MemoryRegionCount { data_section: 0, heap: 0, stack: 0 },
            }),
    {
        MemoryStat {
            write: MemoryRegionCount { data_section: 0, heap: 0, stack: 0 },
            read: MemoryRegionCount { data_section: 0, heap: 0, stack: 0 },
        }
    }
}

/// The little-endian word that starts at byte `index` of `bytes`.
pub open spec fn word_at(bytes: Seq<u8>, index: int) -> u32 {
    (bytes[index] + 0x100 * bytes[index + 1] + 0x1_0000 * bytes[index + 2] + 0x100_0000
        * bytes[index + 3]) as u32
}

/// `bytes` with the little-endian word `val` stored from byte `index` on.
pub open spec fn store_word(bytes: Seq<u8>, index: int, val: u32) -> Seq<u8> {
    bytes.update(index, (val % 0x100) as u8).update(
        index + 1,
        (val / 0x100 % 0x100) as u8,
    ).update(index + 2, (val / 0x1_0000 % 0x100) as u8).update(
        index + 3,
        (val / 0x100_0000) as u8,
    )
}

/// A stored word reads back, and no other aligned word changes.
pub proof fn lemma_store_word(bytes: Seq<u8>, index: int, val: u32, other: int)
    requires
        0 <= index,
        index + 4 <= bytes.len(),
    ensures
        store_word(bytes, index, val).len() == bytes.len(),
        word_at(store_word(bytes, index, val), index) == val,
        0 <= other && (other + 4 <= index || index + 4 <= other) && other + 4 <= bytes.len()
            ==> word_at(store_word(bytes, index, val), other) == word_at(bytes, other),
{
}

/// What a memory holds, as plain values.
pub struct MemoryView {
    /// The bytes of the memory.
    pub bytes: Seq<u8>,
    /// The tag of each word.
    pub tags: Seq<Ty>,
    /// First byte of the instruction region.
    pub instr_begin: int,
    /// One past the last byte of the instruction region.
    pub instr_end: int,
    /// The spies on reads, by word address.
    pub on_read: Map<usize, SpyUnit>,
    /// The spies on writes, by word address.
    pub on_write: Map<usize, SpyUnit>,
    /// The access counts.
    pub stat: MemoryStat,
    /// The region classifier the counts go by.
    pub region: MemoryRegionStatBuilder,
}

impl MemoryView {
    /// The memory has `size` bytes, a tag for each whole word, and fits the
    /// 32-bit address space of the processor.
    pub open spec fn wf(self, size: usize) -> bool {
        &&& self.bytes.len() == size
        &&& self.tags.len() == size / 4
        &&& size <= u32::MAX
    }

    /// Whether a load or store may touch word `addr`: the word lies in the
    /// memory and does not start inside the instruction region.
    pub open spec fn data_word(self, addr: int) -> bool {
        0 <= addr && 4 * addr + 4 <= self.bytes.len() && !(self.instr_begin <= 4 * addr
            < self.instr_end)
    }

    /// Whether an instruction may be fetched from byte address `pc`.
    pub open spec fn instr_word(self, pc: int) -> bool {
        self.instr_begin <= pc < self.instr_end && pc + 4 <= self.bytes.len()
    }

    /// The word at word address `addr`.
    pub open spec fn word(self, addr: int) -> u32 {
        word_at(self.bytes, 4 * addr)
    }

    /// What a read of word `addr` that asks for type `attempt` returns: the
    /// word with its tag after unification; an error when the word is no
    /// data word, or when its tag and the type asked for are incompatible.
    pub open spec fn read_result(self, addr: usize, attempt: Ty) -> Result<
        TypedU32,
        MemoryAccessError,
    > {
        if !self.data_word(addr as int) {
            Err(MemoryAccessError::OutOfBounds { accessed_address: addr })
        } else {
            match self.tags[addr as int].spec_unify(attempt) {
                Some(ty) => Ok(TypedU32 { ty, value: self.word(addr as int) }),
                None => Err(
                    MemoryAccessError::ViolateTransmutation {
                        expected: self.tags[addr as int],
                        attempt,
                    },
                ),
            }
        }
    }

    /// What a write of word `addr` returns: an error when the word is no data word.
    pub open spec fn write_result(self, addr: usize) -> Result<(), MemoryAccessError> {
        if !self.data_word(addr as int) {
            Err(MemoryAccessError::OutOfBounds { accessed_address: addr })
        } else {
            Ok(())
        }
    }

    /// The memory after a successful read of word `addr` that asks for type
    /// `attempt`: the tag is unified and the read is counted.
    pub open spec fn after_read(self, addr: usize, attempt: Ty) -> MemoryView {
        MemoryView {
            tags: self.tags.update(addr as int, self.tags[addr as int].spec_unify(attempt)->0),
            stat: self.stat.spec_on_read(self.region.spec_get_region(addr as u32)),
            ..self
        }
    }

    /// What a write of word `addr` leaves: the value stored and tagged `ty`.
    pub open spec fn after_write(self, addr: usize, val: u32, ty: Ty) -> MemoryView {
        MemoryView {
            bytes: store_word(self.bytes, 4 * addr, val),
            tags: self.tags.update(addr as int, ty),
            stat: self.stat.spec_on_write(self.region.spec_get_region(addr as u32)),
            ..self
        }
    }

    /// What the caller's spy slot holds after a read of word `addr`.
    pub open spec fn spied_read(self, addr: usize, before: Option<SpyResult>) -> Option<
        SpyResult,
    > {
        if self.on_read.contains_key(addr) {
            Some(
                SpyResult {
                    kind: SpyWatchResultKind::Read,
                    target: SpyKind::Memory(self.on_read[addr]),
                },
            )
        } else {
            before
        }
    }

    /// What the caller's spy slot holds after a write of `after` to word `addr`.
    pub open spec fn spied_write(
        self,
        addr: usize,
        after: TypedU32,
        before: Option<SpyResult>,
    ) -> Option<SpyResult> {
        if self.on_write.contains_key(addr) {
            Some(
                SpyResult {
                    kind: SpyWatchResultKind::Write {
                        before: TypedU32 { ty: self.tags[addr as int], value: self.word(addr as int) },
                        after,
                    },
                    target: SpyKind::Memory(self.on_write[addr]),
                },
            )
        } else {
            before
        }
    }
}

/// The memory of the processor: `SIZE` bytes, addressed by word.
pub struct Memory<const SIZE: usize> {
    inner: Vec<u8>,
    instr_begin: usize,
    instr_end: usize,
    stat_region: MemoryRegionStatBuilder,
    stat_mem: MemoryStat,
    ty: Vec<Ty>,
    on_read: HashMap<usize, SpyUnit>,
    on_write: HashMap<usize, SpyUnit>,
}

impl<const SIZE: usize> Memory<SIZE> {
    pub closed spec fn view(&self) -> MemoryView {
        MemoryView {
            bytes: self.inner@,
            tags: self.ty@,
            instr_begin: self.instr_begin as int,
            instr_end: self.instr_end as int,
            on_read: self.on_read@,
            on_write: self.on_write@,
            stat: self.stat_mem,
            region: self.stat_region,
        }
    }

    /// The memory has `SIZE` bytes, a tag for each whole word, and fits the
    /// 32-bit address space of the processor.
    pub open spec fn wf(&self) -> bool {
        self@.wf(SIZE)
    }

    /// A memory filled with the byte `0xCC`, every word of unknown type,
    /// without instruction region and without spies.
    pub fn new(stat_region: MemoryRegionStatBuilder) -> (m: Self)
        requires
            SIZE <= u32::MAX,
        ensures
            m.wf(),
            m@ == (MemoryView {
                bytes: Seq::new(SIZE as nat, |i: int| 0xCCu8),
                tags: Seq::new((SIZE / 4) as nat, |i: int| Ty::Unknown),
                instr_begin: 0,
                instr_end: 0,
                on_read: Map::empty(),
                on_write: Map::empty(),
                stat: MemoryStat {
                    write: MemoryRegionCount { data_section: 0, heap: 0, stack: 0 },
                    read: MemoryRegionCount { data_section: 0, heap: 0, stack: 0 },
                },
                region: stat_region,
            }),
    {
        let inner: Vec<u8> = vec![0xCCu8; SIZE];
        let ty: Vec<Ty> = vec![Ty::Unknown; SIZE / 4];
        let m = Self {
            inner,
            instr_begin: 0,
            instr_end: 0,
            stat_region,
            stat_mem: MemoryStat::default(),
            ty,
            on_read: HashMap::new(),
            on_write: HashMap::new(),
        };
        assert(m@.bytes =~= Seq::new(SIZE as nat, |i: int| 0xCCu8));
        assert(m@.tags =~= Seq::new((SIZE / 4) as nat, |i: int| Ty::Unknown));
        m
    }

    /// Copies `mem` to the start of the memory and sets the instruction
    /// region to the bytes `instr_mem_range.start .. instr_mem_range.end`.
    pub fn init_from_slice(&mut self, mem: &[u8], instr_mem_range: Range<u32>)
        requires
            old(self).wf(),
            mem@.len() <= SIZE,
        ensures
            final(self).wf(),
            final(self)@ == (MemoryView {
                bytes: mem@ + old(self)@.bytes.subrange(mem@.len() as int, SIZE as int),
                instr_begin: instr_mem_range.start as int,
                instr_end: instr_mem_range.end as int,
                ..old(self)@
            }),
    {
        let n = mem.len();
        let mut i: usize = 0;
        while i < n
            invariant
                i <= n,
                n == mem@.len(),
                n <= SIZE,
                self.inner@.len() == SIZE,
                old(self).inner@.len() == SIZE,
                self.inner@ =~= mem@.subrange(0, i as int) + old(self).inner@.subrange(
                    i as int,
                    SIZE as int,
                ),
                self.ty == old(self).ty,
                self.on_read == old(self).on_read,
                self.on_write == old(self).on_write,
                self.stat_mem == old(self).stat_mem,
                self.stat_region == old(self).stat_region,
            decreases n - i,
        {
            self.inner.set(i, mem[i]);
            i = i + 1;
        }
        self.instr_begin = instr_mem_range.start as usize;
        self.instr_end = instr_mem_range.end as usize;
        assert(mem@.subrange(0, n as int) =~= mem@);
    }

    /// Attaches the spy to reads, writes or both, as `k` says. A spy that is
    /// already on the word is replaced.
    pub fn add_spy(&mut self, k: SpyWatchKind, u: SpyUnit)
        ensures
            final(self).wf() == old(self).wf(),
            final(self)@ == (MemoryView {
                on_read: if k.spec_read() {
                    old(self)@.on_read.insert(u.addr, u)
                } else {
                    old(self)@.on_read
                },
                on_write: if k.spec_write() {
                    old(self)@.on_write.insert(u.addr, u)
                } else {
                    old(self)@.on_write
                },
                ..old(self)@
            }),
    {
        if k.has_read() {
            self.on_read.insert(u.addr, u);
        }
        if k.has_write() {
            self.on_write.insert(u.addr, u);
        }
    }

    /// Removes the spy on the word of `u` from reads, writes or both.
    pub fn remove_spy(&mut self, k: SpyWatchKind, u: SpyUnit)
        ensures
            final(self).wf() == old(self).wf(),
            final(self)@ == (MemoryView {
                on_read: if k.spec_read() {
                    old(self)@.on_read.remove(u.addr)
                } else {
                    old(self)@.on_read
                },
                on_write: if k.spec_write() {
                    old(self)@.on_write.remove(u.addr)
                } else {
                    old(self)@.on_write
                },
                ..old(self)@
            }),
    {
        if k.has_read() {
            self.on_read.remove(&u.addr);
        }
        if k.has_write() {
            self.on_write.remove(&u.addr);
        }
    }

    /// Replaces the region classifier that the access counts go by.
    pub fn set_region(&mut self, region: MemoryRegionStatBuilder)
        ensures
            final(self).wf() == old(self).wf(),
            final(self)@ == (MemoryView { region, ..old(self)@ }),
    {
        self.stat_region = region;
    }

    /// The access counts so far.
    pub fn stat(&self) -> (s: MemoryStat)
        ensures
            s == self@.stat,
    {
        self.stat_mem
    }

    fn in_bounds(&self, addr: usize) -> (b: bool)
        requires
            self.wf(),
        ensures
            b == self@.data_word(addr as int),
    {
        if addr < SIZE / 4 {
            let index: usize = addr * 4;
            !(self.instr_begin <= index && index < self.instr_end)
        } else {
            false
        }
    }

    fn on_read(&mut self, addr: usize, spied: &mut Option<SpyResult>)
        requires
            old(self).wf(),
        ensures
            final(self).wf(),
            final(self)@ == (MemoryView {
                stat: old(self)@.stat.spec_on_read(old(self)@.region.spec_get_region(addr as u32)),
                ..old(self)@
            }),
            *final(spied) == old(self)@.spied_read(addr, *old(spied)),
    {
        self.stat_mem.on_read(self.stat_region.get_region(addr as u32));
        match self.on_read.get(&addr) {
            Some(spy) => {
                *spied = Some(
                    SpyResult { kind: SpyWatchResultKind::Read, target: SpyKind::Memory(*spy) },
                );
            },
            None => {},
        }
    }

    fn on_write(&mut self, addr: usize, val: TypedU32, spied: &mut Option<SpyResult>)
        requires
            old(self).wf(),
            old(self)@.data_word(addr as int),
        ensures
            final(self).wf(),
            final(self)@ == (MemoryView {
                stat: old(self)@.stat.spec_on_write(
                    old(self)@.region.spec_get_region(addr as u32),
                ),
                ..old(self)@
            }),
            *final(spied) == old(self)@.spied_write(addr, val, *old(spied)),
    {
        self.stat_mem.on_write(self.stat_region.get_region(addr as u32));
        let before = self.get_raw_addr(addr * 4).typed(self.ty[addr]);
        match self.on_write.get(&addr) {
            Some(spy) => {
                *spied = Some(
                    SpyResult {
                        kind: SpyWatchResultKind::Write { before, after: val },
                        target: SpyKind::Memory(*spy),
                    },
                );
            },
            None => {},
        }
    }

    fn get_raw_addr(&self, addr: usize) -> (w: u32)
        requires
            addr + 4 <= self@.bytes.len(),
        ensures
            w == word_at(self@.bytes, addr as int),
    {
        let len = self.inner.len();
        assert(addr + 4 <= len);
        let b0: u32 = self.inner[addr] as u32;
        let b1: u32 = self.inner[addr + 1] as u32;
        let b2: u32 = self.inner[addr + 2] as u32;
        let b3: u32 = self.inner[addr + 3] as u32;
        b0 + 0x100 * b1 + 0x1_0000 * b2 + 0x100_0000 * b3
    }

    fn set_raw_addr(&mut self, addr: usize, val: u32)
        requires
            addr + 4 <= old(self)@.bytes.len(),
        ensures
            final(self)@ == (MemoryView {
                bytes: store_word(old(self)@.bytes, addr as int, val),
                ..old(self)@
            }),
    {
        let len = self.inner.len();
        assert(addr + 4 <= len);
        self.inner.set(addr, (val % 0x100) as u8);
        self.inner.set(addr + 1, (val / 0x100 % 0x100) as u8);
        self.inner.set(addr + 2, (val / 0x1_0000 % 0x100) as u8);
        self.inner.set(addr + 3, (val / 0x100_0000) as u8);
        assert(self.inner@ =~= store_word(old(self).inner@, addr as int, val));
    }

    /// Unifies the tag of word `addr` with the type a read asks for, and
    /// promotes the tag where the request refines it.
    fn unify(&mut self, addr: usize, attempt: Ty) -> (r: Result<Ty, MemoryAccessError>)
        requires
            old(self).wf(),
            addr < SIZE / 4,
        ensures
            final(self).wf(),
            match r {
                Ok(t) => old(self)@.tags[addr as int].spec_unify(attempt) == Some(t)
                    && final(self)@ == (MemoryView {
                    tags: old(self)@.tags.update(addr as int, t),
                    ..old(self)@
                }),
                Err(e) => old(self)@.tags[addr as int].spec_unify(attempt) is None && e == (
                MemoryAccessError::ViolateTransmutation {
                    expected: old(self)@.tags[addr as int],
                    attempt,
                }) && final(self)@ == old(self)@,
            },
    {
        let ty = self.ty[addr];
        match ty.unify(attempt) {
            Some(t) => {
                self.ty.set(addr, t);
                Ok(t)
            },
            None => Err(MemoryAccessError::ViolateTransmutation { expected: ty, attempt }),
        }
    }

    /// A read of word `addr` that asks for type `attempt`.
    fn read(&mut self, addr: usize, attempt: Ty, spied: &mut Option<SpyResult>) -> (r: Result<
        TypedU32,
        MemoryAccessError,
    >)
        requires
            old(self).wf(),
        ensures
            final(self).wf(),
            r == old(self)@.read_result(addr, attempt),
            match r {
                Ok(v) => final(self)@ == old(self)@.after_read(addr, attempt) && *final(spied)
                    == old(self)@.spied_read(addr, *old(spied)),
                Err(_) => final(self)@ == old(self)@ && *final(spied) == *old(spied),
            },
    {
        if !self.in_bounds(addr) {
            return Err(MemoryAccessError::OutOfBounds { accessed_address: addr });
        }
        let ty = match self.unify(addr, attempt) {
            Ok(t) => t,
            Err(e) => {
                return Err(e);
            },
        };
        self.on_read(addr, spied);
        Ok(self.get_raw_addr(addr * 4).typed(ty))
    }

    /// Reads word `addr` for the debugger: any type is accepted and the tag
    /// stays as it is.
    pub fn get(&mut self, addr: usize, spied: &mut Option<SpyResult>) -> (r: Result<
        TypedU32,
        MemoryAccessError,
    >)
        requires
            old(self).wf(),
        ensures
            final(self).wf(),
            r == old(self)@.read_result(addr, Ty::Unknown),
            match r {
                Ok(v) => final(self)@ == old(self)@.after_read(addr, Ty::Unknown) && *final(spied)
                    == old(self)@.spied_read(addr, *old(spied)),
                Err(_) => final(self)@ == old(self)@ && *final(spied) == *old(spied),
            },
    {
        self.read(addr, Ty::Unknown, spied)
    }

    /// Reads word `addr` as an integer.
    pub fn get_i(&mut self, addr: usize, spied: &mut Option<SpyResult>) -> (r: Result<
        TypedU32,
        MemoryAccessError,
    >)
        requires
            old(self).wf(),
        ensures
            final(self).wf(),
            r == old(self)@.read_result(addr, Ty::I32OrUsize),
            match r {
                Ok(v) => final(self)@ == old(self)@.after_read(addr, Ty::I32OrUsize) && *final(spied) == old(self)@.spied_read(addr, *old(spied)),
                Err(_) => final(self)@ == old(self)@ && *final(spied) == *old(spied),
            },
    {
        self.read(addr, Ty::I32OrUsize, spied)
    }

    /// Reads word `addr` as a float and returns its bit pattern.
    pub fn get_f(&mut self, addr: usize, spied: &mut Option<SpyResult>) -> (r: Result<
        u32,
        MemoryAccessError,
    >)
        requires
            old(self).wf(),
        ensures
            final(self).wf(),
            match old(self)@.read_result(addr, Ty::F32) {
                Ok(v) => r == Ok::<u32, MemoryAccessError>(v.value),
                Err(e) => r == Err::<u32, MemoryAccessError>(e),
            },
            match r {
                Ok(v) => final(self)@ == old(self)@.after_read(addr, Ty::F32) && *final(spied)
                    == old(self)@.spied_read(addr, *old(spied)),
                Err(_) => final(self)@ == old(self)@ && *final(spied) == *old(spied),
            },
    {
        match self.read(addr, Ty::F32, spied) {
            Ok(v) => Ok(v.get_unchecked()),
            Err(e) => Err(e),
        }
    }

    /// Fetches the instruction word at byte address `pc`.
    pub fn get_from_pc(&self, pc: Pc) -> (r: Result<u32, MemoryAccessError>)
        requires
            self.wf(),
        ensures
            r == (if self@.instr_word(pc@) {
                Ok::<u32, MemoryAccessError>(word_at(self@.bytes, pc@))
            } else {
                Err::<u32, MemoryAccessError>(
                    MemoryAccessError::PcOutOfBounds { pc_address: pc@ as usize },
                )
            }),
    {
        let pc_address = pc.into_usize();
        if self.instr_begin <= pc_address && pc_address < self.instr_end && pc_address <= SIZE
            && SIZE - pc_address >= 4 {
            Ok(self.get_raw_addr(pc_address))
        } else {
            Err(MemoryAccessError::PcOutOfBounds { pc_address })
        }
    }

    /// A write of `val`, tagged `ty`, to word `addr`.
    fn write(&mut self, addr: usize, val: u32, ty: Ty, spied: &mut Option<SpyResult>) -> (r:
        Result<(), MemoryAccessError>)
        requires
            old(self).wf(),
        ensures
            final(self).wf(),
            r == old(self)@.write_result(addr),
            match r {
                Ok(_) => final(self)@ == old(self)@.after_write(addr, val, ty) && *final(spied)
                    == old(self)@.spied_write(addr, TypedU32 { ty, value: val }, *old(spied)),
                Err(_) => final(self)@ == old(self)@ && *final(spied) == *old(spied),
            },
    {
        if !self.in_bounds(addr) {
            return Err(MemoryAccessError::OutOfBounds { accessed_address: addr });
        }
        self.on_write(addr, val.typed(ty), spied);
        self.ty.set(addr, ty);
        self.set_raw_addr(addr * 4, val);
        proof {
            lemma_store_word(old(self)@.bytes, 4 * addr, val, 0);
        }
        Ok(())
    }

    /// Stores the integer `val` in word `addr`.
    pub fn set(&mut self, addr: usize, val: u32, spied: &mut Option<SpyResult>) -> (r: Result<
        (),
        MemoryAccessError,
    >)
        requires
            old(self).wf(),
        ensures
            final(self).wf(),
            r == old(self)@.write_result(addr),
            match r {
                Ok(_) => final(self)@ == old(self)@.after_write(addr, val, Ty::I32OrUsize)
                    && *final(spied) == old(self)@.spied_write(
                    addr,
                    TypedU32 { ty: Ty::I32OrUsize, value: val },
                    *old(spied),
                ),
                Err(_) => final(self)@ == old(self)@ && *final(spied) == *old(spied),
            },
    {
        self.write(addr, val, Ty::I32OrUsize, spied)
    }

    /// Stores the float with bit pattern `val` in word `addr`.
    pub fn set_f(&mut self, addr: usize, val: u32, spied: &mut Option<SpyResult>) -> (r: Result<
        (),
        MemoryAccessError,
    >)
        requires
            old(self).wf(),
        ensures
            final(self).wf(),
            r == old(self)@.write_result(addr),
            match r {
                Ok(_) => final(self)@ == old(self)@.after_write(addr, val, Ty::F32) && *final(spied) == old(self)@.spied_write(
                    addr,
                    TypedU32 { ty: Ty::F32, value: val },
                    *old(spied),
                ),
                Err(_) => final(self)@ == old(self)@ && *final(spied) == *old(spied),
            },
    {
        self.write(addr, val, Ty::F32, spied)
    }
}

/// A word that was stored is the word that is read next, whatever type the
/// read asks for that an integer word can have; no other data word changes.
pub proof fn lemma_set_then_get(m: MemoryView, addr: usize, val: u32, other: usize)
    requires
        m.data_word(addr as int),
        m.tags.len() == m.bytes.len() / 4,
    ensures
        m.write_result(addr) is Ok,
        m.after_write(addr, val, Ty::I32OrUsize).read_result(addr, Ty::Unknown) == Ok::<
            TypedU32,
            MemoryAccessError,
        >(TypedU32 { ty: Ty::I32OrUsize, value: val }),
        m.after_write(addr, val, Ty::I32OrUsize).read_result(addr, Ty::I32OrUsize) == Ok::<
            TypedU32,
            MemoryAccessError,
        >(TypedU32 { ty: Ty::I32OrUsize, value: val }),
        m.after_write(addr, val, Ty::I32OrUsize).read_result(addr, Ty::F32) is Err,
        other != addr && m.data_word(other as int) ==> m.after_write(
            addr,
            val,
            Ty::I32OrUsize,
        ).word(other as int) == m.word(other as int),
{
    lemma_store_word(m.bytes, 4 * addr, val, 4 * other);
}

} // verus!
