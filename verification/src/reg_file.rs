//! The register file and the classifier of memory regions that follows the
//! stack pointer.

use crate::common::MemoryRegion;
use crate::isa::Dialect;
use crate::memory::{count_up, spec_count_up};
use crate::register::{abi_name, f_abi_name, FRegId, RegId, MAX_REG_ID};
use crate::text::{
    chunked_text, lemma_texts_len, lemma_texts_push, push_chunked, push_decimal_field,
    push_right_aligned, right_aligned, texts,
};
use vstd::prelude::*;
use vstd::string::*;

verus! {

/// Classifies word addresses from the initial heap pointer and the lowest
/// stack pointer seen so far.
#[derive(Debug, Clone, Copy, PartialEq, Eq, Structural)]
pub struct MemoryRegionStatBuilder {
    pub hp_min: u32,
    pub sp_min: u32,
    pub sp_max: u32,
}

/// The extent of heap and stack when the statistics are collected.
#[derive(Debug, Clone, Copy, PartialEq, Eq, Structural)]
pub struct MemoryRegionStat {
    pub hp_min: u32,
    pub hp_max: u32,
    pub sp_min: u32,
    pub sp_max: u32,
}

impl Default for MemoryRegionStatBuilder {
    fn default() -> (b: Self)
        ensures
            b == (MemoryRegionStatBuilder { hp_min: 0, sp_min: 0, sp_max: 0 }),
    {
        MemoryRegionStatBuilder { hp_min: 0, sp_min: 0, sp_max: 0 }
    }
}

impl MemoryRegionStatBuilder {
    pub fn init(&mut self, hp_min: u32, sp_max: u32)
        ensures
            *final(self) == (MemoryRegionStatBuilder { hp_min, sp_min: sp_max, sp_max }),
    {
        self.hp_min = hp_min;
        self.sp_max = sp_max;
        self.sp_min = sp_max;
    }

    pub open spec fn spec_update_sp(self, value: u32) -> Self {
        if self.sp_min > value {
            MemoryRegionStatBuilder { sp_min: value, ..self }
        } else {
            self
        }
    }

    /// Records a new value of the stack pointer.
    pub fn update_sp(&mut self, value: u32)
        ensures
            *final(self) == old(self).spec_update_sp(value),
    {
        if self.sp_min > value {
            self.sp_min = value;
        }
    }

    pub fn finish(&self, hp_max: u32) -> (s: MemoryRegionStat)
        ensures
            s == (MemoryRegionStat {
                hp_min: self.hp_min,
                hp_max,
                sp_min: self.sp_min,
                sp_max: self.sp_max,
            }),
    {
        MemoryRegionStat { hp_min: self.hp_min, hp_max, sp_min: self.sp_min, sp_max: self.sp_max }
    }

    /// Below the initial heap pointer lies the data section; within 1000
    /// words below the lowest stack pointer, and above it, the stack; the heap
    /// in between.
    pub open spec fn spec_get_region(self, addr: u32) -> MemoryRegion {
        if addr < self.hp_min {
            MemoryRegion::DataSection
        } else if addr + 1000 >= self.sp_min {
            MemoryRegion::Stack
        } else {
            MemoryRegion::Heap
        }
    }

    pub fn get_region(&self, addr: u32) -> (r: MemoryRegion)
        ensures
            r == self.spec_get_region(addr),
    {
        if addr < self.hp_min {
            MemoryRegion::DataSection
        } else if addr as u64 + 1000 >= self.sp_min as u64 {
            MemoryRegion::Stack
        } else {
            MemoryRegion::Heap
        }
    }
}

/// How often each register of one kind was read and written. The counts
/// stop at the largest number a counter holds.
pub struct RegFileStat {
    write: Vec<usize>,
    read: Vec<usize>,
}

/// The counts of a `RegFileStat`, as plain values.
pub struct RegFileCounts {
    pub write: Seq<usize>,
    pub read: Seq<usize>,
}

impl RegFileCounts {
    pub open spec fn after_write(self, id: int) -> Self {
        RegFileCounts { write: self.write.update(id, spec_count_up(self.write[id])), ..self }
    }

    pub open spec fn after_read(self, id: int) -> Self {
        RegFileCounts { read: self.read.update(id, spec_count_up(self.read[id])), ..self }
    }

    /// The counts before anything was counted.
    pub open spec fn zero() -> Self {
        RegFileCounts {
            write: Seq::new(MAX_REG_ID as nat, |i: int| 0usize),
            read: Seq::new(MAX_REG_ID as nat, |i: int| 0usize),
        }
    }
}

impl RegFileStat {
    pub closed spec fn view(&self) -> RegFileCounts {
        RegFileCounts { write: self.write@, read: self.read@ }
    }

    /// There is a pair of counters for each register.
    pub open spec fn wf(&self) -> bool {
        self@.write.len() == MAX_REG_ID && self@.read.len() == MAX_REG_ID
    }

    pub fn new() -> (s: Self)
        ensures
            s.wf(),
            s@ == RegFileCounts::zero(),
    {
        let s = Self { write: vec![0usize; MAX_REG_ID], read: vec![0usize; MAX_REG_ID] };
        assert(s@.write =~= RegFileCounts::zero().write);
        assert(s@.read =~= RegFileCounts::zero().read);
        s
    }

    pub fn encounter_write(&mut self, id: usize)
        requires
            old(self).wf(),
            id < MAX_REG_ID,
        ensures
            final(self).wf(),
            final(self)@ == old(self)@.after_write(id as int),
    {
        let n = self.write[id];
        self.write.set(id, count_up(n));
    }

    pub fn encounter_read(&mut self, id: usize)
        requires
            old(self).wf(),
            id < MAX_REG_ID,
        ensures
            final(self).wf(),
            final(self)@ == old(self)@.after_read(id as int),
    {
        let n = self.read[id];
        self.read.set(id, count_up(n));
    }

    /// How often register `id` was read.
    pub fn reads(&self, id: usize) -> (n: usize)
        requires
            self.wf(),
            id < MAX_REG_ID,
        ensures
            n == self@.read[id as int],
    {
        self.read[id]
    }

    /// A copy of the counts.
    pub fn copy(&self) -> (c: Self)
        requires
            self.wf(),
        ensures
            c.wf(),
            c@ == self@,
    {
        let mut write: Vec<usize> = Vec::new();
        let mut read: Vec<usize> = Vec::new();
        let mut i: usize = 0;
        while i < MAX_REG_ID
            invariant
                i <= MAX_REG_ID,
                self.wf(),
                write@ == self.write@.take(i as int),
                read@ == self.read@.take(i as int),
            decreases MAX_REG_ID - i,
        {
            write.push(self.write[i]);
            read.push(self.read[i]);
            assert(write@ =~= self.write@.take(i + 1));
            assert(read@ =~= self.read@.take(i + 1));
            i = i + 1;
        }
        assert(write@ =~= self.write@);
        assert(read@ =~= self.read@);
        Self { write, read }
    }

    /// How often register `id` was written.
    pub fn writes(&self, id: usize) -> (n: usize)
        requires
            self.wf(),
            id < MAX_REG_ID,
        ensures
            n == self@.write[id as int],
    {
        self.write[id]
    }
}

/// The counts of the integer and of the float registers.
pub struct RegFileAllStat {
    pub i: RegFileStat,
    pub f: RegFileStat,
}

impl RegFileAllStat {
    pub fn new(i: RegFileStat, f: RegFileStat) -> (s: Self)
        ensures
            s.i == i,
            s.f == f,
    {
        Self { i, f }
    }
}

/// Which registers a listing of the register file shows.
#[derive(Debug, Clone, Copy, PartialEq, Eq, Structural)]
pub enum ShowRegFileKind {
    RegFileAll,
    RegFileI,
    RegFileF,
}

/// The integer and float registers. Float registers hold bit patterns.
pub struct RegFile {
    inner: Vec<u32>,
    inner_f: Vec<u32>,
    stat_memregion: MemoryRegionStatBuilder,
    stat_i: RegFileStat,
    stat_f: RegFileStat,
}

/// What a register file holds, as plain values.
pub struct RegFileState {
    /// The integer registers.
    pub ints: Seq<u32>,
    /// The bit patterns of the float registers.
    pub floats: Seq<u32>,
    /// The classifier of memory regions, which follows the stack pointer.
    pub region: MemoryRegionStatBuilder,
    /// Read and write counts of the integer registers.
    pub stat_i: RegFileCounts,
    /// Read and write counts of the float registers.
    pub stat_f: RegFileCounts,
}

impl RegFileState {
    /// Every register and counter exists, and both registers 0 hold zero.
    pub open spec fn wf(self) -> bool {
        &&& self.ints.len() == MAX_REG_ID
        &&& self.floats.len() == MAX_REG_ID
        &&& self.stat_i.write.len() == MAX_REG_ID
        &&& self.stat_i.read.len() == MAX_REG_ID
        &&& self.stat_f.write.len() == MAX_REG_ID
        &&& self.stat_f.read.len() == MAX_REG_ID
        &&& self.ints[0] == 0
        &&& self.floats[0] == 0
    }

    /// After a counted read of integer register `id`.
    pub open spec fn after_get(self, id: int) -> Self {
        RegFileState { stat_i: self.stat_i.after_read(id), ..self }
    }

    /// After a counted read of float register `id`.
    pub open spec fn after_get_f(self, id: int) -> Self {
        RegFileState { stat_f: self.stat_f.after_read(id), ..self }
    }

    /// After a write of `val` to integer register `id`: register 0 keeps its
    /// zero, and a write to register 2, the stack pointer, reaches the
    /// classifier of memory regions.
    pub open spec fn after_set(self, id: int, val: u32) -> Self {
        RegFileState {
            ints: if id != 0 {
                self.ints.update(id, val)
            } else {
                self.ints
            },
            region: if id == 2 {
                self.region.spec_update_sp(val)
            } else {
                self.region
            },
            stat_i: self.stat_i.after_write(id),
            ..self
        }
    }

    /// After a write of the bit pattern `val` to float register `id`.
    pub open spec fn after_set_f(self, id: int, val: u32) -> Self {
        RegFileState {
            floats: if id != 0 {
                self.floats.update(id, val)
            } else {
                self.floats
            },
            stat_f: self.stat_f.after_write(id),
            ..self
        }
    }
}

impl RegFile {
    pub closed spec fn view(&self) -> RegFileState {
        RegFileState {
            ints: self.inner@,
            floats: self.inner_f@,
            region: self.stat_memregion,
            stat_i: self.stat_i@,
            stat_f: self.stat_f@,
        }
    }

    pub open spec fn wf(&self) -> bool {
        self@.wf()
    }

    /// A register file of zeros.
    pub fn new() -> (r: Self)
        ensures
            r.wf(),
            r@ == (RegFileState {
                ints: Seq::new(MAX_REG_ID as nat, |i: int| 0u32),
                floats: Seq::new(MAX_REG_ID as nat, |i: int| 0u32),
                region: MemoryRegionStatBuilder { hp_min: 0, sp_min: 0, sp_max: 0 },
                stat_i: RegFileCounts::zero(),
                stat_f: RegFileCounts::zero(),
            }),
    {
        let r = Self {
            inner: vec![0u32; MAX_REG_ID],
            inner_f: vec![0u32; MAX_REG_ID],
            stat_memregion: MemoryRegionStatBuilder::default(),
            stat_i: RegFileStat::new(),
            stat_f: RegFileStat::new(),
        };
        assert(r@.ints =~= Seq::new(MAX_REG_ID as nat, |i: int| 0u32));
        assert(r@.floats =~= Seq::new(MAX_REG_ID as nat, |i: int| 0u32));
        r
    }

    /// Reads integer register `id`, and counts the read.
    pub fn get(&mut self, id: RegId) -> (v: u32)
        requires
            old(self).wf(),
        ensures
            final(self).wf(),
            v == old(self)@.ints[id@],
            final(self)@ == old(self)@.after_get(id@),
    {
        self.stat_i.encounter_read(id.inner());
        self.inner[id.inner()]
    }

    /// Reads the bit pattern of float register `id`, and counts the read.
    pub fn get_f(&mut self, id: FRegId) -> (v: u32)
        requires
            old(self).wf(),
        ensures
            final(self).wf(),
            v == old(self)@.floats[id@],
            final(self)@ == old(self)@.after_get_f(id@),
    {
        self.stat_f.encounter_read(id.inner());
        self.inner_f[id.inner()]
    }

    /// Reads integer register `id` without counting.
    pub fn peek(&self, id: RegId) -> (v: u32)
        requires
            self.wf(),
        ensures
            v == self@.ints[id@],
    {
        self.inner[id.inner()]
    }

    /// Reads the bit pattern of float register `id` without counting.
    pub fn peek_f(&self, id: FRegId) -> (v: u32)
        requires
            self.wf(),
        ensures
            v == self@.floats[id@],
    {
        self.inner_f[id.inner()]
    }

    /// Sets the stack pointer, register 2, while the processor is set up.
    pub fn set_sp(&mut self, val: u32)
        requires
            old(self).wf(),
        ensures
            final(self).wf(),
            final(self)@ == (RegFileState { ints: old(self)@.ints.update(2, val), ..old(self)@ }),
    {
        self.inner.set(2, val);
    }

    /// Sets the heap pointer, register 4, while the processor is set up.
    pub fn set_hp(&mut self, val: u32)
        requires
            old(self).wf(),
        ensures
            final(self).wf(),
            final(self)@ == (RegFileState { ints: old(self)@.ints.update(4, val), ..old(self)@ }),
    {
        self.inner.set(4, val);
    }

    /// Writes `val` to integer register `id`, and counts the write.
    pub fn set(&mut self, id: RegId, val: u32)
        requires
            old(self).wf(),
        ensures
            final(self).wf(),
            final(self)@ == old(self)@.after_set(id@, val),
    {
        self.stat_i.encounter_write(id.inner());
        if id.inner() == 2 {
            self.stat_memregion.update_sp(val);
        }
        if id.inner() != 0 {
            self.inner.set(id.inner(), val);
        }
    }

    /// Writes the bit pattern `val` to float register `id`, and counts the write.
    pub fn set_f(&mut self, id: FRegId, val: u32)
        requires
            old(self).wf(),
        ensures
            final(self).wf(),
            final(self)@ == old(self)@.after_set_f(id@, val),
    {
        self.stat_f.encounter_write(id.inner());
        if id.inner() != 0 {
            self.inner_f.set(id.inner(), val);
        }
    }

    /// Ends the set-up: the classifier of memory regions starts from the
    /// heap pointer and the stack pointer as they are now.
    pub fn end_init(&mut self)
        requires
            old(self).wf(),
        ensures
            final(self).wf(),
            final(self)@ == (RegFileState {
                region: MemoryRegionStatBuilder {
                    hp_min: old(self)@.ints[4],
                    sp_min: old(self)@.ints[2],
                    sp_max: old(self)@.ints[2],
                },
                ..old(self)@
            }),
    {
        let hp: u32 = self.inner[4];
        let sp: u32 = self.inner[2];
        self.stat_memregion.init(hp, sp);
    }

    pub fn get_region(&self, addr: u32) -> (r: MemoryRegion)
        ensures
            r == self@.region.spec_get_region(addr),
    {
        self.stat_memregion.get_region(addr)
    }

    /// The classifier of memory regions as it is now.
    pub fn mem_region(&self) -> (b: MemoryRegionStatBuilder)
        ensures
            b == self@.region,
    {
        self.stat_memregion
    }

    /// The extent of heap and stack so far.
    pub fn region_stat(&self) -> (s: MemoryRegionStat)
        requires
            self.wf(),
        ensures
            s == (MemoryRegionStat {
                hp_min: self@.region.hp_min,
                hp_max: self@.ints[4],
                sp_min: self@.region.sp_min,
                sp_max: self@.region.sp_max,
            }),
    {
        self.stat_memregion.finish(self.inner[4])
    }

    /// How often integer register `id` was read and written.
    pub fn counts(&self, id: RegId) -> (c: (usize, usize))
        requires
            self.wf(),
        ensures
            c.0 == self@.stat_i.read[id@],
            c.1 == self@.stat_i.write[id@],
    {
        (self.stat_i.reads(id.inner()), self.stat_i.writes(id.inner()))
    }

    /// How often float register `id` was read and written.
    pub fn counts_f(&self, id: FRegId) -> (c: (usize, usize))
        requires
            self.wf(),
        ensures
            c.0 == self@.stat_f.read[id@],
            c.1 == self@.stat_f.write[id@],
    {
        (self.stat_f.reads(id.inner()), self.stat_f.writes(id.inner()))
    }
}

/// A register other than register 0 holds what was last written to it, and
/// register 0 reads as zero whatever was written.
pub proof fn lemma_set_then_get(r: RegFileState, id: int, val: u32)
    requires
        0 <= id < r.ints.len(),
        r.ints[0] == 0,
    ensures
        id != 0 ==> r.after_set(id, val).ints[id] == val,
        r.after_set(id, val).ints[0] == 0,
        forall|j: int| 0 <= j < r.ints.len() && j != id ==> r.after_set(id, val).ints[j] == r.ints[j],
{
}

/// The registers of a register file, as they are listed.
pub struct RegFileView<'a> {
    r: &'a RegFile,
    k: ShowRegFileKind,
    chunk_size: usize,
    dialect: Dialect,
}

/// The item of a register in a listing: its name and its value.
pub open spec fn spec_value_item(name: Seq<char>, value: Seq<char>) -> Seq<char> {
    right_aligned(name, 6) + ": "@ + right_aligned(value, 16)
}

/// The items of the first `upto` integer registers.
pub open spec fn spec_int_items(ints: Seq<u32>, upto: nat) -> Seq<Seq<char>> {
    Seq::new(
        upto,
        |i: int| spec_value_item(abi_name(i), crate::text::decimal_text(ints[i] as nat)),
    )
}

/// The items of the first `upto` float registers, whose values are shown
/// as `values` says.
pub open spec fn spec_float_items(values: Seq<Seq<char>>, upto: nat) -> Seq<Seq<char>> {
    Seq::new(upto, |i: int| spec_value_item(f_abi_name(i), values[i]))
}

impl RegFile {
    /// The counts of reads and writes of all registers.
    pub fn all_stat(&self) -> (s: RegFileAllStat)
        requires
            self.wf(),
        ensures
            s.i.wf(),
            s.f.wf(),
            s.i@ == self@.stat_i,
            s.f@ == self@.stat_f,
    {
        RegFileAllStat::new(self.stat_i.copy(), self.stat_f.copy())
    }

    /// A listing of the registers of kind `k` in encoding `dialect`, in
    /// lines of `chunk_size` registers.
    pub fn get_view(&self, k: ShowRegFileKind, chunk_size: usize, dialect: Dialect) -> (v:
        RegFileView<'_>)
        requires
            self.wf(),
            chunk_size > 0,
        ensures
            v.spec_regs() == self@,
            v.spec_kind() == k,
            v.spec_chunk_size() == chunk_size,
            v.spec_dialect() == dialect,
    {
        RegFileView { r: self, k, chunk_size, dialect }
    }
}

impl<'a> RegFileView<'a> {
    pub closed spec fn spec_regs(&self) -> RegFileState {
        self.r@
    }

    pub closed spec fn spec_kind(&self) -> ShowRegFileKind {
        self.k
    }

    pub closed spec fn spec_chunk_size(&self) -> usize {
        self.chunk_size
    }

    pub closed spec fn spec_dialect(&self) -> Dialect {
        self.dialect
    }

    #[verifier::type_invariant]
    spec fn usable(&self) -> bool {
        self.chunk_size > 0 && self.r.wf()
    }

    /// The listing, where `floats` says how the value of each float
    /// register is shown: a header that names the kind, the integer
    /// registers and then the float registers as far as the kind has them,
    /// in lines that end with a comma, and a closing brace.
    pub open spec fn spec_text(&self, floats: Seq<Seq<char>>) -> Seq<char> {
        let count = self.spec_dialect().spec_reg_count() as nat;
        let chunk = self.spec_chunk_size() as nat;
        let ints = chunked_text(spec_int_items(self.spec_regs().ints, count), chunk, ","@, count);
        let floats = chunked_text(spec_float_items(floats, count), chunk, ","@, count);
        match self.spec_kind() {
            ShowRegFileKind::RegFileAll => "RegFile (All) {\n"@ + ints + floats + "}"@,
            ShowRegFileKind::RegFileI => "RegFile (Integer) {\n"@ + ints + "}"@,
            ShowRegFileKind::RegFileF => "RegFile (Float) {\n"@ + floats + "}"@,
        }
    }

    /// The bit pattern of float register `index`, for the host to show.
    pub fn float_bits(&self, index: usize) -> (bits: u32)
        requires
            index < MAX_REG_ID,
        ensures
            bits == self.spec_regs().floats[index as int],
    {
        proof {
            use_type_invariant(self);
        }
        self.r.inner_f[index]
    }

    /// The listing; see `spec_text`. `floats` holds the text of the value
    /// of each float register of the encoding.
    pub fn text(&self, floats: &Vec<String>) -> (s: String)
        requires
            floats@.len() >= self.spec_dialect().spec_reg_count(),
        ensures
            s@ == self.spec_text(texts(floats@)),
    {
        proof {
            use_type_invariant(self);
        }
        let count = self.dialect.reg_count();
        let mut int_items: Vec<String> = Vec::new();
        let mut float_items: Vec<String> = Vec::new();
        let mut i: usize = 0;
        while i < count
            invariant
                i <= count <= MAX_REG_ID,
                count <= floats@.len(),
                self.r.wf(),
                texts(int_items@) == spec_int_items(self.r@.ints, i as nat),
                texts(float_items@) == spec_float_items(texts(floats@), i as nat),
            decreases count - i,
        {
            let mut item = String::new();
            push_right_aligned(&mut item, RegId::try_new(i as u32).unwrap().name(), 6);
            item.append(": ");
            push_decimal_field(&mut item, self.r.inner[i] as u64, 16);
            proof {
                lemma_texts_push(int_items@, item);
            }
            int_items.push(item);
            let mut item = String::new();
            push_right_aligned(&mut item, FRegId::try_new(i as u32).unwrap().name(), 6);
            item.append(": ");
            push_right_aligned(&mut item, floats[i].as_str(), 16);
            proof {
                lemma_texts_push(float_items@, item);
            }
            float_items.push(item);
            proof {
                assert(texts(floats@)[i as int] == floats@[i as int]@);
                assert(texts(int_items@) =~= spec_int_items(self.r@.ints, (i + 1) as nat));
                assert(texts(float_items@) =~= spec_float_items(texts(floats@), (i + 1) as nat));
            }
            i = i + 1;
        }
        proof {
            lemma_texts_len(int_items@);
            lemma_texts_len(float_items@);
        }
        let mut s = String::new();
        match self.k {
            ShowRegFileKind::RegFileAll => {
                s.append("RegFile (All) {\n");
                push_chunked(&mut s, &int_items, self.chunk_size, ",");
                push_chunked(&mut s, &float_items, self.chunk_size, ",");
            },
            ShowRegFileKind::RegFileI => {
                s.append("RegFile (Integer) {\n");
                push_chunked(&mut s, &int_items, self.chunk_size, ",");
            },
            ShowRegFileKind::RegFileF => {
                s.append("RegFile (Float) {\n");
                push_chunked(&mut s, &float_items, self.chunk_size, ",");
            },
        }
        s.append("}");
        assert(s@ =~= self.spec_text(texts(floats@)));
        s
    }
}

} // verus!
