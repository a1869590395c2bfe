//! Counters of what the processor did.

use crate::instr::{spec_mnemonic, DecodedInstr, InstrId, INSTR_ID_MAX};
use crate::isa::Dialect;
use crate::memory::MemoryStat;
use crate::reg_file::{MemoryRegionStat, RegFileAllStat};
use crate::register::{abi_name, f_abi_name, FRegId, RegId, MAX_REG_ID};
use crate::text::{
    chunked_text, decimal_field, lemma_texts_len, lemma_texts_push, push_chunked, push_decimal_field, push_right_aligned,
    right_aligned, texts,
};
use vstd::prelude::*;
use vstd::string::*;

verus! {

/// How often each operation was executed, by instruction identifier.
pub struct InstrStat {
    instr_executed: Vec<usize>,
    total: usize,
}

impl InstrStat {
    /// The count of each identifier.
    pub closed spec fn view(&self) -> Seq<usize> {
        self.instr_executed@
    }

    /// How many instructions were counted in all.
    pub closed spec fn spec_total(&self) -> usize {
        self.total
    }

    /// There is a counter for each identifier, and none exceeds the total.
    pub open spec fn wf(&self) -> bool {
        &&& self@.len() == INSTR_ID_MAX
        &&& forall|i: int| 0 <= i < INSTR_ID_MAX ==> #[trigger] self@[i] <= self.spec_total()
    }

    pub fn new() -> (s: Self)
        ensures
            s.wf(),
            s.spec_total() == 0,
            s@ == Seq::new(INSTR_ID_MAX as nat, |i: int| 0usize),
    {
        let s = Self { instr_executed: vec![0usize; INSTR_ID_MAX], total: 0 };
        assert(s@ =~= Seq::new(INSTR_ID_MAX as nat, |i: int| 0usize));
        s
    }

    /// Counts one execution of the operation with identifier `id`.
    pub fn encounter(&mut self, id: u8)
        requires
            old(self).wf(),
            id < INSTR_ID_MAX,
            old(self).spec_total() < usize::MAX,
        ensures
            final(self).wf(),
            final(self).spec_total() == old(self).spec_total() + 1,
            final(self)@ == old(self)@.update(id as int, (old(self)@[id as int] + 1) as usize),
    {
        let n: usize = self.instr_executed[id as usize];
        self.instr_executed.set(id as usize, n + 1);
        self.total = self.total + 1;
    }

    /// Counts one execution of the instruction `d` of encoding `dialect`.
    pub fn encounter_instr(&mut self, d: &DecodedInstr, dialect: Dialect)
        requires
            old(self).wf(),
            d.spec_index(dialect) is Some,
            old(self).spec_total() < usize::MAX,
        ensures
            final(self).wf(),
            final(self).spec_total() == old(self).spec_total() + 1,
            final(self)@ == old(self)@.update(
                d.spec_id(dialect)->0,
                (old(self)@[d.spec_id(dialect)->0] + 1) as usize,
            ),
    {
        proof {
            d.lemma_id_names(dialect);
        }
        let id = d.id(dialect).unwrap();
        self.encounter(id.inner());
    }

    /// How often the operation with identifier `id` was executed.
    pub fn count(&self, id: u8) -> (n: usize)
        requires
            self.wf(),
            id < INSTR_ID_MAX,
        ensures
            n == self@[id as int],
    {
        self.instr_executed[id as usize]
    }

    pub fn total(&self) -> (n: usize)
        ensures
            n == self.spec_total(),
    {
        self.total
    }
}

/// How often branches were taken and not taken, by what was predicted.
#[derive(Debug, Clone, Copy, PartialEq, Eq, Structural)]
pub struct BranchStat {
    pub taken_pred_taken_count: usize,
    pub taken_pred_untaken_count: usize,
    pub untaken_pred_taken_count: usize,
    pub untaken_pred_untaken_count: usize,
}

impl Default for BranchStat {
    fn default() -> (s: Self)
        ensures
            s.total() == 0,
            s == (BranchStat {
                taken_pred_taken_count: 0,
                taken_pred_untaken_count: 0,
                untaken_pred_taken_count: 0,
                untaken_pred_untaken_count: 0,
            }),
    {
        BranchStat {
            taken_pred_taken_count: 0,
            taken_pred_untaken_count: 0,
            untaken_pred_taken_count: 0,
            untaken_pred_untaken_count: 0,
        }
    }
}

impl BranchStat {
    /// The number of branches counted: the sum of the four counters.
    pub open spec fn total(self) -> int {
        self.taken_pred_taken_count + self.taken_pred_untaken_count
            + self.untaken_pred_taken_count + self.untaken_pred_untaken_count
    }

    /// The counters after a branch with the given prediction and outcome.
    pub open spec fn spec_update(self, predicted: bool, actual: bool) -> Self {
        if predicted {
            if actual {
                BranchStat {
                    taken_pred_taken_count: (self.taken_pred_taken_count + 1) as usize,
                    ..self
                }
            } else {
                BranchStat {
                    untaken_pred_taken_count: (self.untaken_pred_taken_count + 1) as usize,
                    ..self
                }
            }
        } else if actual {
            BranchStat {
                taken_pred_untaken_count: (self.taken_pred_untaken_count + 1) as usize,
                ..self
            }
        } else {
            BranchStat {
                untaken_pred_untaken_count: (self.untaken_pred_untaken_count + 1) as usize,
                ..self
            }
        }
    }

    /// Counts one branch. The sum of the four counters grows by one.
    pub fn update_stat(&mut self, predicted: bool, actual: bool)
        requires
            old(self).total() < usize::MAX,
        ensures
            *final(self) == old(self).spec_update(predicted, actual),
            final(self).total() == old(self).total() + 1,
    {
        if predicted {
            if actual {
                self.taken_pred_taken_count = self.taken_pred_taken_count + 1;
            } else {
                self.untaken_pred_taken_count = self.untaken_pred_taken_count + 1;
            }
        } else if actual {
            self.taken_pred_untaken_count = self.taken_pred_untaken_count + 1;
        } else {
            self.untaken_pred_untaken_count = self.untaken_pred_untaken_count + 1;
        }
    }
}

/// After `n` branches counted from zero the four counters sum to `n`.
pub open spec fn branch_stat_after(outcomes: Seq<(bool, bool)>) -> BranchStat
    decreases outcomes.len(),
{
    if outcomes.len() == 0 {
        BranchStat {
            taken_pred_taken_count: 0,
            taken_pred_untaken_count: 0,
            untaken_pred_taken_count: 0,
            untaken_pred_untaken_count: 0,
        }
    } else {
        branch_stat_after(outcomes.drop_last()).spec_update(outcomes.last().0, outcomes.last().1)
    }
}

/// The sum of the four counters after a run of branches is the number of
/// branches, as long as that number fits a counter.
pub proof fn lemma_branch_total(outcomes: Seq<(bool, bool)>)
    requires
        outcomes.len() <= usize::MAX,
    ensures
        branch_stat_after(outcomes).total() == outcomes.len(),
    decreases outcomes.len(),
{
    if outcomes.len() > 0 {
        lemma_branch_total(outcomes.drop_last());
    }
}

/// How often the cache was hit and missed.
#[derive(Debug, Clone, Copy, PartialEq, Eq, Structural)]
pub struct CacheStat {
    pub hit_count: usize,
    pub miss_count: usize,
}

impl Default for CacheStat {
    fn default() -> (s: Self)
        ensures
            s == (CacheStat { hit_count: 0, miss_count: 0 }),
    {
        CacheStat { hit_count: 0, miss_count: 0 }
    }
}

impl CacheStat {
    /// The number of accesses counted.
    pub open spec fn total(self) -> int {
        self.hit_count + self.miss_count
    }

    pub open spec fn spec_update(self, result: bool) -> Self {
        if result {
            CacheStat { hit_count: (self.hit_count + 1) as usize, ..self }
        } else {
            CacheStat { miss_count: (self.miss_count + 1) as usize, ..self }
        }
    }

    /// Counts one access: a hit when `result` is true.
    pub fn update_stat(&mut self, result: bool)
        requires
            old(self).total() < usize::MAX,
        ensures
            *final(self) == old(self).spec_update(result),
            final(self).total() == old(self).total() + 1,
    {
        if result {
            self.hit_count = self.hit_count + 1;
        } else {
            self.miss_count = self.miss_count + 1;
        }
    }
}

/// A statistic as it is shown: under a header, in a body of some width.
pub trait StatView {
    /// The header of the statistic.
    fn header(&self) -> &'static str;

    /// The width of the body in characters.
    fn width(&self) -> usize;

    /// The body.
    fn text(&self) -> String;
}

/// A statistic whose body is set in lines of several items.
pub trait Width {
    /// The width of a line of `chunk_size` items.
    fn width_by_chunk_size(chunk_size: usize) -> usize;
}

/// The width of a line of `chunk` items of `item` characters each: two
/// spaces in front, and a comma and a space between two items.
pub open spec fn spec_line_width(item: nat, chunk: nat) -> int {
    chunk * item + (chunk - 1) * 2 + 2
}

pub fn line_width(item: usize, chunk: usize) -> (w: usize)
    requires
        chunk * (item + 2) <= usize::MAX,
    ensures
        w == spec_line_width(item as nat, chunk as nat),
{
    assert(chunk * (item + 2) == chunk * item + chunk * 2) by (nonlinear_arith);
    chunk * item + chunk * 2
}

/// How many items of `item` characters fit a line of `max_width`
/// characters: the largest number whose line is not wider, but at least one.
pub fn chunk_size(item: usize, max_width: usize) -> (chunk: usize)
    requires
        item <= usize::MAX - 2,
    ensures
        chunk >= 1,
        spec_line_width(item as nat, (chunk + 1) as nat) > max_width,
        chunk > 1 ==> spec_line_width(item as nat, chunk as nat) <= max_width,
{
    let unit: usize = item + 2;
    let fit: usize = max_width / unit;
    proof {
        vstd::arithmetic::div_mod::lemma_fundamental_div_mod(max_width as int, unit as int);
        vstd::arithmetic::div_mod::lemma_mod_bound(max_width as int, unit as int);
        assert((fit + 1) * unit == unit * fit + unit) by (nonlinear_arith);
        assert(fit * unit == unit * fit) by (nonlinear_arith);
        assert((fit + 1) * item + fit * 2 + 2 == (fit + 1) * unit) by (nonlinear_arith)
            requires
                unit == item + 2,
        ;
        assert(fit * item + (fit - 1) * 2 + 2 == fit * unit) by (nonlinear_arith)
            requires
                unit == item + 2,
        ;
        assert(2 * item + 1 * 2 + 2 == 2 * unit);
        if fit == 0 {
            assert(unit * fit == 0) by (nonlinear_arith)
                requires
                    fit == 0,
            ;
        }
    }
    if fit < 1 {
        1
    } else {
        fit
    }
}

/// The access counts of the memory, as they are shown.
pub struct MemoryStatView<'a> {
    stat: &'a MemoryStat,
}

/// The line of one region: its name, its reads and its writes.
pub open spec fn spec_region_line(name: Seq<char>, read: usize, write: usize) -> Seq<char> {
    "  "@ + right_aligned(name, 13) + ":"@ + decimal_field(read as nat, 11) + " /"@ + decimal_field(
        write as nat,
        11,
    ) + "\n"@
}

fn push_region_line(s: &mut String, name: &str, read: usize, write: usize)
    ensures
        final(s)@ == old(s)@ + spec_region_line(name@, read, write),
{
    s.append("  ");
    push_right_aligned(s, name, 13);
    s.append(":");
    push_decimal_field(s, read as u64, 11);
    s.append(" /");
    push_decimal_field(s, write as u64, 11);
    s.append("\n");
    assert(s@ =~= old(s)@ + spec_region_line(name@, read, write));
}

impl<'a> MemoryStatView<'a> {
    pub closed spec fn spec_stat(&self) -> MemoryStat {
        *self.stat
    }

    pub fn new(stat: &'a MemoryStat) -> (v: Self)
        ensures
            v.spec_stat() == *stat,
    {
        Self { stat }
    }

    pub open spec fn spec_text(&self) -> Seq<char> {
        let stat = self.spec_stat();
        spec_region_line("data section"@, stat.read.data_section, stat.write.data_section)
            + spec_region_line("heap"@, stat.read.heap, stat.write.heap) + spec_region_line(
            "stack"@,
            stat.read.stack,
            stat.write.stack,
        )
    }
}

impl<'a> StatView for MemoryStatView<'a> {
    fn header(&self) -> (h: &'static str)
        ensures
            h@ == "access count of memory region (format: `# of read / # of write`)"@,
    {
        "access count of memory region (format: `# of read / # of write`)"
    }

    fn width(&self) -> (w: usize)
        ensures
            w == 40,
    {
        40
    }

    fn text(&self) -> (s: String)
        ensures
            s@ == self.spec_text(),
    {
        let mut s = String::new();
        push_region_line(&mut s, "data section", self.stat.read.data_section, self.stat.write.data_section);
        push_region_line(&mut s, "heap", self.stat.read.heap, self.stat.write.heap);
        push_region_line(&mut s, "stack", self.stat.read.stack, self.stat.write.stack);
        assert(s@ =~= self.spec_text());
        s
    }
}

/// The extent of heap and stack, as it is shown.
pub struct HeapStackStatView<'a> {
    stat: &'a MemoryRegionStat,
}

impl<'a> HeapStackStatView<'a> {
    pub closed spec fn spec_stat(&self) -> MemoryRegionStat {
        *self.stat
    }

    pub fn new(stat: &'a MemoryRegionStat) -> (v: Self)
        ensures
            v.spec_stat() == *stat,
    {
        Self { stat }
    }

    /// The bytes between two word addresses, in 32-bit arithmetic.
    pub open spec fn spec_bytes(low: u32, high: u32) -> u32 {
        high.wrapping_sub(low).wrapping_mul(4)
    }

    pub open spec fn spec_text(&self) -> Seq<char> {
        let stat = self.spec_stat();
        "  heap: "@ + decimal_field(Self::spec_bytes(stat.hp_min, stat.hp_max) as nat, 10)
            + " bytes\n"@ + "  stack: "@ + decimal_field(
            Self::spec_bytes(stat.sp_min, stat.sp_max) as nat,
            9,
        ) + " bytes\n"@
    }
}

impl<'a> StatView for HeapStackStatView<'a> {
    fn header(&self) -> (h: &'static str)
        ensures
            h@ == "used memory"@,
    {
        "used memory"
    }

    fn width(&self) -> (w: usize)
        ensures
            w == 24,
    {
        24
    }

    fn text(&self) -> (s: String)
        ensures
            s@ == self.spec_text(),
    {
        let heap: u32 = self.stat.hp_max.wrapping_sub(self.stat.hp_min).wrapping_mul(4);
        let stack: u32 = self.stat.sp_max.wrapping_sub(self.stat.sp_min).wrapping_mul(4);
        let mut s = String::from_str("  heap: ");
        push_decimal_field(&mut s, heap as u64, 10);
        s.append(" bytes\n");
        s.append("  stack: ");
        push_decimal_field(&mut s, stack as u64, 9);
        s.append(" bytes\n");
        assert(s@ =~= self.spec_text());
        s
    }
}

/// The counts of the branches, as they are shown. The body holds
/// percentages, which the host computes.
pub struct BranchStatView<'a> {
    stat: &'a BranchStat,
}

impl<'a> BranchStatView<'a> {
    pub closed spec fn spec_stat(&self) -> BranchStat {
        *self.stat
    }

    pub fn new(stat: &'a BranchStat) -> (v: Self)
        ensures
            v.spec_stat() == *stat,
    {
        Self { stat }
    }

    pub fn stat(&self) -> (s: BranchStat)
        ensures
            s == self.spec_stat(),
    {
        *self.stat
    }

    pub fn header(&self) -> (h: &'static str)
        ensures
            h@ == "branch count"@,
    {
        "branch count"
    }

    pub fn width(&self) -> (w: usize)
        ensures
            w == 33,
    {
        33
    }
}

/// The counts of the cache, as they are shown. The body holds
/// percentages, which the host computes.
pub struct CacheStatView<'a> {
    stat: &'a CacheStat,
}

impl<'a> CacheStatView<'a> {
    pub closed spec fn spec_stat(&self) -> CacheStat {
        *self.stat
    }

    pub fn new(stat: &'a CacheStat) -> (v: Self)
        ensures
            v.spec_stat() == *stat,
    {
        Self { stat }
    }

    pub fn stat(&self) -> (s: CacheStat)
        ensures
            s == self.spec_stat(),
    {
        *self.stat
    }

    pub fn header(&self) -> (h: &'static str)
        ensures
            h@ == "cache stat"@,
    {
        "cache stat"
    }

    pub fn width(&self) -> (w: usize)
        ensures
            w == 33,
    {
        33
    }
}

/// How often each operation was executed, as it is shown.
pub struct InstrStatView<'a> {
    stat: &'a InstrStat,
    chunk_size: usize,
    dialect: Dialect,
}

/// The item of an operation: its mnemonic and its count.
pub open spec fn spec_instr_item(name: Seq<char>, count: usize) -> Seq<char> {
    right_aligned(name, 8) + ": "@ + decimal_field(count as nat, 11)
}

/// The items of the operations with identifiers below `upto`, in the order
/// of the identifiers.
pub open spec fn spec_instr_items(counts: Seq<usize>, d: Dialect, upto: nat) -> Seq<Seq<char>>
    decreases upto,
{
    if upto == 0 {
        Seq::empty()
    } else {
        let id = (upto - 1) as nat;
        let before = spec_instr_items(counts, d, id);
        match spec_mnemonic(id as int / 8, (id % 8) as u8, d) {
            Some(name) => before.push(spec_instr_item(name, counts[id as int])),
            None => before,
        }
    }
}

impl<'a> Width for InstrStatView<'a> {
    fn width_by_chunk_size(chunk_size: usize) -> (w: usize)
        ensures
            chunk_size <= 0x100_0000 ==> w == spec_line_width(21, chunk_size as nat),
    {
        if chunk_size <= 0x100_0000 {
            assert(chunk_size * 23 <= 0x100_0000 * 23) by (nonlinear_arith)
                requires
                    chunk_size <= 0x100_0000,
            ;
            line_width(21, chunk_size)
        } else {
            usize::MAX
        }
    }
}

impl<'a> InstrStatView<'a> {
    pub closed spec fn spec_stat(&self) -> &InstrStat {
        self.stat
    }

    pub closed spec fn spec_chunk_size(&self) -> usize {
        self.chunk_size
    }

    pub closed spec fn spec_dialect(&self) -> Dialect {
        self.dialect
    }

    #[verifier::type_invariant]
    spec fn positive(&self) -> bool {
        self.chunk_size >= 1 && self.stat.wf()
    }

    /// The view of `stat` for lines of at most `max_width` characters, with
    /// the mnemonics of encoding `dialect`.
    pub fn new(stat: &'a InstrStat, max_width: usize, dialect: Dialect) -> (v: Self)
        requires
            stat.wf(),
        ensures
            v.spec_stat() == stat,
            v.spec_dialect() == dialect,
            v.spec_chunk_size() >= 1,
            spec_line_width(21, (v.spec_chunk_size() + 1) as nat) > max_width,
            v.spec_chunk_size() > 1 ==> spec_line_width(21, v.spec_chunk_size() as nat)
                <= max_width,
    {
        Self { stat, chunk_size: chunk_size(21, max_width), dialect }
    }

    pub open spec fn spec_text(&self) -> Seq<char> {
        let items = spec_instr_items(self.spec_stat()@, self.spec_dialect(), INSTR_ID_MAX as nat);
        chunked_text(items, self.spec_chunk_size() as nat, ""@, items.len())
    }
}

impl<'a> StatView for InstrStatView<'a> {
    fn header(&self) -> (h: &'static str)
        ensures
            h@ == "executed instructions"@,
    {
        "executed instructions"
    }

    fn width(&self) -> (w: usize)
        ensures
            self.spec_chunk_size() <= 0x100_0000 ==> w == spec_line_width(
                21,
                self.spec_chunk_size() as nat,
            ),
    {
        Self::width_by_chunk_size(self.chunk_size)
    }

    /// A line for every `chunk_size` operations of the encoding.
    fn text(&self) -> (s: String)
        ensures
            s@ == self.spec_text(),
    {
        proof {
            use_type_invariant(self);
        }
        let mut items: Vec<String> = Vec::new();
        let mut id: u8 = 0;
        while (id as usize) < INSTR_ID_MAX
            invariant
                id <= INSTR_ID_MAX,
                self.stat.wf(),
                texts(items@) == spec_instr_items(self.stat@, self.dialect, id as nat),
            decreases INSTR_ID_MAX - id,
        {
            match InstrId::try_new(id, self.dialect) {
                Some(valid) => {
                    let mut item = String::new();
                    push_right_aligned(&mut item, valid.name(), 8);
                    item.append(": ");
                    push_decimal_field(&mut item, self.stat.count(id) as u64, 11);
                    proof {
                        lemma_texts_push(items@, item);
                    }
                    items.push(item);
                    assert(texts(items@) =~= spec_instr_items(
                        self.stat@,
                        self.dialect,
                        (id + 1) as nat,
                    ));
                },
                None => {},
            }
            id = id + 1;
        }
        let mut s = String::new();
        push_chunked(&mut s, &items, self.chunk_size, "");
        proof {
            lemma_texts_len(items@);
        }
        assert(s@ =~= self.spec_text());
        s
    }
}

/// How often each register was read and written, as it is shown.
pub struct RegFileAllStatView<'a> {
    stat: &'a RegFileAllStat,
    chunk_size: usize,
    dialect: Dialect,
}

/// The item of a register: its name, its reads and its writes.
pub open spec fn spec_reg_item(name: Seq<char>, read: usize, write: usize) -> Seq<char> {
    right_aligned(name, 6) + ":"@ + decimal_field(read as nat, 11) + " /"@ + decimal_field(
        write as nat,
        11,
    )
}

/// The items of the first `upto` integer registers.
pub open spec fn spec_reg_items(read: Seq<usize>, write: Seq<usize>, upto: nat) -> Seq<Seq<char>> {
    Seq::new(upto, |i: int| spec_reg_item(abi_name(i), read[i], write[i]))
}

/// The items of the first `upto` float registers.
pub open spec fn spec_freg_items(read: Seq<usize>, write: Seq<usize>, upto: nat) -> Seq<Seq<char>> {
    Seq::new(upto, |i: int| spec_reg_item(f_abi_name(i), read[i], write[i]))
}

impl<'a> Width for RegFileAllStatView<'a> {
    fn width_by_chunk_size(chunk_size: usize) -> (w: usize)
        ensures
            chunk_size <= 0x100_0000 ==> w == spec_line_width(31, chunk_size as nat),
    {
        if chunk_size <= 0x100_0000 {
            assert(chunk_size * 33 <= 0x100_0000 * 33) by (nonlinear_arith)
                requires
                    chunk_size <= 0x100_0000,
            ;
            line_width(31, chunk_size)
        } else {
            usize::MAX
        }
    }
}

impl<'a> RegFileAllStatView<'a> {
    pub closed spec fn spec_stat(&self) -> &RegFileAllStat {
        self.stat
    }

    pub closed spec fn spec_chunk_size(&self) -> usize {
        self.chunk_size
    }

    pub closed spec fn spec_dialect(&self) -> Dialect {
        self.dialect
    }

    #[verifier::type_invariant]
    spec fn positive(&self) -> bool {
        self.chunk_size >= 1 && self.stat.i.wf() && self.stat.f.wf()
    }

    /// The view of `stat` for lines of at most `max_width` characters, with
    /// the registers of encoding `dialect`.
    pub fn new(stat: &'a RegFileAllStat, max_width: usize, dialect: Dialect) -> (v: Self)
        requires
            stat.i.wf(),
            stat.f.wf(),
        ensures
            v.spec_stat() == stat,
            v.spec_dialect() == dialect,
            v.spec_chunk_size() >= 1,
            spec_line_width(31, (v.spec_chunk_size() + 1) as nat) > max_width,
            v.spec_chunk_size() > 1 ==> spec_line_width(31, v.spec_chunk_size() as nat)
                <= max_width,
    {
        Self { stat, chunk_size: chunk_size(31, max_width), dialect }
    }

    pub open spec fn spec_text(&self) -> Seq<char> {
        let count = self.spec_dialect().spec_reg_count() as nat;
        let chunk = self.spec_chunk_size() as nat;
        let stat = self.spec_stat();
        chunked_text(spec_reg_items(stat.i@.read, stat.i@.write, count), chunk, ""@, count)
            + chunked_text(spec_freg_items(stat.f@.read, stat.f@.write, count), chunk, ""@, count)
    }
}

impl<'a> StatView for RegFileAllStatView<'a> {
    fn header(&self) -> (h: &'static str)
        ensures
            h@ == "register load (format: `# of read / # of write`)"@,
    {
        "register load (format: `# of read / # of write`)"
    }

    fn width(&self) -> (w: usize)
        ensures
            self.spec_chunk_size() <= 0x100_0000 ==> w == spec_line_width(
                31,
                self.spec_chunk_size() as nat,
            ),
    {
        Self::width_by_chunk_size(self.chunk_size)
    }

    /// The integer registers, then the float registers, each in lines of
    /// `chunk_size` registers.
    fn text(&self) -> (s: String)
        ensures
            s@ == self.spec_text(),
    {
        proof {
            use_type_invariant(self);
        }
        let count = self.dialect.reg_count();
        let mut ints: Vec<String> = Vec::new();
        let mut floats: Vec<String> = Vec::new();
        let mut i: usize = 0;
        while i < count
            invariant
                i <= count <= MAX_REG_ID,
                self.stat.i.wf(),
                self.stat.f.wf(),
                texts(ints@) == spec_reg_items(self.stat.i@.read, self.stat.i@.write, i as nat),
                texts(floats@) == spec_freg_items(
                    self.stat.f@.read,
                    self.stat.f@.write,
                    i as nat,
                ),
            decreases count - i,
        {
            let mut item = String::new();
            push_right_aligned(&mut item, RegId::try_new(i as u32).unwrap().name(), 6);
            item.append(":");
            push_decimal_field(&mut item, self.stat.i.reads(i) as u64, 11);
            item.append(" /");
            push_decimal_field(&mut item, self.stat.i.writes(i) as u64, 11);
            proof {
                lemma_texts_push(ints@, item);
            }
            ints.push(item);
            let mut item = String::new();
            push_right_aligned(&mut item, FRegId::try_new(i as u32).unwrap().name(), 6);
            item.append(":");
            push_decimal_field(&mut item, self.stat.f.reads(i) as u64, 11);
            item.append(" /");
            push_decimal_field(&mut item, self.stat.f.writes(i) as u64, 11);
            proof {
                lemma_texts_push(floats@, item);
            }
            floats.push(item);
            proof {
                RegId::lemma_spec_new(i as int);
                FRegId::lemma_spec_new(i as int);
                assert(texts(ints@) =~= spec_reg_items(
                    self.stat.i@.read,
                    self.stat.i@.write,
                    (i + 1) as nat,
                ));
                assert(texts(floats@) =~= spec_freg_items(
                    self.stat.f@.read,
                    self.stat.f@.write,
                    (i + 1) as nat,
                ));
            }
            i = i + 1;
        }
        let mut s = String::new();
        push_chunked(&mut s, &ints, self.chunk_size, "");
        push_chunked(&mut s, &floats, self.chunk_size, "");
        proof {
            lemma_texts_len(ints@);
            lemma_texts_len(floats@);
        }
        assert(s@ =~= self.spec_text());
        s
    }
}

} // verus!
