//! Debug symbols: labels with the addresses they stand for.

use vstd::prelude::*;
use vstd::string::*;

verus! {

/// A label and the byte address it stands for.
#[derive(Debug, Clone, PartialEq, Eq)]
pub struct SymbolDefRaw {
    pub addr: u32,
    pub label: String,
}

impl SymbolDefRaw {
    pub fn addr(&self) -> (a: u32)
        ensures
            a == self.addr,
    {
        self.addr
    }
}

/// The debug symbols of a program: the global labels, and all labels in the
/// order of their addresses.
pub struct DebugSymbol {
    /// The global labels. Of two with the same name the later one counts.
    pub globals: Vec<SymbolDefRaw>,
    pub sorted: Vec<SymbolDefRaw>,
}

impl Default for DebugSymbol {
    fn default() -> (d: Self)
        ensures
            d.globals@.len() == 0,
            d.sorted@.len() == 0,
            d.wf(),
    {
        DebugSymbol { globals: Vec::new(), sorted: Vec::new() }
    }
}

/// A position in the sorted table of a `DebugSymbol`.
#[derive(Debug, Clone, Copy, PartialEq, Eq, Structural)]
pub struct SymbolTableIndex(pub usize);

/// A symbol with its extent: the distance to the next symbol, if there is one.
pub struct SymbolDef<'a> {
    pub raw: &'a SymbolDefRaw,
    pub size: Option<u32>,
}

/// Why a symbol was not found.
#[derive(Debug, Clone, Copy, PartialEq, Eq, Structural)]
pub enum SymbolError {
    /// The table is empty.
    NotProvided,
    /// The address lies before the first symbol.
    NoInformation { addr: u32 },
    /// No symbol stands at the address.
    NotAvailable,
}

impl SymbolError {
    pub open spec fn spec_message(self) -> Seq<char> {
        match self {
            SymbolError::NotProvided => "debug symbol not provided."@,
            SymbolError::NoInformation { addr } => "address "@ + crate::text::right_aligned_zero(
                crate::text::decimal_text(addr as nat),
                10,
            ) + " do not have any debug information"@,
            SymbolError::NotAvailable => "not available"@,
        }
    }

    /// The text of the error as it is shown to the user.
    pub fn message(&self) -> (s: String)
        ensures
            s@ == self.spec_message(),
    {
        match self {
            SymbolError::NotProvided => String::from_str("debug symbol not provided."),
            SymbolError::NoInformation { addr } => {
                let mut s = String::from_str("address ");
                let mut digits = String::new();
                crate::text::push_decimal(&mut digits, *addr as u64);
                assert(digits@ =~= crate::text::decimal_text(*addr as nat));
                crate::text::push_right_aligned_zero(&mut s, digits.as_str(), 10);
                s.append(" do not have any debug information");
                s
            },
            SymbolError::NotAvailable => String::from_str("not available"),
        }
    }
}

/// The addresses of `table` do not decrease.
pub open spec fn sorted_by_addr(table: Seq<SymbolDefRaw>) -> bool {
    forall|i: int, j: int| 0 <= i <= j < table.len() ==> table[i].addr <= table[j].addr
}

/// Whether a symbol stands at `addr`.
pub open spec fn stands_at(addr: u32) -> spec_fn(SymbolDefRaw) -> bool {
    |s: SymbolDefRaw| s.addr == addr
}

/// The symbols of `table` that stand at `addr`, in their order.
pub open spec fn symbols_at(table: Seq<SymbolDefRaw>, addr: u32) -> Seq<SymbolDefRaw> {
    table.filter(stands_at(addr))
}

/// Where no symbol stands at `addr`, the symbols at `addr` are none.
proof fn lemma_none_at(table: Seq<SymbolDefRaw>, addr: u32)
    requires
        forall|i: int| 0 <= i < table.len() ==> table[i].addr != addr,
    ensures
        symbols_at(table, addr) == Seq::<SymbolDefRaw>::empty(),
    decreases table.len(),
{
    reveal(Seq::filter);
    if table.len() > 0 {
        lemma_none_at(table.drop_last(), addr);
    }
}

/// The symbols at `addr` of a table of one symbol.
proof fn lemma_one_at(x: SymbolDefRaw, addr: u32)
    ensures
        symbols_at(seq![x], addr) == (if x.addr == addr {
            seq![x]
        } else {
            Seq::<SymbolDefRaw>::empty()
        }),
{
    reveal(Seq::filter);
    let one = seq![x];
    assert(one.drop_last() =~= Seq::<SymbolDefRaw>::empty());
    assert(one.last() == x);
    assert(one.drop_last().filter(stands_at(addr)) =~= Seq::<SymbolDefRaw>::empty());
    if x.addr == addr {
        assert(Seq::<SymbolDefRaw>::empty().push(x) =~= seq![x]);
    }
}

/// Puts `x` into a sorted table, in front of the symbols that stand at its
/// address or behind it.
fn insert_sorted(table: &mut Vec<SymbolDefRaw>, x: SymbolDefRaw)
    requires
        sorted_by_addr(old(table)@),
    ensures
        sorted_by_addr(final(table)@),
        final(table)@.len() == old(table)@.len() + 1,
        forall|addr: u32|
            symbols_at(final(table)@, addr) == symbols_at(seq![x] + old(table)@, addr),
{
    let n = table.len();
    let mut p: usize = 0;
    while p < n && table[p].addr < x.addr
        invariant
            p <= n,
            n == table@.len(),
            table@ == old(table)@,
            forall|i: int| 0 <= i < p ==> table@[i].addr < x.addr,
        decreases n - p,
    {
        p = p + 1;
    }
    table.insert(p, x);
    proof {
        let before = old(table)@;
        let head = before.subrange(0, p as int);
        let tail = before.subrange(p as int, n as int);
        assert(table@ =~= head + seq![x] + tail);
        assert(before =~= head + tail);
        assert forall|i: int, j: int| 0 <= i <= j < table@.len() implies table@[i].addr
            <= table@[j].addr by {
            if j > p && p < n {
                assert(before[p as int].addr <= before[j - 1].addr);
            }
        }
        assert forall|addr: u32|
            symbols_at(table@, addr) == symbols_at(seq![x] + before, addr) by {
            let pred = stands_at(addr);
            Seq::filter_distributes_over_add(head + seq![x], tail, pred);
            Seq::filter_distributes_over_add(head, seq![x], pred);
            Seq::filter_distributes_over_add(seq![x], before, pred);
            Seq::filter_distributes_over_add(head, tail, pred);
            lemma_one_at(x, addr);
            if x.addr == addr {
                lemma_none_at(head, addr);
                assert(symbols_at(table@, addr) =~= seq![x] + tail.filter(pred));
                assert(symbols_at(seq![x] + before, addr) =~= seq![x] + tail.filter(pred));
            } else {
                assert(symbols_at(table@, addr) =~= head.filter(pred) + tail.filter(pred));
                assert(symbols_at(seq![x] + before, addr) =~= head.filter(pred) + tail.filter(pred));
            }
        }
    }
}

impl DebugSymbol {
    /// The table of all labels is sorted by address.
    pub open spec fn wf(&self) -> bool {
        sorted_by_addr(self.sorted@)
    }

    pub fn is_empty(&self) -> (b: bool)
        ensures
            b == (self.globals@.len() == 0 && self.sorted@.len() == 0),
    {
        self.globals.len() == 0 && self.sorted.len() == 0
    }

    /// Sorts the table of all labels by address.
    pub fn sort(&mut self)
        ensures
            final(self).wf(),
            final(self).globals == old(self).globals,
            final(self).sorted@.len() == old(self).sorted@.len(),
            forall|addr: u32|
                symbols_at(final(self).sorted@, addr) == symbols_at(old(self).sorted@, addr),
    {
        let mut rest: Vec<SymbolDefRaw> = Vec::new();
        std::mem::swap(&mut rest, &mut self.sorted);
        let ghost before = rest@;
        assert(before.skip(before.len() as int) =~= Seq::<SymbolDefRaw>::empty());
        while rest.len() > 0
            invariant
                rest@ == before.take(rest@.len() as int),
                rest@.len() <= before.len(),
                before == old(self).sorted@,
                self.globals == old(self).globals,
                sorted_by_addr(self.sorted@),
                self.sorted@.len() + rest@.len() == before.len(),
                forall|addr: u32|
                    symbols_at(self.sorted@, addr) == symbols_at(
                        before.skip(rest@.len() as int),
                        addr,
                    ),
            decreases rest@.len(),
        {
            let ghost k = rest@.len() as int;
            let x = rest.pop().unwrap();
            assert(x == before[k - 1]);
            assert(rest@ =~= before.take(k - 1));
            assert(before.skip(k - 1) =~= seq![x] + before.skip(k));
            let ghost sorted_before = self.sorted@;
            insert_sorted(&mut self.sorted, x);
            proof {
                assert forall|addr: u32|
                    symbols_at(self.sorted@, addr) == symbols_at(before.skip(k - 1), addr) by {
                    Seq::filter_distributes_over_add(seq![x], sorted_before, stands_at(addr));
                    Seq::filter_distributes_over_add(seq![x], before.skip(k), stands_at(addr));
                    assert(symbols_at(sorted_before, addr) == symbols_at(before.skip(k), addr));
                    assert(symbols_at(self.sorted@, addr) == symbols_at(
                        seq![x] + sorted_before,
                        addr,
                    ));
                    assert(symbols_at(seq![x] + sorted_before, addr) == symbols_at(seq![x], addr)
                        + symbols_at(sorted_before, addr));
                    assert(symbols_at(seq![x] + before.skip(k), addr) == symbols_at(seq![x], addr)
                        + symbols_at(before.skip(k), addr));
                }
            }
        }
        assert(before.skip(0) =~= before);
    }

    /// The last position of the table whose symbol stands at or before `addr`.
    pub open spec fn spec_nearest(&self, addr: u32) -> Result<SymbolTableIndex, SymbolError> {
        if self.sorted@.len() == 0 {
            Err(SymbolError::NotProvided)
        } else if addr < self.sorted@[0].addr {
            Err(SymbolError::NoInformation { addr })
        } else {
            Ok(SymbolTableIndex(self.spec_last_at_or_before(addr) as usize))
        }
    }

    /// The number of symbols that stand at or before `addr`, less one.
    pub open spec fn spec_last_at_or_before(&self, addr: u32) -> int {
        self.sorted@.filter(|s: SymbolDefRaw| s.addr <= addr).len() - 1
    }

    /// The number of symbols among the first `hi` that stand at or before
    /// `addr` is `lo`, when the symbols before `lo` do and those from `lo`
    /// on do not.
    proof fn lemma_count(table: Seq<SymbolDefRaw>, addr: u32, lo: int)
        requires
            0 <= lo <= table.len(),
            forall|i: int| 0 <= i < lo ==> table[i].addr <= addr,
            forall|i: int| lo <= i < table.len() ==> table[i].addr > addr,
        ensures
            table.filter(|s: SymbolDefRaw| s.addr <= addr).len() == lo,
        decreases table.len(),
    {
        reveal(Seq::filter);
        if table.len() > 0 {
            let head = table.drop_last();
            if lo == table.len() {
                Self::lemma_count(head, addr, lo - 1);
            } else {
                Self::lemma_count(head, addr, lo);
            }
        }
    }

    /// The position of the symbol nearest before `addr`: the last symbol of
    /// the table that stands at or before `addr`.
    pub fn get_nearest_symbol_addr(&self, addr: u32) -> (r: Result<SymbolTableIndex, SymbolError>)
        requires
            self.wf(),
        ensures
            r == self.spec_nearest(addr),
            r matches Ok(index) ==> index.0 < self.sorted@.len() && self.sorted@[index.0 as int].addr
                <= addr && (forall|j: int|
                index.0 < j < self.sorted@.len() ==> self.sorted@[j].addr > addr),
    {
        let n = self.sorted.len();
        if n == 0 {
            return Err(SymbolError::NotProvided);
        }
        if addr < self.sorted[0].addr {
            return Err(SymbolError::NoInformation { addr });
        }
        let mut lo: usize = 1;
        let mut hi: usize = n;
        while lo < hi
            invariant
                1 <= lo <= hi <= n,
                n == self.sorted@.len(),
                self.wf(),
                forall|i: int| 0 <= i < lo ==> self.sorted@[i].addr <= addr,
                forall|i: int| hi <= i < n ==> self.sorted@[i].addr > addr,
            decreases hi - lo,
        {
            let mid: usize = lo + (hi - lo) / 2;
            if self.sorted[mid].addr <= addr {
                lo = mid + 1;
            } else {
                hi = mid;
            }
        }
        proof {
            Self::lemma_count(self.sorted@, addr, lo as int);
        }
        Ok(SymbolTableIndex(lo - 1))
    }

    /// The position of the symbol that stands at `addr`: the last one, if
    /// several do.
    pub fn get_exact_symbol_addr(&self, addr: u32) -> (r: Result<SymbolTableIndex, SymbolError>)
        requires
            self.wf(),
        ensures
            r == (match self.spec_nearest(addr) {
                Ok(index) => if self.sorted@[index.0 as int].addr == addr {
                    Ok(index)
                } else {
                    Err(SymbolError::NotAvailable)
                },
                Err(SymbolError::NotProvided) => Err(SymbolError::NotProvided),
                Err(_) => Err(SymbolError::NotAvailable),
            }),
            r is Ok <==> exists|i: int| 0 <= i < self.sorted@.len() && self.sorted@[i].addr == addr,
    {
        match self.get_nearest_symbol_addr(addr) {
            Ok(index) => {
                if self.sorted[index.0].addr == addr {
                    Ok(index)
                } else {
                    Err(SymbolError::NotAvailable)
                }
            },
            Err(SymbolError::NotProvided) => Err(SymbolError::NotProvided),
            Err(_) => Err(SymbolError::NotAvailable),
        }
    }

    /// The symbol at position `index` with its extent.
    pub fn get_symbol(&self, index: SymbolTableIndex) -> (def: SymbolDef<'_>)
        requires
            self.wf(),
            index.0 < self.sorted@.len(),
        ensures
            *def.raw == self.sorted@[index.0 as int],
            def.size == (if index.0 + 1 < self.sorted@.len() {
                Some((self.sorted@[index.0 + 1].addr - self.sorted@[index.0 as int].addr) as u32)
            } else {
                None
            }),
    {
        let n = self.sorted.len();
        let raw = &self.sorted[index.0];
        let size = if index.0 + 1 < n {
            Some(self.sorted[index.0 + 1].addr - raw.addr)
        } else {
            None
        };
        SymbolDef { raw, size }
    }

    /// Takes the symbols of `other` in: its global labels behind the own
    /// ones, its labels into the sorted table.
    pub fn merge(&mut self, other: Self)
        ensures
            final(self).wf(),
            final(self).globals@ == old(self).globals@ + other.globals@,
            final(self).sorted@.len() == old(self).sorted@.len() + other.sorted@.len(),
            forall|addr: u32|
                symbols_at(final(self).sorted@, addr) == symbols_at(
                    old(self).sorted@ + other.sorted@,
                    addr,
                ),
    {
        let DebugSymbol { globals, sorted } = other;
        let mut globals = globals;
        let mut sorted = sorted;
        self.globals.append(&mut globals);
        self.sorted.append(&mut sorted);
        self.sort();
    }

    /// The global label named `k`: the last one, if several have the name.
    pub fn get_global(&self, k: &str) -> (r: Option<&SymbolDefRaw>)
        ensures
            match r {
                Some(def) => exists|i: int|
                    0 <= i < self.globals@.len() && *def == self.globals@[i] && def.label@ == k@
                        && (forall|j: int|
                        i < j < self.globals@.len() ==> self.globals@[j].label@ != k@),
                None => forall|j: int|
                    0 <= j < self.globals@.len() ==> self.globals@[j].label@ != k@,
            },
    {
        let wanted = String::from_str(k);
        let mut i: usize = self.globals.len();
        while i > 0
            invariant
                i <= self.globals@.len(),
                wanted@ == k@,
                forall|j: int| i <= j < self.globals@.len() ==> self.globals@[j].label@ != k@,
            decreases i,
        {
            i = i - 1;
            if self.globals[i].label == wanted {
                return Some(&self.globals[i]);
            }
        }
        None
    }
}

} // verus!
