//! Direct-mapped cache model: one tag per line, a miss replaces the tag.

use vstd::prelude::*;

verus! {

/// Number of lines of the processor's cache.
pub const CACHE_NUM_LINES: usize = 16384;

pub struct Cache<const NLINES: usize> {
    inner: Vec<u32>,
}

/// The line that address `addr` maps to in a cache of `nlines` lines.
pub open spec fn spec_line(addr: usize, nlines: usize) -> int {
    (addr >> 2) as int % nlines as int
}

/// The tag that address `addr` has in a cache of `nlines` lines.
pub open spec fn spec_tag(addr: usize, nlines: usize) -> int {
    (addr >> 2) as int / nlines as int
}

/// Line and tag together name the word: `addr >> 2` is the tag times the
/// number of lines plus the line, and the line is below the number of lines.
pub proof fn lemma_tag_line(addr: usize, nlines: usize)
    requires
        nlines > 0,
    ensures
        (addr >> 2) as int == spec_tag(addr, nlines) * nlines + spec_line(addr, nlines),
        0 <= spec_line(addr, nlines) < nlines,
        addr >> 2 == addr / 4,
{
    let x = (addr >> 2) as int;
    let n = nlines as int;
    vstd::arithmetic::div_mod::lemma_fundamental_div_mod(x, n);
    assert(n * (x / n) == (x / n) * n) by (nonlinear_arith);
    vstd::arithmetic::div_mod::lemma_mod_bound(x, n);
    assert(addr >> 2 == addr / 4) by (bit_vector);
}

impl<const NLINES: usize> Cache<NLINES> {
    /// The tag held by each line.
    pub closed spec fn view(&self) -> Seq<u32> {
        self.inner@
    }

    pub open spec fn wf(&self) -> bool {
        self@.len() == NLINES && NLINES > 0
    }

    /// A cache whose lines all hold tag 0.
    pub fn new() -> (c: Self)
        requires
            NLINES > 0,
        ensures
            c.wf(),
            c@ == Seq::new(NLINES as nat, |i: int| 0u32),
    {
        let c = Self { inner: vec![0u32; NLINES] };
        assert(c@ =~= Seq::new(NLINES as nat, |i: int| 0u32));
        c
    }

    /// Accesses `addr`: a hit when the line of `addr` holds the tag of
    /// `addr`; otherwise a miss, after which the line holds that tag.
    pub fn access_cache(&mut self, addr: usize) -> (hit: bool)
        requires
            old(self).wf(),
        ensures
            final(self).wf(),
            hit == (old(self)@[spec_line(addr, NLINES)] == spec_tag(addr, NLINES) as usize as u32),
            final(self)@ == old(self)@.update(
                spec_line(addr, NLINES),
                spec_tag(addr, NLINES) as usize as u32,
            ),
    {
        let line: usize = (addr >> 2) % NLINES;
        let tag: usize = (addr >> 2) / NLINES;
        let tag32: u32 = #[verifier::truncate]
        (tag as u32);
        if self.inner[line] != tag32 {
            self.inner.set(line, tag32);
            false
        } else {
            assert(self.inner@ =~= old(self).inner@.update(line as int, tag32));
            true
        }
    }
}

} // verus!
