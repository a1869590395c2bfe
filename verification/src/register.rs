//! Register identifiers and their ABI names.

use crate::isa::Dialect;
use crate::ty::Ty;
use vstd::prelude::*;
use vstd::string::*;

verus! {

/// Number of slots of a register file; the first encoding uses the lower half.
pub const MAX_REG_ID: usize = 64;

/// Identifier of an integer register.
#[derive(Debug, PartialEq, Eq, Hash, Clone, Copy, Structural)]
pub struct RegId(u8);

/// Identifier of a float register.
#[derive(Debug, PartialEq, Eq, Hash, Clone, Copy, Structural)]
pub struct FRegId(u8);

/// ABI name of integer register `index`.
pub open spec fn abi_name(index: int) -> Seq<char> {
    if index == 0 {
        "zero"@
    } else if index == 1 {
        "ra"@
    } else if index == 2 {
        "sp"@
    } else if index == 3 {
        "gp"@
    } else if index == 4 {
        "hp"@
    } else if index == 5 {
        "t0"@
    } else if index == 6 {
        "t1"@
    } else if index == 7 {
        "t2"@
    } else if index == 8 {
        "s0"@
    } else if index == 9 {
        "s1"@
    } else if index == 10 {
        "a0"@
    } else if index == 11 {
        "a1"@
    } else if index == 12 {
        "a2"@
    } else if index == 13 {
        "a3"@
    } else if index == 14 {
        "a4"@
    } else if index == 15 {
        "a5"@
    } else if index == 16 {
        "a6"@
    } else if index == 17 {
        "a7"@
    } else if index == 18 {
        "s2"@
    } else if index == 19 {
        "s3"@
    } else if index == 20 {
        "s4"@
    } else if index == 21 {
        "s5"@
    } else if index == 22 {
        "s6"@
    } else if index == 23 {
        "s7"@
    } else if index == 24 {
        "s8"@
    } else if index == 25 {
        "s9"@
    } else if index == 26 {
        "s10"@
    } else if index == 27 {
        "s11"@
    } else if index == 28 {
        "t3"@
    } else if index == 29 {
        "t4"@
    } else if index == 30 {
        "t5"@
    } else if index == 31 {
        "t6"@
    } else if index == 32 {
        "x32"@
    } else if index == 33 {
        "x33"@
    } else if index == 34 {
        "x34"@
    } else if index == 35 {
        "x35"@
    } else if index == 36 {
        "x36"@
    } else if index == 37 {
        "x37"@
    } else if index == 38 {
        "x38"@
    } else if index == 39 {
        "x39"@
    } else if index == 40 {
        "x40"@
    } else if index == 41 {
        "x41"@
    } else if index == 42 {
        "x42"@
    } else if index == 43 {
        "x43"@
    } else if index == 44 {
        "x44"@
    } else if index == 45 {
        "x45"@
    } else if index == 46 {
        "x46"@
    } else if index == 47 {
        "x47"@
    } else if index == 48 {
        "x48"@
    } else if index == 49 {
        "x49"@
    } else if index == 50 {
        "x50"@
    } else if index == 51 {
        "x51"@
    } else if index == 52 {
        "x52"@
    } else if index == 53 {
        "x53"@
    } else if index == 54 {
        "x54"@
    } else if index == 55 {
        "x55"@
    } else if index == 56 {
        "x56"@
    } else if index == 57 {
        "x57"@
    } else if index == 58 {
        "x58"@
    } else if index == 59 {
        "x59"@
    } else if index == 60 {
        "x60"@
    } else if index == 61 {
        "x61"@
    } else if index == 62 {
        "x62"@
    } else {
        "x63"@
    }
}

/// ABI name of float register `index`.
pub open spec fn f_abi_name(index: int) -> Seq<char> {
    if index == 0 {
        "fzero"@
    } else if index == 1 {
        "fone"@
    } else if index == 2 {
        "ft2"@
    } else if index == 3 {
        "ft3"@
    } else if index == 4 {
        "ft4"@
    } else if index == 5 {
        "ft5"@
    } else if index == 6 {
        "ft6"@
    } else if index == 7 {
        "ft7"@
    } else if index == 8 {
        "fs0"@
    } else if index == 9 {
        "fs1"@
    } else if index == 10 {
        "fa0"@
    } else if index == 11 {
        "fa1"@
    } else if index == 12 {
        "fa2"@
    } else if index == 13 {
        "fa3"@
    } else if index == 14 {
        "fa4"@
    } else if index == 15 {
        "fa5"@
    } else if index == 16 {
        "fa6"@
    } else if index == 17 {
        "fa7"@
    } else if index == 18 {
        "fs2"@
    } else if index == 19 {
        "fs3"@
    } else if index == 20 {
        "fs4"@
    } else if index == 21 {
        "fs5"@
    } else if index == 22 {
        "fs6"@
    } else if index == 23 {
        "fs7"@
    } else if index == 24 {
        "fs8"@
    } else if index == 25 {
        "fs9"@
    } else if index == 26 {
        "fs10"@
    } else if index == 27 {
        "fs11"@
    } else if index == 28 {
        "ft8"@
    } else if index == 29 {
        "ft9"@
    } else if index == 30 {
        "ft10"@
    } else if index == 31 {
        "ft11"@
    } else if index == 32 {
        "f32"@
    } else if index == 33 {
        "f33"@
    } else if index == 34 {
        "f34"@
    } else if index == 35 {
        "f35"@
    } else if index == 36 {
        "f36"@
    } else if index == 37 {
        "f37"@
    } else if index == 38 {
        "f38"@
    } else if index == 39 {
        "f39"@
    } else if index == 40 {
        "f40"@
    } else if index == 41 {
        "f41"@
    } else if index == 42 {
        "f42"@
    } else if index == 43 {
        "f43"@
    } else if index == 44 {
        "f44"@
    } else if index == 45 {
        "f45"@
    } else if index == 46 {
        "f46"@
    } else if index == 47 {
        "f47"@
    } else if index == 48 {
        "f48"@
    } else if index == 49 {
        "f49"@
    } else if index == 50 {
        "f50"@
    } else if index == 51 {
        "f51"@
    } else if index == 52 {
        "f52"@
    } else if index == 53 {
        "f53"@
    } else if index == 54 {
        "f54"@
    } else if index == 55 {
        "f55"@
    } else if index == 56 {
        "f56"@
    } else if index == 57 {
        "f57"@
    } else if index == 58 {
        "f58"@
    } else if index == 59 {
        "f59"@
    } else if index == 60 {
        "f60"@
    } else if index == 61 {
        "f61"@
    } else if index == 62 {
        "f62"@
    } else {
        "f63"@
    }
}

fn abi_name_of(index: usize) -> (s: &'static str)
    requires
        index < 64,
    ensures
        s@ == abi_name(index as int),
{
    if index == 0 {
        "zero"
    } else if index == 1 {
        "ra"
    } else if index == 2 {
        "sp"
    } else if index == 3 {
        "gp"
    } else if index == 4 {
        "hp"
    } else if index == 5 {
        "t0"
    } else if index == 6 {
        "t1"
    } else if index == 7 {
        "t2"
    } else if index == 8 {
        "s0"
    } else if index == 9 {
        "s1"
    } else if index == 10 {
        "a0"
    } else if index == 11 {
        "a1"
    } else if index == 12 {
        "a2"
    } else if index == 13 {
        "a3"
    } else if index == 14 {
        "a4"
    } else if index == 15 {
        "a5"
    } else if index == 16 {
        "a6"
    } else if index == 17 {
        "a7"
    } else if index == 18 {
        "s2"
    } else if index == 19 {
        "s3"
    } else if index == 20 {
        "s4"
    } else if index == 21 {
        "s5"
    } else if index == 22 {
        "s6"
    } else if index == 23 {
        "s7"
    } else if index == 24 {
        "s8"
    } else if index == 25 {
        "s9"
    } else if index == 26 {
        "s10"
    } else if index == 27 {
        "s11"
    } else if index == 28 {
        "t3"
    } else if index == 29 {
        "t4"
    } else if index == 30 {
        "t5"
    } else if index == 31 {
        "t6"
    } else if index == 32 {
        "x32"
    } else if index == 33 {
        "x33"
    } else if index == 34 {
        "x34"
    } else if index == 35 {
        "x35"
    } else if index == 36 {
        "x36"
    } else if index == 37 {
        "x37"
    } else if index == 38 {
        "x38"
    } else if index == 39 {
        "x39"
    } else if index == 40 {
        "x40"
    } else if index == 41 {
        "x41"
    } else if index == 42 {
        "x42"
    } else if index == 43 {
        "x43"
    } else if index == 44 {
        "x44"
    } else if index == 45 {
        "x45"
    } else if index == 46 {
        "x46"
    } else if index == 47 {
        "x47"
    } else if index == 48 {
        "x48"
    } else if index == 49 {
        "x49"
    } else if index == 50 {
        "x50"
    } else if index == 51 {
        "x51"
    } else if index == 52 {
        "x52"
    } else if index == 53 {
        "x53"
    } else if index == 54 {
        "x54"
    } else if index == 55 {
        "x55"
    } else if index == 56 {
        "x56"
    } else if index == 57 {
        "x57"
    } else if index == 58 {
        "x58"
    } else if index == 59 {
        "x59"
    } else if index == 60 {
        "x60"
    } else if index == 61 {
        "x61"
    } else if index == 62 {
        "x62"
    } else {
        "x63"
    }
}

fn f_abi_name_of(index: usize) -> (s: &'static str)
    requires
        index < 64,
    ensures
        s@ == f_abi_name(index as int),
{
    if index == 0 {
        "fzero"
    } else if index == 1 {
        "fone"
    } else if index == 2 {
        "ft2"
    } else if index == 3 {
        "ft3"
    } else if index == 4 {
        "ft4"
    } else if index == 5 {
        "ft5"
    } else if index == 6 {
        "ft6"
    } else if index == 7 {
        "ft7"
    } else if index == 8 {
        "fs0"
    } else if index == 9 {
        "fs1"
    } else if index == 10 {
        "fa0"
    } else if index == 11 {
        "fa1"
    } else if index == 12 {
        "fa2"
    } else if index == 13 {
        "fa3"
    } else if index == 14 {
        "fa4"
    } else if index == 15 {
        "fa5"
    } else if index == 16 {
        "fa6"
    } else if index == 17 {
        "fa7"
    } else if index == 18 {
        "fs2"
    } else if index == 19 {
        "fs3"
    } else if index == 20 {
        "fs4"
    } else if index == 21 {
        "fs5"
    } else if index == 22 {
        "fs6"
    } else if index == 23 {
        "fs7"
    } else if index == 24 {
        "fs8"
    } else if index == 25 {
        "fs9"
    } else if index == 26 {
        "fs10"
    } else if index == 27 {
        "fs11"
    } else if index == 28 {
        "ft8"
    } else if index == 29 {
        "ft9"
    } else if index == 30 {
        "ft10"
    } else if index == 31 {
        "ft11"
    } else if index == 32 {
        "f32"
    } else if index == 33 {
        "f33"
    } else if index == 34 {
        "f34"
    } else if index == 35 {
        "f35"
    } else if index == 36 {
        "f36"
    } else if index == 37 {
        "f37"
    } else if index == 38 {
        "f38"
    } else if index == 39 {
        "f39"
    } else if index == 40 {
        "f40"
    } else if index == 41 {
        "f41"
    } else if index == 42 {
        "f42"
    } else if index == 43 {
        "f43"
    } else if index == 44 {
        "f44"
    } else if index == 45 {
        "f45"
    } else if index == 46 {
        "f46"
    } else if index == 47 {
        "f47"
    } else if index == 48 {
        "f48"
    } else if index == 49 {
        "f49"
    } else if index == 50 {
        "f50"
    } else if index == 51 {
        "f51"
    } else if index == 52 {
        "f52"
    } else if index == 53 {
        "f53"
    } else if index == 54 {
        "f54"
    } else if index == 55 {
        "f55"
    } else if index == 56 {
        "f56"
    } else if index == 57 {
        "f57"
    } else if index == 58 {
        "f58"
    } else if index == 59 {
        "f59"
    } else if index == 60 {
        "f60"
    } else if index == 61 {
        "f61"
    } else if index == 62 {
        "f62"
    } else {
        "f63"
    }
}

impl RegId {
    #[verifier::type_invariant]
    spec fn in_range(self) -> bool {
        self.0 < 64
    }

    /// The register's index, below 64.
    pub closed spec fn view(self) -> int {
        self.0 as int
    }

    /// The identifier with index `index`; meaningful for indices below 64.
    pub closed spec fn spec_new(index: int) -> Self {
        Self(index as u8)
    }

    /// `spec_new` and the view are inverse to each other.
    pub broadcast proof fn lemma_spec_new(index: int)
        requires
            0 <= index < 64,
        ensures
            (#[trigger] Self::spec_new(index))@ == index,
    {
    }

    /// Two identifiers with the same index are the same identifier.
    pub proof fn lemma_view_injective(self, other: Self)
        requires
            self@ == other@,
        ensures
            self == other,
    {
    }

    /// The register with index `rs`, if there is one.
    pub fn try_new(rs: u32) -> (r: Option<Self>)
        ensures
            r == (if rs < 64 {
                Some(Self::spec_new(rs as int))
            } else {
                None
            }),
            r matches Some(id) ==> id@ == rs,
    {
        if rs < 64 {
            Some(Self(rs as u8))
        } else {
            None
        }
    }

    pub fn inner(&self) -> (i: usize)
        ensures
            i == self@,
            i < MAX_REG_ID,
    {
        proof {
            use_type_invariant(self);
        }
        self.0 as usize
    }

    /// Register 1 holds a return address; every other register a signed word.
    pub fn ty(&self) -> (t: Ty)
        ensures
            t == (if self@ == 1 {
                Ty::Usize
            } else {
                Ty::I32
            }),
    {
        if self.0 == 1 {
            Ty::Usize
        } else {
            Ty::I32
        }
    }

    pub fn is_zero(&self) -> (b: bool)
        ensures
            b == (self@ == 0),
    {
        self.0 == 0
    }

    /// Whether the identifier exists in encoding `d`.
    pub fn fits(&self, d: Dialect) -> (b: bool)
        ensures
            b == (self@ < d.spec_reg_count()),
    {
        (self.0 as usize) < d.reg_count()
    }

    pub fn name(&self) -> (s: &'static str)
        ensures
            s@ == abi_name(self@),
    {
        proof {
            use_type_invariant(self);
        }
        abi_name_of(self.0 as usize)
    }

    /// The register whose ABI name is `name`: the one with the least index.
    pub fn from_name(name: &str) -> (r: Option<Self>)
        ensures
            match r {
                Some(id) => abi_name(id@) == name@ && forall|j: int|
                    0 <= j < id@ ==> abi_name(j) != name@,
                None => forall|j: int| 0 <= j < 64 ==> abi_name(j) != name@,
            },
    {
        let wanted = String::from_str(name);
        let mut i: u32 = 0;
        while i < 64
            invariant
                i <= 64,
                wanted@ == name@,
                forall|j: int| 0 <= j < i ==> abi_name(j) != name@,
            decreases 64 - i,
        {
            let candidate = String::from_str(abi_name_of(i as usize));
            if candidate == wanted {
                return Some(Self(i as u8));
            }
            i = i + 1;
        }
        None
    }
}

impl FRegId {
    #[verifier::type_invariant]
    spec fn in_range(self) -> bool {
        self.0 < 64
    }

    /// The register's index, below 64.
    pub closed spec fn view(self) -> int {
        self.0 as int
    }

    /// The identifier with index `index`; meaningful for indices below 64.
    pub closed spec fn spec_new(index: int) -> Self {
        Self(index as u8)
    }

    /// `spec_new` and the view are inverse to each other.
    pub broadcast proof fn lemma_spec_new(index: int)
        requires
            0 <= index < 64,
        ensures
            (#[trigger] Self::spec_new(index))@ == index,
    {
    }

    /// Two identifiers with the same index are the same identifier.
    pub proof fn lemma_view_injective(self, other: Self)
        requires
            self@ == other@,
        ensures
            self == other,
    {
    }

    /// The register with index `rs`, if there is one.
    pub fn try_new(rs: u32) -> (r: Option<Self>)
        ensures
            r == (if rs < 64 {
                Some(Self::spec_new(rs as int))
            } else {
                None
            }),
            r matches Some(id) ==> id@ == rs,
    {
        if rs < 64 {
            Some(Self(rs as u8))
        } else {
            None
        }
    }

    pub fn inner(&self) -> (i: usize)
        ensures
            i == self@,
            i < MAX_REG_ID,
    {
        proof {
            use_type_invariant(self);
        }
        self.0 as usize
    }

    pub fn is_zero(&self) -> (b: bool)
        ensures
            b == (self@ == 0),
    {
        self.0 == 0
    }

    /// Whether the identifier exists in encoding `d`.
    pub fn fits(&self, d: Dialect) -> (b: bool)
        ensures
            b == (self@ < d.spec_reg_count()),
    {
        (self.0 as usize) < d.reg_count()
    }

    pub fn name(&self) -> (s: &'static str)
        ensures
            s@ == f_abi_name(self@),
    {
        proof {
            use_type_invariant(self);
        }
        f_abi_name_of(self.0 as usize)
    }

    /// The register whose ABI name is `name`: the one with the least index.
    pub fn from_name(name: &str) -> (r: Option<Self>)
        ensures
            match r {
                Some(id) => f_abi_name(id@) == name@ && forall|j: int|
                    0 <= j < id@ ==> f_abi_name(j) != name@,
                None => forall|j: int| 0 <= j < 64 ==> f_abi_name(j) != name@,
            },
    {
        let wanted = String::from_str(name);
        let mut i: u32 = 0;
        while i < 64
            invariant
                i <= 64,
                wanted@ == name@,
                forall|j: int| 0 <= j < i ==> f_abi_name(j) != name@,
            decreases 64 - i,
        {
            let candidate = String::from_str(f_abi_name_of(i as usize));
            if candidate == wanted {
                return Some(Self(i as u8));
            }
            i = i + 1;
        }
        None
    }
}

} // verus!
