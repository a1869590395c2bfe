//! Runtime type information attached to 32-bit values.

use crate::execute::{signed, spec_signed};
use crate::text::{addr_text, push_addr, push_signed, signed_text};
use vstd::prelude::*;
use vstd::string::*;

verus! {

/// The tag of a word. `Unknown` knows nothing; `I32OrUsize` knows the word is
/// an integer of some kind; `I32`, `Usize` and `F32` are fully precise.
#[derive(Debug, Clone, Copy, PartialEq, Eq, Structural)]
pub enum Ty {
    I32,
    Usize,
    I32OrUsize,
    F32,
    Unknown,
}

impl Ty {
    /// `self` is strictly less precise than `other`.
    pub open spec fn spec_lt(self, other: Ty) -> bool {
        match (self, other) {
            (Ty::Unknown, Ty::Unknown) => false,
            (Ty::Unknown, _) => true,
            (Ty::I32OrUsize, Ty::I32) => true,
            (Ty::I32OrUsize, Ty::Usize) => true,
            _ => false,
        }
    }

    /// `self` is at least as precise as `other`.
    pub open spec fn spec_ge(self, other: Ty) -> bool {
        self == other || other.spec_lt(self)
    }

    /// What a typed read that asks for `attempt` finds in a word tagged `self`:
    /// the tag the word has afterwards, or nothing when the two are
    /// incompatible.
    pub open spec fn spec_unify(self, attempt: Ty) -> Option<Ty> {
        if self.spec_lt(attempt) {
            Some(attempt)
        } else if self.spec_ge(attempt) {
            Some(self)
        } else {
            None
        }
    }

    pub fn lt(self, other: Ty) -> (b: bool)
        ensures
            b == self.spec_lt(other),
    {
        match (self, other) {
            (Ty::Unknown, Ty::Unknown) => false,
            (Ty::Unknown, _) => true,
            (Ty::I32OrUsize, Ty::I32) => true,
            (Ty::I32OrUsize, Ty::Usize) => true,
            _ => false,
        }
    }

    pub fn ge(self, other: Ty) -> (b: bool)
        ensures
            b == self.spec_ge(other),
    {
        self == other || other.lt(self)
    }

    pub fn unify(self, attempt: Ty) -> (r: Option<Ty>)
        ensures
            r == self.spec_unify(attempt),
    {
        if self.lt(attempt) {
            Some(attempt)
        } else if self.ge(attempt) {
            Some(self)
        } else {
            None
        }
    }

    /// The name of the tag as it is shown to the user.
    pub fn name(self) -> (s: &'static str)
        ensures
            s@ == self.spec_name(),
    {
        match self {
            Ty::I32 => "i32",
            Ty::Usize => "usize",
            Ty::I32OrUsize => "i32 | usize",
            Ty::F32 => "f32",
            Ty::Unknown => "?",
        }
    }

    pub open spec fn spec_name(self) -> Seq<char> {
        match self {
            Ty::I32 => "i32"@,
            Ty::Usize => "usize"@,
            Ty::I32OrUsize => "i32 | usize"@,
            Ty::F32 => "f32"@,
            Ty::Unknown => "?"@,
        }
    }
}

impl PartialOrd for Ty {
    /// `a < b` if and only if `b` is more precise than `a`.
    fn partial_cmp(&self, other: &Self) -> (r: Option<std::cmp::Ordering>) {
        if *self == *other {
            Some(std::cmp::Ordering::Equal)
        } else if Ty::lt(*self, *other) {
            Some(std::cmp::Ordering::Less)
        } else if Ty::lt(*other, *self) {
            Some(std::cmp::Ordering::Greater)
        } else {
            None
        }
    }
}

impl vstd::std_specs::cmp::PartialOrdSpecImpl for Ty {
    open spec fn obeys_partial_cmp_spec() -> bool {
        true
    }

    open spec fn partial_cmp_spec(&self, other: &Self) -> Option<std::cmp::Ordering> {
        if *self == *other {
            Some(std::cmp::Ordering::Equal)
        } else if self.spec_lt(*other) {
            Some(std::cmp::Ordering::Less)
        } else if other.spec_lt(*self) {
            Some(std::cmp::Ordering::Greater)
        } else {
            None
        }
    }
}

/// The precision order is irreflexive and transitive, and two fully precise
/// tags are never ordered.
pub proof fn lemma_ty_order(a: Ty, b: Ty, c: Ty)
    ensures
        !a.spec_lt(a),
        a.spec_lt(b) && b.spec_lt(c) ==> a.spec_lt(c),
        a.spec_lt(b) ==> !b.spec_lt(a),
        a == Ty::F32 && b != Ty::F32 && b != Ty::Unknown ==> a.spec_unify(b) is None,
{
}

/// Unifying with the tag a word already has changes nothing, and a successful
/// unification leaves a tag at least as precise as both.
pub proof fn lemma_unify(t: Ty, r: Ty)
    ensures
        t.spec_unify(t) == Some(t),
        t.spec_unify(Ty::Unknown) == Some(t),
        t.spec_unify(r) matches Some(u) ==> u.spec_ge(t) && u.spec_ge(r) && (u == t || u == r),
{
}

pub trait Typed {
    spec fn spec_typed(self, ty: Ty) -> TypedU32;

    fn typed(self, ty: Ty) -> (t: TypedU32)
        ensures
            t == self.spec_typed(ty),
    ;
}

impl Typed for u32 {
    open spec fn spec_typed(self, ty: Ty) -> TypedU32 {
        TypedU32 { ty, value: self }
    }

    fn typed(self, ty: Ty) -> (t: TypedU32) {
        TypedU32 { ty, value: self }
    }
}

/// A 32-bit value with its tag.
#[derive(Clone, Copy, Debug, PartialEq, Eq, Structural)]
pub struct TypedU32 {
    pub ty: Ty,
    pub value: u32,
}

impl TypedU32 {
    /// The value as a signed integer, when the tag says it is an integer.
    pub fn as_i(&self) -> (r: Option<i32>)
        ensures
            r == (if self.ty.spec_ge(Ty::I32OrUsize) {
                Some(self.value as i32)
            } else {
                None
            }),
    {
        if self.ty.ge(Ty::I32OrUsize) {
            Some(self.value as i32)
        } else {
            None
        }
    }

    /// The value as a signed integer, when the tag is exactly `I32`.
    pub fn as_i32(&self) -> (r: Option<i32>)
        ensures
            r == (if self.ty == Ty::I32 {
                Some(self.value as i32)
            } else {
                None
            }),
    {
        if self.ty == Ty::I32 {
            Some(self.value as i32)
        } else {
            None
        }
    }

    /// The bit pattern of the value, when the tag is exactly `F32`.
    pub fn as_f32(&self) -> (r: Option<u32>)
        ensures
            r == (if self.ty == Ty::F32 {
                Some(self.value)
            } else {
                None
            }),
    {
        if self.ty == Ty::F32 {
            Some(self.value)
        } else {
            None
        }
    }

    pub fn get_unchecked(&self) -> (r: u32)
        ensures
            r == self.value,
    {
        self.value
    }

    /// The value as it is shown, where `float` is the text of the value
    /// read as a float.
    pub open spec fn spec_text(self, float: Seq<char>) -> Seq<char> {
        let number = signed_text(spec_signed(self.value));
        let addr = addr_text(self.value as nat);
        match self.ty {
            Ty::I32 => number,
            Ty::Usize => addr,
            Ty::I32OrUsize => number + " ("@ + addr + " as addr)"@,
            Ty::F32 => float,
            Ty::Unknown => number + " ("@ + addr + " as addr) ("@ + float + " as f32)"@,
        }
    }

    /// The value as it is shown: by its type as a signed number, as an
    /// address, as a float, or as all that it may be. `float` is the text
    /// of the value read as a float, which the host supplies.
    pub fn text(&self, float: &str) -> (s: String)
        ensures
            s@ == self.spec_text(float@),
    {
        let mut s = String::new();
        match self.ty {
            Ty::I32 => {
                push_signed(&mut s, signed(self.value) as i64);
            },
            Ty::Usize => {
                push_addr(&mut s, self.value as u64);
            },
            Ty::I32OrUsize => {
                push_signed(&mut s, signed(self.value) as i64);
                s.append(" (");
                push_addr(&mut s, self.value as u64);
                s.append(" as addr)");
            },
            Ty::F32 => {
                s.append(float);
            },
            Ty::Unknown => {
                push_signed(&mut s, signed(self.value) as i64);
                s.append(" (");
                push_addr(&mut s, self.value as u64);
                s.append(" as addr) (");
                s.append(float);
                s.append(" as f32)");
            },
        }
        assert(s@ =~= self.spec_text(float@));
        s
    }
}

} // verus!
