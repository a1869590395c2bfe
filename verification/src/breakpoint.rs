//! Breakpoints and the conditions that may guard them.

use crate::memory::Addr;
use crate::register::{FRegId, RegId};
use vstd::prelude::*;

verus! {

/// A breakpoint on the instruction at byte address `addr`.
pub struct BreakPoint {
    pub addr: Addr,
    pub cond: Option<BreakPointCond>,
}

impl BreakPoint {
    /// An unconditional breakpoint.
    pub fn new(addr: Addr) -> (bp: Self)
        ensures
            bp.addr == addr,
            bp.cond is None,
    {
        Self { addr, cond: None }
    }
}

/// A condition over registers, memory words and literals.
pub enum BreakPointCond {
    OrdChain(OrdChain),
    NotEq(BreakPointExpr, BreakPointExpr),
    Neg(Box<BreakPointCond>),
    Conj(Vec<BreakPointCond>),
    Disj(Vec<BreakPointCond>),
}

/// A chain of comparisons that all point the same way: `a < b <= c`.
pub struct OrdChain {
    pub chain_kind: OrdChainKind,
    pub head: BreakPointExpr,
    pub tail: Vec<(OrdOpKind, BreakPointExpr)>,
}

/// The direction of a chain.
#[derive(Debug, Clone, Copy, PartialEq, Eq, Structural)]
pub enum OrdChainKind {
    Less,
    Greater,
}

impl Default for OrdChainKind {
    fn default() -> (k: Self)
        ensures
            k == OrdChainKind::Less,
    {
        OrdChainKind::Less
    }
}

/// One link of a chain.
#[derive(Debug, Clone, Copy, PartialEq, Eq, Structural)]
pub enum OrdOpKind {
    Eq,
    Weak,
    Strong,
}

impl OrdOpKind {
    pub open spec fn spec_str(self, k: OrdChainKind) -> Seq<char> {
        match (k, self) {
            (OrdChainKind::Less, OrdOpKind::Eq) => "=="@,
            (OrdChainKind::Less, OrdOpKind::Weak) => "<="@,
            (OrdChainKind::Less, OrdOpKind::Strong) => "<"@,
            (OrdChainKind::Greater, OrdOpKind::Eq) => "=="@,
            (OrdChainKind::Greater, OrdOpKind::Weak) => ">="@,
            (OrdChainKind::Greater, OrdOpKind::Strong) => ">"@,
        }
    }

    /// The operator of the link in a chain of direction `k`.
    pub fn str(&self, k: &OrdChainKind) -> (s: &'static str)
        ensures
            s@ == self.spec_str(*k),
    {
        match (k, self) {
            (OrdChainKind::Less, OrdOpKind::Eq) => "==",
            (OrdChainKind::Less, OrdOpKind::Weak) => "<=",
            (OrdChainKind::Less, OrdOpKind::Strong) => "<",
            (OrdChainKind::Greater, OrdOpKind::Eq) => "==",
            (OrdChainKind::Greater, OrdOpKind::Weak) => ">=",
            (OrdChainKind::Greater, OrdOpKind::Strong) => ">",
        }
    }
}

/// An operand of a condition. A float literal is held as its bit pattern.
#[derive(Debug, Clone, Copy, PartialEq, Eq, Structural)]
pub enum BreakPointExpr {
    Int(u32),
    Float(u32),
    Reg(RegId),
    FReg(FRegId),
    Mem(Addr),
}

impl BreakPointExpr {
    pub open spec fn spec_ty(self) -> BreakPointExprTy {
        match self {
            BreakPointExpr::Int(..) => BreakPointExprTy::Int,
            BreakPointExpr::Float(..) => BreakPointExprTy::Float,
            BreakPointExpr::Reg(..) => BreakPointExprTy::Int,
            BreakPointExpr::FReg(..) => BreakPointExprTy::Float,
            BreakPointExpr::Mem(..) => BreakPointExprTy::Either,
        }
    }

    /// Whether the operand is an integer, a float, or either.
    pub fn ty(&self) -> (t: BreakPointExprTy)
        ensures
            t == self.spec_ty(),
    {
        match self {
            BreakPointExpr::Int(..) => BreakPointExprTy::Int,
            BreakPointExpr::Float(..) => BreakPointExprTy::Float,
            BreakPointExpr::Reg(..) => BreakPointExprTy::Int,
            BreakPointExpr::FReg(..) => BreakPointExprTy::Float,
            BreakPointExpr::Mem(..) => BreakPointExprTy::Either,
        }
    }
}

#[derive(Debug, Clone, Copy, PartialEq, Eq, Structural)]
pub enum BreakPointExprTy {
    Int,
    Float,
    /// A memory word: its type is not known beforehand.
    Either,
}

} // verus!
