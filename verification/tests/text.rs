use core_sim::breakpoint::{BreakPoint, BreakPointExpr, BreakPointExprTy, OrdChainKind, OrdOpKind};
use core_sim::common::{ExecuteMode, RunStep, SpyKind, SpyWatchKind};
use core_sim::memory::{Addr, SpyUnit};
use core_sim::register::{FRegId, RegId};
use core_sim::text::{
    push_addr, push_decimal, push_hex, push_right_aligned, push_right_aligned_zero, push_signed,
    push_spaces,
};
use core_sim::ty::{Ty, Typed, TypedU32};

fn with(f: impl Fn(&mut String)) -> String {
    let mut s = String::from(">");
    f(&mut s);
    s
}

#[test]
fn numbers_as_text() {
    assert_eq!(with(|s| push_decimal(s, 0)), ">0");
    assert_eq!(with(|s| push_decimal(s, 9)), ">9");
    assert_eq!(with(|s| push_decimal(s, 10)), ">10");
    assert_eq!(with(|s| push_decimal(s, 4294967295)), ">4294967295");
    assert_eq!(with(|s| push_decimal(s, u64::MAX)), ">18446744073709551615");
    assert_eq!(with(|s| push_signed(s, -1)), ">-1");
    assert_eq!(with(|s| push_signed(s, 2000)), ">2000");
    assert_eq!(with(|s| push_signed(s, i64::MIN)), ">-9223372036854775808");
    assert_eq!(with(|s| push_hex(s, 0, 1)), ">0");
    assert_eq!(with(|s| push_hex(s, 0, 0)), ">0");
    assert_eq!(with(|s| push_hex(s, 255, 1)), ">ff");
    assert_eq!(with(|s| push_hex(s, 255, 8)), ">000000ff");
    assert_eq!(with(|s| push_addr(s, 0xdead_beef)), ">0xdeadbeef");
    assert_eq!(with(|s| push_addr(s, 0x1_0000_0000)), ">0x100000000");
    assert_eq!(with(|s| push_addr(s, 20)), ">0x00000014");
    assert_eq!(with(|s| push_spaces(s, 3)), ">   ");
    assert_eq!(with(|s| push_right_aligned(s, "ab", 5)), ">   ab");
    assert_eq!(with(|s| push_right_aligned(s, "abcdef", 5)), ">abcdef");
    assert_eq!(with(|s| push_right_aligned_zero(s, "42", 10)), ">0000000042");
}

#[test]
fn types_are_ordered_by_precision() {
    let all = [Ty::I32, Ty::Usize, Ty::I32OrUsize, Ty::F32, Ty::Unknown];
    for a in all {
        assert!(!a.lt(a));
        assert!(a.ge(a));
        assert!(a.ge(Ty::Unknown));
        assert_eq!(a.unify(a), Some(a));
        assert_eq!(a.unify(Ty::Unknown), Some(a));
        assert_eq!(Ty::Unknown.unify(a), Some(a));
    }
    assert!(Ty::Unknown.lt(Ty::I32));
    assert!(Ty::Unknown.lt(Ty::F32));
    assert!(Ty::I32OrUsize.lt(Ty::I32));
    assert!(Ty::I32OrUsize.lt(Ty::Usize));
    assert!(!Ty::I32.lt(Ty::F32));
    assert!(!Ty::F32.lt(Ty::I32));
    assert!(!Ty::I32.ge(Ty::F32));
    assert!(!Ty::I32.lt(Ty::Usize));
    assert_eq!(Ty::I32OrUsize.unify(Ty::I32), Some(Ty::I32));
    assert_eq!(Ty::I32.unify(Ty::I32OrUsize), Some(Ty::I32));
    assert_eq!(Ty::I32.unify(Ty::Usize), None);
    assert_eq!(Ty::F32.unify(Ty::I32OrUsize), None);
    assert_eq!(Ty::I32OrUsize.unify(Ty::F32), None);
    assert!(Ty::Unknown < Ty::I32);
    assert!(Ty::Unknown < Ty::F32);
    assert!(Ty::I32 > Ty::I32OrUsize);
    assert!(Ty::I32OrUsize >= Ty::I32OrUsize);
    assert_eq!(Ty::I32.partial_cmp(&Ty::F32), None);
    assert_eq!(Ty::I32.partial_cmp(&Ty::Usize), None);
    assert_eq!(Ty::I32OrUsize.name(), "i32 | usize");
    assert_eq!(Ty::Unknown.name(), "?");
}

#[test]
fn typed_words() {
    let v: TypedU32 = 0xFFFF_FFFFu32.typed(Ty::I32);
    assert_eq!(v.as_i(), Some(-1));
    assert_eq!(v.as_i32(), Some(-1));
    assert_eq!(v.as_f32(), None);
    assert_eq!(v.get_unchecked(), 0xFFFF_FFFF);
    let v = 7u32.typed(Ty::I32OrUsize);
    assert_eq!(v.as_i(), Some(7));
    assert_eq!(v.as_i32(), None);
    let v = 7u32.typed(Ty::Usize);
    assert_eq!(v.as_i(), Some(7));
    let v = 0x3f80_0000u32.typed(Ty::F32);
    assert_eq!(v.as_i(), None);
    assert_eq!(v.as_f32(), Some(0x3f80_0000));
    assert_eq!(7u32.typed(Ty::Unknown).as_i(), None);
}

#[test]
fn modes_and_spies_as_text() {
    assert_eq!(ExecuteMode::Run.text(), "running simply");
    assert_eq!(ExecuteMode::default(), ExecuteMode::Run);
    assert_eq!(ExecuteMode::SkipUntil { pc: Addr::new(0x40) }.text(), "running until 0x00000040");
    assert_eq!(ExecuteMode::RunStep(RunStep::new(Some(12))).text(), "step execution by 12");
    assert_eq!(ExecuteMode::RunStep(RunStep::default()).text(), "step execution by 1");
    assert_eq!(RunStep::new(None).get_step(), 1);
    assert_eq!(SpyWatchKind::read().name(), "read");
    assert_eq!(SpyWatchKind::write().name(), "write");
    assert_eq!(SpyWatchKind::all().name(), "read/write");
    assert_eq!(SpyWatchKind::none().name(), "");
    assert_eq!(SpyWatchKind::read().union(SpyWatchKind::write()), SpyWatchKind::all());
    assert!(SpyWatchKind::all().contains(SpyWatchKind::read()));
    assert!(!SpyWatchKind::read().contains(SpyWatchKind::write()));
    assert!(SpyWatchKind::read().contains(SpyWatchKind::none()));
    assert_eq!(SpyWatchKind::all().bits(), 3);
    assert_eq!(SpyKind::Memory(SpyUnit { addr: 1, expire_at: None }).ty(), Ty::Unknown);
    assert_eq!(SpyKind::RegisterI(RegId::try_new(1).unwrap()).ty(), Ty::Usize);
    assert_eq!(SpyKind::RegisterI(RegId::try_new(5).unwrap()).ty(), Ty::I32);
    assert_eq!(SpyKind::RegisterF(FRegId::try_new(5).unwrap()).ty(), Ty::F32);
}

#[test]
fn breakpoints() {
    let bp = BreakPoint::new(Addr::new(8));
    assert_eq!(bp.addr, Addr::new(8));
    assert!(bp.cond.is_none());
    assert_eq!(OrdOpKind::Eq.str(&OrdChainKind::Less), "==");
    assert_eq!(OrdOpKind::Weak.str(&OrdChainKind::Less), "<=");
    assert_eq!(OrdOpKind::Strong.str(&OrdChainKind::Less), "<");
    assert_eq!(OrdOpKind::Eq.str(&OrdChainKind::Greater), "==");
    assert_eq!(OrdOpKind::Weak.str(&OrdChainKind::Greater), ">=");
    assert_eq!(OrdOpKind::Strong.str(&OrdChainKind::Greater), ">");
    assert_eq!(OrdChainKind::default(), OrdChainKind::Less);
    assert_eq!(BreakPointExpr::Int(1).ty(), BreakPointExprTy::Int);
    assert_eq!(BreakPointExpr::Float(0x3f80_0000).ty(), BreakPointExprTy::Float);
    assert_eq!(BreakPointExpr::Reg(RegId::try_new(1).unwrap()).ty(), BreakPointExprTy::Int);
    assert_eq!(BreakPointExpr::FReg(FRegId::try_new(1).unwrap()).ty(), BreakPointExprTy::Float);
    assert_eq!(BreakPointExpr::Mem(Addr::new(1)).ty(), BreakPointExprTy::Either);
}
