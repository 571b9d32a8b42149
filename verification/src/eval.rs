//! The evaluator: outcomes, faults, and the recursive evaluation of
//! nodes, proved equal to the specification in the `sem` module.

use vstd::prelude::*;
use vstd::string::StrSliceExecFns;
use vstd::string::StringExecFns;

verus! {

use crate::ast::LineInfo;

/// The outcome of evaluating one node: a value, or one of the control
/// signals that travel up through blocks, oracles, orbits and calls.
///
/// `Aether` outcomes hold the bit pattern of the 64-bit IEEE 754 value.
#[derive(Debug)]
pub enum EvalResult {
    Omen(bool),
    Arcana(i64),
    Aether(u64),
    Rune(String),
    Abyss,
    Revealed(Box<EvalResult>),
    Resume(Option<String>),
    Eject(Option<String>),
}

/// A fault raised while evaluating a statement.
#[derive(Debug)]
pub enum EvalError {
    UndefinedVariable(String, Option<LineInfo>),
    InvalidOperation(String, Option<LineInfo>),
    NegativeExponent(Option<LineInfo>),
    TypeError(String, Option<LineInfo>),
}

/// Spec-level mirror of [`EvalResult`].
pub enum ResView {
    Omen(bool),
    Arcana(i64),
    Aether(u64),
    Rune(Seq<char>),
    Abyss,
    Revealed(Box<ResView>),
    Resume(Option<Seq<char>>),
    Eject(Option<Seq<char>>),
}

/// Spec-level mirror of [`EvalError`].
pub enum ErrView {
    UndefinedVariable(Seq<char>, Option<LineInfo>),
    InvalidOperation(Seq<char>, Option<LineInfo>),
    NegativeExponent(Option<LineInfo>),
    TypeError(Seq<char>, Option<LineInfo>),
}

/// The spec-level mirror of an evaluation outcome.
pub open spec fn res_view(r: EvalResult) -> ResView
    decreases r,
{
    match r {
        EvalResult::Omen(b) => ResView::Omen(b),
        EvalResult::Arcana(n) => ResView::Arcana(n),
        EvalResult::Aether(n) => ResView::Aether(n),
        EvalResult::Rune(s) => ResView::Rune(s@),
        EvalResult::Abyss => ResView::Abyss,
        EvalResult::Revealed(b) => ResView::Revealed(Box::new(res_view(*b))),
        EvalResult::Resume(l) => ResView::Resume(crate::ast::label_view(l)),
        EvalResult::Eject(l) => ResView::Eject(crate::ast::label_view(l)),
    }
}

/// The spec-level mirror of a fault.
pub open spec fn err_view(e: EvalError) -> ErrView {
    match e {
        EvalError::UndefinedVariable(s, li) => ErrView::UndefinedVariable(s@, li),
        EvalError::InvalidOperation(s, li) => ErrView::InvalidOperation(s@, li),
        EvalError::NegativeExponent(li) => ErrView::NegativeExponent(li),
        EvalError::TypeError(s, li) => ErrView::TypeError(s@, li),
    }
}

use crate::ast::AST;
use crate::ast::AssignmentOp;
use crate::ast::ConditionalAssignment;
use crate::ast::Type;
use crate::ast::ast_view;
use crate::ast::ast_views;
use crate::ast::clone_asts;
use crate::ast::clone_ast;
use crate::ast::clone_label;
use crate::env::Environment;
use crate::env::Function;
use crate::env::Value;
use crate::env::value_view;
use crate::env::ValueView;
use crate::env::fun_view;
use crate::host::AetherBinOp;
use crate::host::AetherCmpOp;
use crate::host::AetherQuery;
use crate::host::AetherReply;
use crate::host::Host;
use crate::host::query_view;
use crate::sem::BinKind;
use crate::sem::HaltView;
use crate::sem::StepOut;
use crate::sem::apply_bin_s;
use crate::sem::cast_s;
use crate::sem::cond_value_s;
use crate::sem::conform_s;
use crate::sem::eval_s;
use crate::sem::pow_arcana_s;
use crate::sem::pow_int;
use crate::sem::res_of_value;
use crate::sem::return_check_s;
use crate::sem::summon_value_s;
use crate::sem::truncate_div;
use crate::sem::truncate_rem;
use crate::sem::unveil_piece_s;
use crate::text::format_i64;
use crate::text::parse_i64;
use crate::text::trim_space;
use crate::text::unescape;

/// Why evaluation of a statement stopped short of a value.  A `Failed`
/// halt is a fault of the program; the other three ask the caller for
/// something: a floating-point answer, an input line, or more fuel.
#[derive(Debug)]
pub enum Halt {
    Failed(EvalError),
    NeedAether(AetherQuery),
    NeedInput,
    OutOfFuel,
}

/// The spec-level mirror of a halt.
pub open spec fn halt_view(h: Halt) -> HaltView {
    match h {
        Halt::Failed(e) => HaltView::Failed(err_view(e)),
        Halt::NeedAether(q) => HaltView::NeedAether(query_view(q)),
        Halt::NeedInput => HaltView::NeedInput,
        Halt::OutOfFuel => HaltView::OutOfFuel,
    }
}

/// The spec-level mirror of an evaluation's return.
pub open spec fn out_view(r: Result<EvalResult, Halt>) -> Result<ResView, HaltView> {
    match r {
        Ok(v) => Ok(res_view(v)),
        Err(h) => Err(halt_view(h)),
    }
}

/// The bit pattern of the floating-point machine epsilon.
pub const EPSILON_BITS: u64 = 0x3CB0_0000_0000_0000;

/// The fuel the plain entry point runs with: it bounds the depth of
/// recursive evaluation and the passes of an unbounded `orbit`.
pub const DEFAULT_FUEL: u64 = 0x0010_0000_0000_0000;

/// The result a stored value reads back as.
pub fn value_to_res(v: &Value) -> (r: EvalResult)
    ensures
        res_view(r) == res_of_value(value_view(*v)),
{
    match v {
        Value::Omen(b) => EvalResult::Omen(*b),
        Value::Arcana(n) => EvalResult::Arcana(*n),
        Value::Aether(n) => EvalResult::Aether(*n),
        Value::Rune(s) => EvalResult::Rune(s.clone()),
    }
}

/// The value a result carries if its variant matches the type.
fn conform_ref(r: &EvalResult, t: Type) -> (o: Option<Value>)
    ensures
        match o {
            Some(v) => conform_s(res_view(*r), t) == Some(value_view(v)),
            None => conform_s(res_view(*r), t) is None,
        },
{
    match r {
        EvalResult::Omen(b) => if t == Type::Omen {
            Some(Value::Omen(*b))
        } else {
            None
        },
        EvalResult::Arcana(n) => if t == Type::Arcana {
            Some(Value::Arcana(*n))
        } else {
            None
        },
        EvalResult::Aether(n) => if t == Type::Aether {
            Some(Value::Aether(*n))
        } else {
            None
        },
        EvalResult::Rune(s) => if t == Type::Rune {
            Some(Value::Rune(s.clone()))
        } else {
            None
        },
        _ => None,
    }
}

/// The value and type one oracle conditional binds.
fn cond_value(r: &EvalResult) -> (o: Option<(Value, Type)>)
    ensures
        match o {
            Some(p) => cond_value_s(res_view(*r)) == Some((value_view(p.0), p.1)),
            None => cond_value_s(res_view(*r)) is None,
        },
{
    match r {
        EvalResult::Arcana(n) => Some((Value::Arcana(*n), Type::Arcana)),
        EvalResult::Aether(n) => Some((Value::Aether(*n), Type::Aether)),
        EvalResult::Rune(s) => Some((Value::Rune(s.clone()), Type::Rune)),
        EvalResult::Omen(b) => Some((Value::Omen(*b), Type::Omen)),
        _ => None,
    }
}

/// Division truncating toward zero.
fn trunc_div_exec(a: i64, b: i64) -> (q: i64)
    requires
        b != 0,
        !(a == i64::MIN && b == -1),
    ensures
        q as int == truncate_div(a as int, b as int),
{
    let ua: u64 = if a >= 0 {
        a as u64
    } else {
        (-(a as i128)) as u64
    };
    let ub: u64 = if b >= 0 {
        b as u64
    } else {
        (-(b as i128)) as u64
    };
    let uq = ua / ub;
    if (a < 0) != (b < 0) {
        if uq == 0x8000_0000_0000_0000 {
            i64::MIN
        } else {
            -(uq as i64)
        }
    } else {
        proof {
            if a < 0 {
                if b == -1 {
                    assert(ua <= 0x7fff_ffff_ffff_ffff);
                } else {
                    assert(ub >= 2);
                    assert(uq <= ua / 2) by (nonlinear_arith)
                        requires
                            ub >= 2,
                            uq == ua / ub,
                            ua >= 0,
                    ;
                }
            } else {
                assert(uq <= ua) by (nonlinear_arith)
                    requires
                        ub >= 1,
                        uq == ua / ub,
                        ua >= 0,
                ;
            }
        }
        uq as i64
    }
}

/// Remainder paired with truncating division.
fn trunc_rem_exec(a: i64, b: i64) -> (r: i64)
    requires
        b != 0,
        !(a == i64::MIN && b == -1),
    ensures
        r as int == truncate_rem(a as int, b as int),
{
    let q = trunc_div_exec(a, b);
    proof {
        assert((q as int) * (b as int) <= 0x8000_0000_0000_0000 * 0x8000_0000_0000_0000 && (
        q as int) * (b as int) >= -(0x8000_0000_0000_0000 * 0x8000_0000_0000_0000))
            by (nonlinear_arith)
            requires
                -0x8000_0000_0000_0000 <= q as int <= 0x7fff_ffff_ffff_ffff,
                -0x8000_0000_0000_0000 <= b as int <= 0x7fff_ffff_ffff_ffff,
        ;
        lemma_trunc_rem_range(a as int, b as int);
    }
    let r128: i128 = (a as i128) - (q as i128) * (b as i128);
    r128 as i64
}

/// The remainder of truncating division lies strictly within the
/// divisor's magnitude.
proof fn lemma_trunc_rem_range(a: int, b: int)
    requires
        b != 0,
    ensures
        -abs_int(b) < truncate_rem(a, b) < abs_int(b),
        a >= 0 ==> truncate_rem(a, b) >= 0,
        a < 0 ==> truncate_rem(a, b) <= 0,
{
    let ua = abs_int(a);
    let ub = abs_int(b);
    let uq = ua / ub;
    let ur = ua % ub;
    assert(ua == uq * ub + ur) by (nonlinear_arith)
        requires
            ub > 0,
            uq == ua / ub,
            ur == ua % ub,
    ;
    assert(0 <= ur < ub);
    if a >= 0 {
        if b > 0 {
            assert(truncate_rem(a, b) == a - (a / b) * b);
            assert(a - uq * b == ur);
        } else {
            assert(truncate_div(a, b) == -(a / -b));
            assert(truncate_rem(a, b) == a - (-(a / -b)) * b);
            assert((-(a / -b)) * b == (a / -b) * (-b)) by (nonlinear_arith);
            assert(a - (a / -b) * (-b) == ur);
        }
    } else {
        if b > 0 {
            assert(truncate_div(a, b) == -((-a) / b));
            assert(truncate_rem(a, b) == a - (-((-a) / b)) * b);
            assert((-((-a) / b)) * b == -(((-a) / b) * b)) by (nonlinear_arith);
            assert(a + ((-a) / b) * b == -ur);
        } else {
            assert(truncate_div(a, b) == (-a) / (-b));
            assert(truncate_rem(a, b) == a - ((-a) / (-b)) * b);
            assert(((-a) / (-b)) * b == -(((-a) / (-b)) * (-b))) by (nonlinear_arith);
            assert(a + ((-a) / (-b)) * (-b) == -ur);
        }
    }
}

/// The magnitude of a number.
pub open spec fn abs_int(a: int) -> int {
    if a >= 0 {
        a
    } else {
        -a
    }
}

/// A power of one is one.
proof fn lemma_pow_one(e: nat)
    ensures
        pow_int(1, e) == 1,
    decreases e,
{
    if e > 0 {
        lemma_pow_one((e - 1) as nat);
    }
}

/// A positive power of zero is zero.
proof fn lemma_pow_zero(e: nat)
    requires
        e > 0,
    ensures
        pow_int(0, e) == 0,
    decreases e,
{
    if e > 1 {
        lemma_pow_zero((e - 1) as nat);
    }
}

/// A power of minus one alternates by the exponent's parity.
proof fn lemma_pow_neg_one(e: nat)
    ensures
        pow_int(-1, e) == if e % 2 == 0 {
            1int
        } else {
            -1int
        },
    decreases e,
{
    if e > 0 {
        lemma_pow_neg_one((e - 1) as nat);
    }
}

/// No power of a nonzero base is zero; its magnitude is at least one.
proof fn lemma_pow_mag_pos(l: int, e: nat)
    requires
        l != 0,
    ensures
        abs_int(pow_int(l, e)) >= 1,
    decreases e,
{
    if e > 0 {
        lemma_pow_mag_pos(l, (e - 1) as nat);
        assert(abs_int(pow_int(l, e)) == abs_int(pow_int(l, (e - 1) as nat)) * abs_int(l))
            by (nonlinear_arith)
            requires
                pow_int(l, e) == pow_int(l, (e - 1) as nat) * l,
        ;
        assert(abs_int(pow_int(l, (e - 1) as nat)) * abs_int(l) >= 1) by (nonlinear_arith)
            requires
                abs_int(pow_int(l, (e - 1) as nat)) >= 1,
                abs_int(l) >= 1,
        ;
    }
}

/// For a base of magnitude at least two, the power's magnitude never
/// shrinks as the exponent grows.
proof fn lemma_pow_mag_grows(l: int, a: nat, b: nat)
    requires
        abs_int(l) >= 2,
        a <= b,
    ensures
        abs_int(pow_int(l, a)) <= abs_int(pow_int(l, b)),
    decreases b - a,
{
    if a < b {
        lemma_pow_mag_grows(l, a, (b - 1) as nat);
        lemma_pow_mag_pos(l, (b - 1) as nat);
        assert(abs_int(pow_int(l, b)) == abs_int(pow_int(l, (b - 1) as nat)) * abs_int(l))
            by (nonlinear_arith)
            requires
                pow_int(l, b) == pow_int(l, (b - 1) as nat) * l,
        ;
        assert(abs_int(pow_int(l, (b - 1) as nat)) * abs_int(l) >= abs_int(
            pow_int(l, (b - 1) as nat),
        )) by (nonlinear_arith)
            requires
                abs_int(pow_int(l, (b - 1) as nat)) >= 1,
                abs_int(l) >= 2,
        ;
    }
}

/// Integer power with the machine's exponent truncation, overflow
/// reported as a fault.
fn pow_arcana(l: i64, r: i64, li: Option<LineInfo>) -> (res: Result<EvalResult, Halt>)
    ensures
        out_view(res) == pow_arcana_s(l, r, li),
{
    if r < 0 {
        return Err(Halt::Failed(EvalError::NegativeExponent(li)));
    }
    let e: u32 = ((r as u64) % 0x1_0000_0000) as u32;
    if l == 0 {
        if e == 0 {
            return Ok(EvalResult::Arcana(1));
        } else {
            proof {
                lemma_pow_zero(e as nat);
            }
            return Ok(EvalResult::Arcana(0));
        }
    }
    if l == 1 {
        proof {
            lemma_pow_one(e as nat);
        }
        return Ok(EvalResult::Arcana(1));
    }
    if l == -1 {
        proof {
            lemma_pow_neg_one(e as nat);
        }
        if e % 2 == 0 {
            return Ok(EvalResult::Arcana(1));
        } else {
            return Ok(EvalResult::Arcana(-1));
        }
    }
    let mut acc: i64 = 1;
    let mut i: u32 = 0;
    while i < e
        invariant
            i <= e,
            r >= 0,
            e as int == r as int % 0x1_0000_0000,
            abs_int(l as int) >= 2,
            acc as int == pow_int(l as int, i as nat),
        decreases e - i,
    {
        proof {
            assert((acc as int) * (l as int) <= 0x8000_0000_0000_0000 * 0x8000_0000_0000_0000 && (
            acc as int) * (l as int) >= -(0x8000_0000_0000_0000 * 0x8000_0000_0000_0000))
                by (nonlinear_arith)
                requires
                    -0x8000_0000_0000_0000 <= acc as int <= 0x7fff_ffff_ffff_ffff,
                    -0x8000_0000_0000_0000 <= l as int <= 0x7fff_ffff_ffff_ffff,
            ;
        }
        let p: i128 = (acc as i128) * (l as i128);
        if p < -0x8000_0000_0000_0000i128 || p > 0x7fff_ffff_ffff_ffffi128 {
            proof {
                let li1 = l as int;
                let k1 = (i + 1) as nat;
                assert(pow_int(li1, k1) == acc as int * li1);
                assert(abs_int(pow_int(li1, k1)) >= 0x8000_0000_0000_0000);
                if e == i + 1 {
                    assert(pow_int(li1, e as nat) == p as int);
                } else {
                    let k2 = (i + 2) as nat;
                    assert(pow_int(li1, k2) == pow_int(li1, k1) * li1);
                    assert(abs_int(pow_int(li1, k2)) == abs_int(pow_int(li1, k1)) * abs_int(li1))
                        by (nonlinear_arith)
                        requires
                            pow_int(li1, k2) == pow_int(li1, k1) * li1,
                    ;
                    assert(abs_int(pow_int(li1, k2)) >= 0x8000_0000_0000_0000 * 2)
                        by (nonlinear_arith)
                        requires
                            abs_int(pow_int(li1, k2)) == abs_int(pow_int(li1, k1)) * abs_int(li1),
                            abs_int(pow_int(li1, k1)) >= 0x8000_0000_0000_0000,
                            abs_int(li1) >= 2,
                    ;
                    lemma_pow_mag_grows(li1, k2, e as nat);
                }
            }
            let m = String::from_str("Arcana arithmetic overflow");
            return Err(Halt::Failed(EvalError::InvalidOperation(m, li)));
        }
        acc = p as i64;
        i = i + 1;
    }
    Ok(EvalResult::Arcana(acc))
}

/// A bit-pattern answer from the host table.
fn ask_bits_exec(host: &Host, q: AetherQuery) -> (r: Result<u64, Halt>)
    ensures
        match r {
            Ok(x) => crate::sem::ask_bits(host@.aether, query_view(q)) == Ok::<u64, HaltView>(x),
            Err(h) => crate::sem::ask_bits(host@.aether, query_view(q)) == Err::<u64, HaltView>(
                halt_view(h),
            ) && h is NeedAether,
        },
{
    let a = host.find(&q);
    match a {
        Some(rep) => match rep {
            AetherReply::Bits(x) => Ok(*x),
            _ => Err(Halt::NeedAether(q)),
        },
        None => Err(Halt::NeedAether(q)),
    }
}

/// The sum if it fits the 64-bit range.
fn add_checked(a: i64, b: i64) -> (o: Option<i64>)
    ensures
        match o {
            Some(v) => v as int == a as int + b as int,
            None => !(-0x8000_0000_0000_0000 <= a as int + b as int <= 0x7fff_ffff_ffff_ffff),
        },
{
    let p: i128 = a as i128 + b as i128;
    if p < -0x8000_0000_0000_0000i128 || p > 0x7fff_ffff_ffff_ffffi128 {
        None
    } else {
        Some(p as i64)
    }
}

/// The difference if it fits the 64-bit range.
fn sub_checked(a: i64, b: i64) -> (o: Option<i64>)
    ensures
        match o {
            Some(v) => v as int == a as int - b as int,
            None => !(-0x8000_0000_0000_0000 <= a as int - b as int <= 0x7fff_ffff_ffff_ffff),
        },
{
    let p: i128 = a as i128 - b as i128;
    if p < -0x8000_0000_0000_0000i128 || p > 0x7fff_ffff_ffff_ffffi128 {
        None
    } else {
        Some(p as i64)
    }
}

/// The product if it fits the 64-bit range.
fn mul_checked(a: i64, b: i64) -> (o: Option<i64>)
    ensures
        match o {
            Some(v) => v as int == a as int * b as int,
            None => !(-0x8000_0000_0000_0000 <= a as int * b as int <= 0x7fff_ffff_ffff_ffff),
        },
{
    proof {
        assert((a as int) * (b as int) <= 0x8000_0000_0000_0000 * 0x8000_0000_0000_0000 && (
        a as int) * (b as int) >= -(0x8000_0000_0000_0000 * 0x8000_0000_0000_0000))
            by (nonlinear_arith)
            requires
                -0x8000_0000_0000_0000 <= a as int <= 0x7fff_ffff_ffff_ffff,
                -0x8000_0000_0000_0000 <= b as int <= 0x7fff_ffff_ffff_ffff,
        ;
    }
    let p: i128 = (a as i128) * (b as i128);
    if p < -0x8000_0000_0000_0000i128 || p > 0x7fff_ffff_ffff_ffffi128 {
        None
    } else {
        Some(p as i64)
    }
}

/// An `InvalidOperation` fault carrying a fixed message.
fn invalid(msg: &str, li: Option<LineInfo>) -> (h: Halt)
    ensures
        halt_view(h) == crate::sem::invalid_s(msg@, li),
{
    Halt::Failed(EvalError::InvalidOperation(String::from_str(msg), li))
}

/// Whether two `aether` bit patterns count as equal.
fn aether_eq_exec(host: &Host, a: u64, b: u64) -> (r: Result<bool, Halt>)
    ensures
        match r {
            Ok(x) => crate::sem::aether_eq_s(host@.aether, a, b) == Ok::<bool, HaltView>(x),
            Err(h) => crate::sem::aether_eq_s(host@.aether, a, b) == Err::<bool, HaltView>(
                halt_view(h),
            ),
        },
{
    match ask_bits_exec(host, AetherQuery::Bin(AetherBinOp::Sub, a, b)) {
        Ok(d) => ask_truth_exec(
            host,
            AetherQuery::Cmp(AetherCmpOp::Lt, d & 0x7fff_ffff_ffff_ffff, EPSILON_BITS),
        ),
        Err(h) => Err(h),
    }
}

/// Whether two `aether` bit patterns count as unequal.
fn aether_ne_exec(host: &Host, a: u64, b: u64) -> (r: Result<bool, Halt>)
    ensures
        match r {
            Ok(x) => crate::sem::aether_ne_s(host@.aether, a, b) == Ok::<bool, HaltView>(x),
            Err(h) => crate::sem::aether_ne_s(host@.aether, a, b) == Err::<bool, HaltView>(
                halt_view(h),
            ),
        },
{
    match ask_bits_exec(host, AetherQuery::Bin(AetherBinOp::Sub, a, b)) {
        Ok(d) => ask_truth_exec(
            host,
            AetherQuery::Cmp(AetherCmpOp::Ge, d & 0x7fff_ffff_ffff_ffff, EPSILON_BITS),
        ),
        Err(h) => Err(h),
    }
}

/// An ordering comparison of two results.
fn cmp_exec(
    op: AetherCmpOp,
    l: EvalResult,
    r: EvalResult,
    li: Option<LineInfo>,
    host: &Host,
) -> (res: Result<EvalResult, Halt>)
    ensures
        out_view(res) == crate::sem::cmp_s(op, res_view(l), res_view(r), li, host@.aether),
{
    match l {
        EvalResult::Arcana(a) => match r {
            EvalResult::Arcana(b) => Ok(
                EvalResult::Omen(
                    match op {
                        AetherCmpOp::Lt => a < b,
                        AetherCmpOp::Le => a <= b,
                        AetherCmpOp::Gt => a > b,
                        AetherCmpOp::Ge => a >= b,
                    },
                ),
            ),
            _ => Err(invalid("Comparison requires numeric types!", li)),
        },
        EvalResult::Aether(a) => match r {
            EvalResult::Aether(b) => match ask_truth_exec(host, AetherQuery::Cmp(op, a, b)) {
                Ok(t) => Ok(EvalResult::Omen(t)),
                Err(h) => Err(h),
            },
            _ => Err(invalid("Comparison requires numeric types!", li)),
        },
        _ => Err(invalid("Comparison requires numeric types!", li)),
    }
}

/// The rule of a two-operand node, applied to its operands' results.
fn apply_bin(
    kind: BinKind,
    l: EvalResult,
    r: EvalResult,
    li: Option<LineInfo>,
    host: &Host,
) -> (res: Result<EvalResult, Halt>)
    ensures
        out_view(res) == apply_bin_s(kind, res_view(l), res_view(r), li, host@.aether),
{
    match kind {
        BinKind::Add => match l {
            EvalResult::Arcana(a) => match r {
                EvalResult::Arcana(b) => match add_checked(a, b) {
                    Some(v) => Ok(EvalResult::Arcana(v)),
                    None => Err(invalid("Arcana arithmetic overflow", li)),
                },
                _ => Err(
                    invalid("Add operation requires either two Arcana, two Aether, or two Rune!", li),
                ),
            },
            EvalResult::Aether(a) => match r {
                EvalResult::Aether(b) => match ask_bits_exec(
                    host,
                    AetherQuery::Bin(AetherBinOp::Add, a, b),
                ) {
                    Ok(x) => Ok(EvalResult::Aether(x)),
                    Err(h) => Err(h),
                },
                _ => Err(
                    invalid("Add operation requires either two Arcana, two Aether, or two Rune!", li),
                ),
            },
            EvalResult::Rune(a) => match r {
                EvalResult::Rune(b) => Ok(EvalResult::Rune(a.concat(b.as_str()))),
                _ => Err(
                    invalid("Add operation requires either two Arcana, two Aether, or two Rune!", li),
                ),
            },
            _ => Err(
                invalid("Add operation requires either two Arcana, two Aether, or two Rune!", li),
            ),
        },
        BinKind::Sub => match l {
            EvalResult::Arcana(a) => match r {
                EvalResult::Arcana(b) => match sub_checked(a, b) {
                    Some(v) => Ok(EvalResult::Arcana(v)),
                    None => Err(invalid("Arcana arithmetic overflow", li)),
                },
                _ => Err(invalid("Subtract operation requires either two Arcana or two Aether!", li)),
            },
            EvalResult::Aether(a) => match r {
                EvalResult::Aether(b) => match ask_bits_exec(
                    host,
                    AetherQuery::Bin(AetherBinOp::Sub, a, b),
                ) {
                    Ok(x) => Ok(EvalResult::Aether(x)),
                    Err(h) => Err(h),
                },
                _ => Err(invalid("Subtract operation requires either two Arcana or two Aether!", li)),
            },
            _ => Err(invalid("Subtract operation requires either two Arcana or two Aether!", li)),
        },
        BinKind::Mul => match l {
            EvalResult::Arcana(a) => match r {
                EvalResult::Arcana(b) => match mul_checked(a, b) {
                    Some(v) => Ok(EvalResult::Arcana(v)),
                    None => Err(invalid("Arcana arithmetic overflow", li)),
                },
                _ => Err(invalid("Multiply operation requires either two Arcana or two Aether!", li)),
            },
            EvalResult::Aether(a) => match r {
                EvalResult::Aether(b) => match ask_bits_exec(
                    host,
                    AetherQuery::Bin(AetherBinOp::Mul, a, b),
                ) {
                    Ok(x) => Ok(EvalResult::Aether(x)),
                    Err(h) => Err(h),
                },
                _ => Err(invalid("Multiply operation requires either two Arcana or two Aether!", li)),
            },
            _ => Err(invalid("Multiply operation requires either two Arcana or two Aether!", li)),
        },
        BinKind::Div => match l {
            EvalResult::Arcana(a) => match r {
                EvalResult::Arcana(b) => if b == 0 {
                    Err(invalid("Division by zero", li))
                } else if a == i64::MIN && b == -1 {
                    Err(invalid("Arcana arithmetic overflow", li))
                } else {
                    Ok(EvalResult::Arcana(trunc_div_exec(a, b)))
                },
                _ => Err(invalid("Divide operation requires either two Arcana or two Aether!", li)),
            },
            EvalResult::Aether(a) => match r {
                EvalResult::Aether(b) => match ask_bits_exec(
                    host,
                    AetherQuery::Bin(AetherBinOp::Div, a, b),
                ) {
                    Ok(x) => Ok(EvalResult::Aether(x)),
                    Err(h) => Err(h),
                },
                _ => Err(invalid("Divide operation requires either two Arcana or two Aether!", li)),
            },
            _ => Err(invalid("Divide operation requires either two Arcana or two Aether!", li)),
        },
        BinKind::Mod => match l {
            EvalResult::Arcana(a) => match r {
                EvalResult::Arcana(b) => if b == 0 {
                    Err(invalid("Division by zero", li))
                } else if a == i64::MIN && b == -1 {
                    Err(invalid("Arcana arithmetic overflow", li))
                } else {
                    Ok(EvalResult::Arcana(trunc_rem_exec(a, b)))
                },
                _ => Err(invalid("Modulo operation requires either two Arcana or two Aether!", li)),
            },
            EvalResult::Aether(a) => match r {
                EvalResult::Aether(b) => match ask_bits_exec(
                    host,
                    AetherQuery::Bin(AetherBinOp::Mod, a, b),
                ) {
                    Ok(x) => Ok(EvalResult::Aether(x)),
                    Err(h) => Err(h),
                },
                _ => Err(invalid("Modulo operation requires either two Arcana or two Aether!", li)),
            },
            _ => Err(invalid("Modulo operation requires either two Arcana or two Aether!", li)),
        },
        BinKind::PowArcana => match l {
            EvalResult::Arcana(a) => match r {
                EvalResult::Arcana(b) => pow_arcana(a, b, li),
                _ => Err(invalid("PowArcana operation requires two Arcana!", li)),
            },
            _ => Err(invalid("PowArcana operation requires two Arcana!", li)),
        },
        BinKind::PowAether => match l {
            EvalResult::Aether(a) => match r {
                EvalResult::Aether(b) => match ask_bits_exec(
                    host,
                    AetherQuery::Bin(AetherBinOp::Pow, a, b),
                ) {
                    Ok(x) => Ok(EvalResult::Aether(x)),
                    Err(h) => Err(h),
                },
                _ => Err(invalid("PowAether operation requires two Aether!", li)),
            },
            _ => Err(invalid("PowAether operation requires two Aether!", li)),
        },
        BinKind::Equal => match l {
            EvalResult::Arcana(a) => match r {
                EvalResult::Arcana(b) => Ok(EvalResult::Omen(a == b)),
                _ => Err(invalid("Comparison requires compatible types!", li)),
            },
            EvalResult::Aether(a) => match r {
                EvalResult::Aether(b) => match aether_eq_exec(host, a, b) {
                    Ok(t) => Ok(EvalResult::Omen(t)),
                    Err(h) => Err(h),
                },
                _ => Err(invalid("Comparison requires compatible types!", li)),
            },
            EvalResult::Rune(a) => match r {
                EvalResult::Rune(b) => Ok(EvalResult::Omen(a == b)),
                _ => Err(invalid("Comparison requires compatible types!", li)),
            },
            _ => Err(invalid("Comparison requires compatible types!", li)),
        },
        BinKind::NotEqual => match l {
            EvalResult::Arcana(a) => match r {
                EvalResult::Arcana(b) => Ok(EvalResult::Omen(a != b)),
                _ => Err(invalid("Comparison requires compatible types!", li)),
            },
            EvalResult::Aether(a) => match r {
                EvalResult::Aether(b) => match aether_ne_exec(host, a, b) {
                    Ok(t) => Ok(EvalResult::Omen(t)),
                    Err(h) => Err(h),
                },
                _ => Err(invalid("Comparison requires compatible types!", li)),
            },
            EvalResult::Rune(a) => match r {
                EvalResult::Rune(b) => Ok(EvalResult::Omen(!(a == b))),
                _ => Err(invalid("Comparison requires compatible types!", li)),
            },
            _ => Err(invalid("Comparison requires compatible types!", li)),
        },
        BinKind::Less => cmp_exec(AetherCmpOp::Lt, l, r, li, host),
        BinKind::LessEq => cmp_exec(AetherCmpOp::Le, l, r, li, host),
        BinKind::Greater => cmp_exec(AetherCmpOp::Gt, l, r, li, host),
        BinKind::GreaterEq => cmp_exec(AetherCmpOp::Ge, l, r, li, host),
        BinKind::And => match l {
            EvalResult::Omen(a) => match r {
                EvalResult::Omen(b) => Ok(EvalResult::Omen(a && b)),
                _ => Err(invalid("LogicalAnd operation requires two Omen!", li)),
            },
            _ => Err(invalid("LogicalAnd operation requires two Omen!", li)),
        },
        BinKind::Or => match l {
            EvalResult::Omen(a) => match r {
                EvalResult::Omen(b) => Ok(EvalResult::Omen(a || b)),
                _ => Err(invalid("LogicalOr operation requires two Omen!", li)),
            },
            _ => Err(invalid("LogicalOr operation requires two Omen!", li)),
        },
    }
}

/// A truth answer from the host table.
fn ask_truth_exec(host: &Host, q: AetherQuery) -> (r: Result<bool, Halt>)
    ensures
        match r {
            Ok(x) => crate::sem::ask_truth(host@.aether, query_view(q)) == Ok::<bool, HaltView>(x),
            Err(h) => crate::sem::ask_truth(host@.aether, query_view(q)) == Err::<bool, HaltView>(
                halt_view(h),
            ) && h is NeedAether,
        },
{
    let a = host.find(&q);
    match a {
        Some(rep) => match rep {
            AetherReply::Truth(x) => Ok(*x),
            _ => Err(Halt::NeedAether(q)),
        },
        None => Err(Halt::NeedAether(q)),
    }
}

/// An `InvalidOperation` fault whose message ends with a name.
fn invalid_with(msg: &str, name: &str, li: Option<LineInfo>) -> (h: Halt)
    ensures
        halt_view(h) == crate::sem::invalid_s(msg@ + name@, li),
{
    let mut m = String::from_str(msg);
    m.append(name);
    Halt::Failed(EvalError::InvalidOperation(m, li))
}

/// A `TypeError` fault whose message ends with a name.
fn typeerr_with(msg: &str, name: &str, li: Option<LineInfo>) -> (h: Halt)
    ensures
        halt_view(h) == HaltView::Failed(ErrView::TypeError(msg@ + name@, li)),
{
    let mut m = String::from_str(msg);
    m.append(name);
    Halt::Failed(EvalError::TypeError(m, li))
}

/// The new value a compound reassignment computes.
fn assign_new_value(
    name: &str,
    op: AssignmentOp,
    ev: EvalResult,
    cur: &Value,
    li: Option<LineInfo>,
    host: &Host,
) -> (res: Result<(Value, Type), Halt>)
    ensures
        match res {
            Ok(p) => crate::sem::assign_new_value_s(
                name@,
                op,
                res_view(ev),
                value_view(*cur),
                li,
                host@.aether,
            ) == Ok::<(ValueView, Type), HaltView>((value_view(p.0), p.1)),
            Err(h) => crate::sem::assign_new_value_s(
                name@,
                op,
                res_view(ev),
                value_view(*cur),
                li,
                host@.aether,
            ) == Err::<(ValueView, Type), HaltView>(halt_view(h)),
        },
{
    match ev {
        EvalResult::Arcana(v) => match cur {
            Value::Arcana(c0) => {
                let c = *c0;
                match op {
                    AssignmentOp::AddAssign => match add_checked(c, v) {
                        Some(n) => Ok((Value::Arcana(n), Type::Arcana)),
                        None => Err(invalid("Arcana arithmetic overflow", li)),
                    },
                    AssignmentOp::SubAssign => match sub_checked(c, v) {
                        Some(n) => Ok((Value::Arcana(n), Type::Arcana)),
                        None => Err(invalid("Arcana arithmetic overflow", li)),
                    },
                    AssignmentOp::MulAssign => match mul_checked(c, v) {
                        Some(n) => Ok((Value::Arcana(n), Type::Arcana)),
                        None => Err(invalid("Arcana arithmetic overflow", li)),
                    },
                    AssignmentOp::DivAssign => if v == 0 {
                        Err(invalid("Division by zero", li))
                    } else if c == i64::MIN && v == -1 {
                        Err(invalid("Arcana arithmetic overflow", li))
                    } else {
                        Ok((Value::Arcana(trunc_div_exec(c, v)), Type::Arcana))
                    },
                    AssignmentOp::ModAssign => if v == 0 {
                        Err(invalid("Division by zero", li))
                    } else if c == i64::MIN && v == -1 {
                        Err(invalid("Arcana arithmetic overflow", li))
                    } else {
                        Ok((Value::Arcana(trunc_rem_exec(c, v)), Type::Arcana))
                    },
                    AssignmentOp::PowArcanaAssign => match pow_arcana(c, v, li) {
                        Ok(r) => match r {
                            EvalResult::Arcana(n) => Ok((Value::Arcana(n), Type::Arcana)),
                            _ => Err(invalid_with("Unsupported operation for variable ", name, li)),
                        },
                        Err(h) => Err(h),
                    },
                    AssignmentOp::Assign => Ok((Value::Arcana(v), Type::Arcana)),
                    _ => Err(invalid_with("Unsupported operation for variable ", name, li)),
                }
            },
            _ => Err(
                invalid_with("Type mismatch or unsupported operation for variable ", name, li),
            ),
        },
        EvalResult::Aether(v) => match cur {
            Value::Aether(c0) => {
                let c = *c0;
                let bop = match op {
                    AssignmentOp::AddAssign => Some(AetherBinOp::Add),
                    AssignmentOp::SubAssign => Some(AetherBinOp::Sub),
                    AssignmentOp::MulAssign => Some(AetherBinOp::Mul),
                    AssignmentOp::DivAssign => Some(AetherBinOp::Div),
                    AssignmentOp::ModAssign => Some(AetherBinOp::Mod),
                    AssignmentOp::PowAetherAssign => Some(AetherBinOp::Pow),
                    _ => None,
                };
                match bop {
                    Some(b) => match ask_bits_exec(host, AetherQuery::Bin(b, c, v)) {
                        Ok(x) => Ok((Value::Aether(x), Type::Aether)),
                        Err(h) => Err(h),
                    },
                    None => match op {
                        AssignmentOp::Assign => Ok((Value::Aether(v), Type::Aether)),
                        _ => Err(invalid_with("Unsupported operation for variable ", name, li)),
                    },
                }
            },
            _ => Err(
                invalid_with("Type mismatch or unsupported operation for variable ", name, li),
            ),
        },
        EvalResult::Rune(v) => match cur {
            Value::Rune(c) => match op {
                AssignmentOp::AddAssign => Ok(
                    (Value::Rune(c.clone().concat(v.as_str())), Type::Rune),
                ),
                AssignmentOp::Assign => Ok((Value::Rune(v), Type::Rune)),
                _ => Err(invalid_with("Unsupported operation for variable ", name, li)),
            },
            _ => Err(
                invalid_with("Type mismatch or unsupported operation for variable ", name, li),
            ),
        },
        EvalResult::Omen(v) => match op {
            AssignmentOp::Assign => Ok((Value::Omen(v), Type::Omen)),
            _ => Err(
                invalid_with("Type mismatch or unsupported operation for variable ", name, li),
            ),
        },
        _ => Err(invalid_with("Type mismatch or unsupported operation for variable ", name, li)),
    }
}

/// The text one value prints as under `unveil`.
fn unveil_piece(r: &EvalResult, host: &Host) -> (res: Result<String, Halt>)
    ensures
        match res {
            Ok(s) => unveil_piece_s(res_view(*r), host@.aether) == Ok::<Seq<char>, HaltView>(s@),
            Err(h) => unveil_piece_s(res_view(*r), host@.aether) == Err::<Seq<char>, HaltView>(
                halt_view(h),
            ),
        },
{
    match r {
        EvalResult::Omen(b) => if *b {
            Ok(String::from_str("boon"))
        } else {
            Ok(String::from_str("hex"))
        },
        EvalResult::Arcana(n) => Ok(format_i64(*n)),
        EvalResult::Aether(n) => {
            let q = AetherQuery::Text(*n);
            match host.find(&q) {
                Some(a) => match a {
                    AetherReply::Words(s) => Ok(s.clone()),
                    _ => Err(Halt::NeedAether(q)),
                },
                None => Err(Halt::NeedAether(q)),
            }
        },
        EvalResult::Rune(s) => Ok(unescape(s.as_str())),
        EvalResult::Abyss => Ok(String::new()),
        _ => Err(invalid("Unsupported type in unveil statement", None)),
    }
}

/// Element-wise view of a vector of results.
pub open spec fn res_views(s: Seq<EvalResult>) -> Seq<ResView> {
    Seq::new(s.len(), |i: int| res_view(s[i]))
}

/// The text a sequence of values prints as.
fn unveil_text(vals: &Vec<EvalResult>, host: &Host) -> (res: Result<String, Halt>)
    ensures
        match res {
            Ok(s) => crate::sem::unveil_text_s(res_views(vals@), 0, Seq::empty(), host@.aether)
                == Ok::<Seq<char>, HaltView>(s@),
            Err(h) => crate::sem::unveil_text_s(res_views(vals@), 0, Seq::empty(), host@.aether)
                == Err::<Seq<char>, HaltView>(halt_view(h)),
        },
{
    let ghost tbl = host@.aether;
    let ghost vv = res_views(vals@);
    let mut acc = String::new();
    let mut i: usize = 0;
    while i < vals.len()
        invariant
            i <= vals.len(),
            tbl == host@.aether,
            vv == res_views(vals@),
            crate::sem::unveil_text_s(vv, i as int, acc@, tbl) == crate::sem::unveil_text_s(
                vv,
                0,
                Seq::empty(),
                tbl,
            ),
        decreases vals.len() - i,
    {
        match unveil_piece(&vals[i], host) {
            Ok(s) => {
                acc.append(s.as_str());
            },
            Err(h) => {
                return Err(h);
            },
        }
        i = i + 1;
    }
    Ok(acc)
}

/// What an explicit cast yields.
fn cast_exec(r: EvalResult, target: Type, li: Option<LineInfo>, host: &Host) -> (res: Result<
    EvalResult,
    Halt,
>)
    ensures
        out_view(res) == cast_s(res_view(r), target, li, host@.aether),
{
    match target {
        Type::Arcana => match r {
            EvalResult::Aether(n) => {
                let q = AetherQuery::ToArcana(n);
                match host.find(&q) {
                    Some(a) => match a {
                        AetherReply::Num(v) => Ok(EvalResult::Arcana(*v)),
                        _ => Err(Halt::NeedAether(q)),
                    },
                    None => Err(Halt::NeedAether(q)),
                }
            },
            EvalResult::Rune(s) => match parse_i64(s.as_str()) {
                Some(v) => Ok(EvalResult::Arcana(v)),
                None => Err(invalid("Failed to convert Rune to Arcana", li)),
            },
            _ => Err(invalid("Invalid cast to Arcana", li)),
        },
        Type::Aether => match r {
            EvalResult::Arcana(n) => {
                let q = AetherQuery::OfArcana(n);
                match host.find(&q) {
                    Some(a) => match a {
                        AetherReply::Bits(v) => Ok(EvalResult::Aether(*v)),
                        _ => Err(Halt::NeedAether(q)),
                    },
                    None => Err(Halt::NeedAether(q)),
                }
            },
            EvalResult::Rune(s) => {
                let q = AetherQuery::Parse(s);
                match host.find(&q) {
                    Some(a) => match a {
                        AetherReply::ParseOk(v) => Ok(EvalResult::Aether(*v)),
                        AetherReply::ParseFail => Err(invalid("Failed to convert Rune to Aether", li)),
                        _ => Err(Halt::NeedAether(q)),
                    },
                    None => Err(Halt::NeedAether(q)),
                }
            },
            _ => Err(invalid("Invalid cast to Aether", li)),
        },
        Type::Rune => match r {
            EvalResult::Arcana(n) => Ok(EvalResult::Rune(format_i64(n))),
            EvalResult::Aether(n) => {
                let q = AetherQuery::Text(n);
                match host.find(&q) {
                    Some(a) => match a {
                        AetherReply::Words(s) => Ok(EvalResult::Rune(s.clone())),
                        _ => Err(Halt::NeedAether(q)),
                    },
                    None => Err(Halt::NeedAether(q)),
                }
            },
            _ => Err(invalid("Invalid cast to Rune", li)),
        },
        Type::Omen => Err(invalid("Casting to Omen is not supported", li)),
        Type::Abyss => Err(invalid("Unsupported cast to type Abyss", li)),
    }
}

/// What one input line parses to under `summon`.
fn summon_value(line: String, t: Type, li: Option<LineInfo>, host: &Host) -> (res: Result<
    EvalResult,
    Halt,
>)
    ensures
        out_view(res) == summon_value_s(line@, t, li, host@.aether),
{
    let trimmed = trim_space(line.as_str());
    match t {
        Type::Arcana => match parse_i64(trimmed.as_str()) {
            Some(v) => Ok(EvalResult::Arcana(v)),
            None => Err(invalid("Failed to parse input as Arcana", li)),
        },
        Type::Aether => {
            let q = AetherQuery::Parse(trimmed);
            match host.find(&q) {
                Some(a) => match a {
                    AetherReply::ParseOk(v) => Ok(EvalResult::Aether(*v)),
                    AetherReply::ParseFail => Err(invalid("Failed to parse input as Aether", li)),
                    _ => Err(Halt::NeedAether(q)),
                },
                None => Err(Halt::NeedAether(q)),
            }
        },
        Type::Rune => Ok(EvalResult::Rune(trimmed)),
        _ => Err(invalid("Unsupported type for summon", li)),
    }
}

/// The call result once checked against the declared return type.
fn return_check(r: EvalResult, rt: Type, fname: &str, fli: Option<LineInfo>) -> (res: Result<
    EvalResult,
    Halt,
>)
    ensures
        out_view(res) == return_check_s(res_view(r), rt, fname@, fli),
{
    match r {
        EvalResult::Arcana(n) => if rt == Type::Arcana {
            Ok(EvalResult::Arcana(n))
        } else {
            Err(typeerr_with("Type mismatch for return value of function ", fname, fli))
        },
        EvalResult::Aether(n) => if rt == Type::Aether {
            Ok(EvalResult::Aether(n))
        } else {
            Err(typeerr_with("Type mismatch for return value of function ", fname, fli))
        },
        EvalResult::Rune(s) => if rt == Type::Rune {
            Ok(EvalResult::Rune(s))
        } else {
            Err(typeerr_with("Type mismatch for return value of function ", fname, fli))
        },
        EvalResult::Omen(b) => if rt == Type::Omen {
            Ok(EvalResult::Omen(b))
        } else {
            Err(typeerr_with("Type mismatch for return value of function ", fname, fli))
        },
        EvalResult::Abyss => if rt == Type::Abyss {
            Ok(EvalResult::Abyss)
        } else {
            Err(typeerr_with("Type mismatch for return value of function ", fname, fli))
        },
        _ => Err(typeerr_with("Type mismatch for return value of function ", fname, fli)),
    }
}

/// Binds evaluated arguments to declared parameters in the innermost
/// scope.
fn bind_params(
    params: &Vec<AST>,
    vals: &Vec<EvalResult>,
    fname: &str,
    li: Option<LineInfo>,
    env: &mut Environment,
) -> (res: Result<(), Halt>)
    ensures
        match res {
            Ok(u) => crate::sem::bind_params_s(
                ast_views(params@),
                res_views(vals@),
                0,
                fname@,
                li,
                old(env)@,
            ) == Ok::<crate::env::EnvView, HaltView>(final(env)@),
            Err(h) => crate::sem::bind_params_s(
                ast_views(params@),
                res_views(vals@),
                0,
                fname@,
                li,
                old(env)@,
            ) == Err::<crate::env::EnvView, HaltView>(halt_view(h)) && final(env)@.vmarks == old(
                env,
            )@.vmarks && final(env)@.fmarks == old(env)@.fmarks && final(env)@.funs == old(
                env,
            )@.funs && final(env)@.vars.len() >= old(env)@.vars.len() && final(env)@.vars.take(
                old(env)@.vars.len() as int,
            ) == old(env)@.vars,
        },
{
    let ghost pv = ast_views(params@);
    let ghost vv = res_views(vals@);
    let mut i: usize = 0;
    proof {
        assert(env@.vars.take(env@.vars.len() as int) =~= env@.vars);
    }
    while i < params.len() && i < vals.len()
        invariant
            i <= params.len(),
            i <= vals.len(),
            pv == ast_views(params@),
            vv == res_views(vals@),
            env@.vmarks == old(env)@.vmarks,
            env@.fmarks == old(env)@.fmarks,
            env@.funs == old(env)@.funs,
            env@.vars.len() >= old(env)@.vars.len(),
            env@.vars.take(old(env)@.vars.len() as int) == old(env)@.vars,
            crate::sem::bind_params_s(pv, vv, i as int, fname@, li, env@)
                == crate::sem::bind_params_s(pv, vv, 0, fname@, li, old(env)@),
        decreases params.len() - i,
    {
        let pname: String;
        let ptype: Type;
        match &params[i] {
            AST::EngraveParam { name, param_type, line_info } => {
                pname = name.clone();
                ptype = *param_type;
            },
            _ => {
                return Err(invalid_with("Expected EngraveParam in function definition: ", fname, li));
            },
        }
        match conform_ref(&vals[i], ptype) {
            Some(v) => {
                let ghost before = env@.vars;
                env.set_var(pname, v, ptype, false, li);
                proof {
                    assert(env@.vars.take(old(env)@.vars.len() as int) =~= old(env)@.vars);
                }
            },
            None => {
                return Err(typeerr_with("Type mismatch for parameter ", pname.as_str(), li));
            },
        }
        i = i + 1;
    }
    Ok(())
}

/// A two-operand node: left operand, right operand, then the rule.
#[verifier::rlimit(100)]
#[verifier::spinoff_prover]
fn eval_bin(
    kind: BinKind,
    l: &AST,
    r: &AST,
    li: Option<LineInfo>,
    env: &mut Environment,
    host: &mut Host,
    f: u64,
) -> (res: Result<EvalResult, Halt>)
    ensures
        ({
            let o = crate::sem::bin_s(
                kind,
                ast_view(*l),
                ast_view(*r),
                li,
                old(env)@,
                old(host)@.io,
                old(host)@.aether,
                f as nat,
            );
            out_view(res) == o.res && final(env)@ == o.env && final(host)@.io == o.io
        }),
        final(host)@.aether == old(host)@.aether,
    decreases f, 1int, 0int,
{
    let lr = evaluate_with_fuel(l, env, host, f);
    match lr {
        Ok(lv) => {
            let rr = evaluate_with_fuel(r, env, host, f);
            match rr {
                Ok(rv) => apply_bin(kind, lv, rv, li, host),
                Err(h) => Err(h),
            }
        },
        Err(h) => Err(h),
    }
}

/// The statements of a block, in order.
#[verifier::rlimit(100)]
#[verifier::spinoff_prover]
fn eval_block(stmts: &Vec<AST>, env: &mut Environment, host: &mut Host, f: u64) -> (res: Result<
    EvalResult,
    Halt,
>)
    ensures
        ({
            let o = crate::sem::block_s(
                ast_views(stmts@),
                0,
                ResView::Abyss,
                old(env)@,
                old(host)@.io,
                old(host)@.aether,
                f as nat,
            );
            out_view(res) == o.res && final(env)@ == o.env && final(host)@.io == o.io
        }),
        final(host)@.aether == old(host)@.aether,
    decreases f, 1int, 0int,
{
    let ghost sv = ast_views(stmts@);
    let ghost tbl = old(host)@.aether;
    let mut last = EvalResult::Abyss;
    let mut i: usize = 0;
    while i < stmts.len()
        invariant
            i <= stmts.len(),
            sv == ast_views(stmts@),
            host@.aether == tbl,
            tbl == old(host)@.aether,
            crate::sem::block_s(sv, 0, ResView::Abyss, old(env)@, old(host)@.io, tbl, f as nat)
                == crate::sem::block_s(
                sv,
                i as int,
                res_view(last),
                env@,
                host@.io,
                tbl,
                f as nat,
            ),
        decreases stmts.len() - i,
    {
        proof {
            assert(ast_views(stmts@)[i as int] == ast_view(stmts@[i as int]));
        }
        let r = evaluate_with_fuel(&stmts[i], env, host, f);
        match r {
            Ok(rr) => match rr {
                EvalResult::Revealed(v) => {
                    proof {
                        assert(res_view(rr) == ResView::Revealed(Box::new(res_view(*v))));
                    }
                    return Ok(*v);
                },
                EvalResult::Resume(lbl) => {
                    proof {
                        assert(res_view(rr) == ResView::Resume(crate::ast::label_view(lbl)));
                    }
                    return Ok(EvalResult::Resume(lbl));
                },
                EvalResult::Eject(lbl) => {
                    proof {
                        assert(res_view(rr) == ResView::Eject(crate::ast::label_view(lbl)));
                    }
                    return Ok(EvalResult::Eject(lbl));
                },
                other => {
                    last = other;
                },
            },
            Err(h) => {
                return Err(h);
            },
        }
        i = i + 1;
    }
    Ok(last)
}

/// A list of expressions evaluated in order, collecting their results.
#[verifier::rlimit(100)]
#[verifier::spinoff_prover]
fn eval_list(args: &Vec<AST>, env: &mut Environment, host: &mut Host, f: u64) -> (res: Result<
    Vec<EvalResult>,
    Halt,
>)
    ensures
        ({
            let o = crate::sem::eval_list_s(
                ast_views(args@),
                0,
                Seq::empty(),
                old(env)@,
                old(host)@.io,
                old(host)@.aether,
                f as nat,
            );
            final(env)@ == o.1 && final(host)@.io == o.2 && (match res {
                Ok(v) => o.0 == Ok::<Seq<ResView>, HaltView>(res_views(v@)),
                Err(h) => o.0 == Err::<Seq<ResView>, HaltView>(halt_view(h)),
            })
        }),
        final(host)@.aether == old(host)@.aether,
    decreases f, 1int, 0int,
{
    let ghost av = ast_views(args@);
    let ghost tbl = old(host)@.aether;
    let mut acc: Vec<EvalResult> = Vec::new();
    let mut i: usize = 0;
    proof {
        assert(res_views(acc@) =~= Seq::<ResView>::empty());
    }
    while i < args.len()
        invariant
            i <= args.len(),
            av == ast_views(args@),
            host@.aether == tbl,
            tbl == old(host)@.aether,
            crate::sem::eval_list_s(av, 0, Seq::empty(), old(env)@, old(host)@.io, tbl, f as nat)
                == crate::sem::eval_list_s(
                av,
                i as int,
                res_views(acc@),
                env@,
                host@.io,
                tbl,
                f as nat,
            ),
        decreases args.len() - i,
    {
        proof {
            assert(ast_views(args@)[i as int] == ast_view(args@[i as int]));
        }
        let r = evaluate_with_fuel(&args[i], env, host, f);
        match r {
            Ok(rr) => {
                let ghost before = res_views(acc@);
                acc.push(rr);
                proof {
                    assert(res_views(acc@) =~= before.push(res_view(rr)));
                }
            },
            Err(h) => {
                return Err(h);
            },
        }
        i = i + 1;
    }
    Ok(acc)
}

/// The oracle's conditionals, evaluated and bound in the current scope.
#[verifier::rlimit(100)]
#[verifier::spinoff_prover]
fn eval_conds(
    conds: &Vec<ConditionalAssignment>,
    li: Option<LineInfo>,
    env: &mut Environment,
    host: &mut Host,
    f: u64,
) -> (res: Result<(), Halt>)
    ensures
        ({
            let o = crate::sem::conds_s(
                crate::ast::cond_views(conds@),
                0,
                li,
                old(env)@,
                old(host)@.io,
                old(host)@.aether,
                f as nat,
            );
            final(env)@ == o.1 && final(host)@.io == o.2 && (match res {
                Ok(u) => o.0 == Ok::<(), HaltView>(u),
                Err(h) => o.0 == Err::<(), HaltView>(halt_view(h)),
            })
        }),
        final(host)@.aether == old(host)@.aether,
    decreases f, 1int, 0int,
{
    let ghost cv = crate::ast::cond_views(conds@);
    let ghost tbl = old(host)@.aether;
    let mut i: usize = 0;
    while i < conds.len()
        invariant
            i <= conds.len(),
            cv == crate::ast::cond_views(conds@),
            host@.aether == tbl,
            tbl == old(host)@.aether,
            crate::sem::conds_s(cv, 0, li, old(env)@, old(host)@.io, tbl, f as nat)
                == crate::sem::conds_s(cv, i as int, li, env@, host@.io, tbl, f as nat),
        decreases conds.len() - i,
    {
        proof {
            assert(crate::ast::cond_views(conds@)[i as int] == crate::ast::cond_view(
                conds@[i as int],
            ));
        }
        let r = evaluate_with_fuel(&conds[i].expression, env, host, f);
        match r {
            Ok(rr) => match cond_value(&rr) {
                Some(vt) => {
                    env.set_var(conds[i].variable.clone(), vt.0, vt.1, false, li);
                },
                None => {
                    return Err(invalid("Unsupported type in oracle conditional", li));
                },
            },
            Err(h) => {
                return Err(h);
            },
        }
        i = i + 1;
    }
    Ok(())
}

/// Match-mode pattern test over the positions of one branch's pattern.
#[verifier::rlimit(100)]
#[verifier::spinoff_prover]
fn match_pattern(
    conds: &Vec<ConditionalAssignment>,
    pattern: &Vec<AST>,
    li: Option<LineInfo>,
    env: &mut Environment,
    host: &mut Host,
    f: u64,
) -> (res: Result<bool, Halt>)
    ensures
        ({
            let o = crate::sem::match_pattern_s(
                crate::ast::cond_views(conds@),
                ast_views(pattern@),
                0,
                li,
                old(env)@,
                old(host)@.io,
                old(host)@.aether,
                f as nat,
            );
            final(env)@ == o.1 && final(host)@.io == o.2 && (match res {
                Ok(m) => o.0 == Ok::<bool, HaltView>(m),
                Err(h) => o.0 == Err::<bool, HaltView>(halt_view(h)),
            })
        }),
        final(host)@.aether == old(host)@.aether,
    decreases f, 1int, 0int,
{
    let ghost cv = crate::ast::cond_views(conds@);
    let ghost pv = ast_views(pattern@);
    let ghost tbl = old(host)@.aether;
    let mut i: usize = 0;
    while i < pattern.len()
        invariant
            i <= pattern.len(),
            cv == crate::ast::cond_views(conds@),
            pv == ast_views(pattern@),
            host@.aether == tbl,
            tbl == old(host)@.aether,
            crate::sem::match_pattern_s(cv, pv, 0, li, old(env)@, old(host)@.io, tbl, f as nat)
                == crate::sem::match_pattern_s(
                cv,
                pv,
                i as int,
                li,
                env@,
                host@.io,
                tbl,
                f as nat,
            ),
        decreases pattern.len() - i,
    {
        proof {
            assert(ast_views(pattern@)[i as int] == ast_view(pattern@[i as int]));
            if i < conds.len() {
                assert(crate::ast::cond_views(conds@)[i as int] == crate::ast::cond_view(
                    conds@[i as int],
                ));
            }
        }
        let dont_care = match &pattern[i] {
            AST::OracleDontCareItem(x) => true,
            _ => false,
        };
        if !dont_care {
            if i >= conds.len() {
                return Err(invalid("Oracle branch pattern has more elements than conditionals", li));
            }
            let pr = evaluate_with_fuel(&pattern[i], env, host, f);
            let pvr = match pr {
                Ok(x) => x,
                Err(h) => {
                    return Err(h);
                },
            };
            let cr = evaluate_with_fuel(&conds[i].expression, env, host, f);
            let cvr = match cr {
                Ok(x) => x,
                Err(h) => {
                    return Err(h);
                },
            };
            match cvr {
                EvalResult::Arcana(c) => match pvr {
                    EvalResult::Arcana(p) => if c != p {
                        return Ok(false);
                    },
                    _ => {
                        return Err(
                            invalid("Oracle branch pattern type must match conditional type", li),
                        );
                    },
                },
                EvalResult::Aether(c) => match pvr {
                    EvalResult::Aether(p) => match aether_ne_exec(host, c, p) {
                        Ok(ne) => if ne {
                            return Ok(false);
                        },
                        Err(h) => {
                            return Err(h);
                        },
                    },
                    _ => {
                        return Err(
                            invalid("Oracle branch pattern type must match conditional type", li),
                        );
                    },
                },
                EvalResult::Rune(c) => match pvr {
                    EvalResult::Rune(p) => if !(c == p) {
                        return Ok(false);
                    },
                    _ => {
                        return Err(
                            invalid("Oracle branch pattern type must match conditional type", li),
                        );
                    },
                },
                EvalResult::Omen(c) => match pvr {
                    EvalResult::Omen(p) => if c != p {
                        return Ok(false);
                    },
                    _ => {
                        return Err(
                            invalid("Oracle branch pattern type must match conditional type", li),
                        );
                    },
                },
                _ => {
                    return Err(
                        invalid("Oracle branch pattern type must match conditional type", li),
                    );
                },
            }
        }
        i = i + 1;
    }
    Ok(true)
}

/// Guard-mode pattern test: every guard must be a true omen; its own
/// faults count as "no match".
#[verifier::rlimit(100)]
#[verifier::spinoff_prover]
fn guard_pattern(
    pattern: &Vec<AST>,
    env: &mut Environment,
    host: &mut Host,
    f: u64,
) -> (res: Result<bool, Halt>)
    ensures
        ({
            let o = crate::sem::guard_pattern_s(
                ast_views(pattern@),
                0,
                old(env)@,
                old(host)@.io,
                old(host)@.aether,
                f as nat,
            );
            final(env)@ == o.1 && final(host)@.io == o.2 && (match res {
                Ok(m) => o.0 == Ok::<bool, HaltView>(m),
                Err(h) => o.0 == Err::<bool, HaltView>(halt_view(h)),
            })
        }),
        final(host)@.aether == old(host)@.aether,
    decreases f, 1int, 0int,
{
    let ghost pv = ast_views(pattern@);
    let ghost tbl = old(host)@.aether;
    let mut i: usize = 0;
    while i < pattern.len()
        invariant
            i <= pattern.len(),
            pv == ast_views(pattern@),
            host@.aether == tbl,
            tbl == old(host)@.aether,
            crate::sem::guard_pattern_s(pv, 0, old(env)@, old(host)@.io, tbl, f as nat)
                == crate::sem::guard_pattern_s(pv, i as int, env@, host@.io, tbl, f as nat),
        decreases pattern.len() - i,
    {
        proof {
            assert(ast_views(pattern@)[i as int] == ast_view(pattern@[i as int]));
        }
        let r = evaluate_with_fuel(&pattern[i], env, host, f);
        match r {
            Ok(rr) => match rr {
                EvalResult::Omen(b) => if !b {
                    return Ok(false);
                },
                _ => {
                    return Ok(false);
                },
            },
            Err(h) => match h {
                Halt::Failed(e) => {
                    return Ok(false);
                },
                _ => {
                    return Err(h);
                },
            },
        }
        i = i + 1;
    }
    Ok(true)
}

/// The oracle's branches, tried in order.
#[verifier::rlimit(100)]
#[verifier::spinoff_prover]
fn eval_branches(
    is_match: bool,
    conds: &Vec<ConditionalAssignment>,
    branches: &Vec<AST>,
    env: &mut Environment,
    host: &mut Host,
    f: u64,
) -> (res: Result<EvalResult, Halt>)
    ensures
        ({
            let o = crate::sem::branches_s(
                is_match,
                crate::ast::cond_views(conds@),
                ast_views(branches@),
                0,
                old(env)@,
                old(host)@.io,
                old(host)@.aether,
                f as nat,
            );
            out_view(res) == o.res && final(env)@ == o.env && final(host)@.io == o.io
        }),
        final(host)@.aether == old(host)@.aether,
    decreases f, 2int, 0int,
{
    let ghost cv = crate::ast::cond_views(conds@);
    let ghost bv = ast_views(branches@);
    let ghost tbl = old(host)@.aether;
    let mut i: usize = 0;
    while i < branches.len()
        invariant
            i <= branches.len(),
            cv == crate::ast::cond_views(conds@),
            bv == ast_views(branches@),
            host@.aether == tbl,
            tbl == old(host)@.aether,
            crate::sem::branches_s(is_match, cv, bv, 0, old(env)@, old(host)@.io, tbl, f as nat)
                == crate::sem::branches_s(
                is_match,
                cv,
                bv,
                i as int,
                env@,
                host@.io,
                tbl,
                f as nat,
            ),
        decreases branches.len() - i,
    {
        proof {
            assert(ast_views(branches@)[i as int] == ast_view(branches@[i as int]));
        }
        let is_branch = match &branches[i] {
            AST::OracleBranch { pattern, body, line_info } => true,
            _ => false,
        };
        if is_branch {
            let matched: bool;
            match &branches[i] {
                AST::OracleBranch { pattern, body, line_info } => {
                    if pattern.len() == 0 {
                        matched = true;
                    } else if is_match {
                        match match_pattern(conds, pattern, *line_info, env, host, f) {
                            Ok(m) => {
                                matched = m;
                            },
                            Err(h) => {
                                return Err(h);
                            },
                        }
                    } else {
                        match guard_pattern(pattern, env, host, f) {
                            Ok(m) => {
                                matched = m;
                            },
                            Err(h) => {
                                return Err(h);
                            },
                        }
                    }
                    if matched {
                        let r = evaluate_with_fuel(body, env, host, f);
                        match r {
                            Ok(rr) => match rr {
                                EvalResult::Revealed(v) => {
                                    proof {
                                        assert(res_view(rr) == ResView::Revealed(
                                            Box::new(res_view(*v)),
                                        ));
                                    }
                                    return Ok(*v);
                                },
                                other => {
                                    return Ok(other);
                                },
                            },
                            Err(h) => {
                                return Err(h);
                            },
                        }
                    }
                },
                _ => {
                    assert(false);
                },
            }
        }
        i = i + 1;
    }
    Ok(EvalResult::Abyss)
}

/// The oracle: scope, conditionals, branches, scope closed.
#[verifier::rlimit(100)]
#[verifier::spinoff_prover]
fn eval_oracle(
    is_match: bool,
    conds: &Vec<ConditionalAssignment>,
    branches: &Vec<AST>,
    li: Option<LineInfo>,
    env: &mut Environment,
    host: &mut Host,
    f: u64,
) -> (res: Result<EvalResult, Halt>)
    ensures
        ({
            let o = crate::sem::oracle_s(
                is_match,
                crate::ast::cond_views(conds@),
                ast_views(branches@),
                li,
                old(env)@,
                old(host)@.io,
                old(host)@.aether,
                f as nat,
            );
            out_view(res) == o.res && final(env)@ == o.env && final(host)@.io == o.io
        }),
        final(host)@.aether == old(host)@.aether,
    decreases f, 3int, 0int,
{
    env.push_scope();
    match eval_conds(conds, li, env, host, f) {
        Ok(u) => {
            let r = eval_branches(is_match, conds, branches, env, host, f);
            env.pop_scope();
            r
        },
        Err(h) => {
            env.pop_scope();
            Err(h)
        },
    }
}

/// Closing a scope forgets everything declared since it opened: popping
/// an environment whose entry vector extends another's, with the same
/// marks, gives the same environment as popping the shorter one would —
/// provided the last mark does not exceed the shorter length.
proof fn lemma_pop_extension(a: crate::env::EnvView, b: crate::env::EnvView)
    requires
        b.vmarks == a.vmarks,
        b.fmarks == a.fmarks,
        b.funs == a.funs,
        b.vars.len() >= a.vars.len(),
        b.vars.take(a.vars.len() as int) == a.vars,
        a.vmarks.len() > 0,
        0 <= a.vmarks.last() <= a.vars.len(),
    ensures
        crate::env::pop_s(b) == crate::env::pop_s(a),
{
    let m = a.vmarks.last();
    assert(crate::env::cut_to(a.vars.len() as int, m) == m);
    assert(crate::env::cut_to(b.vars.len() as int, m) == m);
    assert(b.vars.take(m) =~= a.vars.take(m)) by {
        assert forall|j: int| 0 <= j < m implies b.vars.take(m)[j] == a.vars.take(m)[j] by {
            assert(b.vars.take(a.vars.len() as int)[j] == b.vars[j]);
        }
    }
}

/// A function call.
#[verifier::rlimit(100)]
#[verifier::spinoff_prover]
fn eval_funcall(
    name: &String,
    args: &Vec<AST>,
    li: Option<LineInfo>,
    env: &mut Environment,
    host: &mut Host,
    f: u64,
) -> (res: Result<EvalResult, Halt>)
    ensures
        ({
            let o = crate::sem::funcall_s(
                name@,
                ast_views(args@),
                li,
                old(env)@,
                old(host)@.io,
                old(host)@.aether,
                f as nat,
            );
            out_view(res) == o.res && final(env)@ == o.env && final(host)@.io == o.io
        }),
        final(host)@.aether == old(host)@.aether,
    decreases f, 3int, 0int,
{
    let found = env.get_function(name.as_str());
    let fun: Function;
    match found {
        Some(fr) => {
            fun = crate::env::clone_function(fr);
        },
        None => {
            return Err(Halt::Failed(EvalError::UndefinedVariable(name.clone(), li)));
        },
    }
    let ghost fv = crate::env::fun_view(fun);
    proof {
        assert(crate::env::lookup_fun(old(env)@, name@) == Some(fv));
        assert(fv.params == ast_views(fun.params@));
        assert(fv.body == Box::new(ast_view(*fun.body)));
    }
    let vals = match eval_list(args, env, host, f) {
        Ok(v) => v,
        Err(h) => {
            proof {
                let fo = crate::sem::funcall_s(
                    name@,
                    ast_views(args@),
                    li,
                    old(env)@,
                    old(host)@.io,
                    old(host)@.aether,
                    f as nat,
                );
                assert(fo.res == Err::<ResView, HaltView>(halt_view(h)));
                assert(fo.env == env@ && fo.io == host@.io);
            }
            return Err(h);
        },
    };
    env.push_scope();
    let ghost opened = env@;
    match bind_params(&fun.params, &vals, name.as_str(), li, env) {
        Ok(u) => {},
        Err(h) => {
            let ghost partial = env@;
            env.pop_scope();
            proof {
                let fo = crate::sem::funcall_s(
                    name@,
                    ast_views(args@),
                    li,
                    old(env)@,
                    old(host)@.io,
                    old(host)@.aether,
                    f as nat,
                );
                assert(fo.res == Err::<ResView, HaltView>(halt_view(h)));
                assert(opened.vmarks.len() > 0 && opened.vmarks.last() == opened.vars.len());
                lemma_pop_extension(opened, partial);
                assert(fo.env == env@ && fo.io == host@.io);
            }
            return Err(h);
        },
    }
    let r = evaluate_with_fuel(&fun.body, env, host, f);
    env.pop_scope();
    match r {
        Ok(rv) => return_check(rv, fun.return_type, name.as_str(), fun.line_info),
        Err(h) => Err(h),
    }
}

/// The unconditional orbit.
#[verifier::rlimit(100)]
#[verifier::spinoff_prover]
fn orbit_zero(body: &AST, env: &mut Environment, host: &mut Host, fuel: u64) -> (res: Result<
    EvalResult,
    Halt,
>)
    ensures
        ({
            let o = crate::sem::orbit_zero_s(
                ast_view(*body),
                old(env)@,
                old(host)@.io,
                old(host)@.aether,
                fuel as nat,
            );
            out_view(res) == o.res && final(env)@ == o.env && final(host)@.io == o.io
        }),
        final(host)@.aether == old(host)@.aether,
    decreases fuel, 2int, 0int,
{
    let ghost bv = ast_view(*body);
    let ghost tbl = old(host)@.aether;
    let mut myfuel = fuel;
    loop
        invariant
            myfuel <= fuel,
            bv == ast_view(*body),
            host@.aether == tbl,
            tbl == old(host)@.aether,
            crate::sem::orbit_zero_s(bv, old(env)@, old(host)@.io, tbl, fuel as nat)
                == crate::sem::orbit_zero_s(bv, env@, host@.io, tbl, myfuel as nat),
        decreases myfuel,
    {
        if myfuel == 0 {
            return Err(Halt::OutOfFuel);
        }
        let f = myfuel - 1;
        env.push_scope();
        let r = evaluate_with_fuel(body, env, host, f);
        env.pop_scope();
        match r {
            Ok(rr) => match rr {
                EvalResult::Eject(lbl) => {
                    return Ok(EvalResult::Abyss);
                },
                _ => {},
            },
            Err(h) => {
                return Err(h);
            },
        }
        myfuel = f;
    }
}

/// A ranged orbit from one parameter onward.
#[verifier::rlimit(100)]
#[verifier::spinoff_prover]
fn orbit_params(
    params: &Vec<AST>,
    pidx: usize,
    body: &AST,
    li: Option<LineInfo>,
    env: &mut Environment,
    host: &mut Host,
    fuel: u64,
) -> (res: Result<EvalResult, Halt>)
    ensures
        ({
            let o = crate::sem::orbit_params_s(
                ast_views(params@),
                pidx as int,
                ast_view(*body),
                li,
                old(env)@,
                old(host)@.io,
                old(host)@.aether,
                fuel as nat,
            );
            out_view(res) == o.res && final(env)@ == o.env && final(host)@.io == o.io
        }),
        final(host)@.aether == old(host)@.aether,
    decreases fuel, 2int, 1int,
{
    if fuel == 0 {
        return Err(Halt::OutOfFuel);
    }
    let f = fuel - 1;
    if pidx >= params.len() {
        return Ok(EvalResult::Abyss);
    }
    let is_param = match &params[pidx] {
        AST::OrbitParam { name, start, end, op, line_info } => true,
        _ => false,
    };
    if !is_param {
        return Err(invalid("Expected OrbitParam in Orbit", li));
    }
    proof {
        assert(ast_views(params@)[pidx as int] == ast_view(params@[pidx as int]));
    }
    match &params[pidx] {
        AST::OrbitParam { name, start, end, op, line_info } => {
            let sres = evaluate_with_fuel(start, env, host, f);
            let sv = match sres {
                Ok(x) => x,
                Err(h) => {
                    return Err(h);
                },
            };
            let eres = evaluate_with_fuel(end, env, host, f);
            let ev = match eres {
                Ok(x) => x,
                Err(h) => {
                    return Err(h);
                },
            };
            let s: i64;
            let e: i64;
            match sv {
                EvalResult::Arcana(x) => match ev {
                    EvalResult::Arcana(y) => {
                        s = x;
                        e = y;
                    },
                    _ => {
                        return Err(
                            typeerr_with("Orbit parameter must be of type Arcana: ", name.as_str(), li),
                        );
                    },
                },
                _ => {
                    return Err(
                        typeerr_with("Orbit parameter must be of type Arcana: ", name.as_str(), li),
                    );
                },
            }
            let dots = String::from_str("..");
            let excl = *op == dots;
            let ghost lastv: int = if excl {
                e as int - 1
            } else {
                e as int
            };
            if excl && e == i64::MIN {
                return Ok(EvalResult::Abyss);
            }
            let last: i64 = if excl {
                e - 1
            } else {
                e
            };
            if s > last {
                return Ok(EvalResult::Abyss);
            }
            let ghost pv = ast_views(params@);
            let ghost bv = ast_view(*body);
            let ghost tbl = old(host)@.aether;
            let mut cur: i64 = s;
            loop
                invariant
                    cur <= last,
                    lastv == last as int,
                    fuel >= 1,
                    f == fuel - 1,
                    pidx < params.len(),
                    pv == ast_views(params@),
                    bv == ast_view(*body),
                    host@.aether == tbl,
                    tbl == old(host)@.aether,
                    params@[pidx as int] matches AST::OrbitParam { .. },
                    crate::sem::orbit_params_s(
                        pv,
                        pidx as int,
                        bv,
                        li,
                        old(env)@,
                        old(host)@.io,
                        tbl,
                        fuel as nat,
                    ) == crate::sem::orbit_iter_s(
                        pv,
                        pidx as int,
                        name@,
                        cur as int,
                        lastv,
                        bv,
                        li,
                        env@,
                        host@.io,
                        tbl,
                        fuel as nat,
                    ),
                decreases last - cur,
            {
                env.push_scope();
                env.set_var(name.clone(), Value::Arcana(cur), Type::Arcana, true, li);
                let r = if pidx + 1 < params.len() {
                    orbit_params(params, pidx + 1, body, li, env, host, f)
                } else {
                    evaluate_with_fuel(body, env, host, f)
                };
                env.pop_scope();
                match r {
                    Ok(rr) => match rr {
                        EvalResult::Resume(lab) => match lab {
                            Some(id) => if !(id == *name) {
                                return Ok(EvalResult::Resume(Some(id)));
                            },
                            None => {},
                        },
                        EvalResult::Eject(lab) => match lab {
                            Some(id) => if id == *name {
                                return Ok(EvalResult::Abyss);
                            } else {
                                return Ok(EvalResult::Eject(Some(id)));
                            },
                            None => {
                                return Ok(EvalResult::Abyss);
                            },
                        },
                        _ => {},
                    },
                    Err(h) => {
                        return Err(h);
                    },
                }
                if cur == last {
                    proof {
                        assert(crate::sem::orbit_iter_s(
                            pv,
                            pidx as int,
                            name@,
                            cur as int + 1,
                            lastv,
                            bv,
                            li,
                            env@,
                            host@.io,
                            tbl,
                            fuel as nat,
                        ) == (StepOut { res: Ok(ResView::Abyss), env: env@, io: host@.io }));
                    }
                    return Ok(EvalResult::Abyss);
                }
                cur = cur + 1;
            }
        },
        _ => {
            assert(false);
            Err(invalid("Expected OrbitParam in Orbit", li))
        },
    }
}

/// Logical negation: the operand must be an omen.
#[verifier::rlimit(100)]
#[verifier::spinoff_prover]
fn eval_lognot(
    e: &AST,
    li: Option<LineInfo>,
    env: &mut Environment,
    host: &mut Host,
    f: u64,
) -> (res: Result<EvalResult, Halt>)
    ensures
        ({
            let o = crate::sem::lognot_s(
                ast_view(*e),
                li,
                old(env)@,
                old(host)@.io,
                old(host)@.aether,
                f as nat,
            );
            out_view(res) == o.res && final(env)@ == o.env && final(host)@.io == o.io
        }),
        final(host)@.aether == old(host)@.aether,
    decreases f, 1int, 0int,
{
    let r = evaluate_with_fuel(e, env, host, f);
    match r {
        Ok(rr) => match rr {
            EvalResult::Omen(b) => Ok(EvalResult::Omen(!b)),
            _ => Err(invalid("LogicalNot operation requires Omen!", li)),
        },
        Err(h) => Err(h),
    }
}

/// A declaration: the initial value must match the declared type.
#[verifier::rlimit(100)]
#[verifier::spinoff_prover]
fn eval_varassign(
    name: &String,
    value: &AST,
    var_type: Type,
    is_morph: bool,
    line_info: Option<LineInfo>,
    env: &mut Environment,
    host: &mut Host,
    f: u64,
) -> (res: Result<EvalResult, Halt>)
    ensures
        ({
            let o = crate::sem::varassign_s(
                name@,
                ast_view(*value),
                var_type,
                is_morph,
                line_info,
                old(env)@,
                old(host)@.io,
                old(host)@.aether,
                f as nat,
            );
            out_view(res) == o.res && final(env)@ == o.env && final(host)@.io == o.io
        }),
        final(host)@.aether == old(host)@.aether,
    decreases f, 1int, 0int,
{
    let r = evaluate_with_fuel(value, env, host, f);
    match r {
        Ok(rr) => match conform_ref(&rr, var_type) {
            Some(v) => {
                env.set_var(name.clone(), v, var_type, is_morph, line_info);
                Ok(EvalResult::Abyss)
            },
            None => Err(invalid("VarAssign operation requires a valid type!", line_info)),
        },
        Err(h) => Err(h),
    }
}

/// A reassignment: the operand first, then the mutable binding, then the
/// operator rule and the type-checked store.
#[verifier::rlimit(100)]
#[verifier::spinoff_prover]
fn eval_assignment(
    name: &String,
    value: &AST,
    op: AssignmentOp,
    line_info: Option<LineInfo>,
    env: &mut Environment,
    host: &mut Host,
    f: u64,
) -> (res: Result<EvalResult, Halt>)
    ensures
        ({
            let o = crate::sem::assignment_s(
                name@,
                ast_view(*value),
                op,
                line_info,
                old(env)@,
                old(host)@.io,
                old(host)@.aether,
                f as nat,
            );
            out_view(res) == o.res && final(env)@ == o.env && final(host)@.io == o.io
        }),
        final(host)@.aether == old(host)@.aether,
    decreases f, 1int, 0int,
{
    let r = evaluate_with_fuel(value, env, host, f);
    match r {
        Ok(rr) => {
            let info: Option<(bool, Value)> = match env.get_var(name.as_str()) {
                Some(vi) => Some((vi.is_morph, crate::env::clone_value(&vi.value))),
                None => None,
            };
            match info {
                Some(mv) => if !mv.0 {
                    Err(
                        invalid_with(
                            "Cannot reassign to immutable variable ",
                            name.as_str(),
                            line_info,
                        ),
                    )
                } else {
                    match assign_new_value(name.as_str(), op, rr, &mv.1, line_info, host) {
                        Ok(vt) => match env.update_var(name.as_str(), vt.0, vt.1, line_info) {
                            Ok(u) => Ok(EvalResult::Abyss),
                            Err(e) => Err(Halt::Failed(e)),
                        },
                        Err(h) => Err(h),
                    }
                },
                None => Err(Halt::Failed(EvalError::UndefinedVariable(name.clone(), line_info))),
            }
        },
        Err(h) => Err(h),
    }
}

/// A print statement: arguments, their text, one line of output.
#[verifier::rlimit(100)]
#[verifier::spinoff_prover]
fn eval_unveil(args: &Vec<AST>, env: &mut Environment, host: &mut Host, f: u64) -> (res: Result<
    EvalResult,
    Halt,
>)
    ensures
        ({
            let o = crate::sem::unveil_s(
                ast_views(args@),
                old(env)@,
                old(host)@.io,
                old(host)@.aether,
                f as nat,
            );
            out_view(res) == o.res && final(env)@ == o.env && final(host)@.io == o.io
        }),
        final(host)@.aether == old(host)@.aether,
    decreases f, 2int, 0int,
{
    let vals = match eval_list(args, env, host, f) {
        Ok(v) => v,
        Err(h) => {
            return Err(h);
        },
    };
    let text = match unveil_text(&vals, host) {
        Ok(t) => t,
        Err(h) => {
            return Err(h);
        },
    };
    let ghost t0 = text@;
    let ghost pre = host@.io.output;
    let mut line = text;
    line.append("\n");
    host.emit(line.as_str());
    proof {
        reveal_strlit("\n");
        assert(host@.io.output =~= pre + t0 + seq!['\n']);
    }
    Ok(EvalResult::Abyss)
}

/// An explicit cast.
#[verifier::rlimit(100)]
#[verifier::spinoff_prover]
fn eval_trans(
    e: &AST,
    target: Type,
    li: Option<LineInfo>,
    env: &mut Environment,
    host: &mut Host,
    f: u64,
) -> (res: Result<EvalResult, Halt>)
    ensures
        ({
            let o = crate::sem::trans_s(
                ast_view(*e),
                target,
                li,
                old(env)@,
                old(host)@.io,
                old(host)@.aether,
                f as nat,
            );
            out_view(res) == o.res && final(env)@ == o.env && final(host)@.io == o.io
        }),
        final(host)@.aether == old(host)@.aether,
    decreases f, 1int, 0int,
{
    let r = evaluate_with_fuel(e, env, host, f);
    match r {
        Ok(rr) => cast_exec(rr, target, li, host),
        Err(h) => Err(h),
    }
}

/// A yield: the operand wrapped as `Revealed`.
#[verifier::rlimit(100)]
#[verifier::spinoff_prover]
fn eval_reveal_wrap(e: &AST, env: &mut Environment, host: &mut Host, f: u64) -> (res: Result<
    EvalResult,
    Halt,
>)
    ensures
        ({
            let o = crate::sem::reveal_wrap_s(
                ast_view(*e),
                old(env)@,
                old(host)@.io,
                old(host)@.aether,
                f as nat,
            );
            out_view(res) == o.res && final(env)@ == o.env && final(host)@.io == o.io
        }),
        final(host)@.aether == old(host)@.aether,
    decreases f, 1int, 0int,
{
    let r = evaluate_with_fuel(e, env, host, f);
    match r {
        Ok(rr) => Ok(EvalResult::Revealed(Box::new(rr))),
        Err(h) => Err(h),
    }
}

/// A read: the prompt goes out, one line comes in and parses.
#[verifier::rlimit(100)]
#[verifier::spinoff_prover]
fn eval_summon(
    prompt: &String,
    t: Type,
    li: Option<LineInfo>,
    env: &mut Environment,
    host: &mut Host,
) -> (res: Result<EvalResult, Halt>)
    ensures
        ({
            let o = crate::sem::summon_s(
                prompt@,
                t,
                li,
                old(env)@,
                old(host)@.io,
                old(host)@.aether,
            );
            out_view(res) == o.res && final(env)@ == o.env && final(host)@.io == o.io
        }),
        final(host)@.aether == old(host)@.aether,
{
    let tq = crate::text::trim_quotes(prompt.as_str());
    host.emit(tq.as_str());
    match host.read_line() {
        Some(line) => summon_value(line, t, li, host),
        None => Err(Halt::NeedInput),
    }
}

/// Evaluates one node against the environment and the host, within the
/// given fuel bound on recursion depth.  The returned outcome, the new
/// environment and the new stream state are exactly what the
/// specification [`eval_s`] says; the host's answer table never changes.
#[verifier::rlimit(100)]
#[verifier::spinoff_prover]
pub fn evaluate_with_fuel(
    ast: &AST,
    env: &mut Environment,
    host: &mut Host,
    fuel: u64,
) -> (res: Result<EvalResult, Halt>)
    ensures
        ({
            let o = eval_s(ast_view(*ast), old(env)@, old(host)@.io, old(host)@.aether, fuel as nat);
            out_view(res) == o.res && final(env)@ == o.env && final(host)@.io == o.io
        }),
        final(host)@.aether == old(host)@.aether,
    decreases fuel, 0int, 0int,
{
    proof {
        reveal(crate::sem::eval_s);
    }
    if fuel == 0 {
        return Err(Halt::OutOfFuel);
    }
    let f = fuel - 1;
    match ast {
        AST::Statement(e, li) => {
            return evaluate_with_fuel(e, env, host, f);
        },
        AST::Omen(b, li) => {
            return Ok(EvalResult::Omen(*b));
        },
        AST::Arcana(n, li) => {
            return Ok(EvalResult::Arcana(*n));
        },
        AST::Aether(n, li) => {
            return Ok(EvalResult::Aether(*n));
        },
        AST::Rune(s, li) => {
            return Ok(EvalResult::Rune(s.clone()));
        },
        AST::Abyss(li) => {
            return Ok(EvalResult::Abyss);
        },
        AST::Add(l, r, li) => {
            return eval_bin(BinKind::Add, l, r, *li, env, host, f);
        },
        AST::Sub(l, r, li) => {
            return eval_bin(BinKind::Sub, l, r, *li, env, host, f);
        },
        AST::Mul(l, r, li) => {
            return eval_bin(BinKind::Mul, l, r, *li, env, host, f);
        },
        AST::Div(l, r, li) => {
            return eval_bin(BinKind::Div, l, r, *li, env, host, f);
        },
        AST::Mod(l, r, li) => {
            return eval_bin(BinKind::Mod, l, r, *li, env, host, f);
        },
        AST::PowArcana(l, r, li) => {
            return eval_bin(BinKind::PowArcana, l, r, *li, env, host, f);
        },
        AST::PowAether(l, r, li) => {
            return eval_bin(BinKind::PowAether, l, r, *li, env, host, f);
        },
        AST::Equal(l, r, li) => {
            return eval_bin(BinKind::Equal, l, r, *li, env, host, f);
        },
        AST::NotEqual(l, r, li) => {
            return eval_bin(BinKind::NotEqual, l, r, *li, env, host, f);
        },
        AST::LessThan(l, r, li) => {
            return eval_bin(BinKind::Less, l, r, *li, env, host, f);
        },
        AST::LessThanOrEqual(l, r, li) => {
            return eval_bin(BinKind::LessEq, l, r, *li, env, host, f);
        },
        AST::GreaterThan(l, r, li) => {
            return eval_bin(BinKind::Greater, l, r, *li, env, host, f);
        },
        AST::GreaterThanOrEqual(l, r, li) => {
            return eval_bin(BinKind::GreaterEq, l, r, *li, env, host, f);
        },
        AST::LogicalAnd(l, r, li) => {
            return eval_bin(BinKind::And, l, r, *li, env, host, f);
        },
        AST::LogicalOr(l, r, li) => {
            return eval_bin(BinKind::Or, l, r, *li, env, host, f);
        },
        AST::LogicalNot(e, li) => {
            return eval_lognot(e, *li, env, host, f);
        },
        AST::VarAssign { name, value, var_type, is_morph, line_info } => {
            return eval_varassign(name, value, *var_type, *is_morph, *line_info, env, host, f);
        },
        AST::Assignment { name, value, op, line_info } => {
            return eval_assignment(name, value, *op, *line_info, env, host, f);
        },
        AST::Var(name, li) => {
            match env.get_var(name.as_str()) {
                Some(vi) => {
                    return Ok(value_to_res(&vi.value));
                },
                None => {
                    return Err(Halt::Failed(EvalError::UndefinedVariable(name.clone(), *li)));
                },
            }
        },
        AST::Unveil(args, li) => {
            return eval_unveil(args, env, host, f);
        },
        AST::Trans(e, target, li) => {
            return eval_trans(e, *target, *li, env, host, f);
        },
        AST::Reveal(e, li) => {
            return eval_reveal_wrap(e, env, host, f);
        },
        AST::Block(stmts, li) => {
            return eval_block(stmts, env, host, f);
        },
        AST::OracleDontCareItem(li) => {
            return Ok(EvalResult::Omen(true));
        },
        AST::Oracle { is_match, conditionals, branches, line_info } => {
            return eval_oracle(*is_match, conditionals, branches, *line_info, env, host, f);
        },
        AST::Orbit { params, body, line_info } => {
            if params.len() == 0 {
                let r = orbit_zero(body, env, host, f);
                proof {
                    let o = eval_s(
                        ast_view(*ast),
                        old(env)@,
                        old(host)@.io,
                        old(host)@.aether,
                        fuel as nat,
                    );
                    assert(ast_views(params@).len() == 0);
                    assert(o == crate::sem::orbit_zero_s(
                        ast_view(**body),
                        old(env)@,
                        old(host)@.io,
                        old(host)@.aether,
                        f as nat,
                    ));
                }
                return r;
            } else {
                return orbit_params(params, 0, body, *line_info, env, host, f);
            }
        },
        AST::Resume(l, li) => {
            return Ok(EvalResult::Resume(clone_label(l)));
        },
        AST::Eject(l, li) => {
            return Ok(EvalResult::Eject(clone_label(l)));
        },
        AST::Engrave { name, params, return_type, body, line_info } => {
            let fun = Function {
                name: name.clone(),
                params: clone_asts(params),
                return_type: *return_type,
                body: Box::new(clone_ast(body)),
                line_info: *line_info,
            };
            env.set_function(name.clone(), fun);
            return Ok(EvalResult::Abyss);
        },
        AST::FuncCall { name, args, line_info } => {
            return eval_funcall(name, args, *line_info, env, host, f);
        },
        AST::Summon(prompt, t, li) => {
            return eval_summon(prompt, *t, *li, env, host);
        },
        AST::Comment(s, li) => {
            return Ok(EvalResult::Abyss);
        },
        _ => {
            return Err(invalid("Unsupported operation", None));
        },
    }
}

/// Evaluates one node with the default fuel bound: the entry point the
/// shell calls once per top-level statement.
pub fn evaluate(ast: &AST, env: &mut Environment, host: &mut Host) -> (res: Result<
    EvalResult,
    Halt,
>)
    ensures
        ({
            let o = eval_s(
                ast_view(*ast),
                old(env)@,
                old(host)@.io,
                old(host)@.aether,
                DEFAULT_FUEL as nat,
            );
            out_view(res) == o.res && final(env)@ == o.env && final(host)@.io == o.io
        }),
        final(host)@.aether == old(host)@.aether,
{
    evaluate_with_fuel(ast, env, host, DEFAULT_FUEL)
}

} // verus!
