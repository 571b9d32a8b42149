//! The general laws of the evaluation rules, stated once for all inputs
//! and proved from the specification in the `sem` module.  Because the
//! evaluator is proved to return exactly what that specification says,
//! each law here holds of evaluation itself.

use vstd::prelude::*;

verus! {

use crate::ast::AstView;
use crate::ast::CondView;
use crate::ast::LineInfo;
use crate::ast::Type;
use crate::env::EnvView;
use crate::env::pop_s;
use crate::env::push_s;
use crate::eval::ErrView;
use crate::eval::ResView;
use crate::host::IoView;
use crate::host::QueryView;
use crate::host::ReplyView;
use crate::sem::BinKind;
use crate::sem::HaltView;
use crate::sem::apply_bin_s;
use crate::sem::bind_params_s;
use crate::sem::conform_s;
use crate::sem::eval_s;
use crate::sem::match_pattern_s;
use crate::sem::orbit_zero_s;
use crate::sem::pow_arcana_s;
use crate::sem::pow_int;
use crate::sem::return_check_s;
use crate::sem::truncate_div;
use crate::sem::truncate_rem;

/// `+` on two `arcana` operands is machine addition whenever the sum
/// fits the 64-bit range, whatever the host table holds.
pub proof fn lemma_arcana_addition(a: i64, c: i64, li: Option<LineInfo>, tbl: Seq<(QueryView, ReplyView)>)
    requires
        -0x8000_0000_0000_0000 <= a as int + c as int <= 0x7fff_ffff_ffff_ffff,
    ensures
        apply_bin_s(BinKind::Add, ResView::Arcana(a), ResView::Arcana(c), li, tbl) == Ok::<
            ResView,
            HaltView,
        >(ResView::Arcana((a as int + c as int) as i64)),
{
}

/// `-` on two `arcana` operands is machine subtraction whenever the
/// difference fits the 64-bit range.
pub proof fn lemma_arcana_subtraction(a: i64, c: i64, li: Option<LineInfo>, tbl: Seq<(QueryView, ReplyView)>)
    requires
        -0x8000_0000_0000_0000 <= a as int - c as int <= 0x7fff_ffff_ffff_ffff,
    ensures
        apply_bin_s(BinKind::Sub, ResView::Arcana(a), ResView::Arcana(c), li, tbl) == Ok::<
            ResView,
            HaltView,
        >(ResView::Arcana((a as int - c as int) as i64)),
{
}

/// `*` on two `arcana` operands is machine multiplication whenever the
/// product fits the 64-bit range.
pub proof fn lemma_arcana_multiplication(a: i64, c: i64, li: Option<LineInfo>, tbl: Seq<(QueryView, ReplyView)>)
    requires
        -0x8000_0000_0000_0000 <= a as int * c as int <= 0x7fff_ffff_ffff_ffff,
    ensures
        apply_bin_s(BinKind::Mul, ResView::Arcana(a), ResView::Arcana(c), li, tbl) == Ok::<
            ResView,
            HaltView,
        >(ResView::Arcana((a as int * c as int) as i64)),
{
}

/// `/` on two `arcana` operands truncates toward zero, as machine
/// division does, whenever the divisor is nonzero and the quotient is
/// representable.
pub proof fn lemma_arcana_division(a: i64, c: i64, li: Option<LineInfo>, tbl: Seq<(QueryView, ReplyView)>)
    requires
        c != 0,
        !(a == -0x8000_0000_0000_0000 && c == -1),
    ensures
        apply_bin_s(BinKind::Div, ResView::Arcana(a), ResView::Arcana(c), li, tbl) == Ok::<
            ResView,
            HaltView,
        >(ResView::Arcana(truncate_div(a as int, c as int) as i64)),
        apply_bin_s(BinKind::Mod, ResView::Arcana(a), ResView::Arcana(c), li, tbl) == Ok::<
            ResView,
            HaltView,
        >(ResView::Arcana(truncate_rem(a as int, c as int) as i64)),
{
}

/// `+` on two `rune` operands concatenates the left operand with the
/// right.
pub proof fn lemma_rune_concatenation(x: Seq<char>, y: Seq<char>, li: Option<LineInfo>, tbl: Seq<(QueryView, ReplyView)>)
    ensures
        apply_bin_s(BinKind::Add, ResView::Rune(x), ResView::Rune(y), li, tbl) == Ok::<
            ResView,
            HaltView,
        >(ResView::Rune(x + y)),
{
}

/// Arithmetic on operands of two different value variants — and on any
/// variant the operator does not accept — is an `InvalidOperation` fault.
pub proof fn lemma_arith_mixed_variants_fault(
    kind: BinKind,
    l: ResView,
    r: ResView,
    li: Option<LineInfo>,
    tbl: Seq<(QueryView, ReplyView)>,
)
    requires
        kind == BinKind::Add || kind == BinKind::Sub || kind == BinKind::Mul || kind
            == BinKind::Div || kind == BinKind::Mod,
        !(l is Arcana && r is Arcana),
        !(l is Aether && r is Aether),
        !(kind == BinKind::Add && l is Rune && r is Rune),
    ensures
        (apply_bin_s(kind, l, r, li, tbl) matches Err(HaltView::Failed(
            ErrView::InvalidOperation(_, _),
        ))),
{
}

/// `^` with a negative exponent is the distinct `NegativeExponent`
/// fault, for every base.
pub proof fn lemma_pow_negative_exponent(base: i64, n: i64, li: Option<LineInfo>)
    requires
        n < 0,
    ensures
        pow_arcana_s(base, n, li) == Err::<ResView, HaltView>(
            HaltView::Failed(ErrView::NegativeExponent(li)),
        ),
{
}

/// `^` with exponent zero yields one, for every base.
pub proof fn lemma_pow_zero_exponent(base: i64, li: Option<LineInfo>)
    ensures
        pow_arcana_s(base, 0, li) == Ok::<ResView, HaltView>(ResView::Arcana(1)),
{
    assert(pow_int(base as int, (0int % 0x1_0000_0000) as nat) == 1);
}

/// A don't-care position of a match-mode pattern always matches: the
/// test simply moves to the next position, whatever the conditional's
/// value was.
pub proof fn lemma_dont_care_always_matches(
    conds: Seq<CondView>,
    pattern: Seq<AstView>,
    i: int,
    li: Option<LineInfo>,
    env: EnvView,
    io: IoView,
    tbl: Seq<(QueryView, ReplyView)>,
    f: nat,
)
    requires
        0 <= i < pattern.len(),
        pattern[i] is OracleDontCareItem,
    ensures
        match_pattern_s(conds, pattern, i, li, env, io, tbl, f) == match_pattern_s(
            conds,
            pattern,
            i + 1,
            li,
            env,
            io,
            tbl,
            f,
        ),
{
}

/// An unconditional orbit never completes with a value unless some pass
/// of its body ends in an `Eject`: if the body can never evaluate to an
/// `Eject` signal, the orbit never returns a result — it runs until a
/// fault, a missing host answer, or the fuel bound stops it.
pub proof fn lemma_orbit_zero_ends_only_by_eject(
    body: AstView,
    env: EnvView,
    io: IoView,
    tbl: Seq<(QueryView, ReplyView)>,
    fuel: nat,
)
    requires
        forall|e2: EnvView, io2: IoView, f2: nat|
            !((#[trigger] eval_s(body, e2, io2, tbl, f2)).res matches Ok(ResView::Eject(_))),
    ensures
        !(orbit_zero_s(body, env, io, tbl, fuel).res matches Ok(_)),
    decreases fuel,
{
    if fuel > 0 {
        let f = (fuel - 1) as nat;
        let e1 = push_s(env);
        let o = eval_s(body, e1, io, tbl, f);
        match o.res {
            Ok(r) => match r {
                ResView::Eject(lab) => {
                    assert(!(eval_s(body, e1, io, tbl, f).res matches Ok(ResView::Eject(_))));
                },
                _ => {
                    lemma_orbit_zero_ends_only_by_eject(body, pop_s(o.env), o.io, tbl, f);
                },
            },
            Err(h) => {},
        }
    }
}

/// A call checks every bound argument against the declared parameter
/// type: a mismatch at any position is a `TypeError` fault.
pub proof fn lemma_call_checks_argument_types(
    params: Seq<AstView>,
    vals: Seq<ResView>,
    i: int,
    fname: Seq<char>,
    li: Option<LineInfo>,
    env: EnvView,
)
    requires
        0 <= i < params.len(),
        i < vals.len(),
        (params[i] matches AstView::EngraveParam { name, param_type, line_info } ==> conform_s(
            vals[i],
            param_type,
        ) is None),
        params[i] is EngraveParam,
    ensures
        (bind_params_s(params, vals, i, fname, li, env) matches Err(HaltView::Failed(
            ErrView::TypeError(_, _),
        ))),
{
}

/// A call checks the body's outcome against the declared return type: a
/// mismatched variant is a `TypeError` fault, and `abyss` is valid only
/// for an `abyss` return type.
pub proof fn lemma_call_checks_return_type(
    r: ResView,
    rt: Type,
    fname: Seq<char>,
    fli: Option<LineInfo>,
)
    requires
        !(r is Arcana && rt == Type::Arcana),
        !(r is Aether && rt == Type::Aether),
        !(r is Rune && rt == Type::Rune),
        !(r is Omen && rt == Type::Omen),
        !(r is Abyss && rt == Type::Abyss),
    ensures
        (return_check_s(r, rt, fname, fli) matches Err(HaltView::Failed(ErrView::TypeError(_, _)))),
{
}

} // verus!
