//! The semantics of evaluation, as one recursive specification.
//!
//! [`eval_s`] maps a node, an environment, the stream state, the host's
//! floating-point answer table and a fuel bound to an outcome and the new
//! environment and stream state.  Fuel falls by one at every recursive
//! evaluation, so it bounds the depth of the recursion (and the length of
//! an unbounded `orbit`); a run that needs more stops with `OutOfFuel`.
//! The executable evaluator in the `eval` module is proved to return
//! exactly what this specification says, for every program.
//!
//! Two deliberate departures from a straight reading of the evaluation
//! rules are made here and documented once:
//! - a scope opened for an oracle body, an orbit iteration or a function
//!   call is closed again on *every* exit path, a fault included, so no
//!   frame ever leaks;
//! - an operation whose machine behaviour would be a panic (integer
//!   overflow, division by zero) is reported as an `InvalidOperation`
//!   fault instead: the evaluator never panics.

use vstd::prelude::*;

verus! {

use crate::ast::AssignmentOp;
use crate::ast::AstView;
use crate::ast::CondView;
use crate::ast::LineInfo;
use crate::ast::Type;
use crate::env::EnvView;
use crate::env::FunView;
use crate::env::ValueView;
use crate::env::declare_fun_s;
use crate::env::declare_s;
use crate::env::immutable_msg_v;
use crate::env::lookup_fun;
use crate::env::lookup_var;
use crate::env::pop_s;
use crate::env::push_s;
use crate::env::update_var_s;
use crate::eval::ErrView;
use crate::eval::ResView;
use crate::host::AetherBinOp;
use crate::host::AetherCmpOp;
use crate::host::IoView;
use crate::host::QueryView;
use crate::host::ReplyView;
use crate::host::table_lookup;
use crate::text::dec_i64;
use crate::text::parse_i64_v;
use crate::text::trim_quotes_v;
use crate::text::trim_v;
use crate::text::unescape_v;

/// Why evaluation of a statement stopped short of a value.
pub enum HaltView {
    /// A fault of the program being run.
    Failed(ErrView),
    /// The floating-point table lacks this answer.
    NeedAether(QueryView),
    /// The input queue is exhausted.
    NeedInput,
    /// The fuel bound was reached.
    OutOfFuel,
}

/// The outcome of one evaluation step: the result and the environment and
/// stream state it left behind.
pub struct StepOut {
    pub res: Result<ResView, HaltView>,
    pub env: EnvView,
    pub io: IoView,
}

/// The bit pattern of the 64-bit floating-point machine epsilon, the
/// tolerance of `aether` equality.
pub open spec fn epsilon_bits() -> u64 {
    0x3CB0_0000_0000_0000
}

/// The bit pattern with the sign bit cleared: the absolute value.
pub open spec fn abs_bits(n: u64) -> u64 {
    n & 0x7fff_ffff_ffff_ffff
}

/// An `InvalidOperation` fault.
pub open spec fn invalid_s(msg: Seq<char>, li: Option<LineInfo>) -> HaltView {
    HaltView::Failed(ErrView::InvalidOperation(msg, li))
}

/// The value a result carries if its variant matches the type, for
/// binding it to a variable of that type.
pub open spec fn conform_s(r: ResView, t: Type) -> Option<ValueView> {
    match r {
        ResView::Omen(b) => if t == Type::Omen {
            Some(ValueView::Omen(b))
        } else {
            None
        },
        ResView::Arcana(n) => if t == Type::Arcana {
            Some(ValueView::Arcana(n))
        } else {
            None
        },
        ResView::Aether(n) => if t == Type::Aether {
            Some(ValueView::Aether(n))
        } else {
            None
        },
        ResView::Rune(s) => if t == Type::Rune {
            Some(ValueView::Rune(s))
        } else {
            None
        },
        _ => None,
    }
}

/// The result a stored value reads back as.
pub open spec fn res_of_value(v: ValueView) -> ResView {
    match v {
        ValueView::Omen(b) => ResView::Omen(b),
        ValueView::Arcana(n) => ResView::Arcana(n),
        ValueView::Aether(n) => ResView::Aether(n),
        ValueView::Rune(s) => ResView::Rune(s),
    }
}

/// A bit-pattern answer from the table, or the query that is missing.
pub open spec fn ask_bits(
    tbl: Seq<(QueryView, ReplyView)>,
    q: QueryView,
) -> Result<u64, HaltView> {
    match table_lookup(tbl, q) {
        Some(r) => match r {
            ReplyView::Bits(x) => Ok(x),
            _ => Err(HaltView::NeedAether(q)),
        },
        None => Err(HaltView::NeedAether(q)),
    }
}

/// A truth answer from the table, or the query that is missing.
pub open spec fn ask_truth(
    tbl: Seq<(QueryView, ReplyView)>,
    q: QueryView,
) -> Result<bool, HaltView> {
    match table_lookup(tbl, q) {
        Some(r) => match r {
            ReplyView::Truth(x) => Ok(x),
            _ => Err(HaltView::NeedAether(q)),
        },
        None => Err(HaltView::NeedAether(q)),
    }
}

/// Whether two `aether` bit patterns count as equal: the absolute value
/// of their difference is below the machine epsilon.
pub open spec fn aether_eq_s(
    tbl: Seq<(QueryView, ReplyView)>,
    a: u64,
    b: u64,
) -> Result<bool, HaltView> {
    match ask_bits(tbl, QueryView::Bin(AetherBinOp::Sub, a, b)) {
        Ok(d) => ask_truth(tbl, QueryView::Cmp(AetherCmpOp::Lt, abs_bits(d), epsilon_bits())),
        Err(h) => Err(h),
    }
}

/// Whether two `aether` bit patterns count as unequal: the absolute value
/// of their difference reaches the machine epsilon.
pub open spec fn aether_ne_s(
    tbl: Seq<(QueryView, ReplyView)>,
    a: u64,
    b: u64,
) -> Result<bool, HaltView> {
    match ask_bits(tbl, QueryView::Bin(AetherBinOp::Sub, a, b)) {
        Ok(d) => ask_truth(tbl, QueryView::Cmp(AetherCmpOp::Ge, abs_bits(d), epsilon_bits())),
        Err(h) => Err(h),
    }
}

/// The power of a 64-bit integer base, unbounded.
pub open spec fn pow_int(base: int, e: nat) -> int
    decreases e,
{
    if e == 0 {
        1
    } else {
        pow_int(base, (e - 1) as nat) * base
    }
}

/// Integer power as the machine computes it: the exponent is the given
/// number reduced to 32 bits; a negative exponent is the distinct
/// `NegativeExponent` fault; a result outside the 64-bit range is an
/// `InvalidOperation` fault where the machine would panic.
pub open spec fn pow_arcana_s(l: i64, r: i64, li: Option<LineInfo>) -> Result<ResView, HaltView> {
    if r < 0 {
        Err(HaltView::Failed(ErrView::NegativeExponent(li)))
    } else {
        let e = (r as int % 0x1_0000_0000) as nat;
        let v = pow_int(l as int, e);
        if -0x8000_0000_0000_0000 <= v <= 0x7fff_ffff_ffff_ffff {
            Ok(ResView::Arcana(v as i64))
        } else {
            Err(invalid_s("Arcana arithmetic overflow"@, li))
        }
    }
}

/// The kinds of two-operand nodes, funnelled into one rule.
#[derive(Debug, Clone, Copy, PartialEq, Eq, Structural)]
pub enum BinKind {
    Add,
    Sub,
    Mul,
    Div,
    Mod,
    PowArcana,
    PowAether,
    Equal,
    NotEqual,
    Less,
    LessEq,
    Greater,
    GreaterEq,
    And,
    Or,
}

/// What a two-operand node yields from its operands' results: arithmetic
/// and comparison on same-variant operands, concatenation of runes under
/// `Add`, logic on omens, and a fault on every other pairing.  `aether`
/// operands go through the host table.
pub open spec fn apply_bin_s(
    kind: BinKind,
    l: ResView,
    r: ResView,
    li: Option<LineInfo>,
    tbl: Seq<(QueryView, ReplyView)>,
) -> Result<ResView, HaltView> {
    match kind {
        BinKind::Add => match (l, r) {
            (ResView::Arcana(a), ResView::Arcana(b)) => if -0x8000_0000_0000_0000 <= a as int
                + b as int <= 0x7fff_ffff_ffff_ffff {
                Ok(ResView::Arcana((a + b) as i64))
            } else {
                Err(invalid_s("Arcana arithmetic overflow"@, li))
            },
            (ResView::Aether(a), ResView::Aether(b)) => match ask_bits(
                tbl,
                QueryView::Bin(AetherBinOp::Add, a, b),
            ) {
                Ok(x) => Ok(ResView::Aether(x)),
                Err(h) => Err(h),
            },
            (ResView::Rune(a), ResView::Rune(b)) => Ok(ResView::Rune(a + b)),
            _ => Err(
                invalid_s(
                    "Add operation requires either two Arcana, two Aether, or two Rune!"@,
                    li,
                ),
            ),
        },
        BinKind::Sub => match (l, r) {
            (ResView::Arcana(a), ResView::Arcana(b)) => if -0x8000_0000_0000_0000 <= a as int
                - b as int <= 0x7fff_ffff_ffff_ffff {
                Ok(ResView::Arcana((a - b) as i64))
            } else {
                Err(invalid_s("Arcana arithmetic overflow"@, li))
            },
            (ResView::Aether(a), ResView::Aether(b)) => match ask_bits(
                tbl,
                QueryView::Bin(AetherBinOp::Sub, a, b),
            ) {
                Ok(x) => Ok(ResView::Aether(x)),
                Err(h) => Err(h),
            },
            _ => Err(invalid_s("Subtract operation requires either two Arcana or two Aether!"@, li)),
        },
        BinKind::Mul => match (l, r) {
            (ResView::Arcana(a), ResView::Arcana(b)) => if -0x8000_0000_0000_0000 <= a as int
                * b as int <= 0x7fff_ffff_ffff_ffff {
                Ok(ResView::Arcana((a * b) as i64))
            } else {
                Err(invalid_s("Arcana arithmetic overflow"@, li))
            },
            (ResView::Aether(a), ResView::Aether(b)) => match ask_bits(
                tbl,
                QueryView::Bin(AetherBinOp::Mul, a, b),
            ) {
                Ok(x) => Ok(ResView::Aether(x)),
                Err(h) => Err(h),
            },
            _ => Err(invalid_s("Multiply operation requires either two Arcana or two Aether!"@, li)),
        },
        BinKind::Div => match (l, r) {
            (ResView::Arcana(a), ResView::Arcana(b)) => if b == 0 {
                Err(invalid_s("Division by zero"@, li))
            } else if a == -0x8000_0000_0000_0000 && b == -1 {
                Err(invalid_s("Arcana arithmetic overflow"@, li))
            } else {
                Ok(ResView::Arcana(truncate_div(a as int, b as int) as i64))
            },
            (ResView::Aether(a), ResView::Aether(b)) => match ask_bits(
                tbl,
                QueryView::Bin(AetherBinOp::Div, a, b),
            ) {
                Ok(x) => Ok(ResView::Aether(x)),
                Err(h) => Err(h),
            },
            _ => Err(invalid_s("Divide operation requires either two Arcana or two Aether!"@, li)),
        },
        BinKind::Mod => match (l, r) {
            (ResView::Arcana(a), ResView::Arcana(b)) => if b == 0 {
                Err(invalid_s("Division by zero"@, li))
            } else if a == -0x8000_0000_0000_0000 && b == -1 {
                Err(invalid_s("Arcana arithmetic overflow"@, li))
            } else {
                Ok(ResView::Arcana(truncate_rem(a as int, b as int) as i64))
            },
            (ResView::Aether(a), ResView::Aether(b)) => match ask_bits(
                tbl,
                QueryView::Bin(AetherBinOp::Mod, a, b),
            ) {
                Ok(x) => Ok(ResView::Aether(x)),
                Err(h) => Err(h),
            },
            _ => Err(invalid_s("Modulo operation requires either two Arcana or two Aether!"@, li)),
        },
        BinKind::PowArcana => match (l, r) {
            (ResView::Arcana(a), ResView::Arcana(b)) => pow_arcana_s(a, b, li),
            _ => Err(invalid_s("PowArcana operation requires two Arcana!"@, li)),
        },
        BinKind::PowAether => match (l, r) {
            (ResView::Aether(a), ResView::Aether(b)) => match ask_bits(
                tbl,
                QueryView::Bin(AetherBinOp::Pow, a, b),
            ) {
                Ok(x) => Ok(ResView::Aether(x)),
                Err(h) => Err(h),
            },
            _ => Err(invalid_s("PowAether operation requires two Aether!"@, li)),
        },
        BinKind::Equal => match (l, r) {
            (ResView::Arcana(a), ResView::Arcana(b)) => Ok(ResView::Omen(a == b)),
            (ResView::Aether(a), ResView::Aether(b)) => match aether_eq_s(tbl, a, b) {
                Ok(t) => Ok(ResView::Omen(t)),
                Err(h) => Err(h),
            },
            (ResView::Rune(a), ResView::Rune(b)) => Ok(ResView::Omen(a == b)),
            _ => Err(invalid_s("Comparison requires compatible types!"@, li)),
        },
        BinKind::NotEqual => match (l, r) {
            (ResView::Arcana(a), ResView::Arcana(b)) => Ok(ResView::Omen(a != b)),
            (ResView::Aether(a), ResView::Aether(b)) => match aether_ne_s(tbl, a, b) {
                Ok(t) => Ok(ResView::Omen(t)),
                Err(h) => Err(h),
            },
            (ResView::Rune(a), ResView::Rune(b)) => Ok(ResView::Omen(a != b)),
            _ => Err(invalid_s("Comparison requires compatible types!"@, li)),
        },
        BinKind::Less => cmp_s(AetherCmpOp::Lt, l, r, li, tbl),
        BinKind::LessEq => cmp_s(AetherCmpOp::Le, l, r, li, tbl),
        BinKind::Greater => cmp_s(AetherCmpOp::Gt, l, r, li, tbl),
        BinKind::GreaterEq => cmp_s(AetherCmpOp::Ge, l, r, li, tbl),
        BinKind::And => match (l, r) {
            (ResView::Omen(a), ResView::Omen(b)) => Ok(ResView::Omen(a && b)),
            _ => Err(invalid_s("LogicalAnd operation requires two Omen!"@, li)),
        },
        BinKind::Or => match (l, r) {
            (ResView::Omen(a), ResView::Omen(b)) => Ok(ResView::Omen(a || b)),
            _ => Err(invalid_s("LogicalOr operation requires two Omen!"@, li)),
        },
    }
}

/// Division truncating toward zero, as machine division does.
pub open spec fn truncate_div(a: int, b: int) -> int {
    let q = if a >= 0 {
        if b > 0 {
            a / b
        } else {
            -(a / -b)
        }
    } else {
        if b > 0 {
            -((-a) / b)
        } else {
            (-a) / (-b)
        }
    };
    q
}

/// Remainder paired with truncating division: `a - truncate_div(a, b) * b`.
pub open spec fn truncate_rem(a: int, b: int) -> int {
    a - truncate_div(a, b) * b
}

/// An ordering comparison: numeric operands only.
pub open spec fn cmp_s(
    op: AetherCmpOp,
    l: ResView,
    r: ResView,
    li: Option<LineInfo>,
    tbl: Seq<(QueryView, ReplyView)>,
) -> Result<ResView, HaltView> {
    match (l, r) {
        (ResView::Arcana(a), ResView::Arcana(b)) => Ok(
            ResView::Omen(
                match op {
                    AetherCmpOp::Lt => a < b,
                    AetherCmpOp::Le => a <= b,
                    AetherCmpOp::Gt => a > b,
                    AetherCmpOp::Ge => a >= b,
                },
            ),
        ),
        (ResView::Aether(a), ResView::Aether(b)) => match ask_truth(
            tbl,
            QueryView::Cmp(op, a, b),
        ) {
            Ok(t) => Ok(ResView::Omen(t)),
            Err(h) => Err(h),
        },
        _ => Err(invalid_s("Comparison requires numeric types!"@, li)),
    }
}

/// The new value a compound reassignment computes from the stored value
/// and the operand, or the fault it raises.
pub open spec fn assign_new_value_s(
    name: Seq<char>,
    op: AssignmentOp,
    ev: ResView,
    cur: ValueView,
    li: Option<LineInfo>,
    tbl: Seq<(QueryView, ReplyView)>,
) -> Result<(ValueView, Type), HaltView> {
    match (ev, cur) {
        (ResView::Arcana(v), ValueView::Arcana(c)) => match op {
            AssignmentOp::AddAssign => arc_to_pair(c as int + v as int, li),
            AssignmentOp::SubAssign => arc_to_pair(c as int - v as int, li),
            AssignmentOp::MulAssign => arc_to_pair(c as int * v as int, li),
            AssignmentOp::DivAssign => if v == 0 {
                Err(invalid_s("Division by zero"@, li))
            } else if c == -0x8000_0000_0000_0000 && v == -1 {
                Err(invalid_s("Arcana arithmetic overflow"@, li))
            } else {
                Ok((ValueView::Arcana(truncate_div(c as int, v as int) as i64), Type::Arcana))
            },
            AssignmentOp::ModAssign => if v == 0 {
                Err(invalid_s("Division by zero"@, li))
            } else if c == -0x8000_0000_0000_0000 && v == -1 {
                Err(invalid_s("Arcana arithmetic overflow"@, li))
            } else {
                Ok((ValueView::Arcana(truncate_rem(c as int, v as int) as i64), Type::Arcana))
            },
            AssignmentOp::PowArcanaAssign => match pow_arcana_s(c, v, li) {
                Ok(r) => match r {
                    ResView::Arcana(n) => Ok((ValueView::Arcana(n), Type::Arcana)),
                    _ => Err(invalid_s("Unsupported operation for variable "@ + name, li)),
                },
                Err(h) => Err(h),
            },
            AssignmentOp::Assign => Ok((ValueView::Arcana(v), Type::Arcana)),
            _ => Err(invalid_s("Unsupported operation for variable "@ + name, li)),
        },
        (ResView::Aether(v), ValueView::Aether(c)) => match op {
            AssignmentOp::AddAssign => aeth_to_pair(tbl, AetherBinOp::Add, c, v),
            AssignmentOp::SubAssign => aeth_to_pair(tbl, AetherBinOp::Sub, c, v),
            AssignmentOp::MulAssign => aeth_to_pair(tbl, AetherBinOp::Mul, c, v),
            AssignmentOp::DivAssign => aeth_to_pair(tbl, AetherBinOp::Div, c, v),
            AssignmentOp::ModAssign => aeth_to_pair(tbl, AetherBinOp::Mod, c, v),
            AssignmentOp::PowAetherAssign => aeth_to_pair(tbl, AetherBinOp::Pow, c, v),
            AssignmentOp::Assign => Ok((ValueView::Aether(v), Type::Aether)),
            _ => Err(invalid_s("Unsupported operation for variable "@ + name, li)),
        },
        (ResView::Rune(v), ValueView::Rune(c)) => match op {
            AssignmentOp::AddAssign => Ok((ValueView::Rune(c + v), Type::Rune)),
            AssignmentOp::Assign => Ok((ValueView::Rune(v), Type::Rune)),
            _ => Err(invalid_s("Unsupported operation for variable "@ + name, li)),
        },
        (ResView::Omen(v), _) => match op {
            AssignmentOp::Assign => Ok((ValueView::Omen(v), Type::Omen)),
            _ => Err(
                invalid_s("Type mismatch or unsupported operation for variable "@ + name, li),
            ),
        },
        _ => Err(invalid_s("Type mismatch or unsupported operation for variable "@ + name, li)),
    }
}

/// An in-range check wrapping a 64-bit integer result.
pub open spec fn arc_to_pair(v: int, li: Option<LineInfo>) -> Result<(ValueView, Type), HaltView> {
    if -0x8000_0000_0000_0000 <= v <= 0x7fff_ffff_ffff_ffff {
        Ok((ValueView::Arcana(v as i64), Type::Arcana))
    } else {
        Err(invalid_s("Arcana arithmetic overflow"@, li))
    }
}

/// A table-answered `aether` operation wrapped as a value.
pub open spec fn aeth_to_pair(
    tbl: Seq<(QueryView, ReplyView)>,
    op: AetherBinOp,
    c: u64,
    v: u64,
) -> Result<(ValueView, Type), HaltView> {
    match ask_bits(tbl, QueryView::Bin(op, c, v)) {
        Ok(x) => Ok((ValueView::Aether(x), Type::Aether)),
        Err(h) => Err(h),
    }
}

/// The text one value prints as under `unveil`: word forms for omens,
/// decimal for integers, the host's textual form for `aether`, expanded
/// escapes for runes, nothing for `abyss`.
pub open spec fn unveil_piece_s(
    r: ResView,
    tbl: Seq<(QueryView, ReplyView)>,
) -> Result<Seq<char>, HaltView> {
    match r {
        ResView::Omen(b) => Ok(
            if b {
                "boon"@
            } else {
                "hex"@
            },
        ),
        ResView::Arcana(n) => Ok(dec_i64(n as int)),
        ResView::Aether(n) => match table_lookup(tbl, QueryView::Text(n)) {
            Some(a) => match a {
                ReplyView::Words(s) => Ok(s),
                _ => Err(HaltView::NeedAether(QueryView::Text(n))),
            },
            None => Err(HaltView::NeedAether(QueryView::Text(n))),
        },
        ResView::Rune(s) => Ok(unescape_v(s)),
        ResView::Abyss => Ok(Seq::empty()),
        _ => Err(invalid_s("Unsupported type in unveil statement"@, None)),
    }
}

/// The text a sequence of values prints as, concatenated in order.
pub open spec fn unveil_text_s(
    vals: Seq<ResView>,
    i: int,
    acc: Seq<char>,
    tbl: Seq<(QueryView, ReplyView)>,
) -> Result<Seq<char>, HaltView>
    decreases vals.len() - i,
{
    if i < 0 || i >= vals.len() {
        Ok(acc)
    } else {
        match unveil_piece_s(vals[i], tbl) {
            Ok(s) => unveil_text_s(vals, i + 1, acc + s, tbl),
            Err(h) => Err(h),
        }
    }
}

/// What an explicit cast yields: numeric conversions and textual forms
/// through the host, integer text by the verified parser and printer;
/// casting to `omen` is never allowed.
pub open spec fn cast_s(
    r: ResView,
    target: Type,
    li: Option<LineInfo>,
    tbl: Seq<(QueryView, ReplyView)>,
) -> Result<ResView, HaltView> {
    match target {
        Type::Arcana => match r {
            ResView::Aether(n) => match table_lookup(tbl, QueryView::ToArcana(n)) {
                Some(a) => match a {
                    ReplyView::Num(v) => Ok(ResView::Arcana(v)),
                    _ => Err(HaltView::NeedAether(QueryView::ToArcana(n))),
                },
                None => Err(HaltView::NeedAether(QueryView::ToArcana(n))),
            },
            ResView::Rune(s) => match parse_i64_v(s) {
                Some(v) => Ok(ResView::Arcana(v)),
                None => Err(invalid_s("Failed to convert Rune to Arcana"@, li)),
            },
            _ => Err(invalid_s("Invalid cast to Arcana"@, li)),
        },
        Type::Aether => match r {
            ResView::Arcana(n) => match table_lookup(tbl, QueryView::OfArcana(n)) {
                Some(a) => match a {
                    ReplyView::Bits(v) => Ok(ResView::Aether(v)),
                    _ => Err(HaltView::NeedAether(QueryView::OfArcana(n))),
                },
                None => Err(HaltView::NeedAether(QueryView::OfArcana(n))),
            },
            ResView::Rune(s) => match table_lookup(tbl, QueryView::Parse(s)) {
                Some(a) => match a {
                    ReplyView::ParseOk(v) => Ok(ResView::Aether(v)),
                    ReplyView::ParseFail => Err(
                        invalid_s("Failed to convert Rune to Aether"@, li),
                    ),
                    _ => Err(HaltView::NeedAether(QueryView::Parse(s))),
                },
                None => Err(HaltView::NeedAether(QueryView::Parse(s))),
            },
            _ => Err(invalid_s("Invalid cast to Aether"@, li)),
        },
        Type::Rune => match r {
            ResView::Arcana(n) => Ok(ResView::Rune(dec_i64(n as int))),
            ResView::Aether(n) => match table_lookup(tbl, QueryView::Text(n)) {
                Some(a) => match a {
                    ReplyView::Words(s) => Ok(ResView::Rune(s)),
                    _ => Err(HaltView::NeedAether(QueryView::Text(n))),
                },
                None => Err(HaltView::NeedAether(QueryView::Text(n))),
            },
            _ => Err(invalid_s("Invalid cast to Rune"@, li)),
        },
        Type::Omen => Err(invalid_s("Casting to Omen is not supported"@, li)),
        Type::Abyss => Err(invalid_s("Unsupported cast to type Abyss"@, li)),
    }
}

/// What one line read from the input parses to under `summon`.
pub open spec fn summon_value_s(
    line: Seq<char>,
    t: Type,
    li: Option<LineInfo>,
    tbl: Seq<(QueryView, ReplyView)>,
) -> Result<ResView, HaltView> {
    let trimmed = trim_v(line);
    match t {
        Type::Arcana => match parse_i64_v(trimmed) {
            Some(v) => Ok(ResView::Arcana(v)),
            None => Err(invalid_s("Failed to parse input as Arcana"@, li)),
        },
        Type::Aether => match table_lookup(tbl, QueryView::Parse(trimmed)) {
            Some(a) => match a {
                ReplyView::ParseOk(v) => Ok(ResView::Aether(v)),
                ReplyView::ParseFail => Err(invalid_s("Failed to parse input as Aether"@, li)),
                _ => Err(HaltView::NeedAether(QueryView::Parse(trimmed))),
            },
            None => Err(HaltView::NeedAether(QueryView::Parse(trimmed))),
        },
        Type::Rune => Ok(ResView::Rune(trimmed)),
        _ => Err(invalid_s("Unsupported type for summon"@, li)),
    }
}

/// Binds the evaluated arguments to the declared parameters, left to
/// right, checking each argument's variant against the parameter's type;
/// arguments beyond the parameter list are dropped, parameters beyond the
/// argument list stay unbound.
pub open spec fn bind_params_s(
    params: Seq<AstView>,
    vals: Seq<ResView>,
    i: int,
    fname: Seq<char>,
    li: Option<LineInfo>,
    env: EnvView,
) -> Result<EnvView, HaltView>
    decreases params.len() - i,
{
    if i < 0 || i >= params.len() || i >= vals.len() {
        Ok(env)
    } else {
        match params[i] {
            AstView::EngraveParam { name, param_type, line_info } => match conform_s(
                vals[i],
                param_type,
            ) {
                Some(v) => bind_params_s(
                    params,
                    vals,
                    i + 1,
                    fname,
                    li,
                    declare_s(env, name, v, param_type, false, li),
                ),
                None => Err(
                    HaltView::Failed(
                        ErrView::TypeError("Type mismatch for parameter "@ + name, li),
                    ),
                ),
            },
            _ => Err(
                invalid_s("Expected EngraveParam in function definition: "@ + fname, li),
            ),
        }
    }
}

/// The result a function call returns, once the body's outcome is checked
/// against the declared return type.
pub open spec fn return_check_s(
    r: ResView,
    return_type: Type,
    fname: Seq<char>,
    fun_li: Option<LineInfo>,
) -> Result<ResView, HaltView> {
    match (r, return_type) {
        (ResView::Arcana(n), Type::Arcana) => Ok(ResView::Arcana(n)),
        (ResView::Aether(n), Type::Aether) => Ok(ResView::Aether(n)),
        (ResView::Rune(s), Type::Rune) => Ok(ResView::Rune(s)),
        (ResView::Omen(b), Type::Omen) => Ok(ResView::Omen(b)),
        (ResView::Abyss, Type::Abyss) => Ok(ResView::Abyss),
        _ => Err(
            HaltView::Failed(
                ErrView::TypeError("Type mismatch for return value of function "@ + fname, fun_li),
            ),
        ),
    }
}

/// The value one oracle conditional binds, by the variant of its result.
pub open spec fn cond_value_s(r: ResView) -> Option<(ValueView, Type)> {
    match r {
        ResView::Arcana(n) => Some((ValueView::Arcana(n), Type::Arcana)),
        ResView::Aether(n) => Some((ValueView::Aether(n), Type::Aether)),
        ResView::Rune(s) => Some((ValueView::Rune(s), Type::Rune)),
        ResView::Omen(b) => Some((ValueView::Omen(b), Type::Omen)),
        _ => None,
    }
}

/// Evaluation of one node.  See the module text for the reading.
#[verifier::opaque]
pub open spec fn eval_s(
    a: AstView,
    env: EnvView,
    io: IoView,
    tbl: Seq<(QueryView, ReplyView)>,
    fuel: nat,
) -> StepOut
    decreases fuel, 0int, 0int,
{
    if fuel == 0 {
        StepOut { res: Err(HaltView::OutOfFuel), env, io }
    } else {
        let f = (fuel - 1) as nat;
        match a {
            AstView::Statement(e, li) => eval_s(*e, env, io, tbl, f),
            AstView::Omen(b, li) => StepOut { res: Ok(ResView::Omen(b)), env, io },
            AstView::Arcana(n, li) => StepOut { res: Ok(ResView::Arcana(n)), env, io },
            AstView::Aether(n, li) => StepOut { res: Ok(ResView::Aether(n)), env, io },
            AstView::Rune(s, li) => StepOut { res: Ok(ResView::Rune(s)), env, io },
            AstView::Abyss(li) => StepOut { res: Ok(ResView::Abyss), env, io },
            AstView::Add(l, r, li) => bin_s(BinKind::Add, *l, *r, li, env, io, tbl, f),
            AstView::Sub(l, r, li) => bin_s(BinKind::Sub, *l, *r, li, env, io, tbl, f),
            AstView::Mul(l, r, li) => bin_s(BinKind::Mul, *l, *r, li, env, io, tbl, f),
            AstView::Div(l, r, li) => bin_s(BinKind::Div, *l, *r, li, env, io, tbl, f),
            AstView::Mod(l, r, li) => bin_s(BinKind::Mod, *l, *r, li, env, io, tbl, f),
            AstView::PowArcana(l, r, li) => bin_s(BinKind::PowArcana, *l, *r, li, env, io, tbl, f),
            AstView::PowAether(l, r, li) => bin_s(BinKind::PowAether, *l, *r, li, env, io, tbl, f),
            AstView::Equal(l, r, li) => bin_s(BinKind::Equal, *l, *r, li, env, io, tbl, f),
            AstView::NotEqual(l, r, li) => bin_s(BinKind::NotEqual, *l, *r, li, env, io, tbl, f),
            AstView::LessThan(l, r, li) => bin_s(BinKind::Less, *l, *r, li, env, io, tbl, f),
            AstView::LessThanOrEqual(l, r, li) => bin_s(
                BinKind::LessEq,
                *l,
                *r,
                li,
                env,
                io,
                tbl,
                f,
            ),
            AstView::GreaterThan(l, r, li) => bin_s(BinKind::Greater, *l, *r, li, env, io, tbl, f),
            AstView::GreaterThanOrEqual(l, r, li) => bin_s(
                BinKind::GreaterEq,
                *l,
                *r,
                li,
                env,
                io,
                tbl,
                f,
            ),
            AstView::LogicalAnd(l, r, li) => bin_s(BinKind::And, *l, *r, li, env, io, tbl, f),
            AstView::LogicalOr(l, r, li) => bin_s(BinKind::Or, *l, *r, li, env, io, tbl, f),
            AstView::LogicalNot(e, li) => lognot_s(*e, li, env, io, tbl, f),
            AstView::VarAssign { name, value, var_type, is_morph, line_info } => varassign_s(
                name,
                *value,
                var_type,
                is_morph,
                line_info,
                env,
                io,
                tbl,
                f,
            ),
            AstView::Assignment { name, value, op, line_info } => assignment_s(
                name,
                *value,
                op,
                line_info,
                env,
                io,
                tbl,
                f,
            ),
            AstView::Var(name, li) => match lookup_var(env, name) {
                Some(vi) => StepOut { res: Ok(res_of_value(vi.value)), env, io },
                None => StepOut {
                    res: Err(HaltView::Failed(ErrView::UndefinedVariable(name, li))),
                    env,
                    io,
                },
            },
            AstView::Unveil(args, li) => unveil_s(args, env, io, tbl, f),
            AstView::Trans(e, target, li) => trans_s(*e, target, li, env, io, tbl, f),
            AstView::Reveal(e, li) => reveal_wrap_s(*e, env, io, tbl, f),
            AstView::Block(stmts, li) => block_s(stmts, 0, ResView::Abyss, env, io, tbl, f),
            AstView::OracleDontCareItem(li) => StepOut { res: Ok(ResView::Omen(true)), env, io },
            AstView::Oracle { is_match, conditionals, branches, line_info } => oracle_s(
                is_match,
                conditionals,
                branches,
                line_info,
                env,
                io,
                tbl,
                f,
            ),
            AstView::Orbit { params, body, line_info } => if params.len() == 0 {
                orbit_zero_s(*body, env, io, tbl, f)
            } else {
                orbit_params_s(params, 0, *body, line_info, env, io, tbl, f)
            },
            AstView::Resume(l, li) => StepOut { res: Ok(ResView::Resume(l)), env, io },
            AstView::Eject(l, li) => StepOut { res: Ok(ResView::Eject(l)), env, io },
            AstView::Engrave { name, params, return_type, body, line_info } => {
                let fun = FunView { name, params, return_type, body, line_info };
                StepOut { res: Ok(ResView::Abyss), env: declare_fun_s(env, name, fun), io }
            },
            AstView::FuncCall { name, args, line_info } => funcall_s(
                name,
                args,
                line_info,
                env,
                io,
                tbl,
                f,
            ),
            AstView::Summon(prompt, t, li) => summon_s(prompt, t, li, env, io, tbl),
            AstView::Comment(s, li) => StepOut { res: Ok(ResView::Abyss), env, io },
            _ => StepOut {
                res: Err(invalid_s("Unsupported operation"@, None)),
                env,
                io,
            },
        }
    }
}

/// Logical negation: the operand must be an omen.
pub open spec fn lognot_s(
    e: AstView,
    li: Option<LineInfo>,
    env: EnvView,
    io: IoView,
    tbl: Seq<(QueryView, ReplyView)>,
    f: nat,
) -> StepOut
    decreases f, 1int, 0int,
{
    let o = eval_s(e, env, io, tbl, f);
    match o.res {
        Ok(r) => match r {
            ResView::Omen(b) => StepOut { res: Ok(ResView::Omen(!b)), env: o.env, io: o.io },
            _ => StepOut {
                res: Err(invalid_s("LogicalNot operation requires Omen!"@, li)),
                env: o.env,
                io: o.io,
            },
        },
        Err(h) => o,
    }
}

/// A declaration: the initial value must match the declared type exactly,
/// and the binding lands in the innermost scope.
pub open spec fn varassign_s(
    name: Seq<char>,
    value: AstView,
    var_type: Type,
    is_morph: bool,
    line_info: Option<LineInfo>,
    env: EnvView,
    io: IoView,
    tbl: Seq<(QueryView, ReplyView)>,
    f: nat,
) -> StepOut
    decreases f, 1int, 0int,
{
    let o = eval_s(value, env, io, tbl, f);
    match o.res {
        Ok(r) => match conform_s(r, var_type) {
            Some(v) => StepOut {
                res: Ok(ResView::Abyss),
                env: declare_s(o.env, name, v, var_type, is_morph, line_info),
                io: o.io,
            },
            None => StepOut {
                res: Err(invalid_s("VarAssign operation requires a valid type!"@, line_info)),
                env: o.env,
                io: o.io,
            },
        },
        Err(h) => o,
    }
}

/// A reassignment: the operand evaluates first, then the binding is found
/// and must be mutable; the operator's rule computes the new value, and
/// the store re-checks the declared type.
pub open spec fn assignment_s(
    name: Seq<char>,
    value: AstView,
    op: AssignmentOp,
    line_info: Option<LineInfo>,
    env: EnvView,
    io: IoView,
    tbl: Seq<(QueryView, ReplyView)>,
    f: nat,
) -> StepOut
    decreases f, 1int, 0int,
{
    let o = eval_s(value, env, io, tbl, f);
    match o.res {
        Ok(ev) => match lookup_var(o.env, name) {
            Some(vi) => if !vi.is_morph {
                StepOut {
                    res: Err(invalid_s(immutable_msg_v(name), line_info)),
                    env: o.env,
                    io: o.io,
                }
            } else {
                match assign_new_value_s(name, op, ev, vi.value, line_info, tbl) {
                    Ok(vt) => {
                        let (e2, r2) = update_var_s(o.env, name, vt.0, vt.1, line_info);
                        match r2 {
                            Ok(u) => StepOut { res: Ok(ResView::Abyss), env: e2, io: o.io },
                            Err(e) => StepOut { res: Err(HaltView::Failed(e)), env: e2, io: o.io },
                        }
                    },
                    Err(h) => StepOut { res: Err(h), env: o.env, io: o.io },
                }
            },
            None => StepOut {
                res: Err(HaltView::Failed(ErrView::UndefinedVariable(name, line_info))),
                env: o.env,
                io: o.io,
            },
        },
        Err(h) => o,
    }
}

/// A print statement: the arguments all evaluate first, then each result
/// turns to text, and one line goes to the output.
pub open spec fn unveil_s(
    args: Seq<AstView>,
    env: EnvView,
    io: IoView,
    tbl: Seq<(QueryView, ReplyView)>,
    f: nat,
) -> StepOut
    decreases f, 2int, 0int,
{
    let o = eval_list_s(args, 0, Seq::empty(), env, io, tbl, f);
    match o.0 {
        Ok(vals) => match unveil_text_s(vals, 0, Seq::empty(), tbl) {
            Ok(text) => StepOut {
                res: Ok(ResView::Abyss),
                env: o.1,
                io: IoView {
                    input: o.2.input,
                    taken: o.2.taken,
                    output: o.2.output + text + seq!['\n'],
                },
            },
            Err(h) => StepOut { res: Err(h), env: o.1, io: o.2 },
        },
        Err(h) => StepOut { res: Err(h), env: o.1, io: o.2 },
    }
}

/// An explicit cast.
pub open spec fn trans_s(
    e: AstView,
    target: Type,
    li: Option<LineInfo>,
    env: EnvView,
    io: IoView,
    tbl: Seq<(QueryView, ReplyView)>,
    f: nat,
) -> StepOut
    decreases f, 1int, 0int,
{
    let o = eval_s(e, env, io, tbl, f);
    match o.res {
        Ok(r) => StepOut { res: cast_s(r, target, li, tbl), env: o.env, io: o.io },
        Err(h) => o,
    }
}

/// A yield: the operand's value wrapped as `Revealed`.
pub open spec fn reveal_wrap_s(
    e: AstView,
    env: EnvView,
    io: IoView,
    tbl: Seq<(QueryView, ReplyView)>,
    f: nat,
) -> StepOut
    decreases f, 1int, 0int,
{
    let o = eval_s(e, env, io, tbl, f);
    match o.res {
        Ok(r) => StepOut { res: Ok(ResView::Revealed(Box::new(r))), env: o.env, io: o.io },
        Err(h) => o,
    }
}

/// The oracle: a scope opens, the conditionals bind, the branches are
/// tried in order, and the scope closes whatever happened.
pub open spec fn oracle_s(
    is_match: bool,
    conditionals: Seq<CondView>,
    branches: Seq<AstView>,
    line_info: Option<LineInfo>,
    env: EnvView,
    io: IoView,
    tbl: Seq<(QueryView, ReplyView)>,
    f: nat,
) -> StepOut
    decreases f, 3int, 0int,
{
    let e1 = push_s(env);
    let o = conds_s(conditionals, 0, line_info, e1, io, tbl, f);
    match o.0 {
        Ok(u) => {
            let b = branches_s(is_match, conditionals, branches, 0, o.1, o.2, tbl, f);
            StepOut { res: b.res, env: pop_s(b.env), io: b.io }
        },
        Err(h) => StepOut { res: Err(h), env: pop_s(o.1), io: o.2 },
    }
}

/// A function call: the arguments evaluate in the caller's scopes, one
/// scope opens for the immutable parameter bindings, the body runs with
/// the whole scope chain visible (the language's dynamic scoping), the
/// scope closes, and the outcome must match the declared return type.
pub open spec fn funcall_s(
    name: Seq<char>,
    args: Seq<AstView>,
    line_info: Option<LineInfo>,
    env: EnvView,
    io: IoView,
    tbl: Seq<(QueryView, ReplyView)>,
    f: nat,
) -> StepOut
    decreases f, 3int, 0int,
{
    match lookup_fun(env, name) {
        Some(fun) => {
            let o = eval_list_s(args, 0, Seq::empty(), env, io, tbl, f);
            match o.0 {
                Ok(vals) => {
                    let e1 = push_s(o.1);
                    match bind_params_s(fun.params, vals, 0, name, line_info, e1) {
                        Ok(e2) => {
                            let b = eval_s(*fun.body, e2, o.2, tbl, f);
                            let e3 = pop_s(b.env);
                            match b.res {
                                Ok(r) => StepOut {
                                    res: return_check_s(r, fun.return_type, name, fun.line_info),
                                    env: e3,
                                    io: b.io,
                                },
                                Err(h) => StepOut { res: Err(h), env: e3, io: b.io },
                            }
                        },
                        Err(h) => StepOut { res: Err(h), env: pop_s(e1), io: o.2 },
                    }
                },
                Err(h) => StepOut { res: Err(h), env: o.1, io: o.2 },
            }
        },
        None => StepOut {
            res: Err(HaltView::Failed(ErrView::UndefinedVariable(name, line_info))),
            env,
            io,
        },
    }
}

/// A read: the prompt (stripped of quotes) goes to the output, one line
/// comes off the input queue, and its trimmed text parses at the asked
/// type; with the queue exhausted the evaluation stops for more input.
pub open spec fn summon_s(
    prompt: Seq<char>,
    t: Type,
    li: Option<LineInfo>,
    env: EnvView,
    io: IoView,
    tbl: Seq<(QueryView, ReplyView)>,
) -> StepOut {
    let io1 = IoView { input: io.input, taken: io.taken, output: io.output + trim_quotes_v(prompt) };
    if io1.taken < io1.input.len() {
        let line = io1.input[io1.taken];
        let io2 = IoView { input: io1.input, taken: io1.taken + 1, output: io1.output };
        StepOut { res: summon_value_s(line, t, li, tbl), env, io: io2 }
    } else {
        StepOut { res: Err(HaltView::NeedInput), env, io: io1 }
    }
}

/// A two-operand node: the left operand, then the right, then the rule.
pub open spec fn bin_s(
    kind: BinKind,
    l: AstView,
    r: AstView,
    li: Option<LineInfo>,
    env: EnvView,
    io: IoView,
    tbl: Seq<(QueryView, ReplyView)>,
    f: nat,
) -> StepOut
    decreases f, 1int, 0int,
{
    let lo = eval_s(l, env, io, tbl, f);
    match lo.res {
        Ok(lv) => {
            let ro = eval_s(r, lo.env, lo.io, tbl, f);
            match ro.res {
                Ok(rv) => StepOut { res: apply_bin_s(kind, lv, rv, li, tbl), env: ro.env, io: ro.io },
                Err(h) => ro,
            }
        },
        Err(h) => lo,
    }
}

/// Statements of a block, in order; a `Revealed` unwraps and ends the
/// block, a `Resume` or `Eject` passes through at once, otherwise the
/// last statement's result stands.
pub open spec fn block_s(
    stmts: Seq<AstView>,
    i: int,
    last: ResView,
    env: EnvView,
    io: IoView,
    tbl: Seq<(QueryView, ReplyView)>,
    f: nat,
) -> StepOut
    decreases f, 1int, stmts.len() - i,
{
    if i < 0 || i >= stmts.len() {
        StepOut { res: Ok(last), env, io }
    } else {
        let o = eval_s(stmts[i], env, io, tbl, f);
        match o.res {
            Ok(r) => match r {
                ResView::Revealed(v) => StepOut { res: Ok(*v), env: o.env, io: o.io },
                ResView::Resume(l) => StepOut { res: Ok(ResView::Resume(l)), env: o.env, io: o.io },
                ResView::Eject(l) => StepOut { res: Ok(ResView::Eject(l)), env: o.env, io: o.io },
                _ => block_s(stmts, i + 1, r, o.env, o.io, tbl, f),
            },
            Err(h) => o,
        }
    }
}

/// A list of expressions evaluated in order, collecting their results.
pub open spec fn eval_list_s(
    args: Seq<AstView>,
    i: int,
    acc: Seq<ResView>,
    env: EnvView,
    io: IoView,
    tbl: Seq<(QueryView, ReplyView)>,
    f: nat,
) -> (Result<Seq<ResView>, HaltView>, EnvView, IoView)
    decreases f, 1int, args.len() - i,
{
    if i < 0 || i >= args.len() {
        (Ok(acc), env, io)
    } else {
        let o = eval_s(args[i], env, io, tbl, f);
        match o.res {
            Ok(r) => eval_list_s(args, i + 1, acc.push(r), o.env, o.io, tbl, f),
            Err(h) => (Err(h), o.env, o.io),
        }
    }
}

/// The oracle's conditionals, evaluated once each and bound (immutably)
/// in the oracle's scope by the variant of their result.
pub open spec fn conds_s(
    conds: Seq<CondView>,
    i: int,
    li: Option<LineInfo>,
    env: EnvView,
    io: IoView,
    tbl: Seq<(QueryView, ReplyView)>,
    f: nat,
) -> (Result<(), HaltView>, EnvView, IoView)
    decreases f, 1int, conds.len() - i,
{
    if i < 0 || i >= conds.len() {
        (Ok(()), env, io)
    } else {
        let o = eval_s(*conds[i].expression, env, io, tbl, f);
        match o.res {
            Ok(r) => match cond_value_s(r) {
                Some((v, t)) => conds_s(
                    conds,
                    i + 1,
                    li,
                    declare_s(o.env, conds[i].variable, v, t, false, li),
                    o.io,
                    tbl,
                    f,
                ),
                None => (
                    Err(invalid_s("Unsupported type in oracle conditional"@, li)),
                    o.env,
                    o.io,
                ),
            },
            Err(h) => (Err(h), o.env, o.io),
        }
    }
}

/// The oracle's branches, tried in order; the first whose pattern matches
/// decides the oracle's result (a `Revealed` body unwraps); with no match
/// the oracle yields `abyss`.  Nodes that are not branches are passed
/// over.
pub open spec fn branches_s(
    is_match: bool,
    conds: Seq<CondView>,
    branches: Seq<AstView>,
    i: int,
    env: EnvView,
    io: IoView,
    tbl: Seq<(QueryView, ReplyView)>,
    f: nat,
) -> StepOut
    decreases f, 2int, branches.len() - i,
{
    if i < 0 || i >= branches.len() {
        StepOut { res: Ok(ResView::Abyss), env, io }
    } else {
        match branches[i] {
            AstView::OracleBranch { pattern, body, line_info } => {
                let m = if pattern.len() == 0 {
                    (Ok(true), env, io)
                } else if is_match {
                    match_pattern_s(conds, pattern, 0, line_info, env, io, tbl, f)
                } else {
                    guard_pattern_s(pattern, 0, env, io, tbl, f)
                };
                match m.0 {
                    Ok(matched) => if matched {
                        let o = eval_s(*body, m.1, m.2, tbl, f);
                        match o.res {
                            Ok(r) => match r {
                                ResView::Revealed(v) => StepOut {
                                    res: Ok(*v),
                                    env: o.env,
                                    io: o.io,
                                },
                                _ => StepOut { res: Ok(r), env: o.env, io: o.io },
                            },
                            Err(h) => o,
                        }
                    } else {
                        branches_s(is_match, conds, branches, i + 1, m.1, m.2, tbl, f)
                    },
                    Err(h) => StepOut { res: Err(h), env: m.1, io: m.2 },
                }
            },
            _ => branches_s(is_match, conds, branches, i + 1, env, io, tbl, f),
        }
    }
}

/// Match-mode pattern test: a don't-care position always matches; any
/// other position re-evaluates the pattern expression and the
/// conditional's expression and compares them under the equality rule of
/// their shared variant; mismatched variants are a fault, and a position
/// beyond the conditionals is a fault where the machine would panic.
pub open spec fn match_pattern_s(
    conds: Seq<CondView>,
    pattern: Seq<AstView>,
    i: int,
    li: Option<LineInfo>,
    env: EnvView,
    io: IoView,
    tbl: Seq<(QueryView, ReplyView)>,
    f: nat,
) -> (Result<bool, HaltView>, EnvView, IoView)
    decreases f, 1int, pattern.len() - i,
{
    if i < 0 || i >= pattern.len() {
        (Ok(true), env, io)
    } else if pattern[i] is OracleDontCareItem {
        match_pattern_s(conds, pattern, i + 1, li, env, io, tbl, f)
    } else if i >= conds.len() {
        (
            Err(invalid_s("Oracle branch pattern has more elements than conditionals"@, li)),
            env,
            io,
        )
    } else {
        let po = eval_s(pattern[i], env, io, tbl, f);
        match po.res {
            Ok(pv) => {
                let co = eval_s(*conds[i].expression, po.env, po.io, tbl, f);
                match co.res {
                    Ok(cv) => match (cv, pv) {
                        (ResView::Arcana(c), ResView::Arcana(p)) => if c == p {
                            match_pattern_s(conds, pattern, i + 1, li, co.env, co.io, tbl, f)
                        } else {
                            (Ok(false), co.env, co.io)
                        },
                        (ResView::Aether(c), ResView::Aether(p)) => match aether_ne_s(tbl, c, p) {
                            Ok(ne) => if ne {
                                (Ok(false), co.env, co.io)
                            } else {
                                match_pattern_s(conds, pattern, i + 1, li, co.env, co.io, tbl, f)
                            },
                            Err(h) => (Err(h), co.env, co.io),
                        },
                        (ResView::Rune(c), ResView::Rune(p)) => if c == p {
                            match_pattern_s(conds, pattern, i + 1, li, co.env, co.io, tbl, f)
                        } else {
                            (Ok(false), co.env, co.io)
                        },
                        (ResView::Omen(c), ResView::Omen(p)) => if c == p {
                            match_pattern_s(conds, pattern, i + 1, li, co.env, co.io, tbl, f)
                        } else {
                            (Ok(false), co.env, co.io)
                        },
                        _ => (
                            Err(
                                invalid_s(
                                    "Oracle branch pattern type must match conditional type"@,
                                    li,
                                ),
                            ),
                            co.env,
                            co.io,
                        ),
                    },
                    Err(h) => (Err(h), co.env, co.io),
                }
            },
            Err(h) => (Err(h), po.env, po.io),
        }
    }
}

/// Guard-mode pattern test: every guard must evaluate to a true omen; a
/// guard that evaluates to anything else — a fault of its own evaluation
/// included — makes the branch not match, and the fault is swallowed.
/// A missing host answer or exhausted fuel still passes through.
pub open spec fn guard_pattern_s(
    pattern: Seq<AstView>,
    i: int,
    env: EnvView,
    io: IoView,
    tbl: Seq<(QueryView, ReplyView)>,
    f: nat,
) -> (Result<bool, HaltView>, EnvView, IoView)
    decreases f, 1int, pattern.len() - i,
{
    if i < 0 || i >= pattern.len() {
        (Ok(true), env, io)
    } else {
        let o = eval_s(pattern[i], env, io, tbl, f);
        match o.res {
            Ok(r) => match r {
                ResView::Omen(b) => if b {
                    guard_pattern_s(pattern, i + 1, o.env, o.io, tbl, f)
                } else {
                    (Ok(false), o.env, o.io)
                },
                _ => (Ok(false), o.env, o.io),
            },
            Err(h) => match h {
                HaltView::Failed(e) => (Ok(false), o.env, o.io),
                _ => (Err(h), o.env, o.io),
            },
        }
    }
}

/// The unconditional orbit: one scope per pass around, ending only by an
/// `Eject` from the body (or a fault, or the fuel bound).
pub open spec fn orbit_zero_s(
    body: AstView,
    env: EnvView,
    io: IoView,
    tbl: Seq<(QueryView, ReplyView)>,
    fuel: nat,
) -> StepOut
    decreases fuel, 2int, 0int,
{
    if fuel == 0 {
        StepOut { res: Err(HaltView::OutOfFuel), env, io }
    } else {
        let f = (fuel - 1) as nat;
        let e1 = push_s(env);
        let o = eval_s(body, e1, io, tbl, f);
        match o.res {
            Ok(r) => match r {
                ResView::Resume(l) => orbit_zero_s(body, pop_s(o.env), o.io, tbl, f),
                ResView::Eject(l) => StepOut { res: Ok(ResView::Abyss), env: pop_s(o.env), io: o.io },
                _ => orbit_zero_s(body, pop_s(o.env), o.io, tbl, f),
            },
            Err(h) => StepOut { res: Err(h), env: pop_s(o.env), io: o.io },
        }
    }
}

/// A ranged orbit at one parameter: the bounds evaluate once, both as
/// `arcana`, and the iterations run; further parameters nest inside each
/// iteration.
pub open spec fn orbit_params_s(
    params: Seq<AstView>,
    pidx: int,
    body: AstView,
    li: Option<LineInfo>,
    env: EnvView,
    io: IoView,
    tbl: Seq<(QueryView, ReplyView)>,
    fuel: nat,
) -> StepOut
    decreases fuel, 2int, 1int,
{
    if fuel == 0 {
        StepOut { res: Err(HaltView::OutOfFuel), env, io }
    } else {
        let f = (fuel - 1) as nat;
        if pidx < 0 || pidx >= params.len() {
            StepOut { res: Ok(ResView::Abyss), env, io }
        } else {
            match params[pidx] {
                AstView::OrbitParam { name, start, end, op, line_info } => {
                    let so = eval_s(*start, env, io, tbl, f);
                    match so.res {
                        Ok(sv) => {
                            let eo = eval_s(*end, so.env, so.io, tbl, f);
                            match eo.res {
                                Ok(ev) => match (sv, ev) {
                                    (ResView::Arcana(s), ResView::Arcana(e)) => {
                                        let last = if op == ".."@ {
                                            e as int - 1
                                        } else {
                                            e as int
                                        };
                                        orbit_iter_s(
                                            params,
                                            pidx,
                                            name,
                                            s as int,
                                            last,
                                            body,
                                            li,
                                            eo.env,
                                            eo.io,
                                            tbl,
                                            fuel,
                                        )
                                    },
                                    _ => StepOut {
                                        res: Err(
                                            HaltView::Failed(
                                                ErrView::TypeError(
                                                    "Orbit parameter must be of type Arcana: "@
                                                        + name,
                                                    li,
                                                ),
                                            ),
                                        ),
                                        env: eo.env,
                                        io: eo.io,
                                    },
                                },
                                Err(h) => eo,
                            }
                        },
                        Err(h) => so,
                    }
                },
                _ => StepOut {
                    res: Err(invalid_s("Expected OrbitParam in Orbit"@, li)),
                    env,
                    io,
                },
            }
        }
    }
}

/// The iterations of one ranged orbit parameter, from `cur` to `last`
/// inclusive: each pass opens a scope, binds the loop variable, runs the
/// body (or the next nested parameter), and closes the scope; a `Resume`
/// or `Eject` whose label is absent or names this variable acts here,
/// any other label passes upward.
pub open spec fn orbit_iter_s(
    params: Seq<AstView>,
    pidx: int,
    name: Seq<char>,
    cur: int,
    last: int,
    body: AstView,
    li: Option<LineInfo>,
    env: EnvView,
    io: IoView,
    tbl: Seq<(QueryView, ReplyView)>,
    fuel: nat,
) -> StepOut
    decreases fuel, 1int, (if last + 1 - cur > 0 {
        last + 1 - cur
    } else {
        0
    }),
{
    if cur > last {
        StepOut { res: Ok(ResView::Abyss), env, io }
    } else if fuel == 0 {
        StepOut { res: Err(HaltView::OutOfFuel), env, io }
    } else if cur < -0x8000_0000_0000_0000 || cur > 0x7fff_ffff_ffff_ffff {
        StepOut { res: Ok(ResView::Abyss), env, io }
    } else {
        let f = (fuel - 1) as nat;
        let e1 = declare_s(
            push_s(env),
            name,
            ValueView::Arcana(cur as i64),
            Type::Arcana,
            true,
            li,
        );
        let o = if pidx + 1 < params.len() {
            orbit_params_s(params, pidx + 1, body, li, e1, io, tbl, f)
        } else {
            eval_s(body, e1, io, tbl, f)
        };
        let e2 = pop_s(o.env);
        match o.res {
            Ok(r) => match r {
                ResView::Resume(lab) => match lab {
                    Some(id) => if id == name {
                        orbit_iter_s(params, pidx, name, cur + 1, last, body, li, e2, o.io, tbl, fuel)
                    } else {
                        StepOut { res: Ok(ResView::Resume(Some(id))), env: e2, io: o.io }
                    },
                    None => orbit_iter_s(
                        params,
                        pidx,
                        name,
                        cur + 1,
                        last,
                        body,
                        li,
                        e2,
                        o.io,
                        tbl,
                        fuel,
                    ),
                },
                ResView::Eject(lab) => match lab {
                    Some(id) => if id == name {
                        StepOut { res: Ok(ResView::Abyss), env: e2, io: o.io }
                    } else {
                        StepOut { res: Ok(ResView::Eject(Some(id))), env: e2, io: o.io }
                    },
                    None => StepOut { res: Ok(ResView::Abyss), env: e2, io: o.io },
                },
                _ => orbit_iter_s(params, pidx, name, cur + 1, last, body, li, e2, o.io, tbl, fuel),
            },
            Err(h) => StepOut { res: Err(h), env: e2, io: o.io },
        }
    }
}

} // verus!
