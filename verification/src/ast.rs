//! The abstract syntax tree of the language, together with the spec-level
//! mirror of each node type.
//!
//! Executable code works on [`AST`] values; contracts and the specification
//! of evaluation speak about [`AstView`] values, obtained through
//! [`ast_view`].  The mirror replaces `String` by `Seq<char>`, `Vec` by
//! `Seq`, and carries everything else unchanged.
//!
//! An `aether` literal stores the IEEE 754 bit pattern of the value as a
//! `u64`: the evaluator never performs floating-point arithmetic itself,
//! it asks the host for every operation (see the `host` module).

use vstd::prelude::*;

verus! {

/// Source position (1-based line and column) carried by nodes for diagnostics.
#[derive(Debug, Clone, Copy, PartialEq, Eq, Structural)]
pub struct LineInfo {
    pub line: usize,
    pub column: usize,
}

/// The type of a variable, parameter or cast target.
#[derive(Debug, Clone, Copy, PartialEq, Eq, Structural)]
pub enum Type {
    Arcana,
    Aether,
    Rune,
    Omen,
    Abyss,
}

/// The operator of a reassignment statement.
#[derive(Debug, Clone, Copy, PartialEq, Eq, Structural)]
pub enum AssignmentOp {
    Assign,
    AddAssign,
    SubAssign,
    MulAssign,
    DivAssign,
    ModAssign,
    PowArcanaAssign,
    PowAetherAssign,
}

/// A node of the abstract syntax tree.
///
/// `Aether` literals hold the bit pattern of the 64-bit IEEE 754 value.
#[derive(Debug)]
pub enum AST {
    Statement(Box<AST>, Option<LineInfo>),
    Omen(bool, Option<LineInfo>),
    Arcana(i64, Option<LineInfo>),
    Aether(u64, Option<LineInfo>),
    Rune(String, Option<LineInfo>),
    Abyss(Option<LineInfo>),
    Add(Box<AST>, Box<AST>, Option<LineInfo>),
    Sub(Box<AST>, Box<AST>, Option<LineInfo>),
    Mul(Box<AST>, Box<AST>, Option<LineInfo>),
    Div(Box<AST>, Box<AST>, Option<LineInfo>),
    Mod(Box<AST>, Box<AST>, Option<LineInfo>),
    PowArcana(Box<AST>, Box<AST>, Option<LineInfo>),
    PowAether(Box<AST>, Box<AST>, Option<LineInfo>),
    Equal(Box<AST>, Box<AST>, Option<LineInfo>),
    NotEqual(Box<AST>, Box<AST>, Option<LineInfo>),
    LessThan(Box<AST>, Box<AST>, Option<LineInfo>),
    LessThanOrEqual(Box<AST>, Box<AST>, Option<LineInfo>),
    GreaterThan(Box<AST>, Box<AST>, Option<LineInfo>),
    GreaterThanOrEqual(Box<AST>, Box<AST>, Option<LineInfo>),
    LogicalAnd(Box<AST>, Box<AST>, Option<LineInfo>),
    LogicalOr(Box<AST>, Box<AST>, Option<LineInfo>),
    LogicalNot(Box<AST>, Option<LineInfo>),
    VarAssign {
        name: String,
        value: Box<AST>,
        var_type: Type,
        is_morph: bool,
        line_info: Option<LineInfo>,
    },
    Assignment {
        name: String,
        value: Box<AST>,
        op: AssignmentOp,
        line_info: Option<LineInfo>,
    },
    Var(String, Option<LineInfo>),
    Unveil(Vec<AST>, Option<LineInfo>),
    Trans(Box<AST>, Type, Option<LineInfo>),
    Reveal(Box<AST>, Option<LineInfo>),
    Oracle {
        is_match: bool,
        conditionals: Vec<ConditionalAssignment>,
        branches: Vec<AST>,
        line_info: Option<LineInfo>,
    },
    OracleBranch {
        pattern: Vec<AST>,
        body: Box<AST>,
        line_info: Option<LineInfo>,
    },
    OracleDontCareItem(Option<LineInfo>),
    Block(Vec<AST>, Option<LineInfo>),
    Comment(String, Option<LineInfo>),
    Orbit {
        params: Vec<AST>,
        body: Box<AST>,
        line_info: Option<LineInfo>,
    },
    OrbitParam {
        name: String,
        start: Box<AST>,
        end: Box<AST>,
        op: String,
        line_info: Option<LineInfo>,
    },
    Resume(Option<String>, Option<LineInfo>),
    Eject(Option<String>, Option<LineInfo>),
    Engrave {
        name: String,
        params: Vec<AST>,
        return_type: Type,
        body: Box<AST>,
        line_info: Option<LineInfo>,
    },
    EngraveParam {
        name: String,
        param_type: Type,
        line_info: Option<LineInfo>,
    },
    FuncCall {
        name: String,
        args: Vec<AST>,
        line_info: Option<LineInfo>,
    },
    Summon(String, Type, Option<LineInfo>),
}

/// A conditional binding at the head of an oracle statement.
#[derive(Debug)]
pub struct ConditionalAssignment {
    pub variable: String,
    pub expression: Box<AST>,
    pub line_info: Option<LineInfo>,
}

/// Spec-level mirror of [`AST`].
pub enum AstView {
    Statement(Box<AstView>, Option<LineInfo>),
    Omen(bool, Option<LineInfo>),
    Arcana(i64, Option<LineInfo>),
    Aether(u64, Option<LineInfo>),
    Rune(Seq<char>, Option<LineInfo>),
    Abyss(Option<LineInfo>),
    Add(Box<AstView>, Box<AstView>, Option<LineInfo>),
    Sub(Box<AstView>, Box<AstView>, Option<LineInfo>),
    Mul(Box<AstView>, Box<AstView>, Option<LineInfo>),
    Div(Box<AstView>, Box<AstView>, Option<LineInfo>),
    Mod(Box<AstView>, Box<AstView>, Option<LineInfo>),
    PowArcana(Box<AstView>, Box<AstView>, Option<LineInfo>),
    PowAether(Box<AstView>, Box<AstView>, Option<LineInfo>),
    Equal(Box<AstView>, Box<AstView>, Option<LineInfo>),
    NotEqual(Box<AstView>, Box<AstView>, Option<LineInfo>),
    LessThan(Box<AstView>, Box<AstView>, Option<LineInfo>),
    LessThanOrEqual(Box<AstView>, Box<AstView>, Option<LineInfo>),
    GreaterThan(Box<AstView>, Box<AstView>, Option<LineInfo>),
    GreaterThanOrEqual(Box<AstView>, Box<AstView>, Option<LineInfo>),
    LogicalAnd(Box<AstView>, Box<AstView>, Option<LineInfo>),
    LogicalOr(Box<AstView>, Box<AstView>, Option<LineInfo>),
    LogicalNot(Box<AstView>, Option<LineInfo>),
    VarAssign {
        name: Seq<char>,
        value: Box<AstView>,
        var_type: Type,
        is_morph: bool,
        line_info: Option<LineInfo>,
    },
    Assignment {
        name: Seq<char>,
        value: Box<AstView>,
        op: AssignmentOp,
        line_info: Option<LineInfo>,
    },
    Var(Seq<char>, Option<LineInfo>),
    Unveil(Seq<AstView>, Option<LineInfo>),
    Trans(Box<AstView>, Type, Option<LineInfo>),
    Reveal(Box<AstView>, Option<LineInfo>),
    Oracle {
        is_match: bool,
        conditionals: Seq<CondView>,
        branches: Seq<AstView>,
        line_info: Option<LineInfo>,
    },
    OracleBranch {
        pattern: Seq<AstView>,
        body: Box<AstView>,
        line_info: Option<LineInfo>,
    },
    OracleDontCareItem(Option<LineInfo>),
    Block(Seq<AstView>, Option<LineInfo>),
    Comment(Seq<char>, Option<LineInfo>),
    Orbit {
        params: Seq<AstView>,
        body: Box<AstView>,
        line_info: Option<LineInfo>,
    },
    OrbitParam {
        name: Seq<char>,
        start: Box<AstView>,
        end: Box<AstView>,
        op: Seq<char>,
        line_info: Option<LineInfo>,
    },
    Resume(Option<Seq<char>>, Option<LineInfo>),
    Eject(Option<Seq<char>>, Option<LineInfo>),
    Engrave {
        name: Seq<char>,
        params: Seq<AstView>,
        return_type: Type,
        body: Box<AstView>,
        line_info: Option<LineInfo>,
    },
    EngraveParam {
        name: Seq<char>,
        param_type: Type,
        line_info: Option<LineInfo>,
    },
    FuncCall {
        name: Seq<char>,
        args: Seq<AstView>,
        line_info: Option<LineInfo>,
    },
    Summon(Seq<char>, Type, Option<LineInfo>),
}

/// Spec-level mirror of [`ConditionalAssignment`].
pub struct CondView {
    pub variable: Seq<char>,
    pub expression: Box<AstView>,
    pub line_info: Option<LineInfo>,
}

/// The spec-level mirror of an option of a string.
pub open spec fn label_view(s: Option<String>) -> Option<Seq<char>> {
    match s {
        Some(l) => Some(l@),
        None => None,
    }
}

/// The spec-level mirror of an AST node.
pub open spec fn ast_view(a: AST) -> AstView
    decreases a,
{
    match a {
        AST::Statement(e, li) => AstView::Statement(Box::new(ast_view(*e)), li),
        AST::Omen(b, li) => AstView::Omen(b, li),
        AST::Arcana(n, li) => AstView::Arcana(n, li),
        AST::Aether(n, li) => AstView::Aether(n, li),
        AST::Rune(s, li) => AstView::Rune(s@, li),
        AST::Abyss(li) => AstView::Abyss(li),
        AST::Add(l, r, li) => AstView::Add(Box::new(ast_view(*l)), Box::new(ast_view(*r)), li),
        AST::Sub(l, r, li) => AstView::Sub(Box::new(ast_view(*l)), Box::new(ast_view(*r)), li),
        AST::Mul(l, r, li) => AstView::Mul(Box::new(ast_view(*l)), Box::new(ast_view(*r)), li),
        AST::Div(l, r, li) => AstView::Div(Box::new(ast_view(*l)), Box::new(ast_view(*r)), li),
        AST::Mod(l, r, li) => AstView::Mod(Box::new(ast_view(*l)), Box::new(ast_view(*r)), li),
        AST::PowArcana(l, r, li) => AstView::PowArcana(
            Box::new(ast_view(*l)),
            Box::new(ast_view(*r)),
            li,
        ),
        AST::PowAether(l, r, li) => AstView::PowAether(
            Box::new(ast_view(*l)),
            Box::new(ast_view(*r)),
            li,
        ),
        AST::Equal(l, r, li) => AstView::Equal(Box::new(ast_view(*l)), Box::new(ast_view(*r)), li),
        AST::NotEqual(l, r, li) => AstView::NotEqual(
            Box::new(ast_view(*l)),
            Box::new(ast_view(*r)),
            li,
        ),
        AST::LessThan(l, r, li) => AstView::LessThan(
            Box::new(ast_view(*l)),
            Box::new(ast_view(*r)),
            li,
        ),
        AST::LessThanOrEqual(l, r, li) => AstView::LessThanOrEqual(
            Box::new(ast_view(*l)),
            Box::new(ast_view(*r)),
            li,
        ),
        AST::GreaterThan(l, r, li) => AstView::GreaterThan(
            Box::new(ast_view(*l)),
            Box::new(ast_view(*r)),
            li,
        ),
        AST::GreaterThanOrEqual(l, r, li) => AstView::GreaterThanOrEqual(
            Box::new(ast_view(*l)),
            Box::new(ast_view(*r)),
            li,
        ),
        AST::LogicalAnd(l, r, li) => AstView::LogicalAnd(
            Box::new(ast_view(*l)),
            Box::new(ast_view(*r)),
            li,
        ),
        AST::LogicalOr(l, r, li) => AstView::LogicalOr(
            Box::new(ast_view(*l)),
            Box::new(ast_view(*r)),
            li,
        ),
        AST::LogicalNot(e, li) => AstView::LogicalNot(Box::new(ast_view(*e)), li),
        AST::VarAssign { name, value, var_type, is_morph, line_info } => AstView::VarAssign {
            name: name@,
            value: Box::new(ast_view(*value)),
            var_type,
            is_morph,
            line_info,
        },
        AST::Assignment { name, value, op, line_info } => AstView::Assignment {
            name: name@,
            value: Box::new(ast_view(*value)),
            op,
            line_info,
        },
        AST::Var(name, li) => AstView::Var(name@, li),
        AST::Unveil(args, li) => AstView::Unveil(ast_views(args@), li),
        AST::Trans(e, t, li) => AstView::Trans(Box::new(ast_view(*e)), t, li),
        AST::Reveal(e, li) => AstView::Reveal(Box::new(ast_view(*e)), li),
        AST::Oracle { is_match, conditionals, branches, line_info } => AstView::Oracle {
            is_match,
            conditionals: cond_views(conditionals@),
            branches: ast_views(branches@),
            line_info,
        },
        AST::OracleBranch { pattern, body, line_info } => AstView::OracleBranch {
            pattern: ast_views(pattern@),
            body: Box::new(ast_view(*body)),
            line_info,
        },
        AST::OracleDontCareItem(li) => AstView::OracleDontCareItem(li),
        AST::Block(stmts, li) => AstView::Block(ast_views(stmts@), li),
        AST::Comment(s, li) => AstView::Comment(s@, li),
        AST::Orbit { params, body, line_info } => AstView::Orbit {
            params: ast_views(params@),
            body: Box::new(ast_view(*body)),
            line_info,
        },
        AST::OrbitParam { name, start, end, op, line_info } => AstView::OrbitParam {
            name: name@,
            start: Box::new(ast_view(*start)),
            end: Box::new(ast_view(*end)),
            op: op@,
            line_info,
        },
        AST::Resume(l, li) => AstView::Resume(label_view(l), li),
        AST::Eject(l, li) => AstView::Eject(label_view(l), li),
        AST::Engrave { name, params, return_type, body, line_info } => AstView::Engrave {
            name: name@,
            params: ast_views(params@),
            return_type,
            body: Box::new(ast_view(*body)),
            line_info,
        },
        AST::EngraveParam { name, param_type, line_info } => AstView::EngraveParam {
            name: name@,
            param_type,
            line_info,
        },
        AST::FuncCall { name, args, line_info } => AstView::FuncCall {
            name: name@,
            args: ast_views(args@),
            line_info,
        },
        AST::Summon(p, t, li) => AstView::Summon(p@, t, li),
    }
}

/// Element-wise [`ast_view`] over a sequence of nodes.
pub open spec fn ast_views(s: Seq<AST>) -> Seq<AstView>
    decreases s,
{
    Seq::new(
        s.len(),
        |i: int|
            if 0 <= i < s.len() {
                ast_view(s[i])
            } else {
                AstView::Abyss(None)
            },
    )
}

/// The spec-level mirror of a conditional binding.
pub open spec fn cond_view(c: ConditionalAssignment) -> CondView
    decreases c,
{
    CondView { variable: c.variable@, expression: Box::new(ast_view(*c.expression)), line_info: c.line_info }
}

/// A copy of an optional label, equal to the original under [`label_view`].
pub fn clone_label(l: &Option<String>) -> (r: Option<String>)
    ensures
        label_view(r) == label_view(*l),
{
    match l {
        Some(s) => Some(s.clone()),
        None => None,
    }
}

/// A deep copy of a node, equal to the original under [`ast_view`].
pub fn clone_ast(a: &AST) -> (r: AST)
    ensures
        ast_view(r) == ast_view(*a),
    decreases *a,
{
    match a {
        AST::Statement(e, li) => AST::Statement(Box::new(clone_ast(e)), *li),
        AST::Omen(b, li) => AST::Omen(*b, *li),
        AST::Arcana(n, li) => AST::Arcana(*n, *li),
        AST::Aether(n, li) => AST::Aether(*n, *li),
        AST::Rune(s, li) => AST::Rune(s.clone(), *li),
        AST::Abyss(li) => AST::Abyss(*li),
        AST::Add(l, r, li) => AST::Add(Box::new(clone_ast(l)), Box::new(clone_ast(r)), *li),
        AST::Sub(l, r, li) => AST::Sub(Box::new(clone_ast(l)), Box::new(clone_ast(r)), *li),
        AST::Mul(l, r, li) => AST::Mul(Box::new(clone_ast(l)), Box::new(clone_ast(r)), *li),
        AST::Div(l, r, li) => AST::Div(Box::new(clone_ast(l)), Box::new(clone_ast(r)), *li),
        AST::Mod(l, r, li) => AST::Mod(Box::new(clone_ast(l)), Box::new(clone_ast(r)), *li),
        AST::PowArcana(l, r, li) => AST::PowArcana(
            Box::new(clone_ast(l)),
            Box::new(clone_ast(r)),
            *li,
        ),
        AST::PowAether(l, r, li) => AST::PowAether(
            Box::new(clone_ast(l)),
            Box::new(clone_ast(r)),
            *li,
        ),
        AST::Equal(l, r, li) => AST::Equal(Box::new(clone_ast(l)), Box::new(clone_ast(r)), *li),
        AST::NotEqual(l, r, li) => AST::NotEqual(
            Box::new(clone_ast(l)),
            Box::new(clone_ast(r)),
            *li,
        ),
        AST::LessThan(l, r, li) => AST::LessThan(
            Box::new(clone_ast(l)),
            Box::new(clone_ast(r)),
            *li,
        ),
        AST::LessThanOrEqual(l, r, li) => AST::LessThanOrEqual(
            Box::new(clone_ast(l)),
            Box::new(clone_ast(r)),
            *li,
        ),
        AST::GreaterThan(l, r, li) => AST::GreaterThan(
            Box::new(clone_ast(l)),
            Box::new(clone_ast(r)),
            *li,
        ),
        AST::GreaterThanOrEqual(l, r, li) => AST::GreaterThanOrEqual(
            Box::new(clone_ast(l)),
            Box::new(clone_ast(r)),
            *li,
        ),
        AST::LogicalAnd(l, r, li) => AST::LogicalAnd(
            Box::new(clone_ast(l)),
            Box::new(clone_ast(r)),
            *li,
        ),
        AST::LogicalOr(l, r, li) => AST::LogicalOr(
            Box::new(clone_ast(l)),
            Box::new(clone_ast(r)),
            *li,
        ),
        AST::LogicalNot(e, li) => AST::LogicalNot(Box::new(clone_ast(e)), *li),
        AST::VarAssign { name, value, var_type, is_morph, line_info } => AST::VarAssign {
            name: name.clone(),
            value: Box::new(clone_ast(value)),
            var_type: *var_type,
            is_morph: *is_morph,
            line_info: *line_info,
        },
        AST::Assignment { name, value, op, line_info } => AST::Assignment {
            name: name.clone(),
            value: Box::new(clone_ast(value)),
            op: *op,
            line_info: *line_info,
        },
        AST::Var(name, li) => AST::Var(name.clone(), *li),
        AST::Unveil(args, li) => AST::Unveil(clone_asts(args), *li),
        AST::Trans(e, t, li) => AST::Trans(Box::new(clone_ast(e)), *t, *li),
        AST::Reveal(e, li) => AST::Reveal(Box::new(clone_ast(e)), *li),
        AST::Oracle { is_match, conditionals, branches, line_info } => AST::Oracle {
            is_match: *is_match,
            conditionals: clone_conds(conditionals),
            branches: clone_asts(branches),
            line_info: *line_info,
        },
        AST::OracleBranch { pattern, body, line_info } => AST::OracleBranch {
            pattern: clone_asts(pattern),
            body: Box::new(clone_ast(body)),
            line_info: *line_info,
        },
        AST::OracleDontCareItem(li) => AST::OracleDontCareItem(*li),
        AST::Block(stmts, li) => AST::Block(clone_asts(stmts), *li),
        AST::Comment(s, li) => AST::Comment(s.clone(), *li),
        AST::Orbit { params, body, line_info } => AST::Orbit {
            params: clone_asts(params),
            body: Box::new(clone_ast(body)),
            line_info: *line_info,
        },
        AST::OrbitParam { name, start, end, op, line_info } => AST::OrbitParam {
            name: name.clone(),
            start: Box::new(clone_ast(start)),
            end: Box::new(clone_ast(end)),
            op: op.clone(),
            line_info: *line_info,
        },
        AST::Resume(l, li) => AST::Resume(clone_label(l), *li),
        AST::Eject(l, li) => AST::Eject(clone_label(l), *li),
        AST::Engrave { name, params, return_type, body, line_info } => AST::Engrave {
            name: name.clone(),
            params: clone_asts(params),
            return_type: *return_type,
            body: Box::new(clone_ast(body)),
            line_info: *line_info,
        },
        AST::EngraveParam { name, param_type, line_info } => AST::EngraveParam {
            name: name.clone(),
            param_type: *param_type,
            line_info: *line_info,
        },
        AST::FuncCall { name, args, line_info } => AST::FuncCall {
            name: name.clone(),
            args: clone_asts(args),
            line_info: *line_info,
        },
        AST::Summon(p, t, li) => AST::Summon(p.clone(), *t, *li),
    }
}

/// A deep copy of a vector of nodes, element-wise equal under [`ast_view`].
pub fn clone_asts(v: &Vec<AST>) -> (r: Vec<AST>)
    ensures
        ast_views(r@) == ast_views(v@),
    decreases v@,
{
    let mut r: Vec<AST> = Vec::new();
    let mut i: usize = 0;
    while i < v.len()
        invariant
            i <= v.len(),
            r@.len() == i,
            forall|j: int| 0 <= j < i ==> ast_view(r@[j]) == ast_view(v@[j]),
        decreases v@.len() - i,
    {
        r.push(clone_ast(&v[i]));
        i = i + 1;
    }
    assert(ast_views(r@) =~= ast_views(v@));
    r
}

/// A deep copy of a conditional binding, equal under [`cond_view`].
pub fn clone_cond(c: &ConditionalAssignment) -> (r: ConditionalAssignment)
    ensures
        cond_view(r) == cond_view(*c),
    decreases *c,
{
    ConditionalAssignment {
        variable: c.variable.clone(),
        expression: Box::new(clone_ast(&c.expression)),
        line_info: c.line_info,
    }
}

/// A deep copy of a vector of conditional bindings, element-wise equal
/// under [`cond_view`].
pub fn clone_conds(v: &Vec<ConditionalAssignment>) -> (r: Vec<ConditionalAssignment>)
    ensures
        cond_views(r@) == cond_views(v@),
    decreases v@,
{
    let mut r: Vec<ConditionalAssignment> = Vec::new();
    let mut i: usize = 0;
    while i < v.len()
        invariant
            i <= v.len(),
            r@.len() == i,
            forall|j: int| 0 <= j < i ==> cond_view(r@[j]) == cond_view(v@[j]),
        decreases v@.len() - i,
    {
        r.push(clone_cond(&v[i]));
        i = i + 1;
    }
    assert(cond_views(r@) =~= cond_views(v@));
    r
}

/// Element-wise [`cond_view`] over a sequence of conditional bindings.
pub open spec fn cond_views(s: Seq<ConditionalAssignment>) -> Seq<CondView>
    decreases s,
{
    Seq::new(
        s.len(),
        |i: int|
            if 0 <= i < s.len() {
                cond_view(s[i])
            } else {
                CondView {
                    variable: Seq::empty(),
                    expression: Box::new(AstView::Abyss(None)),
                    line_info: None,
                }
            },
    )
}

} // verus!
