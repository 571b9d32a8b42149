//! The execution environment: a stack of variable scopes and a parallel
//! stack of function scopes.
//!
//! Both stacks are kept flat: one vector of `(name, entry)` pairs plus a
//! vector of scope marks, each mark the length the entry vector had when
//! that scope was opened.  Opening a scope pushes a mark; closing one
//! truncates the entries back to the last mark.  Name lookup scans the
//! entries from the end, so an inner declaration shadows an outer one and
//! a re-declaration in the same scope supersedes the earlier entry —
//! exactly the innermost-first discipline of a stack of maps.
//!
//! Closing the global scope is a no-op here (the scope-mark stack is
//! empty), so an unbalanced `pop_scope` cannot wreck the environment.

use vstd::prelude::*;
use vstd::string::StringExecFns;

verus! {

use crate::ast::AST;
use crate::ast::AstView;
use crate::ast::LineInfo;
use crate::ast::Type;
use crate::ast::ast_view;
use crate::ast::ast_views;
use crate::ast::clone_ast;
use crate::ast::clone_asts;
use crate::eval::ErrView;
use crate::eval::EvalError;
use crate::text::type_text;
use crate::text::type_text_v;

/// A runtime value.  `Aether` holds the bit pattern of the 64-bit IEEE 754
/// value.
#[derive(Debug)]
pub enum Value {
    Omen(bool),
    Arcana(i64),
    Aether(u64),
    Rune(String),
}

/// Spec-level mirror of [`Value`].
pub enum ValueView {
    Omen(bool),
    Arcana(i64),
    Aether(u64),
    Rune(Seq<char>),
}

/// The spec-level mirror of a value.
pub open spec fn value_view(v: Value) -> ValueView {
    match v {
        Value::Omen(b) => ValueView::Omen(b),
        Value::Arcana(n) => ValueView::Arcana(n),
        Value::Aether(n) => ValueView::Aether(n),
        Value::Rune(s) => ValueView::Rune(s@),
    }
}

/// A copy of a value, equal to the original under [`value_view`].
pub fn clone_value(v: &Value) -> (r: Value)
    ensures
        value_view(r) == value_view(*v),
{
    match v {
        Value::Omen(b) => Value::Omen(*b),
        Value::Arcana(n) => Value::Arcana(*n),
        Value::Aether(n) => Value::Aether(*n),
        Value::Rune(s) => Value::Rune(s.clone()),
    }
}

/// What a scope stores about one variable.
#[derive(Debug)]
pub struct VarInfo {
    pub value: Value,
    pub var_type: Type,
    pub is_morph: bool,
    pub line_info: Option<LineInfo>,
}

/// Spec-level mirror of [`VarInfo`].
pub struct VarInfoView {
    pub value: ValueView,
    pub var_type: Type,
    pub is_morph: bool,
    pub line_info: Option<LineInfo>,
}

/// The spec-level mirror of a variable entry.
pub open spec fn varinfo_view(v: VarInfo) -> VarInfoView {
    VarInfoView {
        value: value_view(v.value),
        var_type: v.var_type,
        is_morph: v.is_morph,
        line_info: v.line_info,
    }
}

/// A copy of a variable entry, equal under [`varinfo_view`].
pub fn clone_varinfo(v: &VarInfo) -> (r: VarInfo)
    ensures
        varinfo_view(r) == varinfo_view(*v),
{
    VarInfo {
        value: clone_value(&v.value),
        var_type: v.var_type,
        is_morph: v.is_morph,
        line_info: v.line_info,
    }
}

/// A declared function: its parameters, return type and body.
#[derive(Debug)]
pub struct Function {
    pub name: String,
    pub params: Vec<AST>,
    pub return_type: Type,
    pub body: Box<AST>,
    pub line_info: Option<LineInfo>,
}

/// Spec-level mirror of [`Function`].
pub struct FunView {
    pub name: Seq<char>,
    pub params: Seq<AstView>,
    pub return_type: Type,
    pub body: Box<AstView>,
    pub line_info: Option<LineInfo>,
}

/// The spec-level mirror of a function entry.
pub open spec fn fun_view(f: Function) -> FunView {
    FunView {
        name: f.name@,
        params: ast_views(f.params@),
        return_type: f.return_type,
        body: Box::new(ast_view(*f.body)),
        line_info: f.line_info,
    }
}

/// A copy of a function entry, equal under [`fun_view`].
pub fn clone_function(f: &Function) -> (r: Function)
    ensures
        fun_view(r) == fun_view(*f),
{
    Function {
        name: f.name.clone(),
        params: clone_asts(&f.params),
        return_type: f.return_type,
        body: Box::new(clone_ast(&f.body)),
        line_info: f.line_info,
    }
}

/// The environment: variable entries and function entries, each with its
/// scope marks.
#[derive(Debug)]
pub struct Environment {
    vars: Vec<(String, VarInfo)>,
    vmarks: Vec<usize>,
    funs: Vec<(String, Function)>,
    fmarks: Vec<usize>,
}

/// Spec-level mirror of [`Environment`].
pub struct EnvView {
    pub vars: Seq<(Seq<char>, VarInfoView)>,
    pub vmarks: Seq<int>,
    pub funs: Seq<(Seq<char>, FunView)>,
    pub fmarks: Seq<int>,
}

/// Element-wise view of the variable entries.
pub open spec fn vars_view(v: Seq<(String, VarInfo)>) -> Seq<(Seq<char>, VarInfoView)> {
    Seq::new(v.len(), |i: int| (v[i].0@, varinfo_view(v[i].1)))
}

/// Element-wise view of the function entries.
pub open spec fn funs_view(v: Seq<(String, Function)>) -> Seq<(Seq<char>, FunView)> {
    Seq::new(v.len(), |i: int| (v[i].0@, fun_view(v[i].1)))
}

/// Element-wise view of the scope marks.
pub open spec fn marks_view(v: Seq<usize>) -> Seq<int> {
    Seq::new(v.len(), |i: int| v[i] as int)
}

impl View for Environment {
    type V = EnvView;

    closed spec fn view(&self) -> EnvView {
        EnvView {
            vars: vars_view(self.vars@),
            vmarks: marks_view(self.vmarks@),
            funs: funs_view(self.funs@),
            fmarks: marks_view(self.fmarks@),
        }
    }
}

/// The environment a fresh session starts with: one open (global) scope
/// and no entries.
pub open spec fn env_empty() -> EnvView {
    EnvView {
        vars: Seq::empty(),
        vmarks: Seq::empty(),
        funs: Seq::empty(),
        fmarks: Seq::empty(),
    }
}

/// Opening a scope: both mark stacks record their current length.
pub open spec fn push_s(e: EnvView) -> EnvView {
    EnvView {
        vars: e.vars,
        vmarks: e.vmarks.push(e.vars.len() as int),
        funs: e.funs,
        fmarks: e.fmarks.push(e.funs.len() as int),
    }
}

/// The length a stack shrinks back to when a scope closes.
pub open spec fn cut_to(len: int, mark: int) -> int {
    if mark <= len {
        mark
    } else {
        len
    }
}

/// Closing a scope: each side truncates to its last mark, if it has one.
pub open spec fn pop_s(e: EnvView) -> EnvView {
    let vars = if e.vmarks.len() > 0 {
        e.vars.take(cut_to(e.vars.len() as int, e.vmarks.last()))
    } else {
        e.vars
    };
    let vmarks = if e.vmarks.len() > 0 {
        e.vmarks.drop_last()
    } else {
        e.vmarks
    };
    let funs = if e.fmarks.len() > 0 {
        e.funs.take(cut_to(e.funs.len() as int, e.fmarks.last()))
    } else {
        e.funs
    };
    let fmarks = if e.fmarks.len() > 0 {
        e.fmarks.drop_last()
    } else {
        e.fmarks
    };
    EnvView { vars, vmarks, funs, fmarks }
}

/// Declaring a variable: a new entry at the end, shadowing any earlier one.
pub open spec fn declare_s(
    e: EnvView,
    name: Seq<char>,
    value: ValueView,
    var_type: Type,
    is_morph: bool,
    line_info: Option<LineInfo>,
) -> EnvView {
    EnvView {
        vars: e.vars.push((name, VarInfoView { value, var_type, is_morph, line_info })),
        vmarks: e.vmarks,
        funs: e.funs,
        fmarks: e.fmarks,
    }
}

/// Declaring a function: a new entry at the end, shadowing any earlier one.
pub open spec fn declare_fun_s(e: EnvView, name: Seq<char>, f: FunView) -> EnvView {
    EnvView {
        vars: e.vars,
        vmarks: e.vmarks,
        funs: e.funs.push((name, f)),
        fmarks: e.fmarks,
    }
}

/// The index of the innermost entry for `name`, or -1 when there is none.
pub open spec fn var_index(vars: Seq<(Seq<char>, VarInfoView)>, name: Seq<char>) -> int
    decreases vars.len(),
{
    if vars.len() == 0 {
        -1
    } else if vars.last().0 == name {
        vars.len() - 1
    } else {
        var_index(vars.drop_last(), name)
    }
}

/// The index of the innermost function entry for `name`, or -1.
pub open spec fn fun_index(funs: Seq<(Seq<char>, FunView)>, name: Seq<char>) -> int
    decreases funs.len(),
{
    if funs.len() == 0 {
        -1
    } else if funs.last().0 == name {
        funs.len() - 1
    } else {
        fun_index(funs.drop_last(), name)
    }
}

/// The innermost entry for `name`, if any.
pub open spec fn lookup_var(e: EnvView, name: Seq<char>) -> Option<VarInfoView> {
    let i = var_index(e.vars, name);
    if i >= 0 {
        Some(e.vars[i].1)
    } else {
        None
    }
}

/// The innermost function entry for `name`, if any.
pub open spec fn lookup_fun(e: EnvView, name: Seq<char>) -> Option<FunView> {
    let i = fun_index(e.funs, name);
    if i >= 0 {
        Some(e.funs[i].1)
    } else {
        None
    }
}

/// The message raised when an immutable variable is reassigned.
pub open spec fn immutable_msg_v(name: Seq<char>) -> Seq<char> {
    "Cannot reassign to immutable variable "@ + name
}

/// The message raised when a reassignment carries the wrong type.
pub open spec fn assign_mismatch_msg_v(t: Type, name: Seq<char>, stored: Type) -> Seq<char> {
    "Type mismatch: cannot assign "@ + type_text_v(t) + " to variable "@ + name + " of type "@
        + type_text_v(stored)
}

/// Reassignment of the innermost entry for `name`: refused when the entry
/// is missing, immutable, or of another declared type; otherwise the
/// stored value is replaced in place.
pub open spec fn update_var_s(
    e: EnvView,
    name: Seq<char>,
    value: ValueView,
    var_type: Type,
    line_info: Option<LineInfo>,
) -> (EnvView, Result<(), ErrView>) {
    let i = var_index(e.vars, name);
    if i < 0 {
        (e, Err(ErrView::UndefinedVariable(name, line_info)))
    } else {
        let vi = e.vars[i].1;
        if !vi.is_morph {
            (e, Err(ErrView::InvalidOperation(immutable_msg_v(name), line_info)))
        } else if vi.var_type != var_type {
            (
                e,
                Err(
                    ErrView::InvalidOperation(
                        assign_mismatch_msg_v(var_type, name, vi.var_type),
                        line_info,
                    ),
                ),
            )
        } else {
            (
                EnvView {
                    vars: e.vars.update(
                        i,
                        (
                            e.vars[i].0,
                            VarInfoView {
                                value,
                                var_type: vi.var_type,
                                is_morph: vi.is_morph,
                                line_info: vi.line_info,
                            },
                        ),
                    ),
                    vmarks: e.vmarks,
                    funs: e.funs,
                    fmarks: e.fmarks,
                },
                Ok(()),
            )
        }
    }
}

/// The spec-level mirror of a unit result.
pub open spec fn unit_res_view(r: Result<(), EvalError>) -> Result<(), ErrView> {
    match r {
        Ok(u) => Ok(u),
        Err(e) => Err(crate::eval::err_view(e)),
    }
}

impl Environment {
    /// A new environment holding only the (empty) global scope.
    pub fn new() -> (r: Environment)
        ensures
            r@ == env_empty(),
    {
        let r = Environment { vars: Vec::new(), vmarks: Vec::new(), funs: Vec::new(), fmarks: Vec::new() };
        proof {
            assert(r@.vars =~= env_empty().vars);
            assert(r@.vmarks =~= env_empty().vmarks);
            assert(r@.funs =~= env_empty().funs);
            assert(r@.fmarks =~= env_empty().fmarks);
        }
        r
    }

    /// Opens a new scope for variables and functions.
    pub fn push_scope(&mut self)
        ensures
            final(self)@ == push_s(old(self)@),
    {
        let vlen = self.vars.len();
        let flen = self.funs.len();
        self.vmarks.push(vlen);
        self.fmarks.push(flen);
        proof {
            assert(self@.vmarks =~= push_s(old(self)@).vmarks);
            assert(self@.fmarks =~= push_s(old(self)@).fmarks);
            assert(self@.vars =~= push_s(old(self)@).vars);
            assert(self@.funs =~= push_s(old(self)@).funs);
        }
    }

    /// Closes the innermost scope, discarding what it declared.  Closing
    /// the global scope discards nothing.
    pub fn pop_scope(&mut self)
        ensures
            final(self)@ == pop_s(old(self)@),
    {
        match self.vmarks.pop() {
            Some(m) => {
                let m2 = if m <= self.vars.len() {
                    m
                } else {
                    self.vars.len()
                };
                self.vars.truncate(m2);
            },
            None => {},
        }
        match self.fmarks.pop() {
            Some(m) => {
                let m2 = if m <= self.funs.len() {
                    m
                } else {
                    self.funs.len()
                };
                self.funs.truncate(m2);
            },
            None => {},
        }
        proof {
            assert(self@.vars =~= pop_s(old(self)@).vars);
            assert(self@.vmarks =~= pop_s(old(self)@).vmarks);
            assert(self@.funs =~= pop_s(old(self)@).funs);
            assert(self@.fmarks =~= pop_s(old(self)@).fmarks);
        }
    }

    /// Declares a variable in the innermost scope, shadowing any earlier
    /// binding of the same name.
    pub fn set_var(
        &mut self,
        name: String,
        value: Value,
        var_type: Type,
        is_morph: bool,
        line_info: Option<LineInfo>,
    )
        ensures
            final(self)@ == declare_s(
                old(self)@,
                name@,
                value_view(value),
                var_type,
                is_morph,
                line_info,
            ),
    {
        let ghost target = declare_s(old(self)@, name@, value_view(value), var_type, is_morph, line_info);
        self.vars.push((name, VarInfo { value, var_type, is_morph, line_info }));
        proof {
            assert(self@.vars =~= target.vars);
        }
    }

    /// The innermost binding of `name`, searching inner scopes first.
    pub fn get_var(&self, name: &str) -> (r: Option<&VarInfo>)
        ensures
            match r {
                Some(vi) => lookup_var(self@, name@) == Some(varinfo_view(*vi)),
                None => lookup_var(self@, name@) is None,
            },
    {
        let key: String = name.to_owned();
        let mut i: usize = self.vars.len();
        proof {
            assert(self@.vars.take(self@.vars.len() as int) =~= self@.vars);
        }
        while i > 0
            invariant
                i <= self.vars.len(),
                key@ == name@,
                var_index(self@.vars, name@) == var_index(self@.vars.take(i as int), name@),
            decreases i,
        {
            proof {
                assert(self@.vars.take(i as int).last() == self@.vars[i - 1]);
                assert(self@.vars.take(i as int).drop_last() =~= self@.vars.take(i - 1));
            }
            if self.vars[i - 1].0 == key {
                assert(var_index(self@.vars, name@) == i - 1);
                return Some(&self.vars[i - 1].1);
            }
            i = i - 1;
        }
        proof {
            assert(self@.vars.take(0) =~= Seq::<(Seq<char>, VarInfoView)>::empty());
        }
        None
    }

    /// Reassigns the innermost binding of `name`; refuses a missing name,
    /// an immutable binding, or a mismatched declared type.
    pub fn update_var(
        &mut self,
        name: &str,
        value: Value,
        var_type: Type,
        line_info: Option<LineInfo>,
    ) -> (r: Result<(), EvalError>)
        ensures
            ({
                let (e2, r2) = update_var_s(
                    old(self)@,
                    name@,
                    value_view(value),
                    var_type,
                    line_info,
                );
                final(self)@ == e2 && unit_res_view(r) == r2
            }),
    {
        let key: String = name.to_owned();
        let mut i: usize = self.vars.len();
        proof {
            assert(self@.vars.take(self@.vars.len() as int) =~= self@.vars);
        }
        while i > 0
            invariant
                i <= self.vars.len(),
                key@ == name@,
                self@ == old(self)@,
                var_index(self@.vars, name@) == var_index(self@.vars.take(i as int), name@),
            decreases i,
        {
            proof {
                assert(self@.vars.take(i as int).last() == self@.vars[i - 1]);
                assert(self@.vars.take(i as int).drop_last() =~= self@.vars.take(i - 1));
            }
            if self.vars[i - 1].0 == key {
                let idx = i - 1;
                assert(var_index(self@.vars, name@) == idx);
                if !self.vars[idx].1.is_morph {
                    let mut m = String::from_str("Cannot reassign to immutable variable ");
                    m.append(name);
                    return Err(EvalError::InvalidOperation(m, line_info));
                }
                let stored_type = self.vars[idx].1.var_type;
                if stored_type != var_type {
                    let mut m = String::from_str("Type mismatch: cannot assign ");
                    m.append(type_text(var_type).as_str());
                    m.append(" to variable ");
                    m.append(name);
                    m.append(" of type ");
                    m.append(type_text(stored_type).as_str());
                    return Err(EvalError::InvalidOperation(m, line_info));
                }
                let stored_morph = self.vars[idx].1.is_morph;
                let stored_li = self.vars[idx].1.line_info;
                let stored_name = self.vars[idx].0.clone();
                let new_pair = (
                    stored_name,
                    VarInfo {
                        value,
                        var_type: stored_type,
                        is_morph: stored_morph,
                        line_info: stored_li,
                    },
                );
                let ghost pair_v = new_pair;
                let ghost base = self.vars@;
                proof {
                    assert(vars_view(base) == old(self)@.vars);
                }
                self.vars.set(idx, new_pair);
                proof {
                    assert(self.vars@ == base.update(idx as int, pair_v));
                    let so = update_var_s(
                        old(self)@,
                        name@,
                        value_view(value),
                        var_type,
                        line_info,
                    );
                    let v0 = old(self)@.vars;
                    let nv = self@.vars;
                    let target = VarInfoView {
                        value: value_view(value),
                        var_type: v0[idx as int].1.var_type,
                        is_morph: v0[idx as int].1.is_morph,
                        line_info: v0[idx as int].1.line_info,
                    };
                    assert(var_index(v0, name@) == idx);
                    assert(v0[idx as int].1.is_morph);
                    assert(v0[idx as int].1.var_type == var_type);
                    assert(so.0.vars == v0.update(idx as int, (v0[idx as int].0, target)));
                    assert forall|j: int| 0 <= j < nv.len() implies nv[j] == so.0.vars[j] by {
                        if j == idx {
                            assert(base.update(idx as int, pair_v)[j] == pair_v);
                            assert(v0.update(idx as int, (v0[idx as int].0, target))[j] == (
                                v0[idx as int].0,
                                target,
                            ));
                            assert(nv[j].0 == pair_v.0@);
                            assert(pair_v.0@ == base[idx as int].0@);
                            assert(vars_view(base)[j] == v0[j]);
                            assert(nv[j].0 == v0[j].0);
                            assert(nv[j].1 == varinfo_view(pair_v.1));
                            assert(varinfo_view(pair_v.1) == target);
                        } else {
                            assert(base.update(idx as int, pair_v)[j] == base[j]);
                            assert(v0.update(idx as int, (v0[idx as int].0, target))[j] == v0[j]);
                            assert(nv[j] == vars_view(base)[j]);
                            assert(vars_view(base)[j] == v0[j]);
                        }
                    }
                    assert(nv =~= so.0.vars);
                    assert(self@.vmarks == so.0.vmarks);
                    assert(self@.funs == so.0.funs);
                    assert(self@.fmarks == so.0.fmarks);
                }
                return Ok(());
            }
            i = i - 1;
        }
        proof {
            assert(self@.vars.take(0) =~= Seq::<(Seq<char>, VarInfoView)>::empty());
        }
        let mut m = String::new();
        m.append(name);
        Err(EvalError::UndefinedVariable(m, line_info))
    }

    /// Declares a function in the innermost scope, shadowing any earlier
    /// declaration of the same name.
    pub fn set_function(&mut self, name: String, function: Function)
        ensures
            final(self)@ == declare_fun_s(old(self)@, name@, fun_view(function)),
    {
        let ghost target = declare_fun_s(old(self)@, name@, fun_view(function));
        self.funs.push((name, function));
        proof {
            assert(self@.funs =~= target.funs);
        }
    }

    /// The innermost declaration of `name`, searching inner scopes first.
    pub fn get_function(&self, name: &str) -> (r: Option<&Function>)
        ensures
            match r {
                Some(f) => lookup_fun(self@, name@) == Some(fun_view(*f)),
                None => lookup_fun(self@, name@) is None,
            },
    {
        let key: String = name.to_owned();
        let mut i: usize = self.funs.len();
        proof {
            assert(self@.funs.take(self@.funs.len() as int) =~= self@.funs);
        }
        while i > 0
            invariant
                i <= self.funs.len(),
                key@ == name@,
                fun_index(self@.funs, name@) == fun_index(self@.funs.take(i as int), name@),
            decreases i,
        {
            proof {
                assert(self@.funs.take(i as int).last() == self@.funs[i - 1]);
                assert(self@.funs.take(i as int).drop_last() =~= self@.funs.take(i - 1));
            }
            if self.funs[i - 1].0 == key {
                assert(fun_index(self@.funs, name@) == i - 1);
                return Some(&self.funs[i - 1].1);
            }
            i = i - 1;
        }
        proof {
            assert(self@.funs.take(0) =~= Seq::<(Seq<char>, FunView)>::empty());
        }
        None
    }

    /// An independent copy of the whole environment, equal under the view.
    pub fn duplicate(&self) -> (r: Environment)
        ensures
            r@ == self@,
    {
        let mut vars: Vec<(String, VarInfo)> = Vec::new();
        let mut i: usize = 0;
        while i < self.vars.len()
            invariant
                i <= self.vars.len(),
                vars@.len() == i,
                forall|j: int|
                    0 <= j < i ==> vars@[j].0@ == self.vars@[j].0@ && varinfo_view(vars@[j].1)
                        == varinfo_view(self.vars@[j].1),
            decreases self.vars.len() - i,
        {
            vars.push((self.vars[i].0.clone(), clone_varinfo(&self.vars[i].1)));
            i = i + 1;
        }
        let mut funs: Vec<(String, Function)> = Vec::new();
        let mut k: usize = 0;
        while k < self.funs.len()
            invariant
                k <= self.funs.len(),
                funs@.len() == k,
                forall|j: int|
                    0 <= j < k ==> funs@[j].0@ == self.funs@[j].0@ && fun_view(funs@[j].1)
                        == fun_view(self.funs@[j].1),
            decreases self.funs.len() - k,
        {
            funs.push((self.funs[k].0.clone(), clone_function(&self.funs[k].1)));
            k = k + 1;
        }
        let mut vmarks: Vec<usize> = Vec::new();
        let mut a: usize = 0;
        while a < self.vmarks.len()
            invariant
                a <= self.vmarks.len(),
                vmarks@ =~= self.vmarks@.take(a as int),
            decreases self.vmarks.len() - a,
        {
            vmarks.push(self.vmarks[a]);
            a = a + 1;
        }
        let mut fmarks: Vec<usize> = Vec::new();
        let mut b: usize = 0;
        while b < self.fmarks.len()
            invariant
                b <= self.fmarks.len(),
                fmarks@ =~= self.fmarks@.take(b as int),
            decreases self.fmarks.len() - b,
        {
            fmarks.push(self.fmarks[b]);
            b = b + 1;
        }
        let r = Environment { vars, vmarks, funs, fmarks };
        proof {
            assert(self.vmarks@.take(self.vmarks@.len() as int) =~= self.vmarks@);
            assert(self.fmarks@.take(self.fmarks@.len() as int) =~= self.fmarks@);
            assert(r@.vars =~= self@.vars);
            assert(r@.funs =~= self@.funs);
            assert(r@.vmarks =~= self@.vmarks);
            assert(r@.fmarks =~= self@.fmarks);
        }
        r
    }
}

} // verus!
