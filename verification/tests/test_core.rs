use abyss_lang::ast::{ConditionalAssignment, Type, AST};
use abyss_lang::env::Environment;
use abyss_lang::eval::{evaluate, EvalError, EvalResult, Halt};
use abyss_lang::host::{AetherBinOp, AetherCmpOp, AetherQuery, AetherReply, Host};

fn answer(q: &AetherQuery) -> AetherReply {
    match q {
        AetherQuery::Bin(op, a, b) => {
            let x = f64::from_bits(*a);
            let y = f64::from_bits(*b);
            let r = match op {
                AetherBinOp::Add => x + y,
                AetherBinOp::Sub => x - y,
                AetherBinOp::Mul => x * y,
                AetherBinOp::Div => x / y,
                AetherBinOp::Mod => x % y,
                AetherBinOp::Pow => x.powf(y),
            };
            AetherReply::Bits(r.to_bits())
        }
        AetherQuery::Cmp(op, a, b) => {
            let x = f64::from_bits(*a);
            let y = f64::from_bits(*b);
            let r = match op {
                AetherCmpOp::Lt => x < y,
                AetherCmpOp::Le => x <= y,
                AetherCmpOp::Gt => x > y,
                AetherCmpOp::Ge => x >= y,
            };
            AetherReply::Truth(r)
        }
        AetherQuery::OfArcana(n) => AetherReply::Bits((*n as f64).to_bits()),
        AetherQuery::ToArcana(a) => AetherReply::Num(f64::from_bits(*a) as i64),
        AetherQuery::Parse(s) => match s.parse::<f64>() {
            Ok(v) => AetherReply::ParseOk(v.to_bits()),
            Err(_) => AetherReply::ParseFail,
        },
        AetherQuery::Text(a) => AetherReply::Words(format!("{}", f64::from_bits(*a))),
    }
}

fn clone_q(q: &AetherQuery) -> AetherQuery {
    match q {
        AetherQuery::Bin(op, a, b) => AetherQuery::Bin(*op, *a, *b),
        AetherQuery::Cmp(op, a, b) => AetherQuery::Cmp(*op, *a, *b),
        AetherQuery::OfArcana(n) => AetherQuery::OfArcana(*n),
        AetherQuery::ToArcana(n) => AetherQuery::ToArcana(*n),
        AetherQuery::Parse(s) => AetherQuery::Parse(s.clone()),
        AetherQuery::Text(n) => AetherQuery::Text(*n),
    }
}

/// Runs the statements in order, replaying with native floating-point
/// answers whenever the evaluator asks for one.
fn run(stmts: &[AST], input: Vec<String>) -> Vec<Result<EvalResult, EvalError>> {
    let mut env = Environment::new();
    let mut host = Host::new(input);
    let mut out = Vec::new();
    for st in stmts {
        loop {
            let env_snap = env.duplicate();
            let host_snap = host.duplicate();
            match evaluate(st, &mut env, &mut host) {
                Ok(v) => {
                    out.push(Ok(v));
                    break;
                }
                Err(Halt::Failed(e)) => {
                    out.push(Err(e));
                    break;
                }
                Err(Halt::NeedAether(q)) => {
                    let rep = answer(&q);
                    env = env_snap;
                    host = host_snap;
                    host.give(clone_q(&q), rep);
                }
                Err(Halt::NeedInput) => panic!("input exhausted"),
                Err(Halt::OutOfFuel) => panic!("out of fuel"),
            }
        }
    }
    out
}

fn arc(n: i64) -> AST {
    AST::Arcana(n, None)
}

fn aeth(x: f64) -> AST {
    AST::Aether(x.to_bits(), None)
}

fn b(a: AST) -> Box<AST> {
    Box::new(a)
}

fn var(name: &str) -> AST {
    AST::Var(name.to_string(), None)
}

fn rune(s: &str) -> AST {
    AST::Rune(s.to_string(), None)
}

fn forge(name: &str, morph: bool, t: Type, value: AST) -> AST {
    AST::VarAssign {
        name: name.to_string(),
        value: Box::new(value),
        var_type: t,
        is_morph: morph,
        line_info: None,
    }
}

#[test]
fn test_arcana_arithmetic() {
    let r = run(
        &[
            AST::Add(b(arc(123)), b(arc(456)), None),
            AST::Sub(b(arc(10)), b(arc(3)), None),
            AST::Mul(b(arc(6)), b(arc(7)), None),
            AST::Div(b(arc(20)), b(arc(5)), None),
            AST::Mod(b(arc(7)), b(arc(4)), None),
        ],
        vec![],
    );
    assert!(matches!(r[0], Ok(EvalResult::Arcana(579))));
    assert!(matches!(r[1], Ok(EvalResult::Arcana(7))));
    assert!(matches!(r[2], Ok(EvalResult::Arcana(42))));
    assert!(matches!(r[3], Ok(EvalResult::Arcana(4))));
    assert!(matches!(r[4], Ok(EvalResult::Arcana(3))));
}

#[test]
fn test_aether_arithmetic_matches_native() {
    let r = run(
        &[
            AST::Add(b(aeth(1.1)), b(aeth(2.2)), None),
            AST::Mul(b(aeth(2.5)), b(aeth(4.0)), None),
            AST::PowAether(b(aeth(2.5)), b(aeth(3.0)), None),
        ],
        vec![],
    );
    match &r[0] {
        Ok(EvalResult::Aether(bits)) => assert_eq!(f64::from_bits(*bits), 1.1 + 2.2),
        _ => panic!("expected an Aether result"),
    }
    match &r[1] {
        Ok(EvalResult::Aether(bits)) => assert_eq!(f64::from_bits(*bits), 2.5 * 4.0),
        _ => panic!("expected an Aether result"),
    }
    match &r[2] {
        Ok(EvalResult::Aether(bits)) => assert_eq!(f64::from_bits(*bits), 2.5_f64.powf(3.0)),
        _ => panic!("expected an Aether result"),
    }
}

#[test]
fn test_forge_morph_and_compound_assign() {
    // forge morph x: arcana = 10; x += 5; x;
    let r = run(
        &[
            forge("x", true, Type::Arcana, arc(10)),
            AST::Assignment {
                name: "x".to_string(),
                value: b(arc(5)),
                op: abyss_lang::ast::AssignmentOp::AddAssign,
                line_info: None,
            },
            var("x"),
        ],
        vec![],
    );
    assert!(matches!(r[0], Ok(EvalResult::Abyss)));
    assert!(matches!(r[1], Ok(EvalResult::Abyss)));
    assert!(matches!(r[2], Ok(EvalResult::Arcana(15))));
}

#[test]
fn test_forge_reassign_immutable() {
    let r = run(
        &[
            forge("x", false, Type::Arcana, arc(42)),
            AST::Assignment {
                name: "x".to_string(),
                value: b(arc(84)),
                op: abyss_lang::ast::AssignmentOp::Assign,
                line_info: None,
            },
        ],
        vec![],
    );
    assert!(matches!(r[1], Err(EvalError::InvalidOperation(..))));
}

#[test]
fn test_forge_reassign_different_type() {
    let r = run(
        &[
            forge("x", true, Type::Rune, rune("Hello")),
            AST::Assignment {
                name: "x".to_string(),
                value: b(arc(42)),
                op: abyss_lang::ast::AssignmentOp::Assign,
                line_info: None,
            },
        ],
        vec![],
    );
    assert!(matches!(r[1], Err(EvalError::InvalidOperation(..))));
}

#[test]
fn test_oracle_guard_default_branch() {
    // forge x: arcana = 0; oracle { x > 0 => "pos"; x < 0 => "neg"; _ => "zero" };
    let branch = |pattern: Vec<AST>, body: AST| AST::OracleBranch {
        pattern,
        body: Box::new(body),
        line_info: None,
    };
    let r = run(
        &[
            forge("x", false, Type::Arcana, arc(0)),
            AST::Oracle {
                is_match: false,
                conditionals: vec![],
                branches: vec![
                    branch(vec![AST::GreaterThan(b(var("x")), b(arc(0)), None)], rune("pos")),
                    branch(vec![AST::LessThan(b(var("x")), b(arc(0)), None)], rune("neg")),
                    branch(vec![], rune("zero")),
                ],
                line_info: None,
            },
        ],
        vec![],
    );
    match &r[1] {
        Ok(EvalResult::Rune(s)) => assert_eq!(s, "zero"),
        _ => panic!("expected a Rune result"),
    }
}

#[test]
fn test_oracle_match_dont_care() {
    // oracle (a, b) with a=3, b=2: (_, 2) matches.
    let cond = |name: &str, e: AST| ConditionalAssignment {
        variable: name.to_string(),
        expression: Box::new(e),
        line_info: None,
    };
    let r = run(
        &[
            forge("a", false, Type::Arcana, arc(3)),
            forge("b", false, Type::Arcana, arc(2)),
            AST::Oracle {
                is_match: true,
                conditionals: vec![cond("__match_0", var("a")), cond("__match_1", var("b"))],
                branches: vec![
                    AST::OracleBranch {
                        pattern: vec![arc(1), arc(2)],
                        body: Box::new(rune("one two")),
                        line_info: None,
                    },
                    AST::OracleBranch {
                        pattern: vec![AST::OracleDontCareItem(None), arc(2)],
                        body: Box::new(rune("any two")),
                        line_info: None,
                    },
                    AST::OracleBranch {
                        pattern: vec![],
                        body: Box::new(rune("other")),
                        line_info: None,
                    },
                ],
                line_info: None,
            },
        ],
        vec![],
    );
    match &r[2] {
        Ok(EvalResult::Rune(s)) => assert_eq!(s, "any two"),
        _ => panic!("expected a Rune result"),
    }
}

#[test]
fn test_orbit_with_eject() {
    // forge morph sum = 0; orbit(i = 0..5) { oracle(i == 3) { (boon) => eject; }; sum += i; }; sum;
    let r = run(
        &[
            forge("sum", true, Type::Arcana, arc(0)),
            AST::Orbit {
                params: vec![AST::OrbitParam {
                    name: "i".to_string(),
                    start: b(arc(0)),
                    end: b(arc(5)),
                    op: "..".to_string(),
                    line_info: None,
                }],
                body: Box::new(AST::Block(
                    vec![
                        AST::Oracle {
                            is_match: true,
                            conditionals: vec![ConditionalAssignment {
                                variable: "__match_0".to_string(),
                                expression: Box::new(AST::Equal(b(var("i")), b(arc(3)), None)),
                                line_info: None,
                            }],
                            branches: vec![AST::OracleBranch {
                                pattern: vec![AST::Omen(true, None)],
                                body: Box::new(AST::Eject(None, None)),
                                line_info: None,
                            }],
                            line_info: None,
                        },
                        AST::Assignment {
                            name: "sum".to_string(),
                            value: b(var("i")),
                            op: abyss_lang::ast::AssignmentOp::AddAssign,
                            line_info: None,
                        },
                    ],
                    None,
                )),
                line_info: None,
            },
            var("sum"),
        ],
        vec![],
    );
    assert!(matches!(r[2], Ok(EvalResult::Arcana(3))));
}

#[test]
fn test_recursive_factorial() {
    // engrave factorial(n: arcana) -> arcana { oracle(n == 0) { (boon) => reveal 1; (hex) => reveal n * factorial(n - 1); }; };
    let body = AST::Block(
        vec![AST::Oracle {
            is_match: true,
            conditionals: vec![ConditionalAssignment {
                variable: "__match_0".to_string(),
                expression: Box::new(AST::Equal(b(var("n")), b(arc(0)), None)),
                line_info: None,
            }],
            branches: vec![
                AST::OracleBranch {
                    pattern: vec![AST::Omen(true, None)],
                    body: Box::new(AST::Reveal(b(arc(1)), None)),
                    line_info: None,
                },
                AST::OracleBranch {
                    pattern: vec![AST::Omen(false, None)],
                    body: Box::new(AST::Reveal(
                        b(AST::Mul(
                            b(var("n")),
                            b(AST::FuncCall {
                                name: "factorial".to_string(),
                                args: vec![AST::Sub(b(var("n")), b(arc(1)), None)],
                                line_info: None,
                            }),
                            None,
                        )),
                        None,
                    )),
                    line_info: None,
                },
            ],
            line_info: None,
        }],
        None,
    );
    let r = run(
        &[
            AST::Engrave {
                name: "factorial".to_string(),
                params: vec![AST::EngraveParam {
                    name: "n".to_string(),
                    param_type: Type::Arcana,
                    line_info: None,
                }],
                return_type: Type::Arcana,
                body: Box::new(body),
                line_info: None,
            },
            AST::FuncCall {
                name: "factorial".to_string(),
                args: vec![arc(5)],
                line_info: None,
            },
        ],
        vec![],
    );
    assert!(matches!(r[1], Ok(EvalResult::Arcana(120))));
}

#[test]
fn test_infinite_orbit_with_eject() {
    // forge morph count = 0; orbit { count += 1; oracle(count == 10) { (boon) => eject; }; }; count;
    let r = run(
        &[
            forge("count", true, Type::Arcana, arc(0)),
            AST::Orbit {
                params: vec![],
                body: Box::new(AST::Block(
                    vec![
                        AST::Assignment {
                            name: "count".to_string(),
                            value: b(arc(1)),
                            op: abyss_lang::ast::AssignmentOp::AddAssign,
                            line_info: None,
                        },
                        AST::Oracle {
                            is_match: true,
                            conditionals: vec![ConditionalAssignment {
                                variable: "__match_0".to_string(),
                                expression: Box::new(AST::Equal(b(var("count")), b(arc(10)), None)),
                                line_info: None,
                            }],
                            branches: vec![AST::OracleBranch {
                                pattern: vec![AST::Omen(true, None)],
                                body: Box::new(AST::Eject(None, None)),
                                line_info: None,
                            }],
                            line_info: None,
                        },
                    ],
                    None,
                )),
                line_info: None,
            },
            var("count"),
        ],
        vec![],
    );
    assert!(matches!(r[2], Ok(EvalResult::Arcana(10))));
}

#[test]
fn test_rune_concat_and_compare() {
    let r = run(
        &[
            AST::Add(b(rune("Hello, ")), b(rune("Abyss")), None),
            AST::Equal(b(rune("hello")), b(rune("hello")), None),
            AST::LessThan(b(rune("apple")), b(rune("banana")), None),
        ],
        vec![],
    );
    match &r[0] {
        Ok(EvalResult::Rune(s)) => assert_eq!(s, "Hello, Abyss"),
        _ => panic!("expected a Rune result"),
    }
    assert!(matches!(r[1], Ok(EvalResult::Omen(true))));
    assert!(matches!(r[2], Err(EvalError::InvalidOperation(..))));
}

#[test]
fn test_trans_casts() {
    let r = run(
        &[
            AST::Trans(b(arc(42)), Type::Aether, None),
            AST::Trans(b(aeth(3.14)), Type::Arcana, None),
            AST::Trans(b(rune("123")), Type::Arcana, None),
            AST::Trans(b(arc(123)), Type::Rune, None),
            AST::Trans(b(aeth(3.14)), Type::Rune, None),
            AST::Trans(b(arc(1)), Type::Omen, None),
        ],
        vec![],
    );
    match &r[0] {
        Ok(EvalResult::Aether(bits)) => assert_eq!(f64::from_bits(*bits), 42.0),
        _ => panic!("expected an Aether result"),
    }
    assert!(matches!(r[1], Ok(EvalResult::Arcana(3))));
    assert!(matches!(r[2], Ok(EvalResult::Arcana(123))));
    match &r[3] {
        Ok(EvalResult::Rune(s)) => assert_eq!(s, "123"),
        _ => panic!("expected a Rune result"),
    }
    match &r[4] {
        Ok(EvalResult::Rune(s)) => assert_eq!(s, "3.14"),
        _ => panic!("expected a Rune result"),
    }
    assert!(matches!(r[5], Err(EvalError::InvalidOperation(..))));
}

#[test]
fn test_unveil_writes_one_line() {
    let mut env = Environment::new();
    let mut host = Host::new(vec![]);
    let st = AST::Unveil(vec![rune("answer: "), arc(42)], None);
    let r = evaluate(&st, &mut env, &mut host);
    assert!(matches!(r, Ok(EvalResult::Abyss)));
    assert_eq!(host.written(), "answer: 42\n");
}

#[test]
fn test_summon_reads_input() {
    let mut env = Environment::new();
    let mut host = Host::new(vec![" 42 ".to_string()]);
    let st = AST::Summon("\"n? \"".to_string(), Type::Arcana, None);
    let r = evaluate(&st, &mut env, &mut host);
    assert!(matches!(r, Ok(EvalResult::Arcana(42))));
    assert_eq!(host.written(), "n? ");
}

#[test]
fn test_undefined_variable() {
    let r = run(&[var("ghostly")], vec![]);
    assert!(matches!(r[0], Err(EvalError::UndefinedVariable(..))));
}

#[test]
fn test_logical_ops() {
    let r = run(
        &[
            AST::LogicalAnd(b(AST::Omen(true, None)), b(AST::Omen(false, None)), None),
            AST::LogicalOr(b(AST::Omen(false, None)), b(AST::Omen(true, None)), None),
            AST::LogicalNot(b(AST::Omen(true, None)), None),
        ],
        vec![],
    );
    assert!(matches!(r[0], Ok(EvalResult::Omen(false))));
    assert!(matches!(r[1], Ok(EvalResult::Omen(true))));
    assert!(matches!(r[2], Ok(EvalResult::Omen(false))));
}

fn plus(a: AST, c: AST) -> AST {
    AST::Add(Box::new(a), Box::new(c), None)
}

fn minus(a: AST, c: AST) -> AST {
    AST::Sub(Box::new(a), Box::new(c), None)
}

fn times(a: AST, c: AST) -> AST {
    AST::Mul(Box::new(a), Box::new(c), None)
}

fn divide(a: AST, c: AST) -> AST {
    AST::Div(Box::new(a), Box::new(c), None)
}

fn powa(a: AST, c: AST) -> AST {
    AST::PowArcana(Box::new(a), Box::new(c), None)
}

fn powf2(a: AST, c: AST) -> AST {
    AST::PowAether(Box::new(a), Box::new(c), None)
}

fn eqx(a: AST, c: AST) -> AST {
    AST::Equal(Box::new(a), Box::new(c), None)
}

fn nex(a: AST, c: AST) -> AST {
    AST::NotEqual(Box::new(a), Box::new(c), None)
}

fn ltx(a: AST, c: AST) -> AST {
    AST::LessThan(Box::new(a), Box::new(c), None)
}

fn lex(a: AST, c: AST) -> AST {
    AST::LessThanOrEqual(Box::new(a), Box::new(c), None)
}

fn gtx(a: AST, c: AST) -> AST {
    AST::GreaterThan(Box::new(a), Box::new(c), None)
}

fn gex(a: AST, c: AST) -> AST {
    AST::GreaterThanOrEqual(Box::new(a), Box::new(c), None)
}

fn andx(a: AST, c: AST) -> AST {
    AST::LogicalAnd(Box::new(a), Box::new(c), None)
}

fn orx(a: AST, c: AST) -> AST {
    AST::LogicalOr(Box::new(a), Box::new(c), None)
}

fn notx(a: AST) -> AST {
    AST::LogicalNot(Box::new(a), None)
}

fn omen(v: bool) -> AST {
    AST::Omen(v, None)
}

fn assign(name: &str, op: abyss_lang::ast::AssignmentOp, value: AST) -> AST {
    AST::Assignment { name: name.to_string(), value: Box::new(value), op, line_info: None }
}

fn cond(name: &str, e: AST) -> ConditionalAssignment {
    ConditionalAssignment { variable: name.to_string(), expression: Box::new(e), line_info: None }
}

fn branch(pattern: Vec<AST>, body: AST) -> AST {
    AST::OracleBranch { pattern, body: Box::new(body), line_info: None }
}

fn oracle(is_match: bool, conditionals: Vec<ConditionalAssignment>, branches: Vec<AST>) -> AST {
    AST::Oracle { is_match, conditionals, branches, line_info: None }
}

fn reveal_of(e: AST) -> AST {
    AST::Reveal(Box::new(e), None)
}

fn trans(e: AST, t: Type) -> AST {
    AST::Trans(Box::new(e), t, None)
}

fn unveil(args: Vec<AST>) -> AST {
    AST::Unveil(args, None)
}

fn param(name: &str, t: Type) -> AST {
    AST::EngraveParam { name: name.to_string(), param_type: t, line_info: None }
}

fn engrave(name: &str, params: Vec<AST>, ret: Type, body: Vec<AST>) -> AST {
    AST::Engrave {
        name: name.to_string(),
        params,
        return_type: ret,
        body: Box::new(AST::Block(body, None)),
        line_info: None,
    }
}

fn call(name: &str, args: Vec<AST>) -> AST {
    AST::FuncCall { name: name.to_string(), args, line_info: None }
}

fn orbit_ranged(name: &str, start: AST, end: AST, op: &str, body: Vec<AST>) -> AST {
    AST::Orbit {
        params: vec![AST::OrbitParam {
            name: name.to_string(),
            start: Box::new(start),
            end: Box::new(end),
            op: op.to_string(),
            line_info: None,
        }],
        body: Box::new(AST::Block(body, None)),
        line_info: None,
    }
}

fn want_arcana(r: &Result<EvalResult, EvalError>, n: i64) {
    match r {
        Ok(EvalResult::Arcana(v)) => assert_eq!(*v, n),
        _ => panic!("expected an Arcana result"),
    }
}

fn want_aether(r: &Result<EvalResult, EvalError>, x: f64) {
    match r {
        Ok(EvalResult::Aether(bits)) => assert_eq!(f64::from_bits(*bits), x),
        _ => panic!("expected an Aether result"),
    }
}

fn want_omen(r: &Result<EvalResult, EvalError>, v: bool) {
    match r {
        Ok(EvalResult::Omen(x)) => assert_eq!(*x, v),
        _ => panic!("expected an Omen result"),
    }
}

fn want_rune(r: &Result<EvalResult, EvalError>, s: &str) {
    match r {
        Ok(EvalResult::Rune(x)) => assert_eq!(x, s),
        _ => panic!("expected a Rune result"),
    }
}

fn want_abyss(r: &Result<EvalResult, EvalError>) {
    assert!(matches!(r, Ok(EvalResult::Abyss)));
}

fn want_invalid(r: &Result<EvalResult, EvalError>) {
    assert!(matches!(r, Err(EvalError::InvalidOperation(..))));
}

#[test]
fn test_parse_arcana_1() {
    let r = run(&[arc(123)], vec![]);
    want_arcana(&r[0], 123);
}

#[test]
fn test_arcana_test_addition_1() {
    let r = run(&[plus(arc(1), arc(2))], vec![]);
    want_arcana(&r[0], 1 + 2);
}

#[test]
fn test_arcana_test_addition_2() {
    let r = run(&[plus(arc(123), arc(456))], vec![]);
    want_arcana(&r[0], 123 + 456);
}

#[test]
fn test_arcana_test_addition_3() {
    let r = run(&[plus(plus(arc(123), arc(456)), arc(789))], vec![]);
    want_arcana(&r[0], 123 + 456 + 789);
}

#[test]
fn test_arcana_test_subtraction_1() {
    let r = run(&[minus(arc(10), arc(3))], vec![]);
    want_arcana(&r[0], 10 - 3);
}

#[test]
fn test_arcana_test_subtraction_2() {
    let r = run(&[minus(minus(arc(10), arc(3)), arc(2))], vec![]);
    want_arcana(&r[0], 10 - 3 - 2);
}

#[test]
fn test_arcana_test_multiplication_1() {
    let r = run(&[times(arc(6), arc(7))], vec![]);
    want_arcana(&r[0], 6 * 7);
}

#[test]
fn test_arcana_test_multiplication_2() {
    let r = run(&[times(times(arc(6), arc(7)), arc(2))], vec![]);
    want_arcana(&r[0], 6 * 7 * 2);
}

#[test]
fn test_arcana_test_division_1() {
    let r = run(&[divide(arc(20), arc(5))], vec![]);
    want_arcana(&r[0], 20 / 5);
}

#[test]
fn test_arcana_test_division_2() {
    let r = run(&[divide(divide(arc(20), arc(5)), arc(2))], vec![]);
    want_arcana(&r[0], 20 / 5 / 2);
}

#[test]
fn test_arcana_test_combined_operations_1() {
    // 10 + 20 * 3 - 5 / 5;
    let r = run(
        &[minus(plus(arc(10), times(arc(20), arc(3))), divide(arc(5), arc(5)))],
        vec![],
    );
    want_arcana(&r[0], 10 + 20 * 3 - 5 / 5);
}

#[test]
fn test_arcana_test_combined_operations_2() {
    // (10 + 20) * 3;
    let r = run(&[times(plus(arc(10), arc(20)), arc(3))], vec![]);
    want_arcana(&r[0], (10 + 20) * 3);
}

#[test]
fn test_arcana_test_combined_operations_3() {
    // 10 * (20 + 3) / 5;
    let r = run(&[divide(times(arc(10), plus(arc(20), arc(3))), arc(5))], vec![]);
    want_arcana(&r[0], 10 * (20 + 3) / 5);
}

#[test]
fn test_arcana_test_combined_operations_4() {
    // (10 + 20) / (5 - 3);
    let r = run(&[divide(plus(arc(10), arc(20)), minus(arc(5), arc(3)))], vec![]);
    want_arcana(&r[0], (10 + 20) / (5 - 3));
}

#[test]
fn test_arcana_test_combined_operations_5() {
    // (1 + 2) / 3;
    let r = run(&[divide(plus(arc(1), arc(2)), arc(3))], vec![]);
    want_arcana(&r[0], (1 + 2) / 3);
}

#[test]
fn test_arcana_test_combined_operations_6() {
    // 10 / (2 + 3);
    let r = run(&[divide(arc(10), plus(arc(2), arc(3)))], vec![]);
    want_arcana(&r[0], 10 / (2 + 3));
}

#[test]
fn test_evaluate_arcana_assign() {
    let r = run(&[forge("x", false, Type::Arcana, arc(42))], vec![]);
    want_abyss(&r[0]);
}

#[test]
fn test_evaluate_arcana_usage() {
    let r = run(&[forge("x", false, Type::Arcana, arc(10)), plus(var("x"), arc(5))], vec![]);
    want_arcana(&r[1], 15);
}

#[test]
fn test_arcana_power_1() {
    let r = run(&[powa(arc(2), arc(3))], vec![]);
    want_arcana(&r[0], 8);
}

#[test]
fn test_arcana_power_2() {
    let r = run(&[powa(arc(5), arc(0))], vec![]);
    want_arcana(&r[0], 1);
}

#[test]
fn test_arcana_power_3() {
    let r = run(&[powa(plus(arc(2), arc(1)), arc(3))], vec![]);
    want_arcana(&r[0], 27);
}

#[test]
fn test_arcana_power_4() {
    // 3 ^ 4 ^ 2; groups to the left
    let r = run(&[powa(powa(arc(3), arc(4)), arc(2))], vec![]);
    want_arcana(&r[0], 3i64.pow(4).pow(2));
}

#[test]
fn test_arcana_power_negative_exponent() {
    let r = run(&[powa(arc(4), arc(-2))], vec![]);
    assert!(matches!(r[0], Err(EvalError::NegativeExponent(_))));
}

#[test]
fn test_parse_aether_1() {
    let r = run(&[aeth(123.45)], vec![]);
    want_aether(&r[0], 123.45);
}

#[test]
fn test_aether_test_addition_1() {
    let r = run(&[plus(aeth(1.1), aeth(2.2))], vec![]);
    want_aether(&r[0], 1.1 + 2.2);
}

#[test]
fn test_aether_test_addition_2() {
    let r = run(&[plus(aeth(123.45), aeth(456.78))], vec![]);
    want_aether(&r[0], 123.45 + 456.78);
}

#[test]
fn test_aether_test_addition_3() {
    let r = run(&[plus(plus(aeth(123.45), aeth(456.78)), aeth(789.01))], vec![]);
    want_aether(&r[0], 123.45 + 456.78 + 789.01);
}

#[test]
fn test_aether_test_subtraction_1() {
    let r = run(&[minus(aeth(10.5), aeth(3.2))], vec![]);
    want_aether(&r[0], 10.5 - 3.2);
}

#[test]
fn test_aether_test_subtraction_2() {
    let r = run(&[minus(minus(aeth(10.5), aeth(3.2)), aeth(2.1))], vec![]);
    want_aether(&r[0], 10.5 - 3.2 - 2.1);
}

#[test]
fn test_aether_test_multiplication_1() {
    let r = run(&[times(aeth(6.5), aeth(7.2))], vec![]);
    want_aether(&r[0], 6.5 * 7.2);
}

#[test]
fn test_aether_test_multiplication_2() {
    let r = run(&[times(times(aeth(6.5), aeth(7.2)), aeth(2.1))], vec![]);
    want_aether(&r[0], 6.5 * 7.2 * 2.1);
}

#[test]
fn test_aether_test_division_1() {
    let r = run(&[divide(aeth(20.5), aeth(5.1))], vec![]);
    want_aether(&r[0], 20.5 / 5.1);
}

#[test]
fn test_aether_test_division_2() {
    let r = run(&[divide(divide(aeth(20.5), aeth(5.1)), aeth(2.2))], vec![]);
    want_aether(&r[0], 20.5 / 5.1 / 2.2);
}

#[test]
fn test_aether_test_combined_operations_5() {
    // (1.5 + 2.5) / 3.0;
    let r = run(&[divide(plus(aeth(1.5), aeth(2.5)), aeth(3.0))], vec![]);
    want_aether(&r[0], (1.5 + 2.5) / 3.0);
}

#[test]
fn test_aether_test_combined_operations_6() {
    // 10.5 / (2.5 + 3.5);
    let r = run(&[divide(aeth(10.5), plus(aeth(2.5), aeth(3.5)))], vec![]);
    want_aether(&r[0], 10.5 / (2.5 + 3.5));
}

#[test]
fn test_evaluate_aether_assign() {
    let r = run(&[forge("x", false, Type::Aether, aeth(42.5))], vec![]);
    want_abyss(&r[0]);
}

#[test]
fn test_evaluate_aether_usage() {
    let r = run(
        &[forge("x", false, Type::Aether, aeth(10.5)), plus(var("x"), aeth(5.5))],
        vec![],
    );
    want_aether(&r[1], 10.5 + 5.5);
}

#[test]
fn test_aether_power_1() {
    let r = run(&[powf2(aeth(2.5), aeth(3.0))], vec![]);
    want_aether(&r[0], 2.5_f64.powf(3.0));
}

#[test]
fn test_aether_power_2() {
    let r = run(&[powf2(aeth(5.0), aeth(0.0))], vec![]);
    want_aether(&r[0], 5.0_f64.powf(0.0));
}

#[test]
fn test_aether_power_3() {
    let r = run(&[powf2(plus(aeth(1.5), aeth(2.5)), aeth(2.0))], vec![]);
    want_aether(&r[0], (1.5_f64 + 2.5_f64).powf(2.0));
}

#[test]
fn test_aether_power_4() {
    let r = run(&[powf2(aeth(4.2), aeth(-1.0))], vec![]);
    want_aether(&r[0], 4.2_f64.powf(-1.0));
}

#[test]
fn test_aether_power_fractional_exponent() {
    let r = run(&[powf2(aeth(9.0), aeth(0.5))], vec![]);
    want_aether(&r[0], 9.0_f64.powf(0.5));
}

#[test]
fn test_arcana_comparison_equal() {
    let r = run(&[eqx(arc(5), arc(5))], vec![]);
    want_omen(&r[0], true);
}

#[test]
fn test_arcana_comparison_not_equal() {
    let r = run(&[nex(arc(5), arc(3))], vec![]);
    want_omen(&r[0], true);
}

#[test]
fn test_arcana_comparison_less_than() {
    let r = run(&[ltx(arc(3), arc(5))], vec![]);
    want_omen(&r[0], true);
}

#[test]
fn test_arcana_comparison_greater_than() {
    let r = run(&[gtx(arc(10), arc(7))], vec![]);
    want_omen(&r[0], true);
}

#[test]
fn test_arcana_comparison_less_than_or_equal() {
    let r = run(&[lex(arc(5), arc(5))], vec![]);
    want_omen(&r[0], true);
}

#[test]
fn test_arcana_comparison_greater_than_or_equal() {
    let r = run(&[gex(arc(8), arc(7))], vec![]);
    want_omen(&r[0], true);
}

#[test]
fn test_aether_comparison_equal() {
    let r = run(&[eqx(aeth(3.14), aeth(3.14))], vec![]);
    want_omen(&r[0], true);
}

#[test]
fn test_aether_comparison_not_equal() {
    let r = run(&[nex(aeth(3.14), aeth(2.71))], vec![]);
    want_omen(&r[0], true);
}

#[test]
fn test_aether_comparison_less_than() {
    let r = run(&[ltx(aeth(2.71), aeth(3.14))], vec![]);
    want_omen(&r[0], true);
}

#[test]
fn test_aether_comparison_greater_than() {
    let r = run(&[gtx(aeth(6.28), aeth(3.14))], vec![]);
    want_omen(&r[0], true);
}

#[test]
fn test_aether_comparison_less_than_or_equal() {
    let r = run(&[lex(aeth(3.14), aeth(3.14))], vec![]);
    want_omen(&r[0], true);
}

#[test]
fn test_aether_comparison_greater_than_or_equal() {
    let r = run(&[gex(aeth(3.14), aeth(2.71))], vec![]);
    want_omen(&r[0], true);
}

#[test]
fn test_rune_comparison_equal() {
    let r = run(&[eqx(rune("hello"), rune("hello"))], vec![]);
    want_omen(&r[0], true);
}

#[test]
fn test_rune_comparison_not_equal() {
    let r = run(&[nex(rune("hello"), rune("world"))], vec![]);
    want_omen(&r[0], true);
}

#[test]
fn test_rune_comparison_less_than_should_error() {
    let r = run(&[ltx(rune("apple"), rune("banana"))], vec![]);
    want_invalid(&r[0]);
}

#[test]
fn test_rune_comparison_greater_than_should_error() {
    let r = run(&[gtx(rune("banana"), rune("apple"))], vec![]);
    want_invalid(&r[0]);
}

#[test]
fn test_rune_comparison_less_than_or_equal_should_error() {
    let r = run(&[lex(rune("apple"), rune("apple"))], vec![]);
    want_invalid(&r[0]);
}

#[test]
fn test_rune_comparison_greater_than_or_equal_should_error() {
    let r = run(&[gex(rune("banana"), rune("apple"))], vec![]);
    want_invalid(&r[0]);
}

#[test]
fn test_logical_not() {
    let r = run(&[notx(omen(true))], vec![]);
    want_omen(&r[0], false);
}

#[test]
fn test_logical_and_both_true() {
    let r = run(&[andx(omen(true), omen(true))], vec![]);
    want_omen(&r[0], true);
}

#[test]
fn test_logical_and_one_false() {
    let r = run(&[andx(omen(true), omen(false))], vec![]);
    want_omen(&r[0], false);
}

#[test]
fn test_logical_or_both_false() {
    let r = run(&[orx(omen(false), omen(false))], vec![]);
    want_omen(&r[0], false);
}

#[test]
fn test_logical_or_one_true() {
    let r = run(&[orx(omen(true), omen(false))], vec![]);
    want_omen(&r[0], true);
}

#[test]
fn test_logical_combination() {
    let r = run(&[andx(omen(true), orx(omen(false), omen(true)))], vec![]);
    want_omen(&r[0], true);
}

#[test]
fn test_logical_with_arithmetic() {
    // (5 + 3) == 8 && boon;
    let r = run(&[andx(eqx(plus(arc(5), arc(3)), arc(8)), omen(true))], vec![]);
    want_omen(&r[0], true);
}

#[test]
fn test_logical_with_comparison() {
    // 5 > 3 && 10 <= 10 || hex;
    let r = run(
        &[orx(andx(gtx(arc(5), arc(3)), lex(arc(10), arc(10))), omen(false))],
        vec![],
    );
    want_omen(&r[0], true);
}

#[test]
fn test_nested_logical_operations() {
    // !(boon && hex) || (5 + 5 == 10 && boon);
    let r = run(
        &[orx(
            notx(andx(omen(true), omen(false))),
            andx(eqx(plus(arc(5), arc(5)), arc(10)), omen(true)),
        )],
        vec![],
    );
    want_omen(&r[0], true);
}

#[test]
fn test_parse_rune() {
    let r = run(&[rune("Hello, Abyss!")], vec![]);
    want_rune(&r[0], "Hello, Abyss!");
}

#[test]
fn test_evaluate_rune_assign() {
    let r = run(
        &[forge("message", false, Type::Rune, rune("Hello World from Abyss!")), var("message")],
        vec![],
    );
    want_rune(&r[1], "Hello World from Abyss!");
}

#[test]
fn test_rune_concatenation() {
    let r = run(
        &[
            forge("part1", false, Type::Rune, rune("Hello, ")),
            forge("part2", false, Type::Rune, rune("Abyss")),
            plus(var("part1"), var("part2")),
        ],
        vec![],
    );
    want_rune(&r[2], "Hello, Abyss");
}

#[test]
fn test_rune_concatenation_multiline() {
    let r = run(
        &[
            forge("part1", false, Type::Rune, rune("Hello, ")),
            forge("part2", false, Type::Rune, rune("Abyss")),
            plus(plus(var("part1"), var("part2")), rune("!")),
        ],
        vec![],
    );
    want_rune(&r[2], "Hello, Abyss!");
}

#[test]
fn test_unveil_rune_1() {
    let r = run(&[unveil(vec![rune("Hello, Abyss!")])], vec![]);
    want_abyss(&r[0]);
}

#[test]
fn test_unveil_rune_2() {
    let r = run(
        &[
            forge("part1", false, Type::Rune, rune("Hello, ")),
            forge("part2", false, Type::Rune, rune("Abyss")),
            unveil(vec![plus(plus(var("part1"), var("part2")), rune("!"))]),
        ],
        vec![],
    );
    want_abyss(&r[0]);
    want_abyss(&r[1]);
    want_abyss(&r[2]);
}

#[test]
fn test_unveil_rune_3() {
    let r = run(&[unveil(vec![rune("1 + 3 = "), plus(arc(1), arc(3))])], vec![]);
    want_abyss(&r[0]);
}

#[test]
fn test_trans_in_string_concatenation() {
    let r = run(
        &[
            forge("x", false, Type::Rune, plus(rune("answer: "), trans(arc(42), Type::Rune))),
            var("x"),
        ],
        vec![],
    );
    want_rune(&r[1], "answer: 42");
}

#[test]
fn test_trans_in_arithmetic_expression() {
    let r = run(
        &[
            forge("y", false, Type::Arcana, plus(trans(rune("42"), Type::Arcana), arc(8))),
            var("y"),
        ],
        vec![],
    );
    want_arcana(&r[1], 50);
}

#[test]
fn test_trans_with_assignment_operator() {
    let r = run(
        &[
            forge("z", true, Type::Rune, rune("answer: ")),
            assign("z", abyss_lang::ast::AssignmentOp::AddAssign, trans(arc(42), Type::Rune)),
            var("z"),
        ],
        vec![],
    );
    want_rune(&r[2], "answer: 42");
}

#[test]
fn test_forge_and_usage() {
    let r = run(&[forge("x", false, Type::Arcana, arc(42)), var("x")], vec![]);
    want_arcana(&r[1], 42);
}

#[test]
fn test_forge_morph_and_usage() {
    let r = run(
        &[
            forge("x", true, Type::Arcana, arc(42)),
            assign("x", abyss_lang::ast::AssignmentOp::Assign, arc(100)),
            var("x"),
        ],
        vec![],
    );
    want_arcana(&r[2], 100);
}

#[test]
fn test_forge_redeclaration_with_different_type() {
    let r = run(
        &[
            forge("x", false, Type::Arcana, arc(42)),
            forge("x", false, Type::Aether, aeth(3.14)),
            var("x"),
        ],
        vec![],
    );
    want_aether(&r[2], 3.14);
}

#[test]
fn test_forge_morph_type_mismatch() {
    let r = run(
        &[
            forge("x", true, Type::Arcana, arc(42)),
            assign("x", abyss_lang::ast::AssignmentOp::Assign, aeth(3.14)),
        ],
        vec![],
    );
    want_invalid(&r[1]);
}

#[test]
fn test_forge_morph_reassign_arcana() {
    let r = run(
        &[
            forge("x", true, Type::Arcana, arc(42)),
            assign("x", abyss_lang::ast::AssignmentOp::Assign, arc(84)),
            var("x"),
        ],
        vec![],
    );
    want_arcana(&r[2], 84);
}

#[test]
fn test_forge_morph_reassign_aether() {
    let r = run(
        &[
            forge("x", true, Type::Aether, aeth(3.14)),
            assign("x", abyss_lang::ast::AssignmentOp::Assign, aeth(3.14159)),
            var("x"),
        ],
        vec![],
    );
    want_aether(&r[2], 3.14159);
}

#[test]
fn test_forge_morph_reassign_omen() {
    let r = run(
        &[
            forge("x", true, Type::Omen, omen(true)),
            assign("x", abyss_lang::ast::AssignmentOp::Assign, omen(false)),
            var("x"),
        ],
        vec![],
    );
    want_omen(&r[2], false);
}

#[test]
fn test_forge_morph_different_type_assignment() {
    let r = run(
        &[
            forge("x", true, Type::Rune, rune("Hello")),
            assign("x", abyss_lang::ast::AssignmentOp::Assign, rune("World")),
            var("x"),
        ],
        vec![],
    );
    want_rune(&r[2], "World");
}

#[test]
fn test_forge_boolean_logic() {
    let r = run(&[forge("b", false, Type::Omen, omen(true)), var("b")], vec![]);
    want_omen(&r[1], true);
}

#[test]
fn test_oracle_simple_positive() {
    let r = run(
        &[
            forge("x", false, Type::Arcana, arc(1)),
            oracle(
                false,
                vec![],
                vec![
                    branch(vec![gtx(var("x"), arc(0))], rune("x is positive")),
                    branch(vec![ltx(var("x"), arc(0))], rune("x is negative")),
                    branch(vec![], reveal_of(rune("x is zero"))),
                ],
            ),
        ],
        vec![],
    );
    want_rune(&r[1], "x is positive");
}

#[test]
fn test_oracle_simple_zero() {
    let r = run(
        &[
            forge("x", false, Type::Arcana, arc(0)),
            oracle(
                false,
                vec![],
                vec![
                    branch(vec![gtx(var("x"), arc(0))], rune("x is positive")),
                    branch(vec![ltx(var("x"), arc(0))], rune("x is negative")),
                    branch(vec![], rune("x is zero")),
                ],
            ),
        ],
        vec![],
    );
    want_rune(&r[1], "x is zero");
}

#[test]
fn test_oracle_with_omen_hex() {
    let r = run(
        &[
            forge("x", false, Type::Arcana, arc(-1)),
            oracle(
                true,
                vec![cond("__match_0", gtx(var("x"), arc(0)))],
                vec![
                    branch(vec![omen(true)], reveal_of(rune("x is positive"))),
                    branch(vec![omen(false)], reveal_of(rune("x is negative or zero"))),
                ],
            ),
        ],
        vec![],
    );
    want_rune(&r[1], "x is negative or zero");
}

#[test]
fn test_oracle_with_computation() {
    let r = run(
        &[
            forge("x", false, Type::Arcana, arc(11)),
            oracle(
                false,
                vec![cond("y", powa(var("x"), arc(2)))],
                vec![
                    branch(vec![gtx(var("y"), arc(100))], rune("y is greater than 100")),
                    branch(vec![eqx(var("y"), arc(100))], rune("y is equal to 100")),
                    branch(vec![], rune("y is less than 100")),
                ],
            ),
        ],
        vec![],
    );
    want_rune(&r[1], "y is greater than 100");
}

#[test]
fn test_oracle_with_string_comparison() {
    let r = run(
        &[
            forge("a", false, Type::Rune, rune("abyss")),
            oracle(
                false,
                vec![cond("a", rune("abyss"))],
                vec![
                    branch(vec![eqx(var("a"), rune("abyss"))], rune("a is abyss")),
                    branch(vec![], rune("a is not abyss")),
                ],
            ),
        ],
        vec![],
    );
    want_rune(&r[1], "a is abyss");
}

#[test]
fn test_oracle_with_multiple_conditions_1() {
    let r = run(
        &[
            forge("a", false, Type::Arcana, arc(3)),
            forge("b", false, Type::Arcana, arc(2)),
            oracle(
                true,
                vec![cond("__match_0", var("a")), cond("__match_1", var("b"))],
                vec![
                    branch(vec![arc(1), arc(2)], reveal_of(rune("a is 1 and b is 2"))),
                    branch(
                        vec![AST::OracleDontCareItem(None), arc(2)],
                        reveal_of(rune("a is not 1 and b is 2")),
                    ),
                    branch(
                        vec![arc(1), AST::OracleDontCareItem(None)],
                        reveal_of(rune("a is 1 and b is not 2")),
                    ),
                    branch(vec![], reveal_of(rune("a is not 1 and b is not 2"))),
                ],
            ),
        ],
        vec![],
    );
    want_rune(&r[2], "a is not 1 and b is 2");
}

#[test]
fn test_oracle_with_multiple_conditions_2() {
    let r = run(
        &[oracle(
            false,
            vec![cond("a", arc(1)), cond("b", arc(3))],
            vec![
                branch(
                    vec![andx(eqx(var("a"), arc(1)), eqx(var("b"), arc(2)))],
                    reveal_of(rune("a is 1 and b is 2")),
                ),
                branch(
                    vec![andx(nex(var("a"), arc(1)), eqx(var("b"), arc(2)))],
                    reveal_of(rune("a is not 1 and b is 2")),
                ),
                branch(
                    vec![andx(eqx(var("a"), arc(1)), nex(var("b"), arc(2)))],
                    reveal_of(rune("a is 1 and b is not 2")),
                ),
                branch(vec![], reveal_of(rune("a is not 1 and b is not 2"))),
            ],
        )],
        vec![],
    );
    want_rune(&r[0], "a is 1 and b is not 2");
}

#[test]
fn test_oracle_with_block_and_reveal() {
    // forge y: arcana = oracle (x > 0) { boon => reveal x; hex => { forge z = x + 5; oracle (z > 0) { boon => reveal x + 5; hex => reveal x - 5; }; }; };
    let inner = oracle(
        true,
        vec![cond("__match_0", gtx(var("z"), arc(0)))],
        vec![
            branch(vec![omen(true)], reveal_of(plus(var("x"), arc(5)))),
            branch(vec![omen(false)], reveal_of(minus(var("x"), arc(5)))),
        ],
    );
    let outer = oracle(
        true,
        vec![cond("__match_0", gtx(var("x"), arc(0)))],
        vec![
            branch(vec![omen(true)], reveal_of(var("x"))),
            branch(
                vec![omen(false)],
                AST::Block(
                    vec![forge("z", false, Type::Arcana, plus(var("x"), arc(5))), inner],
                    None,
                ),
            ),
        ],
    );
    let r = run(
        &[
            forge("x", false, Type::Arcana, arc(-10)),
            forge("y", false, Type::Arcana, outer),
            var("y"),
        ],
        vec![],
    );
    want_arcana(&r[2], -15);
}

#[test]
fn test_simple_orbit() {
    let r = run(
        &[
            forge("sum", true, Type::Arcana, arc(0)),
            orbit_ranged(
                "i",
                arc(0),
                arc(10),
                "..",
                vec![assign("sum", abyss_lang::ast::AssignmentOp::AddAssign, var("i"))],
            ),
            var("sum"),
        ],
        vec![],
    );
    let mut sum_rust = 0;
    for i in 0..10 {
        sum_rust += i;
    }
    want_arcana(&r[2], sum_rust);
}

#[test]
fn test_orbit_with_nested_orbit() {
    let inner = orbit_ranged(
        "j",
        arc(0),
        arc(3),
        "..",
        vec![assign("sum", abyss_lang::ast::AssignmentOp::AddAssign, times(var("i"), var("j")))],
    );
    let r = run(
        &[
            forge("sum", true, Type::Arcana, arc(0)),
            orbit_ranged("i", arc(0), arc(3), "..", vec![inner]),
            var("sum"),
        ],
        vec![],
    );
    let mut sum_rust = 0;
    for i in 0..3 {
        for j in 0..3 {
            sum_rust += i * j;
        }
    }
    want_arcana(&r[2], sum_rust);
}

#[test]
fn test_orbit_with_resume() {
    // orbit(i = 0..3, j = 0..3) { oracle(i == j) { (boon) => resume j; }; sum += i * j; };
    let body = vec![
        oracle(
            true,
            vec![cond("__match_0", eqx(var("i"), var("j")))],
            vec![branch(vec![omen(true)], AST::Resume(Some("j".to_string()), None))],
        ),
        assign("sum", abyss_lang::ast::AssignmentOp::AddAssign, times(var("i"), var("j"))),
    ];
    let orbit2 = AST::Orbit {
        params: vec![
            AST::OrbitParam {
                name: "i".to_string(),
                start: Box::new(arc(0)),
                end: Box::new(arc(3)),
                op: "..".to_string(),
                line_info: None,
            },
            AST::OrbitParam {
                name: "j".to_string(),
                start: Box::new(arc(0)),
                end: Box::new(arc(3)),
                op: "..".to_string(),
                line_info: None,
            },
        ],
        body: Box::new(AST::Block(body, None)),
        line_info: None,
    };
    let r = run(&[forge("sum", true, Type::Arcana, arc(0)), orbit2, var("sum")], vec![]);
    let mut sum_rust = 0;
    for i in 0..3 {
        for j in 0..3 {
            if i == j {
                continue;
            }
            sum_rust += i * j;
        }
    }
    want_arcana(&r[2], sum_rust);
}

#[test]
fn test_orbit_with_eject_outer_loop() {
    // eject i from the inner loop leaves the outer loop.
    let inner = orbit_ranged(
        "j",
        arc(0),
        arc(3),
        "..",
        vec![
            oracle(
                true,
                vec![cond("__match_0", eqx(var("i"), var("j")))],
                vec![branch(vec![omen(true)], AST::Eject(Some("i".to_string()), None))],
            ),
            assign("sum", abyss_lang::ast::AssignmentOp::AddAssign, times(var("i"), var("j"))),
        ],
    );
    let r = run(
        &[
            forge("sum", true, Type::Arcana, arc(0)),
            orbit_ranged("i", arc(0), arc(3), "..", vec![inner]),
            var("sum"),
        ],
        vec![],
    );
    let mut sum_rust = 0;
    'outer: for i in 0..3 {
        for j in 0..3 {
            if i == j {
                break 'outer;
            }
            sum_rust += i * j;
        }
    }
    want_arcana(&r[2], sum_rust);
}

#[test]
fn test_orbit_with_resume_outer_loop() {
    let r = run(
        &[
            forge("sum", true, Type::Arcana, arc(0)),
            orbit_ranged(
                "i",
                arc(0),
                arc(3),
                "..",
                vec![
                    oracle(
                        true,
                        vec![cond("__match_0", eqx(var("i"), arc(1)))],
                        vec![branch(vec![omen(true)], AST::Resume(Some("i".to_string()), None))],
                    ),
                    assign("sum", abyss_lang::ast::AssignmentOp::AddAssign, var("i")),
                ],
            ),
            var("sum"),
        ],
        vec![],
    );
    let mut sum_rust = 0;
    for i in 0..3 {
        if i == 1 {
            continue;
        }
        sum_rust += i;
    }
    want_arcana(&r[2], sum_rust);
}

#[test]
fn test_simple_function() {
    let r = run(
        &[
            engrave(
                "add",
                vec![param("a", Type::Arcana), param("b", Type::Arcana)],
                Type::Arcana,
                vec![reveal_of(plus(var("a"), var("b")))],
            ),
            forge("result", false, Type::Arcana, call("add", vec![arc(2), arc(3)])),
            var("result"),
        ],
        vec![],
    );
    want_arcana(&r[2], 2 + 3);
}

#[test]
fn test_function_with_strings() {
    let r = run(
        &[
            engrave(
                "greet",
                vec![param("name", Type::Rune)],
                Type::Rune,
                vec![reveal_of(plus(rune("Hello, "), var("name")))],
            ),
            forge("message", false, Type::Rune, call("greet", vec![rune("Abyss")])),
            var("message"),
        ],
        vec![],
    );
    want_rune(&r[2], "Hello, Abyss");
}

#[test]
fn test_function_with_floats() {
    let r = run(
        &[
            engrave(
                "multiply",
                vec![param("a", Type::Aether), param("b", Type::Aether)],
                Type::Aether,
                vec![reveal_of(times(var("a"), var("b")))],
            ),
            forge("result", false, Type::Aether, call("multiply", vec![aeth(2.5), aeth(4.0)])),
            var("result"),
        ],
        vec![],
    );
    want_aether(&r[2], 2.5 * 4.0);
}

#[test]
fn test_function_with_boon_hex() {
    let r = run(
        &[
            engrave(
                "is_even",
                vec![param("num", Type::Arcana)],
                Type::Omen,
                vec![oracle(
                    true,
                    vec![cond(
                        "__match_0",
                        eqx(AST::Mod(Box::new(var("num")), Box::new(arc(2)), None), arc(0)),
                    )],
                    vec![
                        branch(vec![omen(true)], reveal_of(omen(true))),
                        branch(vec![omen(false)], reveal_of(omen(false))),
                    ],
                )],
            ),
            forge("result", false, Type::Omen, call("is_even", vec![arc(4)])),
            var("result"),
        ],
        vec![],
    );
    want_omen(&r[2], true);
}

#[test]
fn test_nested_function_calls() {
    let r = run(
        &[
            engrave(
                "add",
                vec![param("a", Type::Arcana), param("b", Type::Arcana)],
                Type::Arcana,
                vec![reveal_of(plus(var("a"), var("b")))],
            ),
            engrave(
                "add_three_numbers",
                vec![
                    param("x", Type::Arcana),
                    param("y", Type::Arcana),
                    param("z", Type::Arcana),
                ],
                Type::Arcana,
                vec![reveal_of(call(
                    "add",
                    vec![call("add", vec![var("x"), var("y")]), var("z")],
                ))],
            ),
            forge(
                "result",
                false,
                Type::Arcana,
                call("add_three_numbers", vec![arc(1), arc(2), arc(3)]),
            ),
            var("result"),
        ],
        vec![],
    );
    want_arcana(&r[3], 1 + 2 + 3);
}

#[test]
fn test_function_with_no_arguments() {
    let r = run(
        &[
            engrave("return_ten", vec![], Type::Arcana, vec![reveal_of(arc(10))]),
            forge("result", false, Type::Arcana, call("return_ten", vec![])),
            var("result"),
        ],
        vec![],
    );
    want_arcana(&r[2], 10);
}

#[test]
fn test_function_with_recursive_calls() {
    let r = run(
        &[
            engrave(
                "factorial",
                vec![param("n", Type::Arcana)],
                Type::Arcana,
                vec![oracle(
                    true,
                    vec![cond("__match_0", lex(var("n"), arc(1)))],
                    vec![
                        branch(vec![omen(true)], reveal_of(arc(1))),
                        branch(
                            vec![omen(false)],
                            reveal_of(times(
                                var("n"),
                                call("factorial", vec![minus(var("n"), arc(1))]),
                            )),
                        ),
                    ],
                )],
            ),
            forge("result", false, Type::Arcana, call("factorial", vec![arc(5)])),
            var("result"),
        ],
        vec![],
    );
    want_arcana(&r[2], 1 * 2 * 3 * 4 * 5);
}

#[test]
fn test_cast_arcana_to_aether() {
    let r = run(&[trans(arc(42), Type::Aether)], vec![]);
    want_aether(&r[0], 42.0);
}

#[test]
fn test_cast_aether_to_arcana() {
    let r = run(&[trans(aeth(3.14), Type::Arcana)], vec![]);
    want_arcana(&r[0], 3);
}

#[test]
fn test_cast_rune_to_aether() {
    let r = run(&[trans(rune("3.14"), Type::Aether)], vec![]);
    want_aether(&r[0], 3.14);
}

#[test]
fn test_cast_rune_to_arcana() {
    let r = run(&[trans(rune("123"), Type::Arcana)], vec![]);
    want_arcana(&r[0], 123);
}

#[test]
fn test_cast_arcana_to_rune() {
    let r = run(&[trans(arc(123), Type::Rune)], vec![]);
    want_rune(&r[0], "123");
}

#[test]
fn test_cast_aether_to_rune() {
    let r = run(&[trans(aeth(3.14), Type::Rune)], vec![]);
    want_rune(&r[0], "3.14");
}

fn modx(a: AST, c: AST) -> AST {
    AST::Mod(Box::new(a), Box::new(c), None)
}

fn compound(
    t: Type,
    init: AST,
    op: abyss_lang::ast::AssignmentOp,
    operand: AST,
) -> Vec<AST> {
    vec![forge("x", true, t, init), assign("x", op, operand), var("x")]
}

#[test]
fn test_arcana_modulus() {
    let r = run(&[modx(arc(10), arc(3))], vec![]);
    want_arcana(&r[0], 10 % 3);
}

#[test]
fn test_arcana_modulus_negative() {
    let r = run(&[modx(arc(-10), arc(3))], vec![]);
    want_arcana(&r[0], -10 % 3);
}

#[test]
fn test_arcana_modulus_assignment() {
    let r = run(
        &compound(Type::Arcana, arc(10), abyss_lang::ast::AssignmentOp::ModAssign, arc(3)),
        vec![],
    );
    want_arcana(&r[2], 10 % 3);
}

#[test]
fn test_aether_modulus() {
    let r = run(&[modx(aeth(10.5), aeth(3.2))], vec![]);
    want_aether(&r[0], 10.5 % 3.2);
}

#[test]
fn test_aether_modulus_negative() {
    let r = run(&[modx(aeth(-10.5), aeth(3.2))], vec![]);
    want_aether(&r[0], -10.5 % 3.2);
}

#[test]
fn test_aether_modulus_assignment() {
    let r = run(
        &compound(Type::Aether, aeth(10.5), abyss_lang::ast::AssignmentOp::ModAssign, aeth(3.2)),
        vec![],
    );
    want_aether(&r[2], 10.5 % 3.2);
}

#[test]
fn test_arcana_add_assign() {
    let r = run(
        &compound(Type::Arcana, arc(10), abyss_lang::ast::AssignmentOp::AddAssign, arc(5)),
        vec![],
    );
    want_arcana(&r[2], 10 + 5);
}

#[test]
fn test_arcana_sub_assign() {
    let r = run(
        &compound(Type::Arcana, arc(10), abyss_lang::ast::AssignmentOp::SubAssign, arc(3)),
        vec![],
    );
    want_arcana(&r[2], 10 - 3);
}

#[test]
fn test_arcana_mul_assign() {
    let r = run(
        &compound(Type::Arcana, arc(10), abyss_lang::ast::AssignmentOp::MulAssign, arc(4)),
        vec![],
    );
    want_arcana(&r[2], 10 * 4);
}

#[test]
fn test_arcana_div_assign() {
    let r = run(
        &compound(Type::Arcana, arc(20), abyss_lang::ast::AssignmentOp::DivAssign, arc(4)),
        vec![],
    );
    want_arcana(&r[2], 20 / 4);
}

#[test]
fn test_arcana_mod_assign() {
    let r = run(
        &compound(Type::Arcana, arc(10), abyss_lang::ast::AssignmentOp::ModAssign, arc(3)),
        vec![],
    );
    want_arcana(&r[2], 10 % 3);
}

#[test]
fn test_arcana_pow_assign() {
    let r = run(
        &compound(Type::Arcana, arc(2), abyss_lang::ast::AssignmentOp::PowArcanaAssign, arc(3)),
        vec![],
    );
    want_arcana(&r[2], 2_i64.pow(3));
}

#[test]
fn test_aether_add_assign() {
    let r = run(
        &compound(Type::Aether, aeth(10.5), abyss_lang::ast::AssignmentOp::AddAssign, aeth(5.5)),
        vec![],
    );
    want_aether(&r[2], 10.5 + 5.5);
}

#[test]
fn test_aether_sub_assign() {
    let r = run(
        &compound(Type::Aether, aeth(10.5), abyss_lang::ast::AssignmentOp::SubAssign, aeth(3.2)),
        vec![],
    );
    want_aether(&r[2], 10.5 - 3.2);
}

#[test]
fn test_aether_mul_assign() {
    let r = run(
        &compound(Type::Aether, aeth(10.5), abyss_lang::ast::AssignmentOp::MulAssign, aeth(2.0)),
        vec![],
    );
    want_aether(&r[2], 10.5 * 2.0);
}

#[test]
fn test_aether_div_assign() {
    let r = run(
        &compound(Type::Aether, aeth(10.5), abyss_lang::ast::AssignmentOp::DivAssign, aeth(2.5)),
        vec![],
    );
    want_aether(&r[2], 10.5 / 2.5);
}

#[test]
fn test_aether_mod_assign() {
    let r = run(
        &compound(Type::Aether, aeth(10.5), abyss_lang::ast::AssignmentOp::ModAssign, aeth(3.2)),
        vec![],
    );
    want_aether(&r[2], 10.5 % 3.2);
}

#[test]
fn test_aether_pow_assign() {
    let r = run(
        &compound(Type::Aether, aeth(2.0), abyss_lang::ast::AssignmentOp::PowAetherAssign, aeth(3.0)),
        vec![],
    );
    want_aether(&r[2], 2.0_f64.powf(3.0));
}

#[test]
fn test_aether_combined_operations_simple() {
    // 10.5 + 20.2 * 3.1 - 5.5 / 5.0;
    let r = run(
        &[minus(
            plus(aeth(10.5), times(aeth(20.2), aeth(3.1))),
            divide(aeth(5.5), aeth(5.0)),
        )],
        vec![],
    );
    want_aether(&r[0], 10.5 + 20.2 * 3.1 - 5.5 / 5.0);
}

#[test]
fn test_aether_combined_operations_with_parentheses_1() {
    let r = run(&[times(plus(aeth(10.5), aeth(20.2)), aeth(3.1))], vec![]);
    want_aether(&r[0], (10.5 + 20.2) * 3.1);
}

#[test]
fn test_aether_combined_operations_complex_1() {
    let r = run(&[divide(plus(aeth(10.5), aeth(20.2)), minus(aeth(5.5), aeth(3.1)))], vec![]);
    want_aether(&r[0], (10.5 + 20.2) / (5.5 - 3.1));
}
