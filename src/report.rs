use vstd::prelude::*;
use vstd::string::StringExecFns;
use crate::ast::{Exp, Stmt, number, boolean, plus, mult, and, or, less, decl, variable};
use crate::check::check_stmt;
use crate::env::{ValState, TyState, lists_each_once, state_text};
use crate::error::{Fault, InterpError};
use crate::eval::{eval_exp, infer_exp};
use crate::exec::{exec_stmt, lines, UNBOUNDED};
use crate::pretty::{pretty_exp, pretty_stmt, val_text, bool_text, show_val, show_bool};
use crate::value::Type;

verus! {

/// The line that opens each report.
pub open spec fn banner() -> Seq<char> {
    "*******"@
}

/// A type as a report shows it: `int`, `bool` or `illtyped`.
pub open spec fn type_word(t: Type) -> Seq<char> {
    match t {
        Type::TyInt => "int"@,
        Type::TyBool => "bool"@,
        Type::TyIllTyped => "illtyped"@,
    }
}

/// A fault as a report shows it.
pub open spec fn fault_text(f: Fault) -> Seq<char> {
    match f {
        Fault::UndeclaredVariable(name) => "error: undeclared variable "@ + name,
        Fault::StepLimit => "error: loop ran out of steps"@,
    }
}

/// The report on an expression: its text, its value and its type, both in
/// empty environments.
pub open spec fn exp_report(e: Exp) -> Seq<Seq<char>> {
    let value = match eval_exp(e, Map::empty()) {
        Ok(v) => val_text(v),
        Err(f) => fault_text(f),
    };
    seq![banner(), pretty_exp(e), value, type_word(infer_exp(e, Map::empty()))]
}

/// The report on a statement: its text, what running it from an empty
/// environment prints, the fault that stopped it if any, the environment it
/// leaves with its variables in the order `order`, and the verdict of the
/// type checker from an empty type environment.
pub open spec fn stmt_report(s: Stmt, order: Seq<Seq<char>>) -> Seq<Seq<char>> {
    let o = exec_stmt(s, Map::empty(), Seq::empty(), UNBOUNDED as nat);
    let stop = match o.fault {
        Some(f) => seq![fault_text(f)],
        None => Seq::empty(),
    };
    let verdict = match check_stmt(s, Map::empty()).1 {
        Ok(b) => bool_text(b),
        Err(f) => fault_text(f),
    };
    seq![banner(), pretty_stmt(s)] + o.out + stop + seq![state_text(order, o.env), "type checker: "@ + verdict]
}

/// Whether `order` lists each variable that running `s` from an empty
/// environment leaves behind exactly once.
pub open spec fn final_order(s: Stmt, order: Seq<Seq<char>>) -> bool {
    lists_each_once(order, exec_stmt(s, Map::empty(), Seq::empty(), UNBOUNDED as nat).env)
}

/// The sample programs of the demonstration.
pub open spec fn demo_exps() -> Seq<Exp> {
    seq![
        Exp::Num { val: 5 },
        Exp::Plus {
            left: Box::new(Exp::Mult { left: Box::new(Exp::Num { val: 1 }), right: Box::new(Exp::Num { val: 2 }) }),
            right: Box::new(Exp::Num { val: 0 }),
        },
        Exp::And { left: Box::new(Exp::Bool { val: false }), right: Box::new(Exp::Num { val: 0 }) },
        Exp::Or { left: Box::new(Exp::Bool { val: false }), right: Box::new(Exp::Num { val: 0 }) },
        Exp::Less { left: Box::new(Exp::Num { val: 0 }), right: Box::new(Exp::Num { val: 1 }) },
    ]
}

/// Whether `s` is the sample statement of the demonstration:
/// `x:= 1; y:= (6+x)`.
pub open spec fn is_demo_stmt(s: Stmt) -> bool {
    match s {
        Stmt::Sequence { first, second } => match (*first, *second) {
            (Stmt::Decl { lhs: x, rhs: one }, Stmt::Decl { lhs: y, rhs: sum }) => {
                &&& x@ == "x"@
                &&& *one == (Exp::Num { val: 1 })
                &&& y@ == "y"@
                &&& match *sum {
                    Exp::Plus { left, right } => *left == (Exp::Num { val: 6 }) && match *right {
                        Exp::Var { name } => name@ == "x"@,
                        _ => false,
                    },
                    _ => false,
                }
            },
            _ => false,
        },
        _ => false,
    }
}

fn text(s: &str) -> (r: String)
    ensures
        r@ == s@,
{
    let mut r = String::new();
    r.append(s);
    r
}

/// `t` as a report shows it.
fn type_line(t: Type) -> (r: String)
    ensures
        r@ == type_word(t),
{
    match t {
        Type::TyInt => text("int"),
        Type::TyBool => text("bool"),
        Type::TyIllTyped => text("illtyped"),
    }
}

fn fault_line(e: &InterpError) -> (r: String)
    ensures
        r@ == fault_text(e@),
{
    match e {
        InterpError::UndeclaredVariable(name) => {
            let mut r = text("error: undeclared variable ");
            r.append(name.as_str());
            r
        },
        InterpError::StepLimit => text("error: loop ran out of steps"),
    }
}

/// Appends the report on `e` to `report`.
pub fn run_exp(e: &Exp, report: &mut Vec<String>)
    ensures
        lines(final(report)@) == lines(old(report)@) + exp_report(*e),
{
    report.push(text("*******"));
    report.push(e.pretty());
    let s = ValState::new();
    match e.eval(&s) {
        Ok(v) => report.push(show_val(v)),
        Err(err) => report.push(fault_line(&err)),
    }
    let t = TyState::new();
    report.push(type_line(e.infer(&t)));
    assert(lines(report@) =~= lines(old(report)@) + exp_report(*e));
}

/// Appends the report on `s` to `report`.
pub fn run_stmt(s: &Stmt, report: &mut Vec<String>)
    ensures
        exists|order: Seq<Seq<char>>|
            final_order(*s, order) && lines(final(report)@) == lines(old(report)@) + stmt_report(*s, order),
{
    report.push(text("*******"));
    report.push(s.pretty());
    let ghost head = lines(report@);
    assert(head =~= lines(old(report)@) + seq![banner(), pretty_stmt(*s)]);
    let mut env = ValState::new();
    let mut out: Vec<String> = Vec::new();
    let r = s.exec(&mut env, &mut out);
    let ghost printed = out@;
    report.append(&mut out);
    assert(lines(report@) =~= head + lines(printed));
    let ghost ran = lines(report@);
    match r {
        Ok(()) => {},
        Err(err) => report.push(fault_line(&err)),
    }
    let ghost o = exec_stmt(*s, Map::empty(), Seq::empty(), UNBOUNDED as nat);
    let ghost stop = match o.fault {
        Some(f) => seq![fault_text(f)],
        None => Seq::<Seq<char>>::empty(),
    };
    assert(lines(Seq::<String>::empty()) =~= Seq::<Seq<char>>::empty());
    assert(lines(report@) =~= ran + stop);
    let state = env.show_state();
    let ghost order = choose|order: Seq<Seq<char>>| lists_each_once(order, env@) && state@ == state_text(order, env@);
    report.push(state);
    assert(lines(report@) =~= ran + stop + seq![state_text(order, o.env)]);
    let ghost stopped = lines(report@);
    let mut t = TyState::new();
    let mut verdict = text("type checker: ");
    match s.check(&mut t) {
        Ok(b) => verdict.append(show_bool(b).as_str()),
        Err(err) => verdict.append(fault_line(&err).as_str()),
    }
    report.push(verdict);
    assert(lines(report@) =~= stopped.push(verdict@));
    assert(lines(report@) =~= lines(old(report)@) + stmt_report(*s, order));
    assert(final_order(*s, order));
}

/// Reports on each sample program of the demonstration, in order.
pub fn run() -> (r: Vec<String>)
    ensures
        exists|s: Stmt, order: Seq<Seq<char>>|
            is_demo_stmt(s) && final_order(s, order) && lines(r@) == exp_report(demo_exps()[0])
                + exp_report(demo_exps()[1]) + exp_report(demo_exps()[2]) + exp_report(demo_exps()[3])
                + exp_report(demo_exps()[4]) + stmt_report(s, order),
{
    let mut report: Vec<String> = Vec::new();
    let ast = number(5);
    run_exp(&ast, &mut report);
    let ast = plus(mult(number(1), number(2)), number(0));
    run_exp(&ast, &mut report);
    let ast = and(boolean(false), number(0));
    run_exp(&ast, &mut report);
    let ast = or(boolean(false), number(0));
    run_exp(&ast, &mut report);
    let ast = less(number(0), number(1));
    run_exp(&ast, &mut report);
    let ast_stmt = crate::ast::seq(
        decl(text("x"), number(1)),
        decl(text("y"), plus(number(6), variable(text("x")))),
    );
    let ghost before = lines(report@);
    run_stmt(&ast_stmt, &mut report);
    let ghost order = choose|order: Seq<Seq<char>>|
        final_order(*ast_stmt, order) && lines(report@) == before + stmt_report(*ast_stmt, order);
    assert(is_demo_stmt(*ast_stmt));
    assert(lines(report@) =~= exp_report(demo_exps()[0]) + exp_report(demo_exps()[1]) + exp_report(demo_exps()[2])
        + exp_report(demo_exps()[3]) + exp_report(demo_exps()[4]) + stmt_report(*ast_stmt, order));
    report
}

} // verus!
