use imp_interp::ast::{
    _while, assign, boolean, decl, ifthenelse, less, number, plus, print, variable, Stmt,
};
use imp_interp::env::{TyState, ValState};
use imp_interp::error::InterpError;
use imp_interp::report::run;
use imp_interp::value::{Type, Val};

fn name(s: &str) -> String {
    s.to_string()
}

fn sequence(first: Box<Stmt>, second: Box<Stmt>) -> Box<Stmt> {
    imp_interp::ast::seq(first, second)
}

fn execute(s: &Stmt) -> (ValState, Vec<String>) {
    let mut env = ValState::new();
    let mut out = Vec::new();
    s.exec(&mut env, &mut out).unwrap();
    (env, out)
}

#[test]
fn declarations_in_sequence() {
    let program = sequence(
        decl(name("x"), number(1)),
        decl(name("y"), plus(number(6), variable(name("x")))),
    );
    let (env, out) = execute(&program);
    assert_eq!(env.get("x"), Some(Val::Int(1)));
    assert_eq!(env.get("y"), Some(Val::Int(7)));
    assert_eq!(env.len(), 2);
    assert!(out.is_empty());

    let mut t = TyState::new();
    assert!(program.check(&mut t).unwrap());
    assert_eq!(t.get("x"), Some(Type::TyInt));
    assert_eq!(t.get("y"), Some(Type::TyInt));
}

#[test]
fn assignment_of_another_kind_is_refused() {
    let program = sequence(decl(name("x"), number(1)), assign(name("x"), boolean(true)));
    let (env, out) = execute(&program);
    assert_eq!(env.get("x"), Some(Val::Int(1)));
    assert_eq!(out, vec!["var and value not the same Kind".to_string()]);

    let mut t = TyState::new();
    assert!(!program.check(&mut t).unwrap());
}

#[test]
fn assignment_of_the_same_kind_updates() {
    let program = sequence(decl(name("x"), number(1)), assign(name("x"), number(9)));
    let (env, out) = execute(&program);
    assert_eq!(env.get("x"), Some(Val::Int(9)));
    assert!(out.is_empty());
    let mut t = TyState::new();
    assert!(program.check(&mut t).unwrap());
}

#[test]
fn assignment_of_an_undefined_value_is_refused() {
    let program = sequence(
        decl(name("x"), number(1)),
        assign(name("x"), plus(boolean(true), number(1))),
    );
    let (env, out) = execute(&program);
    assert_eq!(env.get("x"), Some(Val::Int(1)));
    assert_eq!(out, vec!["value is undefined".to_string()]);
}

#[test]
fn assignment_to_an_undefined_variable_is_refused() {
    let program = sequence(
        decl(name("x"), plus(boolean(true), number(1))),
        assign(name("x"), number(2)),
    );
    let (env, out) = execute(&program);
    assert_eq!(env.get("x"), Some(Val::Undefined));
    assert_eq!(out, vec!["var is undefined".to_string()]);
}

#[test]
fn assignment_to_an_undeclared_variable_is_an_error() {
    let program = assign(name("q"), number(2));
    let mut env = ValState::new();
    let mut out = Vec::new();
    assert!(matches!(program.exec(&mut env, &mut out), Err(InterpError::UndeclaredVariable(n)) if n == "q"));
    assert_eq!(env.len(), 0);
    let mut t = TyState::new();
    assert!(matches!(program.check(&mut t), Err(InterpError::UndeclaredVariable(n)) if n == "q"));
}

#[test]
fn the_state_lists_each_variable_once() {
    let program = sequence(
        decl(name("x"), number(1)),
        sequence(
            decl(name("b"), boolean(true)),
            sequence(decl(name("x"), number(5)), decl(name("u"), plus(boolean(true), number(1)))),
        ),
    );
    let (env, _) = execute(&program);
    assert_eq!(env.show_state(), "state: {x: 5, b: true, u: undefined}");
    assert_eq!(ValState::new().show_state(), "state: {}");
}

#[test]
fn redeclaration_replaces() {
    let program = sequence(decl(name("x"), number(1)), decl(name("x"), boolean(true)));
    let (env, _) = execute(&program);
    assert_eq!(env.get("x"), Some(Val::Bool(true)));
    let mut t = TyState::new();
    assert!(program.check(&mut t).unwrap());
    assert_eq!(t.get("x"), Some(Type::TyBool));
}

#[test]
fn a_false_loop_runs_zero_times() {
    let program = _while(boolean(false), print(number(1)));
    let (env, out) = execute(&program);
    assert!(out.is_empty());
    assert_eq!(env.len(), 0);
}

#[test]
fn a_loop_counts_up() {
    let program = sequence(
        decl(name("x"), number(0)),
        _while(
            less(variable(name("x")), number(3)),
            sequence(
                print(variable(name("x"))),
                assign(name("x"), plus(variable(name("x")), number(1))),
            ),
        ),
    );
    let (env, out) = execute(&program);
    assert_eq!(out, vec!["Output 0", "Output 1", "Output 2"]);
    assert_eq!(env.get("x"), Some(Val::Int(3)));
    let mut t = TyState::new();
    assert!(program.check(&mut t).unwrap());
}

#[test]
fn a_loop_on_a_non_boolean_reports_and_stops() {
    let program = _while(number(1), print(number(1)));
    let (_, out) = execute(&program);
    assert_eq!(out, vec!["cond is no bool".to_string()]);
}

#[test]
fn an_endless_loop_stops_at_its_budget() {
    let program = _while(boolean(true), print(number(1)));
    let mut env = ValState::new();
    let mut out = Vec::new();
    assert!(matches!(program.exec_bounded(&mut env, &mut out, 3), Err(InterpError::StepLimit)));
    assert_eq!(out.len(), 3);
}

#[test]
fn a_conditional_runs_one_branch_and_checks_both() {
    let program = ifthenelse(
        less(number(0), number(1)),
        print(boolean(true)),
        print(boolean(false)),
    );
    let (_, out) = execute(&program);
    assert_eq!(out, vec!["Output true".to_string()]);
    let mut t = TyState::new();
    assert!(program.check(&mut t).unwrap());

    let broken_else = ifthenelse(
        less(number(0), number(1)),
        print(boolean(true)),
        print(plus(boolean(true), number(1))),
    );
    let (_, out) = execute(&broken_else);
    assert_eq!(out, vec!["Output true".to_string()]);
    let mut t = TyState::new();
    assert!(!broken_else.check(&mut t).unwrap());
}

#[test]
fn a_conditional_on_a_non_boolean_reports() {
    let program = ifthenelse(number(0), print(number(1)), print(number(2)));
    let (_, out) = execute(&program);
    assert_eq!(out, vec!["Error Parsing IfThenElse".to_string()]);
}

#[test]
fn print_shows_undefined() {
    let (_, out) = execute(&print(plus(boolean(true), number(1))));
    assert_eq!(out, vec!["Output Undefined".to_string()]);
    let mut t = TyState::new();
    assert!(!print(plus(boolean(true), number(1))).check(&mut t).unwrap());
}

#[test]
fn checking_keeps_declarations_before_a_failure() {
    let program = sequence(
        decl(name("x"), number(1)),
        sequence(print(plus(boolean(true), number(1))), decl(name("y"), number(2))),
    );
    let mut t = TyState::new();
    assert!(!program.check(&mut t).unwrap());
    assert_eq!(t.get("x"), Some(Type::TyInt));
    assert_eq!(t.get("y"), None);
    assert_eq!(t.len(), 1);
}

#[test]
fn an_ill_typed_declaration_fails_without_binding() {
    let mut t = TyState::new();
    assert!(!decl(name("x"), plus(boolean(true), number(1))).check(&mut t).unwrap());
    assert_eq!(t.get("x"), None);
}

#[test]
fn statements_print_as_source() {
    let program = sequence(
        decl(name("x"), number(1)),
        decl(name("y"), plus(number(6), variable(name("x")))),
    );
    assert_eq!(program.pretty(), "x:= 1; y:= (6+x)");
    assert_eq!(assign(name("x"), boolean(true)).pretty(), "x = true");
    assert_eq!(
        ifthenelse(less(number(0), number(1)), print(boolean(true)), print(boolean(false))).pretty(),
        "if (0<1) then print true else print false"
    );
    assert_eq!(_while(boolean(false), print(number(1))).pretty(), "while false print 1");
    assert_eq!(program.pretty(), program.pretty());
}

#[test]
fn the_demonstration_transcript() {
    let expected = vec![
        "*******", "5", "5", "int",
        "*******", "((1*2)+0)", "2", "int",
        "*******", "(false&&0)", "undefined", "illtyped",
        "*******", "(false||0)", "undefined", "illtyped",
        "*******", "(0<1)", "true", "bool",
        "*******", "x:= 1; y:= (6+x)", "state: {x: 1, y: 7}", "type checker: true",
    ];
    assert_eq!(run(), expected);
}
