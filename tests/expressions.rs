use imp_interp::ast::{and, boolean, equal, group, less, mult, not, number, or, plus, variable, Exp};
use imp_interp::env::{TyState, ValState};
use imp_interp::error::InterpError;
use imp_interp::pretty::{show_int, show_type, show_val};
use imp_interp::value::{Kind, Type, Val};

fn closed(e: &Exp) -> (Val, Type) {
    let s = ValState::new();
    let t = TyState::new();
    (e.eval(&s).unwrap(), e.infer(&t))
}

#[test]
fn literals_evaluate_to_themselves() {
    assert_eq!(closed(&number(5)), (Val::Int(5), Type::TyInt));
    assert_eq!(closed(&boolean(false)), (Val::Bool(false), Type::TyBool));
}

#[test]
fn well_typed_closed_expressions_agree_with_their_values() {
    let cases = vec![
        (plus(mult(number(1), number(2)), number(0)), Val::Int(2), Type::TyInt),
        (less(number(0), number(1)), Val::Bool(true), Type::TyBool),
        (and(boolean(true), not(boolean(false))), Val::Bool(true), Type::TyBool),
        (or(boolean(false), boolean(false)), Val::Bool(false), Type::TyBool),
        (group(mult(number(3), number(-4))), Val::Int(-12), Type::TyInt),
    ];
    for (e, v, t) in cases {
        assert_eq!(closed(&e), (v, t));
    }
}

#[test]
fn equality_is_typed_with_its_operand_type() {
    let e = equal(number(1), number(1));
    assert_eq!(closed(&e), (Val::Bool(true), Type::TyInt));
    let e = equal(boolean(true), boolean(false));
    assert_eq!(closed(&e), (Val::Bool(false), Type::TyBool));
    let e = equal(number(1), boolean(true));
    assert_eq!(closed(&e), (Val::Undefined, Type::TyIllTyped));
}

#[test]
fn grouping_is_transparent() {
    let cases = vec![
        number(7),
        boolean(true),
        plus(boolean(true), number(1)),
        less(number(2), number(1)),
    ];
    for e in cases {
        let s = ValState::new();
        let t = TyState::new();
        let inner = (e.eval(&s).unwrap(), e.infer(&t));
        let outer = group(e);
        assert_eq!((outer.eval(&s).unwrap(), outer.infer(&t)), inner);
    }
}

#[test]
fn arithmetic_with_a_non_integer_is_undefined_and_ill_typed() {
    assert_eq!(closed(&plus(boolean(true), number(1))), (Val::Undefined, Type::TyIllTyped));
    assert_eq!(closed(&mult(number(2), boolean(false))), (Val::Undefined, Type::TyIllTyped));
    assert_eq!(closed(&less(boolean(true), number(1))), (Val::Undefined, Type::TyIllTyped));
}

#[test]
fn logic_with_a_non_boolean_is_undefined_and_ill_typed() {
    assert_eq!(closed(&and(boolean(false), number(0))), (Val::Undefined, Type::TyIllTyped));
    assert_eq!(closed(&or(boolean(false), number(0))), (Val::Undefined, Type::TyIllTyped));
    assert_eq!(closed(&not(number(0))), (Val::Undefined, Type::TyIllTyped));
}

#[test]
fn undefined_poisons_enclosing_expressions() {
    let e = plus(plus(boolean(true), number(1)), number(2));
    assert_eq!(closed(&e), (Val::Undefined, Type::TyIllTyped));
}

#[test]
fn arithmetic_wraps_around() {
    assert_eq!(closed(&plus(number(i32::MAX), number(1))).0, Val::Int(i32::MIN));
    assert_eq!(closed(&mult(number(65536), number(65536))).0, Val::Int(0));
}

#[test]
fn variables_read_the_environment() {
    let mut s = ValState::new();
    s.insert("x".to_string(), Val::Int(4));
    let mut t = TyState::new();
    t.insert("x".to_string(), Type::TyInt);
    let e = mult(variable("x".to_string()), number(3));
    assert_eq!(e.eval(&s).unwrap(), Val::Int(12));
    assert_eq!(e.infer(&t), Type::TyInt);
}

#[test]
fn an_undeclared_variable_is_an_error_at_run_time_and_ill_typed_statically() {
    let s = ValState::new();
    let t = TyState::new();
    let e = plus(number(1), variable("z".to_string()));
    match e.eval(&s) {
        Err(InterpError::UndeclaredVariable(name)) => assert_eq!(name, "z"),
        other => panic!("unexpected {:?}", other),
    }
    assert_eq!(e.infer(&t), Type::TyIllTyped);
}

#[test]
fn the_left_operand_fails_first() {
    let s = ValState::new();
    let e = plus(variable("a".to_string()), variable("b".to_string()));
    assert!(matches!(e.eval(&s), Err(InterpError::UndeclaredVariable(n)) if n == "a"));
}

#[test]
fn expressions_print_as_source() {
    assert_eq!(plus(mult(number(1), number(2)), number(0)).pretty(), "((1*2)+0)");
    assert_eq!(and(boolean(false), number(0)).pretty(), "(false&&0)");
    assert_eq!(or(boolean(true), boolean(false)).pretty(), "(true||false)");
    assert_eq!(less(number(0), number(1)).pretty(), "(0<1)");
    assert_eq!(equal(variable("x".to_string()), number(10)).pretty(), "(x==10)");
    assert_eq!(not(boolean(true)).pretty(), "(!true)");
    assert_eq!(group(number(-305)).pretty(), "(-305)");
}

#[test]
fn printing_twice_gives_the_same_text() {
    let e = plus(group(number(1)), not(boolean(false)));
    let first = e.pretty();
    let second = e.pretty();
    assert_eq!(first, second);
    assert_eq!(first, "((1)+(!false))");
}

#[test]
fn integers_print_in_decimal() {
    assert_eq!(show_int(0), "0");
    assert_eq!(show_int(42), "42");
    assert_eq!(show_int(-7), "-7");
    assert_eq!(show_int(i32::MAX), "2147483647");
    assert_eq!(show_int(i32::MIN), "-2147483648");
}

#[test]
fn values_and_types_as_text() {
    assert_eq!(show_val(Val::Int(12)), "12");
    assert_eq!(show_val(Val::Bool(true)), "true");
    assert_eq!(show_val(Val::Undefined), "undefined");
    assert_eq!(show_type(Type::TyInt), "int");
    assert_eq!(show_type(Type::TyBool), "bool");
    assert_eq!(show_type(Type::TyIllTyped), "Illtyped");
}

#[test]
fn value_constructors_and_kinds() {
    assert_eq!(Val::mk_int(&3), Val::Int(3));
    assert_eq!(Val::mk_bool(&false), Val::Bool(false));
    assert_eq!(Val::mk_undefined(), Val::Undefined);
    assert_eq!(Val::Int(3).kind(), Kind::ValueInt);
    assert_eq!(Val::Bool(true).kind(), Kind::ValueBool);
    assert_eq!(Val::Undefined.kind(), Kind::Undefined);
}

#[test]
fn value_operations() {
    assert_eq!(Val::Int(2).sum(&Val::Int(3)), Val::Int(5));
    assert_eq!(Val::Int(2).product(&Val::Int(3)), Val::Int(6));
    assert_eq!(Val::Bool(true).conj(&Val::Bool(false)), Val::Bool(false));
    assert_eq!(Val::Bool(true).disj(&Val::Bool(false)), Val::Bool(true));
    assert_eq!(Val::Int(2).equals(&Val::Int(2)), Val::Bool(true));
    assert_eq!(Val::Int(2).less_than(&Val::Int(2)), Val::Bool(false));
    assert_eq!(Val::Bool(true).negate(), Val::Bool(false));
    assert_eq!(Val::Undefined.negate(), Val::Undefined);
    assert_eq!(Val::Int(1).equals(&Val::Bool(true)), Val::Undefined);
}

#[test]
fn typing_rules() {
    assert_eq!(Type::TyInt.arith(&Type::TyInt), Type::TyInt);
    assert_eq!(Type::TyInt.arith(&Type::TyBool), Type::TyIllTyped);
    assert_eq!(Type::TyBool.logic(&Type::TyBool), Type::TyBool);
    assert_eq!(Type::TyBool.equality(&Type::TyBool), Type::TyBool);
    assert_eq!(Type::TyIllTyped.equality(&Type::TyIllTyped), Type::TyIllTyped);
    assert_eq!(Type::TyInt.less(&Type::TyInt), Type::TyBool);
    assert_eq!(Type::TyInt.negate(), Type::TyIllTyped);
}
