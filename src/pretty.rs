use vstd::prelude::*;
use vstd::string::StringExecFns;
use crate::ast::{Exp, Stmt};
use crate::value::{Val, Type};

verus! {

/// The decimal digit `d`.
pub open spec fn digit_char(d: nat) -> char {
    if d == 0 {
        '0'
    } else if d == 1 {
        '1'
    } else if d == 2 {
        '2'
    } else if d == 3 {
        '3'
    } else if d == 4 {
        '4'
    } else if d == 5 {
        '5'
    } else if d == 6 {
        '6'
    } else if d == 7 {
        '7'
    } else if d == 8 {
        '8'
    } else {
        '9'
    }
}

/// The decimal digits of `n`, most significant first, without leading zeros.
pub open spec fn digits(n: nat) -> Seq<char>
    decreases n,
{
    if n < 10 {
        seq![digit_char(n)]
    } else {
        digits(n / 10).push(digit_char(n % 10))
    }
}

/// `n` in decimal, with a leading `-` when it is negative.
pub open spec fn decimal(n: int) -> Seq<char> {
    if n < 0 {
        seq!['-'] + digits((-n) as nat)
    } else {
        digits(n as nat)
    }
}

/// `true` or `false`.
pub open spec fn bool_text(b: bool) -> Seq<char> {
    if b {
        "true"@
    } else {
        "false"@
    }
}

/// A value as the output shows it.
pub open spec fn val_text(v: Val) -> Seq<char> {
    match v {
        Val::Int(n) => decimal(n as int),
        Val::Bool(b) => bool_text(b),
        Val::Undefined => "undefined"@,
    }
}

/// A static type as text.
pub open spec fn type_text(t: Type) -> Seq<char> {
    match t {
        Type::TyInt => "int"@,
        Type::TyBool => "bool"@,
        Type::TyIllTyped => "Illtyped"@,
    }
}

/// `(<l><op><r>)`.
pub open spec fn infix(l: Seq<char>, op: Seq<char>, r: Seq<char>) -> Seq<char> {
    "("@ + l + op + r + ")"@
}

/// The source text of an expression.
pub open spec fn pretty_exp(e: Exp) -> Seq<char>
    decreases e,
{
    match e {
        Exp::Var { name } => name@,
        Exp::Num { val } => decimal(val as int),
        Exp::Bool { val } => bool_text(val),
        Exp::Plus { left, right } => infix(pretty_exp(*left), "+"@, pretty_exp(*right)),
        Exp::Mult { left, right } => infix(pretty_exp(*left), "*"@, pretty_exp(*right)),
        Exp::And { left, right } => infix(pretty_exp(*left), "&&"@, pretty_exp(*right)),
        Exp::Or { left, right } => infix(pretty_exp(*left), "||"@, pretty_exp(*right)),
        Exp::Equ { left, right } => infix(pretty_exp(*left), "=="@, pretty_exp(*right)),
        Exp::Less { left, right } => infix(pretty_exp(*left), "<"@, pretty_exp(*right)),
        Exp::Neg { exp } => "(!"@ + pretty_exp(*exp) + ")"@,
        Exp::Grp { exp } => "("@ + pretty_exp(*exp) + ")"@,
    }
}

/// The source text of a statement. A sequence is joined by `; `.
pub open spec fn pretty_stmt(s: Stmt) -> Seq<char>
    decreases s,
{
    match s {
        Stmt::Sequence { first, second } => pretty_stmt(*first) + "; "@ + pretty_stmt(*second),
        Stmt::Decl { lhs, rhs } => lhs@ + ":= "@ + pretty_exp(*rhs),
        Stmt::Assign { lhs, rhs } => lhs@ + " = "@ + pretty_exp(*rhs),
        Stmt::IfThenElse { cond, then_stmt, else_stmt } => "if "@ + pretty_exp(*cond) + " then "@
            + pretty_stmt(*then_stmt) + " else "@ + pretty_stmt(*else_stmt),
        Stmt::While { cond, stmt } => "while "@ + pretty_exp(*cond) + " "@ + pretty_stmt(*stmt),
        Stmt::Print { print_exp } => "print "@ + pretty_exp(*print_exp),
    }
}

fn digit_str(d: u32) -> (r: &'static str)
    requires
        d < 10,
    ensures
        r@ == seq![digit_char(d as nat)],
{
    proof {
        reveal_strlit("0");
        reveal_strlit("1");
        reveal_strlit("2");
        reveal_strlit("3");
        reveal_strlit("4");
        reveal_strlit("5");
        reveal_strlit("6");
        reveal_strlit("7");
        reveal_strlit("8");
        reveal_strlit("9");
    }
    match d {
        0 => "0",
        1 => "1",
        2 => "2",
        3 => "3",
        4 => "4",
        5 => "5",
        6 => "6",
        7 => "7",
        8 => "8",
        _ => "9",
    }
}

fn show_nat(n: u32) -> (r: String)
    ensures
        r@ == digits(n as nat),
    decreases n,
{
    if n < 10 {
        let mut r = String::new();
        r.append(digit_str(n));
        r
    } else {
        let mut r = show_nat(n / 10);
        r.append(digit_str(n % 10));
        r
    }
}

/// `n` in decimal.
pub fn show_int(n: i32) -> (r: String)
    ensures
        r@ == decimal(n as int),
{
    if n < 0 {
        let m = (-(n as i64)) as u32;
        let mut r = String::new();
        proof {
            reveal_strlit("-");
        }
        r.append("-");
        let d = show_nat(m);
        r.append(d.as_str());
        r
    } else {
        show_nat(n as u32)
    }
}

/// `b` as `true` or `false`.
pub fn show_bool(b: bool) -> (r: String)
    ensures
        r@ == bool_text(b),
{
    let mut r = String::new();
    if b {
        r.append("true");
    } else {
        r.append("false");
    }
    r
}

/// `v` as the output shows it: the integer in decimal, `true`, `false` or
/// `undefined`.
pub fn show_val(v: Val) -> (r: String)
    ensures
        r@ == val_text(v),
{
    match v {
        Val::Int(n) => show_int(n),
        Val::Bool(b) => show_bool(b),
        Val::Undefined => {
            let mut r = String::new();
            r.append("undefined");
            r
        },
    }
}

/// `t` as `int`, `bool` or `Illtyped`.
pub fn show_type(t: Type) -> (r: String)
    ensures
        r@ == type_text(t),
{
    let mut r = String::new();
    match t {
        Type::TyInt => r.append("int"),
        Type::TyBool => r.append("bool"),
        Type::TyIllTyped => r.append("Illtyped"),
    }
    r
}

fn infix_text(l: String, op: &str, r: String) -> (res: String)
    ensures
        res@ == infix(l@, op@, r@),
{
    let mut x = String::new();
    x.append("(");
    x.append(l.as_str());
    x.append(op);
    x.append(r.as_str());
    x.append(")");
    assert(x@ =~= infix(l@, op@, r@));
    x
}

fn wrapped_text(open: &str, inner: String) -> (res: String)
    ensures
        res@ == open@ + inner@ + ")"@,
{
    let mut x = String::new();
    x.append(open);
    x.append(inner.as_str());
    x.append(")");
    assert(x@ =~= open@ + inner@ + ")"@);
    x
}

/// `head`, then `a`, then `sep`, then `b`.
fn joined(head: &str, a: String, sep: &str, b: String) -> (res: String)
    ensures
        res@ == head@ + a@ + sep@ + b@,
{
    let mut x = String::new();
    x.append(head);
    x.append(a.as_str());
    x.append(sep);
    x.append(b.as_str());
    assert(x@ =~= head@ + a@ + sep@ + b@);
    x
}

impl Exp {
    /// The source text of this expression: binary operators as
    /// `(<left><op><right>)`, negation as `(!<exp>)`, grouping as `(<exp>)`.
    pub fn pretty(&self) -> (r: String)
        ensures
            r@ == pretty_exp(*self),
        decreases self,
    {
        match self {
            Exp::Var { name } => name.clone(),
            Exp::Num { val } => show_int(*val),
            Exp::Bool { val } => show_bool(*val),
            Exp::Plus { left, right } => infix_text(left.pretty(), "+", right.pretty()),
            Exp::Mult { left, right } => infix_text(left.pretty(), "*", right.pretty()),
            Exp::And { left, right } => infix_text(left.pretty(), "&&", right.pretty()),
            Exp::Or { left, right } => infix_text(left.pretty(), "||", right.pretty()),
            Exp::Equ { left, right } => infix_text(left.pretty(), "==", right.pretty()),
            Exp::Less { left, right } => infix_text(left.pretty(), "<", right.pretty()),
            Exp::Neg { exp } => wrapped_text("(!", exp.pretty()),
            Exp::Grp { exp } => wrapped_text("(", exp.pretty()),
        }
    }
}

impl Stmt {
    /// The source text of this statement: `<first>; <second>`,
    /// `<name>:= <exp>`, `<name> = <exp>`, `if <cond> then <then> else <else>`,
    /// `while <cond> <body>`, `print <exp>`.
    pub fn pretty(&self) -> (r: String)
        ensures
            r@ == pretty_stmt(*self),
        decreases self,
    {
        proof {
            reveal_strlit("");
        }
        match self {
            Stmt::Sequence { first, second } => joined("", first.pretty(), "; ", second.pretty()),
            Stmt::Decl { lhs, rhs } => joined("", lhs.clone(), ":= ", rhs.pretty()),
            Stmt::Assign { lhs, rhs } => joined("", lhs.clone(), " = ", rhs.pretty()),
            Stmt::IfThenElse { cond, then_stmt, else_stmt } => {
                let head = joined("if ", cond.pretty(), " then ", then_stmt.pretty());
                let r = joined("", head, " else ", else_stmt.pretty());
                assert(r@ =~= pretty_stmt(*self));
                r
            },
            Stmt::While { cond, stmt } => joined("while ", cond.pretty(), " ", stmt.pretty()),
            Stmt::Print { print_exp } => joined("print ", print_exp.pretty(), "", String::new()),
        }
    }
}

} // verus!
