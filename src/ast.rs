use vstd::prelude::*;

verus! {

/// An expression tree. Each composite node owns its children.
pub enum Exp {
    Var { name: String },
    Num { val: i32 },
    Bool { val: bool },
    Plus { left: Box<Exp>, right: Box<Exp> },
    Mult { left: Box<Exp>, right: Box<Exp> },
    And { left: Box<Exp>, right: Box<Exp> },
    Or { left: Box<Exp>, right: Box<Exp> },
    Neg { exp: Box<Exp> },
    Equ { left: Box<Exp>, right: Box<Exp> },
    Less { left: Box<Exp>, right: Box<Exp> },
    Grp { exp: Box<Exp> },
}

/// A statement tree. Each composite node owns its sub-statements and
/// expressions.
pub enum Stmt {
    Sequence { first: Box<Stmt>, second: Box<Stmt> },
    Decl { lhs: String, rhs: Box<Exp> },
    While { cond: Box<Exp>, stmt: Box<Stmt> },
    IfThenElse { cond: Box<Exp>, then_stmt: Box<Stmt>, else_stmt: Box<Stmt> },
    Assign { lhs: String, rhs: Box<Exp> },
    Print { print_exp: Box<Exp> },
}

/// The integer literal `val`.
pub fn number(val: i32) -> (r: Box<Exp>)
    ensures
        *r == (Exp::Num { val }),
{
    Box::new(Exp::Num { val })
}

/// The boolean literal `val`.
pub fn boolean(val: bool) -> (r: Box<Exp>)
    ensures
        *r == (Exp::Bool { val }),
{
    Box::new(Exp::Bool { val })
}

/// The product `left * right`.
pub fn mult(left: Box<Exp>, right: Box<Exp>) -> (r: Box<Exp>)
    ensures
        *r == (Exp::Mult { left, right }),
{
    Box::new(Exp::Mult { left, right })
}

/// The sum `left + right`.
pub fn plus(left: Box<Exp>, right: Box<Exp>) -> (r: Box<Exp>)
    ensures
        *r == (Exp::Plus { left, right }),
{
    Box::new(Exp::Plus { left, right })
}

/// The conjunction `left && right`.
pub fn and(left: Box<Exp>, right: Box<Exp>) -> (r: Box<Exp>)
    ensures
        *r == (Exp::And { left, right }),
{
    Box::new(Exp::And { left, right })
}

/// The disjunction `left || right`.
pub fn or(left: Box<Exp>, right: Box<Exp>) -> (r: Box<Exp>)
    ensures
        *r == (Exp::Or { left, right }),
{
    Box::new(Exp::Or { left, right })
}

/// The comparison `left < right`.
pub fn less(left: Box<Exp>, right: Box<Exp>) -> (r: Box<Exp>)
    ensures
        *r == (Exp::Less { left, right }),
{
    Box::new(Exp::Less { left, right })
}

/// The equality test `left == right`.
pub fn equal(left: Box<Exp>, right: Box<Exp>) -> (r: Box<Exp>)
    ensures
        *r == (Exp::Equ { left, right }),
{
    Box::new(Exp::Equ { left, right })
}

/// The negation `!exp`.
pub fn not(exp: Box<Exp>) -> (r: Box<Exp>)
    ensures
        *r == (Exp::Neg { exp }),
{
    Box::new(Exp::Neg { exp })
}

/// `exp` in parentheses.
pub fn group(exp: Box<Exp>) -> (r: Box<Exp>)
    ensures
        *r == (Exp::Grp { exp }),
{
    Box::new(Exp::Grp { exp })
}

/// A reference to the variable `name`.
pub fn variable(name: String) -> (r: Box<Exp>)
    ensures
        *r == (Exp::Var { name }),
{
    Box::new(Exp::Var { name })
}

/// `first`, then `second`.
pub fn seq(first: Box<Stmt>, second: Box<Stmt>) -> (r: Box<Stmt>)
    ensures
        *r == (Stmt::Sequence { first, second }),
{
    Box::new(Stmt::Sequence { first, second })
}

/// Declares `lhs` with the value of `rhs`.
pub fn decl(lhs: String, rhs: Box<Exp>) -> (r: Box<Stmt>)
    ensures
        *r == (Stmt::Decl { lhs, rhs }),
{
    Box::new(Stmt::Decl { lhs, rhs })
}

/// Assigns the value of `rhs` to the declared variable `lhs`.
pub fn assign(lhs: String, rhs: Box<Exp>) -> (r: Box<Stmt>)
    ensures
        *r == (Stmt::Assign { lhs, rhs }),
{
    Box::new(Stmt::Assign { lhs, rhs })
}

/// Runs `then_stmt` when `cond` holds, else `else_stmt`.
pub fn ifthenelse(cond: Box<Exp>, then_stmt: Box<Stmt>, else_stmt: Box<Stmt>) -> (r: Box<Stmt>)
    ensures
        *r == (Stmt::IfThenElse { cond, then_stmt, else_stmt }),
{
    Box::new(Stmt::IfThenElse { cond, then_stmt, else_stmt })
}

/// Runs `stmt` as long as `cond` holds.
pub fn _while(cond: Box<Exp>, stmt: Box<Stmt>) -> (r: Box<Stmt>)
    ensures
        *r == (Stmt::While { cond, stmt }),
{
    Box::new(Stmt::While { cond, stmt })
}

/// Emits the value of `print_exp`.
pub fn print(print_exp: Box<Exp>) -> (r: Box<Stmt>)
    ensures
        *r == (Stmt::Print { print_exp }),
{
    Box::new(Stmt::Print { print_exp })
}

} // verus!
