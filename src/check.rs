use vstd::prelude::*;
use crate::ast::Stmt;
use crate::env::TyState;
use crate::error::{Fault, InterpError};
use crate::eval::infer_exp;
use crate::value::Type;

verus! {

/// Checking `s` against the type environment `t`: the environment it leaves
/// and whether `s` is well-typed, or the fault that stopped the check (an
/// assignment to a variable that was never declared). Declarations that are
/// checked before a failure stay in the environment.
pub open spec fn check_stmt(s: Stmt, t: Map<Seq<char>, Type>) -> (Map<Seq<char>, Type>, Result<bool, Fault>)
    decreases s,
{
    match s {
        Stmt::Sequence { first, second } => {
            let (t1, r1) = check_stmt(*first, t);
            if r1 == Ok::<bool, Fault>(true) {
                check_stmt(*second, t1)
            } else {
                (t1, r1)
            }
        },
        Stmt::Decl { lhs, rhs } => {
            let ty = infer_exp(*rhs, t);
            if ty == Type::TyIllTyped {
                (t, Ok(false))
            } else {
                (t.insert(lhs@, ty), Ok(true))
            }
        },
        Stmt::Assign { lhs, rhs } => if t.contains_key(lhs@) {
            (t, Ok(t[lhs@] == infer_exp(*rhs, t)))
        } else {
            (t, Err(Fault::UndeclaredVariable(lhs@)))
        },
        Stmt::IfThenElse { cond, then_stmt, else_stmt } => if infer_exp(*cond, t) == Type::TyIllTyped {
            (t, Ok(false))
        } else {
            let (t1, r1) = check_stmt(*then_stmt, t);
            if r1 == Ok::<bool, Fault>(true) {
                check_stmt(*else_stmt, t1)
            } else {
                (t1, r1)
            }
        },
        Stmt::While { cond, stmt } => if infer_exp(*cond, t) == Type::TyIllTyped {
            (t, Ok(false))
        } else {
            check_stmt(*stmt, t)
        },
        Stmt::Print { print_exp } => (t, Ok(infer_exp(*print_exp, t) != Type::TyIllTyped)),
    }
}

impl Stmt {
    /// Whether this statement is well-typed, binding in `t` the type of each
    /// variable it declares. Stops at the first part that fails.
    pub fn check(&self, t: &mut TyState) -> (r: Result<bool, InterpError>)
        ensures
            final(t)@ == check_stmt(*self, old(t)@).0,
            match r {
                Ok(b) => check_stmt(*self, old(t)@).1 == Ok::<bool, Fault>(b),
                Err(e) => check_stmt(*self, old(t)@).1 == Err::<bool, Fault>(e@),
            },
        decreases self,
    {
        match self {
            Stmt::Sequence { first, second } => {
                if !first.check(t)? {
                    return Ok(false);
                }
                second.check(t)
            },
            Stmt::Decl { lhs, rhs } => {
                let ty = rhs.infer(t);
                if ty == Type::TyIllTyped {
                    return Ok(false);
                }
                t.insert(lhs.clone(), ty);
                Ok(true)
            },
            Stmt::Assign { lhs, rhs } => {
                let y = rhs.infer(t);
                match t.get(lhs.as_str()) {
                    Some(w) => Ok(w == y),
                    None => Err(InterpError::UndeclaredVariable(lhs.clone())),
                }
            },
            Stmt::IfThenElse { cond, then_stmt, else_stmt } => {
                if cond.infer(t) == Type::TyIllTyped {
                    return Ok(false);
                }
                if !then_stmt.check(t)? {
                    return Ok(false);
                }
                else_stmt.check(t)
            },
            Stmt::While { cond, stmt } => {
                if cond.infer(t) == Type::TyIllTyped {
                    return Ok(false);
                }
                stmt.check(t)
            },
            Stmt::Print { print_exp } => Ok(print_exp.infer(t) != Type::TyIllTyped),
        }
    }
}

} // verus!
