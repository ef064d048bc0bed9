use vstd::prelude::*;
use crate::ast::Exp;
use crate::env::{ValState, TyState};
use crate::error::{Fault, InterpError};
use crate::value::{
    Val, Type, sum_val, product_val, conj_val, disj_val, equals_val, less_val, negate_val,
    arith_rule, logic_rule, equality_rule, less_rule, negate_rule,
};

verus! {

/// Both operands evaluated, the left one first: the first fault wins.
pub open spec fn both(l: Result<Val, Fault>, r: Result<Val, Fault>) -> Result<(Val, Val), Fault> {
    match l {
        Err(f) => Err(f),
        Ok(a) => match r {
            Err(f) => Err(f),
            Ok(b) => Ok((a, b)),
        },
    }
}

/// The value of `e` in the environment `s`, or the fault that stops its
/// evaluation (reading an undeclared variable).
pub open spec fn eval_exp(e: Exp, s: Map<Seq<char>, Val>) -> Result<Val, Fault>
    decreases e,
{
    match e {
        Exp::Var { name } => if s.contains_key(name@) {
            Ok(s[name@])
        } else {
            Err(Fault::UndeclaredVariable(name@))
        },
        Exp::Num { val } => Ok(Val::Int(val)),
        Exp::Bool { val } => Ok(Val::Bool(val)),
        Exp::Plus { left, right } => match both(eval_exp(*left, s), eval_exp(*right, s)) {
            Ok((a, b)) => Ok(sum_val(a, b)),
            Err(f) => Err(f),
        },
        Exp::Mult { left, right } => match both(eval_exp(*left, s), eval_exp(*right, s)) {
            Ok((a, b)) => Ok(product_val(a, b)),
            Err(f) => Err(f),
        },
        Exp::And { left, right } => match both(eval_exp(*left, s), eval_exp(*right, s)) {
            Ok((a, b)) => Ok(conj_val(a, b)),
            Err(f) => Err(f),
        },
        Exp::Or { left, right } => match both(eval_exp(*left, s), eval_exp(*right, s)) {
            Ok((a, b)) => Ok(disj_val(a, b)),
            Err(f) => Err(f),
        },
        Exp::Equ { left, right } => match both(eval_exp(*left, s), eval_exp(*right, s)) {
            Ok((a, b)) => Ok(equals_val(a, b)),
            Err(f) => Err(f),
        },
        Exp::Less { left, right } => match both(eval_exp(*left, s), eval_exp(*right, s)) {
            Ok((a, b)) => Ok(less_val(a, b)),
            Err(f) => Err(f),
        },
        Exp::Neg { exp } => match eval_exp(*exp, s) {
            Ok(a) => Ok(negate_val(a)),
            Err(f) => Err(f),
        },
        Exp::Grp { exp } => eval_exp(*exp, s),
    }
}

/// The static type of `e` in the type environment `t`. An undeclared
/// variable is ill-typed.
pub open spec fn infer_exp(e: Exp, t: Map<Seq<char>, Type>) -> Type
    decreases e,
{
    match e {
        Exp::Var { name } => if t.contains_key(name@) {
            t[name@]
        } else {
            Type::TyIllTyped
        },
        Exp::Num { .. } => Type::TyInt,
        Exp::Bool { .. } => Type::TyBool,
        Exp::Plus { left, right } => arith_rule(infer_exp(*left, t), infer_exp(*right, t)),
        Exp::Mult { left, right } => arith_rule(infer_exp(*left, t), infer_exp(*right, t)),
        Exp::And { left, right } => logic_rule(infer_exp(*left, t), infer_exp(*right, t)),
        Exp::Or { left, right } => logic_rule(infer_exp(*left, t), infer_exp(*right, t)),
        Exp::Equ { left, right } => equality_rule(infer_exp(*left, t), infer_exp(*right, t)),
        Exp::Less { left, right } => less_rule(infer_exp(*left, t), infer_exp(*right, t)),
        Exp::Neg { exp } => negate_rule(infer_exp(*exp, t)),
        Exp::Grp { exp } => infer_exp(*exp, t),
    }
}

impl Exp {
    /// The value of this expression in `s`. Operands of the wrong kind give
    /// `Undefined`; reading an undeclared variable is an error.
    pub fn eval(&self, s: &ValState) -> (r: Result<Val, InterpError>)
        ensures
            match r {
                Ok(v) => eval_exp(*self, s@) == Ok::<Val, Fault>(v),
                Err(e) => eval_exp(*self, s@) == Err::<Val, Fault>(e@),
            },
        decreases self,
    {
        match self {
            Exp::Var { name } => match s.get(name.as_str()) {
                Some(v) => Ok(v),
                None => Err(InterpError::UndeclaredVariable(name.clone())),
            },
            Exp::Num { val } => Ok(Val::mk_int(val)),
            Exp::Bool { val } => Ok(Val::mk_bool(val)),
            Exp::Plus { left, right } => {
                let a = left.eval(s)?;
                let b = right.eval(s)?;
                Ok(a.sum(&b))
            },
            Exp::Mult { left, right } => {
                let a = left.eval(s)?;
                let b = right.eval(s)?;
                Ok(a.product(&b))
            },
            Exp::And { left, right } => {
                let a = left.eval(s)?;
                let b = right.eval(s)?;
                Ok(a.conj(&b))
            },
            Exp::Or { left, right } => {
                let a = left.eval(s)?;
                let b = right.eval(s)?;
                Ok(a.disj(&b))
            },
            Exp::Equ { left, right } => {
                let a = left.eval(s)?;
                let b = right.eval(s)?;
                Ok(a.equals(&b))
            },
            Exp::Less { left, right } => {
                let a = left.eval(s)?;
                let b = right.eval(s)?;
                Ok(a.less_than(&b))
            },
            Exp::Neg { exp } => {
                let a = exp.eval(s)?;
                Ok(a.negate())
            },
            Exp::Grp { exp } => exp.eval(s),
        }
    }

    /// The static type of this expression in `t`.
    pub fn infer(&self, t: &TyState) -> (r: Type)
        ensures
            r == infer_exp(*self, t@),
        decreases self,
    {
        match self {
            Exp::Var { name } => match t.get(name.as_str()) {
                Some(ty) => ty,
                None => Type::TyIllTyped,
            },
            Exp::Num { .. } => Type::TyInt,
            Exp::Bool { .. } => Type::TyBool,
            Exp::Plus { left, right } => left.infer(t).arith(&right.infer(t)),
            Exp::Mult { left, right } => left.infer(t).arith(&right.infer(t)),
            Exp::And { left, right } => left.infer(t).logic(&right.infer(t)),
            Exp::Or { left, right } => left.infer(t).logic(&right.infer(t)),
            Exp::Equ { left, right } => left.infer(t).equality(&right.infer(t)),
            Exp::Less { left, right } => left.infer(t).less(&right.infer(t)),
            Exp::Neg { exp } => exp.infer(t).negate(),
            Exp::Grp { exp } => exp.infer(t),
        }
    }
}

} // verus!
