use vstd::prelude::*;
use crate::ast::{Exp, Stmt};
use crate::eval::{eval_exp, infer_exp};
use crate::exec::{exec_stmt, done, kind_mismatch_text};
use crate::check::check_stmt;
use crate::pretty::{pretty_exp, pretty_stmt};
use crate::value::{Val, Type, kind_of};
use crate::error::Fault;

verus! {

/// Whether `e` holds an equality test anywhere.
pub open spec fn has_equ(e: Exp) -> bool
    decreases e,
{
    match e {
        Exp::Var { .. } | Exp::Num { .. } | Exp::Bool { .. } => false,
        Exp::Equ { .. } => true,
        Exp::Plus { left, right } | Exp::Mult { left, right } | Exp::And { left, right }
        | Exp::Or { left, right } | Exp::Less { left, right } => has_equ(*left) || has_equ(*right),
        Exp::Neg { exp } | Exp::Grp { exp } => has_equ(*exp),
    }
}

/// Whether `v` is a value of the static type `ty`.
pub open spec fn has_type(v: Val, ty: Type) -> bool {
    ||| (v is Int && ty == Type::TyInt)
    ||| (v is Bool && ty == Type::TyBool)
}

/// Whether every variable that `t` types is declared in `s` with a value of
/// that type.
pub open spec fn agrees(s: Map<Seq<char>, Val>, t: Map<Seq<char>, Type>) -> bool {
    forall|k: Seq<char>| #[trigger] t.contains_key(k) ==> s.contains_key(k) && has_type(s[k], t[k])
}

/// An expression without equality tests that type-checks evaluates, in an
/// environment that agrees with the type environment, to a defined value of
/// the inferred type. (An equality test is typed with the type of its
/// operands but evaluates to a boolean, so it is left out.) With both
/// environments empty this covers every well-typed closed expression.
pub proof fn lemma_infer_matches_eval(e: Exp, s: Map<Seq<char>, Val>, t: Map<Seq<char>, Type>)
    requires
        agrees(s, t),
        !has_equ(e),
        infer_exp(e, t) != Type::TyIllTyped,
    ensures
        eval_exp(e, s) is Ok,
        has_type(eval_exp(e, s)->Ok_0, infer_exp(e, t)),
    decreases e,
{
    match e {
        Exp::Var { name } => {
            assert(t.contains_key(name@));
        },
        Exp::Num { .. } | Exp::Bool { .. } => {},
        Exp::Equ { .. } => {},
        Exp::Plus { left, right } | Exp::Mult { left, right } | Exp::And { left, right }
        | Exp::Or { left, right } | Exp::Less { left, right } => {
            lemma_infer_matches_eval(*left, s, t);
            lemma_infer_matches_eval(*right, s, t);
        },
        Exp::Neg { exp } | Exp::Grp { exp } => {
            lemma_infer_matches_eval(*exp, s, t);
        },
    }
}

/// Printing is a function of the tree alone: equal trees print alike, and
/// no environment takes part.
pub proof fn lemma_pretty_deterministic(e1: Exp, e2: Exp, s1: Stmt, s2: Stmt)
    requires
        e1 == e2,
        s1 == s2,
    ensures
        pretty_exp(e1) == pretty_exp(e2),
        pretty_stmt(s1) == pretty_stmt(s2),
{
}

/// Grouping is transparent: `(e)` evaluates and types as `e` does.
pub proof fn lemma_group_transparent(e: Exp, s: Map<Seq<char>, Val>, t: Map<Seq<char>, Type>)
    ensures
        eval_exp(Exp::Grp { exp: Box::new(e) }, s) == eval_exp(e, s),
        infer_exp(Exp::Grp { exp: Box::new(e) }, t) == infer_exp(e, t),
{
}

/// `+`, `*` and `<` with an operand that is not an integer evaluate to
/// `Undefined`.
pub proof fn lemma_arith_needs_ints(l: Exp, r: Exp, s: Map<Seq<char>, Val>)
    requires
        eval_exp(l, s) is Ok,
        eval_exp(r, s) is Ok,
        !(eval_exp(l, s)->Ok_0 is Int) || !(eval_exp(r, s)->Ok_0 is Int),
    ensures
        eval_exp(Exp::Plus { left: Box::new(l), right: Box::new(r) }, s) == Ok::<Val, Fault>(Val::Undefined),
        eval_exp(Exp::Mult { left: Box::new(l), right: Box::new(r) }, s) == Ok::<Val, Fault>(Val::Undefined),
        eval_exp(Exp::Less { left: Box::new(l), right: Box::new(r) }, s) == Ok::<Val, Fault>(Val::Undefined),
{
}

/// `+`, `*` and `<` with an operand that is not typed as an integer are
/// ill-typed.
pub proof fn lemma_arith_types_need_ints(l: Exp, r: Exp, t: Map<Seq<char>, Type>)
    requires
        infer_exp(l, t) != Type::TyInt || infer_exp(r, t) != Type::TyInt,
    ensures
        infer_exp(Exp::Plus { left: Box::new(l), right: Box::new(r) }, t) == Type::TyIllTyped,
        infer_exp(Exp::Mult { left: Box::new(l), right: Box::new(r) }, t) == Type::TyIllTyped,
        infer_exp(Exp::Less { left: Box::new(l), right: Box::new(r) }, t) == Type::TyIllTyped,
{
}

/// An assignment of a value of another kind than the variable's current
/// (defined) value leaves the environment as it was and emits the mismatch
/// diagnostic.
pub proof fn lemma_assign_kind_mismatch(
    x: String,
    rhs: Exp,
    env: Map<Seq<char>, Val>,
    out: Seq<Seq<char>>,
    fuel: nat,
)
    requires
        env.contains_key(x@),
        !(env[x@] is Undefined),
        eval_exp(rhs, env) is Ok,
        !(eval_exp(rhs, env)->Ok_0 is Undefined),
        kind_of(eval_exp(rhs, env)->Ok_0) != kind_of(env[x@]),
    ensures
        exec_stmt(Stmt::Assign { lhs: x, rhs: Box::new(rhs) }, env, out, fuel) == done(
            env,
            out.push(kind_mismatch_text()),
        ),
{
}

/// A loop whose condition is false runs its body zero times: nothing
/// changes and nothing is printed.
pub proof fn lemma_while_false_skips(body: Stmt, env: Map<Seq<char>, Val>, out: Seq<Seq<char>>, fuel: nat)
    ensures
        exec_stmt(
            Stmt::While { cond: Box::new(Exp::Bool { val: false }), stmt: Box::new(body) },
            env,
            out,
            fuel,
        ) == done(env, out),
{
}

/// A conditional runs only the branch that its condition picks, while its
/// check covers both branches.
pub proof fn lemma_if_runs_one_checks_both(
    cond: Exp,
    then_stmt: Stmt,
    else_stmt: Stmt,
    env: Map<Seq<char>, Val>,
    out: Seq<Seq<char>>,
    fuel: nat,
    t: Map<Seq<char>, Type>,
)
    requires
        eval_exp(cond, env) == Ok::<Val, Fault>(Val::Bool(true)),
        infer_exp(cond, t) != Type::TyIllTyped,
    ensures
        exec_stmt(
            Stmt::IfThenElse { cond: Box::new(cond), then_stmt: Box::new(then_stmt), else_stmt: Box::new(else_stmt) },
            env,
            out,
            fuel,
        ) == exec_stmt(then_stmt, env, out, fuel),
        check_stmt(
            Stmt::IfThenElse { cond: Box::new(cond), then_stmt: Box::new(then_stmt), else_stmt: Box::new(else_stmt) },
            t,
        ).1 == Ok::<bool, Fault>(true) <==> (
            check_stmt(then_stmt, t).1 == Ok::<bool, Fault>(true)
            && check_stmt(else_stmt, check_stmt(then_stmt, t).0).1 == Ok::<bool, Fault>(true)
        ),
{
}

} // verus!
