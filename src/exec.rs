use vstd::prelude::*;
use vstd::string::StringExecFns;
use crate::ast::Stmt;
use crate::env::ValState;
use crate::error::{Fault, InterpError};
use crate::eval::eval_exp;
use crate::pretty::{val_text, show_val};
use crate::value::{Val, Kind, kind_of};

verus! {

/// The number of iterations that `Stmt::exec` allows a loop: in practice no
/// bound at all.
pub const UNBOUNDED: u64 = 0xffff_ffff_ffff_ffff;

/// What running a statement leaves behind: the environment, the lines sent
/// to the output, and the fault that stopped it, if any. Effects that came
/// before a fault are kept.
pub struct Outcome {
    pub env: Map<Seq<char>, Val>,
    pub out: Seq<Seq<char>>,
    pub fault: Option<Fault>,
}

/// The line that `print` emits for `v`.
pub open spec fn print_text(v: Val) -> Seq<char> {
    match v {
        Val::Undefined => "Output Undefined"@,
        _ => "Output "@ + val_text(v),
    }
}

/// Diagnostic: an assignment whose new value is undefined.
pub open spec fn undefined_value_text() -> Seq<char> {
    "value is undefined"@
}

/// Diagnostic: an assignment to a variable whose current value is undefined.
pub open spec fn undefined_var_text() -> Seq<char> {
    "var is undefined"@
}

/// Diagnostic: an assignment of a value of another kind than the variable's.
pub open spec fn kind_mismatch_text() -> Seq<char> {
    "var and value not the same Kind"@
}

/// Diagnostic: the condition of an `if` is not a boolean.
pub open spec fn if_not_bool_text() -> Seq<char> {
    "Error Parsing IfThenElse"@
}

/// Diagnostic: the condition of a `while` is not a boolean.
pub open spec fn while_not_bool_text() -> Seq<char> {
    "cond is no bool"@
}

/// The text of each line of `v`.
pub open spec fn lines(v: Seq<String>) -> Seq<Seq<char>> {
    v.map_values(|s: String| s@)
}

/// A run stopped by `f`.
pub open spec fn stopped(env: Map<Seq<char>, Val>, out: Seq<Seq<char>>, f: Fault) -> Outcome {
    Outcome { env, out, fault: Some(f) }
}

/// A run that reached its end.
pub open spec fn done(env: Map<Seq<char>, Val>, out: Seq<Seq<char>>) -> Outcome {
    Outcome { env, out, fault: None }
}

/// Running `s` on the environment `env` with the output so far `out`. Each
/// `while` may run at most `fuel` iterations, and its body runs with the
/// budget that is left to it.
pub open spec fn exec_stmt(s: Stmt, env: Map<Seq<char>, Val>, out: Seq<Seq<char>>, fuel: nat) -> Outcome
    decreases fuel, s,
{
    match s {
        Stmt::Sequence { first, second } => {
            let o = exec_stmt(*first, env, out, fuel);
            if o.fault is Some {
                o
            } else {
                exec_stmt(*second, o.env, o.out, fuel)
            }
        },
        Stmt::Decl { lhs, rhs } => match eval_exp(*rhs, env) {
            Err(f) => stopped(env, out, f),
            Ok(v) => done(env.insert(lhs@, v), out),
        },
        Stmt::Assign { lhs, rhs } => if !env.contains_key(lhs@) {
            stopped(env, out, Fault::UndeclaredVariable(lhs@))
        } else {
            match eval_exp(*rhs, env) {
                Err(f) => stopped(env, out, f),
                Ok(v) => if v is Undefined {
                    done(env, out.push(undefined_value_text()))
                } else if env[lhs@] is Undefined {
                    done(env, out.push(undefined_var_text()))
                } else if kind_of(v) != kind_of(env[lhs@]) {
                    done(env, out.push(kind_mismatch_text()))
                } else {
                    done(env.insert(lhs@, v), out)
                },
            }
        },
        Stmt::IfThenElse { cond, then_stmt, else_stmt } => match eval_exp(*cond, env) {
            Err(f) => stopped(env, out, f),
            Ok(Val::Bool(b)) => if b {
                exec_stmt(*then_stmt, env, out, fuel)
            } else {
                exec_stmt(*else_stmt, env, out, fuel)
            },
            Ok(_) => done(env, out.push(if_not_bool_text())),
        },
        Stmt::While { cond, stmt } => match eval_exp(*cond, env) {
            Err(f) => stopped(env, out, f),
            Ok(Val::Bool(b)) => if !b {
                done(env, out)
            } else if fuel == 0 {
                stopped(env, out, Fault::StepLimit)
            } else {
                let o = exec_stmt(*stmt, env, out, fuel);
                if o.fault is Some {
                    o
                } else {
                    exec_stmt(s, o.env, o.out, (fuel - 1) as nat)
                }
            },
            Ok(_) => done(env, out.push(while_not_bool_text())),
        },
        Stmt::Print { print_exp } => match eval_exp(*print_exp, env) {
            Err(f) => stopped(env, out, f),
            Ok(v) => done(env, out.push(print_text(v))),
        },
    }
}

fn print_line(v: &Val) -> (r: String)
    ensures
        r@ == print_text(*v),
{
    let mut r = String::new();
    match v {
        Val::Undefined => r.append("Output Undefined"),
        _ => {
            r.append("Output ");
            let t = show_val(*v);
            r.append(t.as_str());
        },
    }
    r
}

fn emit(out: &mut Vec<String>, line: &str)
    ensures
        lines(final(out)@) == lines(old(out)@).push(line@),
{
    let mut s = String::new();
    s.append(line);
    out.push(s);
    assert(lines(out@) =~= lines(old(out)@).push(line@));
}

/// Whether a run that returned `r` and left `env` and `out` behind did what
/// `o` says.
pub open spec fn ran_as(o: Outcome, env: Map<Seq<char>, Val>, out: Seq<Seq<char>>, r: Result<(), InterpError>) -> bool {
    &&& env == o.env
    &&& out == o.out
    &&& match r {
        Ok(_) => o.fault is None,
        Err(e) => o.fault == Some(e@),
    }
}

impl Stmt {
    /// Runs this statement on `env`, appending the lines it prints and its
    /// diagnostics to `out`. A loop whose condition never turns false runs
    /// on for as many iterations as a `u64` counts.
    pub fn exec(&self, env: &mut ValState, out: &mut Vec<String>) -> (r: Result<(), InterpError>)
        requires
            old(env).wf(),
        ensures
            final(env).wf(),
            ran_as(exec_stmt(*self, old(env)@, lines(old(out)@), UNBOUNDED as nat), final(env)@, lines(final(out)@), r),
    {
        self.exec_bounded(env, out, UNBOUNDED)
    }

    /// Runs this statement on `env`, appending the lines it prints and its
    /// diagnostics to `out`. Each `while` may run at most `fuel` iterations.
    pub fn exec_bounded(&self, env: &mut ValState, out: &mut Vec<String>, fuel: u64) -> (r: Result<(), InterpError>)
        requires
            old(env).wf(),
        ensures
            final(env).wf(),
            ran_as(exec_stmt(*self, old(env)@, lines(old(out)@), fuel as nat), final(env)@, lines(final(out)@), r),
        decreases fuel, self,
    {
        match self {
            Stmt::Sequence { first, second } => {
                first.exec_bounded(env, out, fuel)?;
                second.exec_bounded(env, out, fuel)
            },
            Stmt::Decl { lhs, rhs } => {
                let v = rhs.eval(env)?;
                env.insert(lhs.clone(), v);
                Ok(())
            },
            Stmt::Assign { lhs, rhs } => {
                let cur = match env.get(lhs.as_str()) {
                    Some(c) => c,
                    None => return Err(InterpError::UndeclaredVariable(lhs.clone())),
                };
                let v = rhs.eval(env)?;
                if v.kind() == Kind::Undefined {
                    emit(out, "value is undefined");
                } else if cur.kind() == Kind::Undefined {
                    emit(out, "var is undefined");
                } else if v.kind() != cur.kind() {
                    emit(out, "var and value not the same Kind");
                } else {
                    env.insert(lhs.clone(), v);
                }
                Ok(())
            },
            Stmt::IfThenElse { cond, then_stmt, else_stmt } => {
                match cond.eval(env)? {
                    Val::Bool(b) => if b {
                        then_stmt.exec_bounded(env, out, fuel)
                    } else {
                        else_stmt.exec_bounded(env, out, fuel)
                    },
                    _ => {
                        emit(out, "Error Parsing IfThenElse");
                        Ok(())
                    },
                }
            },
            Stmt::While { cond, stmt } => {
                let ghost env0 = env@;
                let ghost out0 = lines(out@);
                let mut k: u64 = fuel;
                loop
                    invariant
                        k <= fuel,
                        *self == (Stmt::While { cond: *cond, stmt: *stmt }),
                        exec_stmt(*self, env0, out0, fuel as nat) == exec_stmt(*self, env@, lines(out@), k as nat),
                        env0 == old(env)@,
                        env.wf(),
                        out0 == lines(old(out)@),
                    decreases k,
                {
                    match cond.eval(env)? {
                        Val::Bool(b) => {
                            if !b {
                                return Ok(());
                            }
                            if k == 0 {
                                return Err(InterpError::StepLimit);
                            }
                            stmt.exec_bounded(env, out, k)?;
                            k = k - 1;
                        },
                        _ => {
                            emit(out, "cond is no bool");
                            return Ok(());
                        },
                    }
                }
            },
            Stmt::Print { print_exp } => {
                let v = print_exp.eval(env)?;
                out.push(print_line(&v));
                assert(lines(out@) =~= lines(old(out)@).push(print_text(v)));
                Ok(())
            },
        }
    }
}

} // verus!
