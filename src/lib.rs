//! Pretty-printer, evaluator and type checker for a small imperative language
//! whose programs are built directly as abstract syntax trees.
//!
//! - `value`: runtime values, static types and the rules that combine them.
//! - `ast`: expression and statement trees and their builders.
//! - `env`: the runtime and the static environment.
//! - `eval`: evaluation and type inference of expressions.
//! - `exec`: execution of statements.
//! - `check`: type checking of statements.
//! - `pretty`: source text of trees, values and types.
//! - `laws`: properties that hold across these operations.
//! - `report`: the report on a program, and the demonstration.
pub mod value;
pub mod ast;
pub mod env;
pub mod error;
pub mod eval;
pub mod pretty;
pub mod exec;
pub mod check;
pub mod laws;
pub mod report;
