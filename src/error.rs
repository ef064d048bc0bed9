use vstd::prelude::*;

verus! {

/// Why a traversal stopped before its end, as the semantics states it.
pub enum Fault {
    /// A variable that the environment does not hold was read.
    UndeclaredVariable(Seq<char>),
    /// A `while` loop ran out of its iteration budget.
    StepLimit,
}

/// Why a traversal stopped before its end. Both are faults of the program
/// given, not of the environment: the caller should treat the program as
/// invalid input.
#[derive(Debug)]
pub enum InterpError {
    /// The named variable was read before any declaration of it.
    UndeclaredVariable(String),
    /// A `while` loop ran out of its iteration budget.
    StepLimit,
}

impl View for InterpError {
    type V = Fault;

    open spec fn view(&self) -> Fault {
        match self {
            InterpError::UndeclaredVariable(name) => Fault::UndeclaredVariable(name@),
            InterpError::StepLimit => Fault::StepLimit,
        }
    }
}

} // verus!
