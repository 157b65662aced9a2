use vstd::prelude::*;

pub mod bigstep;
pub mod comp;
pub mod smallstep;

verus! {

/// The failure kinds of the evaluator. All three signal a broken contract in
/// the evaluated tree or in the driver, not an expected runtime condition:
/// a well-formed program never produces any of them.
#[derive(Clone, Copy, Debug, PartialEq, Eq, Structural)]
pub enum EvalError {
    /// A numeric value was demanded of a node that is not a `Number`, or a
    /// boolean of a node that is not a `Boolean`.
    TypeMismatch,
    /// A variable was read with no binding for its name in the environment.
    UnboundVariable,
    /// A reduction step was demanded of a node that is already terminal.
    NonReducible,
}

} // verus!
