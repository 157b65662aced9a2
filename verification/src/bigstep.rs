use vstd::prelude::*;

use crate::EvalError;
use crate::smallstep::environment::Environment;
use crate::smallstep::render::bool_text;
use crate::smallstep::render::i64_text;
use crate::smallstep::render::int_text;

verus! {

/// The big-step evaluator's syntax tree. Only the two terminal value
/// variants exist here: a value evaluates to itself in one call, with no
/// intermediate states to observe.
#[derive(Clone, Copy, Debug, PartialEq, Eq, Structural)]
pub enum Node {
    Number(i64),
    Boolean(bool),
}

impl Node {
    pub fn number(value: i64) -> (r: Box<Node>)
        ensures
            *r == Node::Number(value),
    {
        Box::new(Node::Number(value))
    }

    pub fn boolean(value: bool) -> (r: Box<Node>)
        ensures
            *r == Node::Boolean(value),
    {
        Box::new(Node::Boolean(value))
    }

    /// The integer carried by a `Number` node; a `Boolean` is a
    /// `TypeMismatch`.
    pub fn value(&self) -> (r: Result<i64, EvalError>)
        ensures
            (match *self {
                Node::Number(v) => r == Ok::<i64, EvalError>(v),
                _ => r == Err::<i64, EvalError>(EvalError::TypeMismatch),
            }),
    {
        match self {
            Node::Number(v) => Ok(*v),
            _ => Err(EvalError::TypeMismatch),
        }
    }

    /// The boolean carried by a `Boolean` node; a `Number` is a
    /// `TypeMismatch`.
    pub fn condition(&self) -> (r: Result<bool, EvalError>)
        ensures
            (match *self {
                Node::Boolean(b) => r == Ok::<bool, EvalError>(b),
                _ => r == Err::<bool, EvalError>(EvalError::TypeMismatch),
            }),
    {
        match self {
            Node::Boolean(b) => Ok(*b),
            _ => Err(EvalError::TypeMismatch),
        }
    }

    /// Evaluates the tree in one call. A terminal value evaluates to itself,
    /// and the environment is read but never changed.
    pub fn evaluate(&self, environment: &mut Environment) -> (r: Box<Node>)
        ensures
            *r == *self,
            final(environment)@ == old(environment)@,
    {
        match self {
            Node::Number(v) => Node::number(*v),
            Node::Boolean(b) => Node::boolean(*b),
        }
    }

    /// Renders the value as its bare literal.
    pub fn to_text(&self) -> (r: String)
        ensures
            (match *self {
                Node::Number(v) => r@ == int_text(v as int),
                Node::Boolean(b) => r@ == bool_text(b),
            }),
    {
        match self {
            Node::Number(v) => i64_text(*v),
            Node::Boolean(b) => {
                proof {
                    reveal_strlit("true");
                    reveal_strlit("false");
                    assert(("true")@ =~= bool_text(true));
                    assert(("false")@ =~= bool_text(false));
                }
                if *b {
                    "true".to_owned()
                } else {
                    "false".to_owned()
                }
            },
        }
    }
}

} // verus!
