use vstd::prelude::*;

use crate::EvalError;
use crate::smallstep::environment::Environment;
use crate::smallstep::semantics::node_step;

pub mod environment;
pub mod machine;
pub mod props;
pub mod render;
pub mod semantics;

verus! {

/// A node of the syntax tree: either a terminal value (`Number`, `Boolean`,
/// `DoNothing`) or a composite expression or statement that still admits a
/// reduction step. Composite variants own their operand subtrees exclusively.
#[derive(Debug)]
pub enum Node {
    Number(i64),
    Add(Box<Node>, Box<Node>),
    Multiply(Box<Node>, Box<Node>),
    Boolean(bool),
    LessThan(Box<Node>, Box<Node>),
    Variable(String),
    DoNothing,
    Assign(String, Box<Node>),
    If(Box<Node>, Box<Node>, Box<Node>),
    Sequence(Box<Node>, Box<Node>),
}

impl Node {
    /// A node is terminal exactly when it is `Number`, `Boolean` or
    /// `DoNothing`; every other variant admits a further reduction step.
    pub open spec fn is_terminal(self) -> bool {
        match self {
            Node::Number(_) => true,
            Node::Boolean(_) => true,
            Node::DoNothing => true,
            _ => false,
        }
    }
}

impl Clone for Node {
    /// A deep copy of the whole tree.
    fn clone(&self) -> (r: Self)
        ensures
            r == *self,
        decreases self,
    {
        match self {
            Node::Number(v) => Node::Number(*v),
            Node::Add(l, rt) => Node::Add(Box::new((**l).clone()), Box::new((**rt).clone())),
            Node::Multiply(l, rt) => Node::Multiply(
                Box::new((**l).clone()),
                Box::new((**rt).clone()),
            ),
            Node::Boolean(b) => Node::Boolean(*b),
            Node::LessThan(l, rt) => Node::LessThan(
                Box::new((**l).clone()),
                Box::new((**rt).clone()),
            ),
            Node::Variable(name) => Node::Variable(name.clone()),
            Node::DoNothing => Node::DoNothing,
            Node::Assign(name, e) => Node::Assign(name.clone(), Box::new((**e).clone())),
            Node::If(c, t, f) => Node::If(
                Box::new((**c).clone()),
                Box::new((**t).clone()),
                Box::new((**f).clone()),
            ),
            Node::Sequence(a, b) => Node::Sequence(
                Box::new((**a).clone()),
                Box::new((**b).clone()),
            ),
        }
    }
}

impl Node {
    pub fn number(value: i64) -> (r: Box<Node>)
        ensures
            *r == Node::Number(value),
    {
        Box::new(Node::Number(value))
    }

    pub fn add(left: Box<Node>, right: Box<Node>) -> (r: Box<Node>)
        ensures
            *r == Node::Add(left, right),
    {
        Box::new(Node::Add(left, right))
    }

    pub fn multiply(left: Box<Node>, right: Box<Node>) -> (r: Box<Node>)
        ensures
            *r == Node::Multiply(left, right),
    {
        Box::new(Node::Multiply(left, right))
    }

    pub fn boolean(value: bool) -> (r: Box<Node>)
        ensures
            *r == Node::Boolean(value),
    {
        Box::new(Node::Boolean(value))
    }

    pub fn less_than(left: Box<Node>, right: Box<Node>) -> (r: Box<Node>)
        ensures
            *r == Node::LessThan(left, right),
    {
        Box::new(Node::LessThan(left, right))
    }

    pub fn variable(name: String) -> (r: Box<Node>)
        ensures
            *r == Node::Variable(name),
    {
        Box::new(Node::Variable(name))
    }

    pub fn do_nothing() -> (r: Box<Node>)
        ensures
            *r == Node::DoNothing,
    {
        Box::new(Node::DoNothing)
    }

    pub fn assign(name: String, expression: Box<Node>) -> (r: Box<Node>)
        ensures
            *r == Node::Assign(name, expression),
    {
        Box::new(Node::Assign(name, expression))
    }

    pub fn if_else_cond(condition: Box<Node>, left: Box<Node>, right: Box<Node>) -> (r: Box<Node>)
        ensures
            *r == Node::If(condition, left, right),
    {
        Box::new(Node::If(condition, left, right))
    }

    pub fn if_cond(condition: Box<Node>, left: Box<Node>) -> (r: Box<Node>)
        ensures
            *r == Node::If(condition, left, Box::new(Node::DoNothing)),
    {
        Box::new(Node::If(condition, left, Node::do_nothing()))
    }

    pub fn sequence(first: Box<Node>, second: Box<Node>) -> (r: Box<Node>)
        ensures
            *r == Node::Sequence(first, second),
    {
        Box::new(Node::Sequence(first, second))
    }
}

impl Node {
    /// True unless the node is `Number`, `Boolean` or `DoNothing`.
    pub fn reducable(&self) -> (r: bool)
        ensures
            r == !self.is_terminal(),
    {
        match self {
            Node::Number(_) => false,
            Node::Boolean(_) => false,
            Node::DoNothing => false,
            _ => true,
        }
    }

    /// The boolean carried by a `Boolean` node; any other variant is a
    /// `TypeMismatch`.
    pub fn condition(&self) -> (r: Result<bool, EvalError>)
        ensures
            (match *self {
                Node::Boolean(b) => r == Ok::<bool, EvalError>(b),
                _ => r == Err::<bool, EvalError>(EvalError::TypeMismatch),
            }),
    {
        match self {
            Node::Boolean(b) => Ok(*b),
            _ => Err(EvalError::TypeMismatch),
        }
    }

    /// The integer carried by a `Number` node; any other variant is a
    /// `TypeMismatch`.
    pub fn value(&self) -> (r: Result<i64, EvalError>)
        ensures
            (match *self {
                Node::Number(v) => r == Ok::<i64, EvalError>(v),
                _ => r == Err::<i64, EvalError>(EvalError::TypeMismatch),
            }),
    {
        match self {
            Node::Number(v) => Ok(*v),
            _ => Err(EvalError::TypeMismatch),
        }
    }

    /// Performs exactly one reduction step against `environment` and returns
    /// the new tree; the receiver is left untouched. Only the `Assign` rule
    /// mutates the environment, and a failed step leaves it as it was.
    ///
    /// The step taken is exactly the one that `node_step` prescribes.
    pub fn reduce(&self, environment: &mut Environment) -> (r: Result<Box<Node>, EvalError>)
        ensures
            (match r {
                Ok(n2) => node_step(*self, old(environment)@) == Ok::<_, EvalError>(
                    (*n2, final(environment)@),
                ),
                Err(e) => node_step(*self, old(environment)@) == Err::<
                    crate::smallstep::semantics::EvalState,
                    EvalError,
                >(e) && final(environment)@ == old(environment)@,
            }),
        decreases self,
    {
        match self {
            Node::Add(l, r) => {
                if l.reducable() {
                    match l.reduce(environment) {
                        Ok(l2) => Ok(Node::add(l2, Box::new((**r).clone()))),
                        Err(e) => Err(e),
                    }
                } else if r.reducable() {
                    match r.reduce(environment) {
                        Ok(r2) => Ok(Node::add(Box::new((**l).clone()), r2)),
                        Err(e) => Err(e),
                    }
                } else {
                    match (&**l, &**r) {
                        (Node::Number(a), Node::Number(b)) => Ok(
                            Node::number(a.wrapping_add(*b)),
                        ),
                        _ => Err(EvalError::TypeMismatch),
                    }
                }
            },
            Node::Multiply(l, r) => {
                if l.reducable() {
                    match l.reduce(environment) {
                        Ok(l2) => Ok(Node::multiply(l2, Box::new((**r).clone()))),
                        Err(e) => Err(e),
                    }
                } else if r.reducable() {
                    match r.reduce(environment) {
                        Ok(r2) => Ok(Node::multiply(Box::new((**l).clone()), r2)),
                        Err(e) => Err(e),
                    }
                } else {
                    match (&**l, &**r) {
                        (Node::Number(a), Node::Number(b)) => Ok(
                            Node::number(a.wrapping_mul(*b)),
                        ),
                        _ => Err(EvalError::TypeMismatch),
                    }
                }
            },
            Node::LessThan(l, r) => {
                if l.reducable() {
                    match l.reduce(environment) {
                        Ok(l2) => Ok(Node::less_than(l2, Box::new((**r).clone()))),
                        Err(e) => Err(e),
                    }
                } else if r.reducable() {
                    match r.reduce(environment) {
                        Ok(r2) => Ok(Node::less_than(Box::new((**l).clone()), r2)),
                        Err(e) => Err(e),
                    }
                } else {
                    match (&**l, &**r) {
                        (Node::Number(a), Node::Number(b)) => Ok(Node::boolean(*a < *b)),
                        _ => Err(EvalError::TypeMismatch),
                    }
                }
            },
            Node::Variable(name) => environment.get(name.clone()),
            Node::Assign(name, expression) => {
                if expression.reducable() {
                    match expression.reduce(environment) {
                        Ok(e2) => Ok(Node::assign(name.clone(), e2)),
                        Err(e) => Err(e),
                    }
                } else {
                    environment.insert(name.clone(), Box::new((**expression).clone()));
                    Ok(Node::do_nothing())
                }
            },
            Node::If(condition, l, r) => {
                if condition.reducable() {
                    match condition.reduce(environment) {
                        Ok(c2) => Ok(
                            Node::if_else_cond(
                                c2,
                                Box::new((**l).clone()),
                                Box::new((**r).clone()),
                            ),
                        ),
                        Err(e) => Err(e),
                    }
                } else {
                    match &**condition {
                        Node::Boolean(true) => Ok(Box::new((**l).clone())),
                        Node::Boolean(false) => Ok(Box::new((**r).clone())),
                        _ => Err(EvalError::TypeMismatch),
                    }
                }
            },
            Node::Sequence(first, second) => {
                match &**first {
                    Node::DoNothing => Ok(Box::new((**second).clone())),
                    _ => {
                        match first.reduce(environment) {
                            Ok(f2) => Ok(Node::sequence(f2, Box::new((**second).clone()))),
                            Err(e) => Err(e),
                        }
                    },
                }
            },
            _ => Err(EvalError::NonReducible),
        }
    }
}

} // verus!
