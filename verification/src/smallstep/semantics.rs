use vstd::prelude::*;

use crate::EvalError;
use crate::smallstep::Node;

verus! {

/// A configuration of the reduction relation: the current tree together with
/// the current variable bindings.
pub type EvalState = (Node, Map<Seq<char>, Node>);

/// The single-step reduction rule, written over the mathematical view of the
/// environment. It is leftmost-innermost: the left operand of a binary node
/// is reduced to completion before the right operand is touched.
///
/// Arithmetic wraps around the fixed 64-bit width of `Number`.
pub open spec fn node_step(n: Node, env: Map<Seq<char>, Node>) -> Result<EvalState, EvalError>
    decreases n,
{
    match n {
        Node::Number(_) => Err(EvalError::NonReducible),
        Node::Boolean(_) => Err(EvalError::NonReducible),
        Node::DoNothing => Err(EvalError::NonReducible),
        Node::Add(l, r) => {
            if !l.is_terminal() {
                match node_step(*l, env) {
                    Ok(p) => Ok((Node::Add(Box::new(p.0), r), p.1)),
                    Err(e) => Err(e),
                }
            } else if !r.is_terminal() {
                match node_step(*r, env) {
                    Ok(p) => Ok((Node::Add(l, Box::new(p.0)), p.1)),
                    Err(e) => Err(e),
                }
            } else {
                match (*l, *r) {
                    (Node::Number(a), Node::Number(b)) => Ok(
                        (Node::Number(vstd::wrapping::i64_specs::wrapping_add(a, b)), env),
                    ),
                    _ => Err(EvalError::TypeMismatch),
                }
            }
        },
        Node::Multiply(l, r) => {
            if !l.is_terminal() {
                match node_step(*l, env) {
                    Ok(p) => Ok((Node::Multiply(Box::new(p.0), r), p.1)),
                    Err(e) => Err(e),
                }
            } else if !r.is_terminal() {
                match node_step(*r, env) {
                    Ok(p) => Ok((Node::Multiply(l, Box::new(p.0)), p.1)),
                    Err(e) => Err(e),
                }
            } else {
                match (*l, *r) {
                    (Node::Number(a), Node::Number(b)) => Ok(
                        (Node::Number(vstd::wrapping::i64_specs::wrapping_mul(a, b)), env),
                    ),
                    _ => Err(EvalError::TypeMismatch),
                }
            }
        },
        Node::LessThan(l, r) => {
            if !l.is_terminal() {
                match node_step(*l, env) {
                    Ok(p) => Ok((Node::LessThan(Box::new(p.0), r), p.1)),
                    Err(e) => Err(e),
                }
            } else if !r.is_terminal() {
                match node_step(*r, env) {
                    Ok(p) => Ok((Node::LessThan(l, Box::new(p.0)), p.1)),
                    Err(e) => Err(e),
                }
            } else {
                match (*l, *r) {
                    (Node::Number(a), Node::Number(b)) => Ok((Node::Boolean(a < b), env)),
                    _ => Err(EvalError::TypeMismatch),
                }
            }
        },
        Node::Variable(name) => {
            if env.contains_key(name@) {
                Ok((env[name@], env))
            } else {
                Err(EvalError::UnboundVariable)
            }
        },
        Node::Assign(name, e) => {
            if !e.is_terminal() {
                match node_step(*e, env) {
                    Ok(p) => Ok((Node::Assign(name, Box::new(p.0)), p.1)),
                    Err(err) => Err(err),
                }
            } else {
                Ok((Node::DoNothing, env.insert(name@, *e)))
            }
        },
        Node::If(c, t, f) => {
            if !c.is_terminal() {
                match node_step(*c, env) {
                    Ok(p) => Ok((Node::If(Box::new(p.0), t, f), p.1)),
                    Err(e) => Err(e),
                }
            } else {
                match *c {
                    Node::Boolean(b) => Ok(((if b { *t } else { *f }), env)),
                    _ => Err(EvalError::TypeMismatch),
                }
            }
        },
        Node::Sequence(first, second) => {
            if *first == Node::DoNothing {
                Ok((*second, env))
            } else {
                match node_step(*first, env) {
                    Ok(p) => Ok((Node::Sequence(Box::new(p.0), second), p.1)),
                    Err(e) => Err(e),
                }
            }
        },
    }
}

/// The step rule iterated exactly `k` times. A failed step, including a step
/// demanded of a terminal tree, propagates as the error of the whole run.
pub open spec fn run_steps(n: Node, env: Map<Seq<char>, Node>, k: nat) -> Result<
    EvalState,
    EvalError,
>
    decreases k,
{
    if k == 0 {
        Ok((n, env))
    } else {
        match node_step(n, env) {
            Ok(p) => run_steps(p.0, p.1, (k - 1) as nat),
            Err(e) => Err(e),
        }
    }
}

/// A run outcome from which no further step is taken: a terminal tree, or a
/// fault.
pub open spec fn halted(r: Result<EvalState, EvalError>) -> bool {
    match r {
        Ok(p) => p.0.is_terminal(),
        Err(_) => true,
    }
}

/// Every binding of the environment is a terminal node. Assignment reduces
/// its right-hand side to a terminal value before storing it, so reduction
/// preserves this; an environment built only from terminal bindings keeps it
/// for a whole run.
pub open spec fn env_terminal(env: Map<Seq<char>, Node>) -> bool {
    forall|k: Seq<char>| #[trigger] env.contains_key(k) ==> env[k].is_terminal()
}

impl Node {
    /// The number of nodes in the tree.
    pub open spec fn node_count(self) -> nat
        decreases self,
    {
        match self {
            Node::Number(_) => 1,
            Node::Boolean(_) => 1,
            Node::DoNothing => 1,
            Node::Variable(_) => 1,
            Node::Add(l, r) => 1 + l.node_count() + r.node_count(),
            Node::Multiply(l, r) => 1 + l.node_count() + r.node_count(),
            Node::LessThan(l, r) => 1 + l.node_count() + r.node_count(),
            Node::Assign(_, e) => 1 + e.node_count(),
            Node::If(c, t, f) => 1 + c.node_count() + t.node_count() + f.node_count(),
            Node::Sequence(a, b) => 1 + a.node_count() + b.node_count(),
        }
    }

    /// An upper bound on the number of reduction steps the tree can take
    /// before it halts, valid whenever every environment binding is terminal.
    /// It never exceeds `node_count`.
    pub open spec fn step_bound(self) -> nat
        decreases self,
    {
        match self {
            Node::Number(_) => 0,
            Node::Boolean(_) => 0,
            Node::DoNothing => 0,
            Node::Variable(_) => 1,
            Node::Add(l, r) => l.step_bound() + r.step_bound() + 1,
            Node::Multiply(l, r) => l.step_bound() + r.step_bound() + 1,
            Node::LessThan(l, r) => l.step_bound() + r.step_bound() + 1,
            Node::Assign(_, e) => e.step_bound() + 1,
            Node::If(c, t, f) => c.step_bound() + 1 + (if t.step_bound() >= f.step_bound() {
                t.step_bound()
            } else {
                f.step_bound()
            }),
            Node::Sequence(a, b) => a.step_bound() + 1 + b.step_bound(),
        }
    }
}

} // verus!
