use vstd::prelude::*;

use crate::EvalError;
use crate::smallstep::Node;
use crate::smallstep::semantics::EvalState;
use crate::smallstep::semantics::env_terminal;
use crate::smallstep::semantics::halted;
use crate::smallstep::semantics::node_step;
use crate::smallstep::semantics::run_steps;

verus! {

/// A run outcome that is a terminal tree: exhaustive reduction succeeded and
/// nothing further can be done.
pub open spec fn is_normal_form(r: Result<EvalState, EvalError>) -> bool {
    match r {
        Ok(p) => p.0.is_terminal(),
        Err(_) => false,
    }
}

/// A terminal tree takes no further steps at all.
proof fn lemma_terminal_bound(n: Node)
    requires
        n.is_terminal(),
    ensures
        n.step_bound() == 0,
{
}

/// A reducible tree needs at least one step.
proof fn lemma_reducible_bound_pos(n: Node)
    requires
        !n.is_terminal(),
    ensures
        n.step_bound() >= 1,
{
}

/// One successful step of a reducible tree strictly lowers `step_bound` and
/// keeps every environment binding terminal, provided every binding was
/// terminal before the step.
proof fn lemma_step_progress(n: Node, env: Map<Seq<char>, Node>)
    requires
        env_terminal(env),
        !n.is_terminal(),
    ensures
        (match node_step(n, env) {
            Ok(p) => env_terminal(p.1) && p.0.step_bound() < n.step_bound(),
            Err(_) => true,
        }),
    decreases n,
{
    match n {
        Node::Add(l, r) => {
            if !l.is_terminal() {
                lemma_step_progress(*l, env);
            } else if !r.is_terminal() {
                lemma_terminal_bound(*l);
                lemma_step_progress(*r, env);
            }
        },
        Node::Multiply(l, r) => {
            if !l.is_terminal() {
                lemma_step_progress(*l, env);
            } else if !r.is_terminal() {
                lemma_terminal_bound(*l);
                lemma_step_progress(*r, env);
            }
        },
        Node::LessThan(l, r) => {
            if !l.is_terminal() {
                lemma_step_progress(*l, env);
            } else if !r.is_terminal() {
                lemma_terminal_bound(*l);
                lemma_step_progress(*r, env);
            }
        },
        Node::Variable(name) => {
            if env.contains_key(name@) {
                lemma_terminal_bound(env[name@]);
            }
        },
        Node::Assign(name, e) => {
            if !e.is_terminal() {
                lemma_step_progress(*e, env);
            } else {
                let env2 = env.insert(name@, *e);
                assert forall|k: Seq<char>| #[trigger] env2.contains_key(k) implies env2[k].is_terminal() by {
                    if k != name@ {
                        assert(env.contains_key(k));
                    }
                }
            }
        },
        Node::If(c, t, f) => {
            if !c.is_terminal() {
                lemma_step_progress(*c, env);
            }
        },
        Node::Sequence(first, second) => {
            if *first == Node::DoNothing {
            } else if !first.is_terminal() {
                lemma_step_progress(*first, env);
            }
        },
        _ => {},
    }
}

/// The step bound of a tree never exceeds its node count.
proof fn lemma_step_bound_le_node_count(n: Node)
    ensures
        n.step_bound() <= n.node_count(),
    decreases n,
{
    match n {
        Node::Add(l, r) => {
            lemma_step_bound_le_node_count(*l);
            lemma_step_bound_le_node_count(*r);
        },
        Node::Multiply(l, r) => {
            lemma_step_bound_le_node_count(*l);
            lemma_step_bound_le_node_count(*r);
        },
        Node::LessThan(l, r) => {
            lemma_step_bound_le_node_count(*l);
            lemma_step_bound_le_node_count(*r);
        },
        Node::Assign(_, e) => {
            lemma_step_bound_le_node_count(*e);
        },
        Node::If(c, t, f) => {
            lemma_step_bound_le_node_count(*c);
            lemma_step_bound_le_node_count(*t);
            lemma_step_bound_le_node_count(*f);
        },
        Node::Sequence(a, b) => {
            lemma_step_bound_le_node_count(*a);
            lemma_step_bound_le_node_count(*b);
        },
        _ => {},
    }
}

/// Reduction reaches a halt within `step_bound` steps when every environment
/// binding is terminal.
proof fn lemma_terminates_from_bound(n: Node, env: Map<Seq<char>, Node>)
    requires
        env_terminal(env),
    ensures
        exists|k: nat| k <= n.step_bound() && halted(run_steps(n, env, k)),
    decreases n.step_bound(),
{
    if n.is_terminal() {
        assert(run_steps(n, env, 0nat) == Ok::<EvalState, EvalError>((n, env)));
        assert(0nat <= n.step_bound() && halted(run_steps(n, env, 0nat)));
    } else {
        lemma_reducible_bound_pos(n);
        lemma_step_progress(n, env);
        match node_step(n, env) {
            Ok(p) => {
                lemma_terminates_from_bound(p.0, p.1);
                let k2 = choose|k: nat| k <= p.0.step_bound() && halted(run_steps(p.0, p.1, k));
                assert(run_steps(n, env, k2 + 1) == run_steps(p.0, p.1, k2));
                assert(k2 + 1 <= n.step_bound() && halted(run_steps(n, env, k2 + 1)));
            },
            Err(e) => {
                assert(run_steps(n, env, 1nat) == Err::<EvalState, EvalError>(e));
                assert(1nat <= n.step_bound() && halted(run_steps(n, env, 1nat)));
            },
        }
    }
}

/// Termination: under an environment whose bindings are all terminal, every
/// tree halts — reaches a terminal tree or a fault — within as many reduction
/// steps as the tree has nodes. (Were a binding itself reducible, a tree as
/// small as one `Variable` node could take arbitrarily many steps, so the
/// bound is stated for terminal bindings only.)
pub proof fn lemma_reduction_terminates(n: Node, env: Map<Seq<char>, Node>)
    requires
        env_terminal(env),
    ensures
        exists|k: nat| k <= n.node_count() && halted(run_steps(n, env, k)),
{
    lemma_terminates_from_bound(n, env);
    lemma_step_bound_le_node_count(n);
    let k = choose|k: nat| k <= n.step_bound() && halted(run_steps(n, env, k));
    assert(k <= n.node_count() && halted(run_steps(n, env, k)));
}

/// Confluence to a unique normal form: from a fixed tree and environment,
/// there is at most one way for a run to end in a terminal tree — any two
/// step counts whose runs both end terminal are the same count, and they
/// yield the same terminal tree and the same final environment.
pub proof fn lemma_normal_form_unique(n: Node, env: Map<Seq<char>, Node>, k1: nat, k2: nat)
    requires
        is_normal_form(run_steps(n, env, k1)),
        is_normal_form(run_steps(n, env, k2)),
    ensures
        k1 == k2,
        run_steps(n, env, k1) == run_steps(n, env, k2),
    decreases k1,
{
    if n.is_terminal() {
        if k1 != 0 {
            assert(!is_normal_form(run_steps(n, env, k1)));
        }
        if k2 != 0 {
            assert(!is_normal_form(run_steps(n, env, k2)));
        }
    } else {
        assert(k1 != 0 && k2 != 0);
        match node_step(n, env) {
            Ok(p) => {
                assert(run_steps(n, env, k1) == run_steps(p.0, p.1, (k1 - 1) as nat));
                assert(run_steps(n, env, k2) == run_steps(p.0, p.1, (k2 - 1) as nat));
                lemma_normal_form_unique(p.0, p.1, (k1 - 1) as nat, (k2 - 1) as nat);
            },
            Err(_) => {
                assert(!is_normal_form(run_steps(n, env, k1)));
            },
        }
    }
}

/// Left-to-right evaluation order: one step of `Add(x, y)` with `x` still
/// reducible reduces `x` and leaves `y` exactly as it was, whether or not `y`
/// is itself reducible.
pub proof fn lemma_add_reduces_left_first(x: Node, y: Node, env: Map<Seq<char>, Node>)
    requires
        !x.is_terminal(),
    ensures
        node_step(Node::Add(Box::new(x), Box::new(y)), env) == (match node_step(x, env) {
            Ok(p) => Ok::<EvalState, EvalError>((Node::Add(Box::new(p.0), Box::new(y)), p.1)),
            Err(e) => Err::<EvalState, EvalError>(e),
        }),
{
}

} // verus!
