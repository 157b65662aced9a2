use vstd::prelude::*;

use crate::EvalError;
use crate::smallstep::Node;
use crate::smallstep::environment::Environment;
use crate::smallstep::semantics::EvalState;
use crate::smallstep::semantics::node_step;
use crate::smallstep::semantics::run_steps;

verus! {

/// The driver: owns one syntax tree and one environment, and applies the
/// one-step reduction rule until the tree is terminal.
pub struct Machine {
    pub expression: Box<Node>,
    pub environment: Environment,
}

/// Appending one successful step to a successful prefix of a run extends the
/// run by one.
proof fn lemma_run_steps_extend(n: Node, env: Map<Seq<char>, Node>, k: nat, s: EvalState, s2: EvalState)
    requires
        run_steps(n, env, k) == Ok::<EvalState, EvalError>(s),
        node_step(s.0, s.1) == Ok::<EvalState, EvalError>(s2),
    ensures
        run_steps(n, env, k + 1) == Ok::<EvalState, EvalError>(s2),
    decreases k,
{
    if k == 0 {
        assert(s == (n, env));
        assert(s2 == (s2.0, s2.1));
        assert(run_steps(s2.0, s2.1, 0nat) == Ok::<EvalState, EvalError>(s2));
    } else {
        match node_step(n, env) {
            Ok(p) => {
                lemma_run_steps_extend(p.0, p.1, (k - 1) as nat, s, s2);
            },
            Err(_) => {
                assert(false);
            },
        }
    }
}

impl Machine {
    pub fn new(expression: Box<Node>, environment: Environment) -> (m: Machine)
        ensures
            m.expression == expression,
            m.environment == environment,
    {
        Machine { expression, environment }
    }

    pub fn new_with_empty_env(expression: Box<Node>) -> (m: Machine)
        ensures
            m.expression == expression,
            m.environment@ == Map::<Seq<char>, Node>::empty(),
    {
        Machine { expression, environment: Environment::new() }
    }

    /// Performs exactly one reduction step, replacing the held tree. A failed
    /// step reports its fault and leaves the machine as it was.
    pub fn step(&mut self) -> (r: Result<(), EvalError>)
        ensures
            (match r {
                Ok(_) => node_step(*old(self).expression, old(self).environment@) == Ok::<
                    EvalState,
                    EvalError,
                >((*final(self).expression, final(self).environment@)),
                Err(e) => node_step(*old(self).expression, old(self).environment@) == Err::<
                    EvalState,
                    EvalError,
                >(e) && *final(self).expression == *old(self).expression
                    && final(self).environment@ == old(self).environment@,
            }),
    {
        match self.expression.reduce(&mut self.environment) {
            Ok(n2) => {
                self.expression = n2;
                Ok(())
            },
            Err(e) => Err(e),
        }
    }

    /// Reduces the held tree to completion: steps until the tree is terminal.
    /// On success the machine holds a terminal tree that the iterated step
    /// rule produces from the starting state; on a fault it holds the last
    /// state reached, whose next step is the reported fault.
    ///
    /// The caller owes a finite reduction sequence: some number of steps
    /// reaches a terminal tree or a fault. `lemma_reduction_terminates`
    /// supplies that for every environment whose bindings are all terminal;
    /// a tree such as `Variable("x")` under an environment that binds `x`
    /// back to `Variable("x")` has no finite sequence, and `run` on it would
    /// never return.
    pub fn run(&mut self) -> (r: Result<(), EvalError>)
        requires
            exists|k: nat|
                crate::smallstep::semantics::halted(
                    run_steps(*old(self).expression, old(self).environment@, k),
                ),
        ensures
            (match r {
                Ok(_) => (*final(self).expression).is_terminal(),
                Err(e) => node_step(*final(self).expression, final(self).environment@) == Err::<
                    EvalState,
                    EvalError,
                >(e),
            }),
            exists|k: nat|
                run_steps(*old(self).expression, old(self).environment@, k) == Ok::<
                    EvalState,
                    EvalError,
                >((*final(self).expression, final(self).environment@)),
    {
        let ghost init_expr: Node = *self.expression;
        let ghost init_env: Map<Seq<char>, Node> = self.environment@;
        let ghost halt_at: nat = choose|k: nat|
            crate::smallstep::semantics::halted(run_steps(init_expr, init_env, k));
        let ghost mut steps: nat = 0;
        while self.expression.reducable()
            invariant
                run_steps(init_expr, init_env, steps) == Ok::<EvalState, EvalError>(
                    (*self.expression, self.environment@),
                ),
                crate::smallstep::semantics::halted(run_steps(init_expr, init_env, halt_at)),
                steps <= halt_at,
                init_expr == *old(self).expression,
                init_env == old(self).environment@,
            decreases halt_at - steps,
        {
            proof {
                if steps == halt_at {
                    assert((*self.expression).is_terminal());
                }
            }
            let ghost before: EvalState = (*self.expression, self.environment@);
            match self.step() {
                Ok(_) => {
                    proof {
                        lemma_run_steps_extend(
                            init_expr,
                            init_env,
                            steps,
                            before,
                            (*self.expression, self.environment@),
                        );
                        steps = steps + 1;
                    }
                },
                Err(e) => {
                    return Err(e);
                },
            }
        }
        Ok(())
    }
}

} // verus!
