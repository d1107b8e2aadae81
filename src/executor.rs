//! The solver contract and the driver that runs a solver to the end.
use vstd::prelude::*;
use crate::basics::{ArgminError, TerminationReason};
use crate::operator::{ArgminOp, OpWrapper};
use crate::state::{ArgminIterData, IterState};

verus! {

/// An iterative algorithm. A step may evaluate the operator through the
/// wrapper, which counts the calls; no step lowers a counter.
pub trait Solver<O: ArgminOp> {
    /// Work done once before the first step; its result, if any, is merged
    /// into the state.
    fn init(&mut self, op: &mut OpWrapper<O>, state: &IterState) -> (r: Result<
        Option<ArgminIterData>,
        ArgminError,
    >)
        ensures
            final(op).counts_at_least(old(op)),
            final(op).op == old(op).op,
        default_ensures
            r == Ok::<Option<ArgminIterData>, ArgminError>(None),
            *final(op) == *old(op),
    {
        Ok(None)
    }

    /// One iteration.
    fn next_iter(&mut self, op: &mut OpWrapper<O>, state: &IterState) -> (r: Result<
        ArgminIterData,
        ArgminError,
    >)
        ensures
            final(op).counts_at_least(old(op)),
            final(op).op == old(op).op,
    ;

    /// The algorithm's display name.
    fn name(&self) -> &'static str;

    /// Why the run should stop after the last merged step, if it should.
    fn terminate(&mut self, state: &IterState) -> (r: TerminationReason)
        default_ensures
            r == TerminationReason::NotTerminated,
    {
        TerminationReason::NotTerminated
    }
}

/// A one-dimensional search along a direction that an outer solver sets
/// before each run.
pub trait ArgminLineSearch {
    fn set_search_direction(&mut self, direction: Vec<i64>);
}

/// What a finished run hands back: the wrapped operator with its counts,
/// and the final state.
pub struct ArgminResult<O: ArgminOp> {
    pub operator: OpWrapper<O>,
    pub state: IterState,
}

/// Runs a solver on an operator from an initial parameter.
pub struct Executor<O: ArgminOp, S: Solver<O>> {
    pub op: OpWrapper<O>,
    pub solver: S,
    pub state: IterState,
}

impl<O: ArgminOp, S: Solver<O>> Executor<O, S> {
    /// A driver for `solver` on `op` from `init_param`, with fresh counters
    /// and no iteration limit.
    pub fn new(op: O, solver: S, init_param: Vec<i64>) -> (r: Self)
        ensures
            r.op.op == op,
            r.op.cost_func_count == 0,
            r.op.grad_func_count == 0,
            r.op.hessian_func_count == 0,
            r.op.jacobian_func_count == 0,
            r.solver == solver,
            r.state.param@ == init_param@,
            r.state.cost == crate::state::COST_UNKNOWN,
            r.state.grad is None,
            r.state.iter == 0,
            r.state.max_iters == u64::MAX,
            r.state.termination_reason == TerminationReason::NotTerminated,
    {
        Executor { op: OpWrapper::new(op), solver, state: IterState::new(init_param) }
    }

    /// Sets the largest number of iterations.
    pub fn max_iters(self, iters: u64) -> (r: Self)
        ensures
            r.state.max_iters == iters,
            r.op == self.op,
            r.solver == self.solver,
            r.state.param == self.state.param,
            r.state.cost == self.state.cost,
            r.state.grad == self.state.grad,
            r.state.iter == self.state.iter,
            r.state.termination_reason == self.state.termination_reason,
    {
        let mut s = self;
        s.state.max_iters = iters;
        s
    }

    /// Seeds the state with a known cost at the initial parameter.
    pub fn cost(self, cost: i64) -> (r: Self)
        ensures
            r.state.cost == cost,
            r.op == self.op,
            r.solver == self.solver,
            r.state.param == self.state.param,
            r.state.grad == self.state.grad,
            r.state.iter == self.state.iter,
            r.state.max_iters == self.state.max_iters,
            r.state.termination_reason == self.state.termination_reason,
    {
        let mut s = self;
        s.state.cost = cost;
        s
    }

    /// Seeds the state with a known gradient at the initial parameter.
    pub fn grad(self, grad: Vec<i64>) -> (r: Self)
        ensures
            r.state.grad == Some(grad),
            r.op == self.op,
            r.solver == self.solver,
            r.state.param == self.state.param,
            r.state.cost == self.state.cost,
            r.state.iter == self.state.iter,
            r.state.max_iters == self.state.max_iters,
            r.state.termination_reason == self.state.termination_reason,
    {
        let mut s = self;
        s.state.grad = Some(grad);
        s
    }

    /// Runs the solver: `init` once, then steps until the solver names a
    /// reason to stop or the iteration limit is reached. A reason to stop,
    /// once set, is kept. The first failure of a step ends the run and is
    /// returned.
    pub fn run(self) -> (r: Result<ArgminResult<O>, ArgminError>)
        requires
            self.state.iter == 0,
        ensures
            r matches Ok(res) ==> {
                &&& res.state.termination_reason.is_terminal()
                &&& res.state.iter <= self.state.max_iters
                &&& res.state.max_iters == self.state.max_iters
                &&& res.operator.op == self.op.op
                &&& res.operator.counts_at_least(&self.op)
                &&& !self.state.termination_reason.is_terminal() && self.state.max_iters > 0
                    ==> res.state.iter >= 1
                &&& self.state.termination_reason.is_terminal() ==> {
                    &&& res.state.termination_reason == self.state.termination_reason
                    &&& res.state.iter == 0
                }
            },
    {
        let Executor { op, solver, state } = self;
        let mut op = op;
        let mut solver = solver;
        let mut state = state;
        let ghost op0 = op;
        let init = solver.init(&mut op, &state);
        match init {
            Ok(Some(data)) => state.merge(data),
            Ok(None) => {},
            Err(e) => return Err(e),
        }
        loop
            invariant_except_break
                state.iter <= state.max_iters,
                state.max_iters == self.state.max_iters,
                op.op == op0.op,
                op.counts_at_least(&op0),
                self.state.termination_reason.is_terminal() ==> state.termination_reason
                    == self.state.termination_reason && state.iter == 0,
                !self.state.termination_reason.is_terminal() ==> (
                state.termination_reason.is_terminal() ==> state.iter >= 1),
            ensures
                state.termination_reason.is_terminal(),
                state.iter <= state.max_iters,
                state.max_iters == self.state.max_iters,
                op.op == op0.op,
                op.counts_at_least(&op0),
                self.state.termination_reason.is_terminal() ==> state.termination_reason
                    == self.state.termination_reason && state.iter == 0,
                !self.state.termination_reason.is_terminal() && self.state.max_iters > 0
                    ==> state.iter >= 1,
            decreases state.max_iters - state.iter,
        {
            if !state.begin_iteration() {
                break;
            }
            let step = solver.next_iter(&mut op, &state);
            let data = match step {
                Ok(d) => d,
                Err(e) => return Err(e),
            };
            state.merge(data);
            state.count_iteration();
            let reason = solver.terminate(&state);
            if state.stop_with(reason) {
                break;
            }
        }
        Ok(ArgminResult { operator: op, state })
    }
}

} // verus!
