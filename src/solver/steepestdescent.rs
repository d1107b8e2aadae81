//! Steepest descent with a nested line search.
use vstd::prelude::*;
use crate::basics::ArgminError;
use crate::executor::{ArgminLineSearch, Executor, Solver};
use crate::linalg::neg;
use crate::operator::{ArgminOp, OpWrapper, count_add, count_inc};
use crate::state::{ArgminIterData, IterState, copy_vec};

verus! {

/// One cost and one gradient were evaluated, then the nested counts `c`,
/// `gc`, `hc`, `jc` were added.
pub open spec fn merged_after_evaluation<O: ArgminOp>(
    before: OpWrapper<O>,
    after: OpWrapper<O>,
    c: u64,
    gc: u64,
    hc: u64,
    jc: u64,
) -> bool {
    &&& after.cost_func_count == count_add(count_inc(before.cost_func_count), c)
    &&& after.grad_func_count == count_add(count_inc(before.grad_func_count), gc)
    &&& after.hessian_func_count == count_add(before.hessian_func_count, hc)
    &&& after.jacobian_func_count == count_add(before.jacobian_func_count, jc)
}

/// Steepest descent: each iteration runs the line search along the negative
/// gradient.
pub struct SteepestDescent<L> {
    pub linesearch: L,
}

impl<L> SteepestDescent<L> {
    /// A solver that searches with `linesearch`.
    pub fn new(linesearch: L) -> (r: Self)
        ensures
            r.linesearch == linesearch,
    {
        SteepestDescent { linesearch }
    }
}

impl<L: Clone + ArgminLineSearch> SteepestDescent<L> {
    /// One iteration: evaluates cost and gradient at the current parameter,
    /// runs the line search along `-g` in a nested driver seeded with them,
    /// adds the nested run's counts to `op` and reports the point and cost
    /// it found.
    pub fn step<O: ArgminOp + Clone>(
        &mut self,
        op: &mut OpWrapper<O>,
        state: &IterState,
    ) -> (r: Result<ArgminIterData, ArgminError>)
        where
            L: Solver<O>,
        ensures
            final(op).op == old(op).op,
            final(op).counts_at_least(old(op)),
            r matches Ok(d) ==> {
                &&& exists|c: u64, gc: u64, hc: u64, jc: u64|
                    #![trigger merged_after_evaluation(*old(op), *final(op), c, gc, hc, jc)]
                    merged_after_evaluation(*old(op), *final(op), c, gc, hc, jc)
                &&& d.param is Some
                &&& d.cost is Some
                &&& d.grad is None
                &&& d.hessian is None
            },
    {
        let param = copy_vec(&state.param);
        let cost = match op.apply(&param) {
            Ok(c) => c,
            Err(e) => return Err(e),
        };
        let grad = match op.gradient(&param) {
            Ok(g) => g,
            Err(e) => return Err(e),
        };
        let direction = match neg(&grad) {
            Some(v) => v,
            None => return Err(ArgminError::NumericalFailure),
        };
        self.linesearch.set_search_direction(direction);
        let inner = Executor::new(op.op.clone(), self.linesearch.clone(), param).grad(grad).cost(
            cost,
        );
        let res = match inner.run() {
            Ok(res) => res,
            Err(e) => return Err(e),
        };
        let ghost nested = res.operator;
        op.consume_op(res.operator);
        assert(merged_after_evaluation(
            *old(op),
            *op,
            nested.cost_func_count,
            nested.grad_func_count,
            nested.hessian_func_count,
            nested.jacobian_func_count,
        ));
        Ok(ArgminIterData::new().param(res.state.param).cost(res.state.cost))
    }
}

impl<O: ArgminOp + Clone, L: Clone + ArgminLineSearch + Solver<O>> Solver<O> for SteepestDescent<L> {
    fn name(&self) -> &'static str {
        "Steepest Descent"
    }

    fn next_iter(&mut self, op: &mut OpWrapper<O>, state: &IterState) -> (r: Result<
        ArgminIterData,
        ArgminError,
    >) {
        self.step(op, state)
    }
}

} // verus!
