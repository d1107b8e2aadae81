//! The record of a run between iterations, and the sparse result of one
//! solver step that is merged into it.
use vstd::prelude::*;
use crate::basics::TerminationReason;

verus! {

/// The cost that stands for "not evaluated yet": every evaluated cost that
/// is below it counts as an improvement.
pub const COST_UNKNOWN: i64 = 9223372036854775807;

/// What one solver step computed. Absent fields leave the state as it is.
pub struct ArgminIterData {
    pub param: Option<Vec<i64>>,
    pub cost: Option<i64>,
    pub grad: Option<Vec<i64>>,
    pub hessian: Option<Vec<Vec<i64>>>,
}

impl ArgminIterData {
    /// A result with no field set.
    pub fn new() -> (r: Self)
        ensures
            r.param is None,
            r.cost is None,
            r.grad is None,
            r.hessian is None,
    {
        ArgminIterData { param: None, cost: None, grad: None, hessian: None }
    }

    /// Sets the parameter vector.
    pub fn param(self, param: Vec<i64>) -> (r: Self)
        ensures
            r.param == Some(param),
            r.cost == self.cost,
            r.grad == self.grad,
            r.hessian == self.hessian,
    {
        ArgminIterData { param: Some(param), ..self }
    }

    /// Sets the cost.
    pub fn cost(self, cost: i64) -> (r: Self)
        ensures
            r.param == self.param,
            r.cost == Some(cost),
            r.grad == self.grad,
            r.hessian == self.hessian,
    {
        ArgminIterData { cost: Some(cost), ..self }
    }

    /// Sets the gradient.
    pub fn grad(self, grad: Vec<i64>) -> (r: Self)
        ensures
            r.param == self.param,
            r.cost == self.cost,
            r.grad == Some(grad),
            r.hessian == self.hessian,
    {
        ArgminIterData { grad: Some(grad), ..self }
    }

    /// Sets the Hessian.
    pub fn hessian(self, hessian: Vec<Vec<i64>>) -> (r: Self)
        ensures
            r.param == self.param,
            r.cost == self.cost,
            r.grad == self.grad,
            r.hessian == Some(hessian),
    {
        ArgminIterData { hessian: Some(hessian), ..self }
    }
}

/// The state of a run: current, previous and best parameter and cost, the
/// derivatives once some step has computed them, the iteration count and
/// why the run stopped.
pub struct IterState {
    pub param: Vec<i64>,
    pub prev_param: Vec<i64>,
    pub best_param: Vec<i64>,
    pub cost: i64,
    pub prev_cost: i64,
    pub best_cost: i64,
    pub grad: Option<Vec<i64>>,
    pub prev_grad: Option<Vec<i64>>,
    pub hessian: Option<Vec<Vec<i64>>>,
    pub iter: u64,
    pub last_best_iter: u64,
    pub max_iters: u64,
    pub termination_reason: TerminationReason,
}

pub fn copy_vec(v: &Vec<i64>) -> (r: Vec<i64>)
    ensures
        r@ == v@,
{
    let mut out: Vec<i64> = Vec::new();
    let mut i: usize = 0;
    while i < v.len()
        invariant
            i <= v@.len(),
            out@ == v@.subrange(0, i as int),
        decreases v@.len() - i,
    {
        out.push(v[i]);
        i = i + 1;
        assert(out@ =~= v@.subrange(0, i as int));
    }
    assert(out@ =~= v@);
    out
}

impl IterState {
    /// A fresh state at `param`: no cost evaluated, no derivative known,
    /// iteration 0 and no iteration limit.
    pub fn new(param: Vec<i64>) -> (r: Self)
        ensures
            r.param@ == param@,
            r.prev_param@ == param@,
            r.best_param@ == param@,
            r.cost == COST_UNKNOWN,
            r.prev_cost == COST_UNKNOWN,
            r.best_cost == COST_UNKNOWN,
            r.grad is None,
            r.prev_grad is None,
            r.hessian is None,
            r.iter == 0,
            r.last_best_iter == 0,
            r.max_iters == u64::MAX,
            r.termination_reason == TerminationReason::NotTerminated,
    {
        let prev_param = copy_vec(&param);
        let best_param = copy_vec(&param);
        IterState {
            param,
            prev_param,
            best_param,
            cost: COST_UNKNOWN,
            prev_cost: COST_UNKNOWN,
            best_cost: COST_UNKNOWN,
            grad: None,
            prev_grad: None,
            hessian: None,
            iter: 0,
            last_best_iter: 0,
            max_iters: u64::MAX,
            termination_reason: TerminationReason::NotTerminated,
        }
    }

    /// Merges the fields that a step reported: each one present moves the
    /// current value to the previous one. Then, if the cost is below the
    /// best cost so far, the current parameter and cost become the best.
    pub fn merge(&mut self, data: ArgminIterData)
        ensures
            match data.param {
                Some(p) => final(self).param == p && final(self).prev_param == old(self).param,
                None => final(self).param == old(self).param && final(self).prev_param
                    == old(self).prev_param,
            },
            match data.cost {
                Some(c) => final(self).cost == c && final(self).prev_cost == old(self).cost,
                None => final(self).cost == old(self).cost && final(self).prev_cost
                    == old(self).prev_cost,
            },
            match data.grad {
                Some(g) => final(self).grad == Some(g) && final(self).prev_grad == old(self).grad,
                None => final(self).grad == old(self).grad && final(self).prev_grad
                    == old(self).prev_grad,
            },
            match data.hessian {
                Some(h) => final(self).hessian == Some(h),
                None => final(self).hessian == old(self).hessian,
            },
            final(self).cost < old(self).best_cost ==> {
                &&& final(self).best_cost == final(self).cost
                &&& final(self).best_param@ == final(self).param@
                &&& final(self).last_best_iter == old(self).iter
            },
            final(self).cost >= old(self).best_cost ==> {
                &&& final(self).best_cost == old(self).best_cost
                &&& final(self).best_param == old(self).best_param
                &&& final(self).last_best_iter == old(self).last_best_iter
            },
            final(self).iter == old(self).iter,
            final(self).max_iters == old(self).max_iters,
            final(self).termination_reason == old(self).termination_reason,
    {
        let ArgminIterData { param, cost, grad, hessian } = data;
        if let Some(p) = param {
            let mut last = p;
            core::mem::swap(&mut self.param, &mut last);
            self.prev_param = last;
        }
        if let Some(c) = cost {
            self.prev_cost = self.cost;
            self.cost = c;
        }
        if let Some(g) = grad {
            let mut last = Some(g);
            core::mem::swap(&mut self.grad, &mut last);
            self.prev_grad = last;
        }
        if let Some(h) = hessian {
            self.hessian = Some(h);
        }
        if self.cost < self.best_cost {
            self.best_param = copy_vec(&self.param);
            self.best_cost = self.cost;
            self.last_best_iter = self.iter;
        }
    }

    /// Before a step: whether the run goes on. A reason to stop that is
    /// already set is kept; otherwise reaching the iteration limit stops the
    /// run with `MaxItersReached`.
    pub fn begin_iteration(&mut self) -> (go: bool)
        ensures
            old(self).termination_reason.is_terminal() ==> !go && *final(self) == *old(self),
            !old(self).termination_reason.is_terminal() && old(self).iter >= old(self).max_iters
                ==> !go && *final(self) == (IterState {
                termination_reason: TerminationReason::MaxItersReached,
                ..*old(self)
            }),
            !old(self).termination_reason.is_terminal() && old(self).iter < old(self).max_iters
                ==> go && *final(self) == *old(self),
    {
        if self.termination_reason.terminated() {
            return false;
        }
        if self.iter >= self.max_iters {
            self.termination_reason = TerminationReason::MaxItersReached;
            return false;
        }
        true
    }

    /// Counts a completed step.
    pub fn count_iteration(&mut self)
        requires
            old(self).iter < old(self).max_iters,
        ensures
            *final(self) == (IterState { iter: (old(self).iter + 1) as u64, ..*old(self) }),
    {
        self.iter = self.iter + 1;
    }

    /// After a step: records the solver's reason to stop, if it gave one.
    pub fn stop_with(&mut self, reason: TerminationReason) -> (stop: bool)
        ensures
            stop == reason.is_terminal(),
            stop ==> *final(self) == (IterState { termination_reason: reason, ..*old(self) }),
            !stop ==> *final(self) == *old(self),
    {
        if reason.terminated() {
            self.termination_reason = reason;
            true
        } else {
            false
        }
    }
}

} // verus!
