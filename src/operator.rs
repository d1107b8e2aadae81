//! The operator that a user supplies, and the wrapper that counts its
//! evaluations.
use vstd::prelude::*;
use crate::basics::ArgminError;

verus! {

/// A cost function with optional derivatives. Parameters and gradients are
/// vectors of fixed-point values, Hessians and Jacobians are lists of rows.
/// A capability that an operator does not provide fails with
/// `NotImplemented`.
pub trait ArgminOp {
    /// The cost at `param`.
    fn apply(&self, param: &Vec<i64>) -> (r: Result<i64, ArgminError>)
        default_ensures
            r == Err::<i64, ArgminError>(ArgminError::NotImplemented),
    {
        Err(ArgminError::NotImplemented)
    }

    /// The gradient at `param`.
    fn gradient(&self, param: &Vec<i64>) -> (r: Result<Vec<i64>, ArgminError>)
        default_ensures
            r == Err::<Vec<i64>, ArgminError>(ArgminError::NotImplemented),
    {
        Err(ArgminError::NotImplemented)
    }

    /// The Hessian at `param`.
    fn hessian(&self, param: &Vec<i64>) -> (r: Result<Vec<Vec<i64>>, ArgminError>)
        default_ensures
            r == Err::<Vec<Vec<i64>>, ArgminError>(ArgminError::NotImplemented),
    {
        Err(ArgminError::NotImplemented)
    }

    /// The Jacobian at `param`.
    fn jacobian(&self, param: &Vec<i64>) -> (r: Result<Vec<Vec<i64>>, ArgminError>)
        default_ensures
            r == Err::<Vec<Vec<i64>>, ArgminError>(ArgminError::NotImplemented),
    {
        Err(ArgminError::NotImplemented)
    }
}

/// One more, unless the counter is already at its largest value.
pub open spec fn count_inc(c: u64) -> u64 {
    if c < u64::MAX {
        (c + 1) as u64
    } else {
        c
    }
}

/// The sum of two counts, held at the largest value.
pub open spec fn count_add(a: u64, b: u64) -> u64 {
    if a + b <= u64::MAX {
        (a + b) as u64
    } else {
        u64::MAX
    }
}

/// Owns an operator and counts the calls of each of its capabilities.
pub struct OpWrapper<O: ArgminOp> {
    pub op: O,
    pub cost_func_count: u64,
    pub grad_func_count: u64,
    pub hessian_func_count: u64,
    pub jacobian_func_count: u64,
}

fn inc(c: u64) -> (r: u64)
    ensures
        r == count_inc(c),
{
    if c < u64::MAX {
        c + 1
    } else {
        c
    }
}

fn add_counts(a: u64, b: u64) -> (r: u64)
    ensures
        r == count_add(a, b),
{
    if a <= u64::MAX - b {
        a + b
    } else {
        u64::MAX
    }
}

impl<O: ArgminOp> OpWrapper<O> {
    /// No counter of `self` is below the matching counter of `earlier`.
    pub open spec fn counts_at_least(&self, earlier: &Self) -> bool {
        &&& self.cost_func_count >= earlier.cost_func_count
        &&& self.grad_func_count >= earlier.grad_func_count
        &&& self.hessian_func_count >= earlier.hessian_func_count
        &&& self.jacobian_func_count >= earlier.jacobian_func_count
    }

    /// Wraps `op` with all counters at zero.
    pub fn new(op: O) -> (r: Self)
        ensures
            r.op == op,
            r.cost_func_count == 0,
            r.grad_func_count == 0,
            r.hessian_func_count == 0,
            r.jacobian_func_count == 0,
    {
        OpWrapper {
            op,
            cost_func_count: 0,
            grad_func_count: 0,
            hessian_func_count: 0,
            jacobian_func_count: 0,
        }
    }

    /// Evaluates the cost and counts the call.
    pub fn apply(&mut self, param: &Vec<i64>) -> (r: Result<i64, ArgminError>)
        ensures
            final(self).op == old(self).op,
            final(self).cost_func_count == count_inc(old(self).cost_func_count),
            final(self).grad_func_count == old(self).grad_func_count,
            final(self).hessian_func_count == old(self).hessian_func_count,
            final(self).jacobian_func_count == old(self).jacobian_func_count,
    {
        self.cost_func_count = inc(self.cost_func_count);
        self.op.apply(param)
    }

    /// Evaluates the gradient and counts the call.
    pub fn gradient(&mut self, param: &Vec<i64>) -> (r: Result<Vec<i64>, ArgminError>)
        ensures
            final(self).op == old(self).op,
            final(self).cost_func_count == old(self).cost_func_count,
            final(self).grad_func_count == count_inc(old(self).grad_func_count),
            final(self).hessian_func_count == old(self).hessian_func_count,
            final(self).jacobian_func_count == old(self).jacobian_func_count,
    {
        self.grad_func_count = inc(self.grad_func_count);
        self.op.gradient(param)
    }

    /// Evaluates the Hessian and counts the call.
    pub fn hessian(&mut self, param: &Vec<i64>) -> (r: Result<Vec<Vec<i64>>, ArgminError>)
        ensures
            final(self).op == old(self).op,
            final(self).cost_func_count == old(self).cost_func_count,
            final(self).grad_func_count == old(self).grad_func_count,
            final(self).hessian_func_count == count_inc(old(self).hessian_func_count),
            final(self).jacobian_func_count == old(self).jacobian_func_count,
    {
        self.hessian_func_count = inc(self.hessian_func_count);
        self.op.hessian(param)
    }

    /// Evaluates the Jacobian and counts the call.
    pub fn jacobian(&mut self, param: &Vec<i64>) -> (r: Result<Vec<Vec<i64>>, ArgminError>)
        ensures
            final(self).op == old(self).op,
            final(self).cost_func_count == old(self).cost_func_count,
            final(self).grad_func_count == old(self).grad_func_count,
            final(self).hessian_func_count == old(self).hessian_func_count,
            final(self).jacobian_func_count == count_inc(old(self).jacobian_func_count),
    {
        self.jacobian_func_count = inc(self.jacobian_func_count);
        self.op.jacobian(param)
    }

    /// Adds the counts of a finished nested run and drops its operator.
    pub fn consume_op(&mut self, other: OpWrapper<O>)
        ensures
            final(self).op == old(self).op,
            final(self).cost_func_count == count_add(
                old(self).cost_func_count,
                other.cost_func_count,
            ),
            final(self).grad_func_count == count_add(
                old(self).grad_func_count,
                other.grad_func_count,
            ),
            final(self).hessian_func_count == count_add(
                old(self).hessian_func_count,
                other.hessian_func_count,
            ),
            final(self).jacobian_func_count == count_add(
                old(self).jacobian_func_count,
                other.jacobian_func_count,
            ),
    {
        self.cost_func_count = add_counts(self.cost_func_count, other.cost_func_count);
        self.grad_func_count = add_counts(self.grad_func_count, other.grad_func_count);
        self.hessian_func_count = add_counts(self.hessian_func_count, other.hessian_func_count);
        self.jacobian_func_count = add_counts(
            self.jacobian_func_count,
            other.jacobian_func_count,
        );
    }

    /// Hands back the operator.
    pub fn get_op(self) -> (r: O)
        ensures
            r == self.op,
    {
        self.op
    }
}

} // verus!
