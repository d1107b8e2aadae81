//! The Landweber iteration: a fixed step along the negative gradient.
use vstd::prelude::*;
use crate::basics::ArgminError;
use crate::executor::Solver;
use crate::fixed::mul_spec;
use crate::linalg::{scaled_sub, scaled_sub_fits};
use crate::operator::{ArgminOp, OpWrapper};
use crate::state::{ArgminIterData, IterState, copy_vec};

verus! {

/// The Landweber iteration `x_{k+1} = x_k - omega * g(x_k)`.
pub struct Landweber {
    pub omega: i64,
}

impl Landweber {
    /// A solver with step factor `omega`.
    pub fn new(omega: i64) -> (r: Self)
        ensures
            r.omega == omega,
    {
        Landweber { omega }
    }

    /// `param - omega * grad`, each component
    /// `param[i] - omega * grad[i]`; `NumericalFailure` where a component
    /// leaves the range.
    pub fn landweber_step(&self, param: &Vec<i64>, grad: &Vec<i64>) -> (r: Result<
        Vec<i64>,
        ArgminError,
    >)
        requires
            param@.len() == grad@.len(),
        ensures
            r is Ok <==> scaled_sub_fits(param@, self.omega, grad@),
            r matches Ok(x) ==> {
                &&& x@.len() == param@.len()
                &&& forall|i: int|
                    0 <= i < param@.len() ==> #[trigger] x@[i] == param@[i] - mul_spec(
                        self.omega as int,
                        grad@[i] as int,
                    )
            },
            r matches Err(e) ==> e == ArgminError::NumericalFailure,
    {
        match scaled_sub(param, self.omega, grad) {
            Some(x) => Ok(x),
            None => Err(ArgminError::NumericalFailure),
        }
    }

    /// One iteration: evaluates the gradient at the current parameter and
    /// steps against it. A gradient of the wrong size fails with
    /// `InvalidParameter`.
    pub fn step<O: ArgminOp>(&self, op: &mut OpWrapper<O>, state: &IterState) -> (r: Result<
        ArgminIterData,
        ArgminError,
    >)
        ensures
            final(op).op == old(op).op,
            final(op).grad_func_count == crate::operator::count_inc(old(op).grad_func_count),
            final(op).cost_func_count == old(op).cost_func_count,
            final(op).hessian_func_count == old(op).hessian_func_count,
            final(op).jacobian_func_count == old(op).jacobian_func_count,
            final(op).counts_at_least(old(op)),
            r matches Ok(d) ==> {
                &&& d.param is Some
                &&& d.cost is None
                &&& d.grad is None
                &&& d.hessian is None
                &&& exists|g: Seq<i64>|
                    #![trigger scaled_sub_fits(state.param@, self.omega, g)]
                    {
                        &&& g.len() == state.param@.len()
                        &&& scaled_sub_fits(state.param@, self.omega, g)
                        &&& d.param->0@.len() == g.len()
                        &&& forall|i: int|
                            0 <= i < g.len() ==> #[trigger] d.param->0@[i] == state.param@[i]
                                - mul_spec(self.omega as int, g[i] as int)
                    }
            },
    {
        let param = copy_vec(&state.param);
        let grad = match op.gradient(&param) {
            Ok(g) => g,
            Err(e) => return Err(e),
        };
        if grad.len() != param.len() {
            return Err(ArgminError::InvalidParameter);
        }
        match self.landweber_step(&param, &grad) {
            Ok(x) => Ok(ArgminIterData::new().param(x)),
            Err(e) => Err(e),
        }
    }
}

impl<O: ArgminOp> Solver<O> for Landweber {
    fn name(&self) -> &'static str {
        "Landweber"
    }

    fn next_iter(&mut self, op: &mut OpWrapper<O>, state: &IterState) -> (r: Result<
        ArgminIterData,
        ArgminError,
    >) {
        self.step(op, state)
    }
}

} // verus!
