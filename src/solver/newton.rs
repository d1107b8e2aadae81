//! Newton's method with a damping factor.
use vstd::prelude::*;
use crate::basics::ArgminError;
use crate::executor::Solver;
use crate::fixed::{SCALE, mul_spec};
use crate::inverse::{det, inv_times, newton_direction, newton_direction_fits, rows};
use crate::linalg::{check_square, is_square, scaled_sub, scaled_sub_fits};
use crate::operator::{ArgminOp, OpWrapper, count_inc};
use crate::state::{ArgminIterData, IterState, copy_vec};

verus! {

/// `p - gamma * inverse(h) * g`, in fixed point.
pub open spec fn newton_point(p: Seq<i64>, gamma: i64, h: Seq<Vec<i64>>, g: Seq<i64>) -> Seq<i64> {
    let d = newton_direction(h, g);
    Seq::new(p.len(), |i: int| (p[i] - mul_spec(gamma as int, d[i] as int)) as i64)
}

/// The Newton point exists and every value computing it is in range.
pub open spec fn newton_fits(p: Seq<i64>, gamma: i64, h: Seq<Vec<i64>>, g: Seq<i64>) -> bool {
    &&& newton_direction_fits(h, g)
    &&& scaled_sub_fits(p, gamma, newton_direction(h, g))
}

/// Newton's method: `x_{k+1} = x_k - gamma * inverse(H(x_k)) * g(x_k)`,
/// with the step length `gamma` in `(0, 1]`.
pub struct Newton {
    pub gamma: i64,
}

impl Newton {
    pub open spec fn gamma_valid(gamma: i64) -> bool {
        0 < gamma <= SCALE
    }

    /// A solver with the full step, `gamma = 1`.
    pub fn new() -> (r: Self)
        ensures
            r.gamma == SCALE,
    {
        Newton { gamma: SCALE }
    }

    /// Sets `gamma`; a value outside `(0, 1]` is refused with
    /// `InvalidParameter`.
    pub fn set_gamma(self, gamma: i64) -> (r: Result<Self, ArgminError>)
        ensures
            Self::gamma_valid(gamma) ==> (r matches Ok(n) && n.gamma == gamma),
            !Self::gamma_valid(gamma) ==> r == Err::<Self, ArgminError>(
                ArgminError::InvalidParameter,
            ),
    {
        if gamma <= 0 || gamma > SCALE {
            return Err(ArgminError::InvalidParameter);
        }
        let mut s = self;
        s.gamma = gamma;
        Ok(s)
    }

    /// The Newton update of `param` from its gradient and Hessian.
    pub fn newton_step(&self, param: &Vec<i64>, grad: &Vec<i64>, hessian: &Vec<Vec<i64>>) -> (r:
        Result<Vec<i64>, ArgminError>)
        requires
            grad@.len() == param@.len(),
            is_square(hessian@, param@.len()),
        ensures
            r matches Ok(x) ==> x@ == newton_point(param@, self.gamma, hessian@, grad@),
            r is Ok <==> newton_fits(param@, self.gamma, hessian@, grad@),
            det(rows(hessian@)) == 0 ==> r is Err,
            r matches Err(e) ==> e == ArgminError::NumericalFailure,
    {
        let d = match inv_times(hessian, grad) {
            Ok(d) => d,
            Err(e) => return Err(e),
        };
        assert(d@.len() == param@.len());
        match scaled_sub(param, self.gamma, &d) {
            Some(x) => {
                assert(x@ =~= newton_point(param@, self.gamma, hessian@, grad@));
                Ok(x)
            },
            None => Err(ArgminError::NumericalFailure),
        }
    }

    /// One iteration: evaluates gradient and Hessian at the current
    /// parameter and takes the Newton step. A gradient or Hessian whose size
    /// does not match the parameter fails with `InvalidParameter`.
    pub fn step<O: ArgminOp>(&self, op: &mut OpWrapper<O>, state: &IterState) -> (r: Result<
        ArgminIterData,
        ArgminError,
    >)
        ensures
            final(op).op == old(op).op,
            final(op).counts_at_least(old(op)),
            final(op).cost_func_count == old(op).cost_func_count,
            final(op).grad_func_count == count_inc(old(op).grad_func_count),
            final(op).hessian_func_count == old(op).hessian_func_count
                || final(op).hessian_func_count == count_inc(old(op).hessian_func_count),
            final(op).jacobian_func_count == old(op).jacobian_func_count,
            r is Ok ==> final(op).hessian_func_count == count_inc(old(op).hessian_func_count),
            r matches Ok(d) ==> {
                &&& d.cost is None
                &&& d.grad is None
                &&& d.hessian is None
                &&& d.param is Some
                &&& exists|g: Seq<i64>, h: Seq<Vec<i64>>|
                    #![trigger newton_point(state.param@, self.gamma, h, g)]
                    {
                        &&& g.len() == state.param@.len()
                        &&& is_square(h, g.len())
                        &&& newton_fits(state.param@, self.gamma, h, g)
                        &&& d.param->0@ == newton_point(state.param@, self.gamma, h, g)
                    }
            },
    {
        let param = copy_vec(&state.param);
        let grad = match op.gradient(&param) {
            Ok(g) => g,
            Err(e) => return Err(e),
        };
        let hessian = match op.hessian(&param) {
            Ok(h) => h,
            Err(e) => return Err(e),
        };
        if grad.len() != param.len() || !check_square(&hessian, param.len()) {
            return Err(ArgminError::InvalidParameter);
        }
        let x = match self.newton_step(&param, &grad, &hessian) {
            Ok(x) => x,
            Err(e) => return Err(e),
        };
        Ok(ArgminIterData::new().param(x))
    }
}

impl Default for Newton {
    fn default() -> (r: Self)
        ensures
            r.gamma == SCALE,
    {
        Newton::new()
    }
}

impl<O: ArgminOp> Solver<O> for Newton {
    fn name(&self) -> &'static str {
        "Newton method"
    }

    fn next_iter(&mut self, op: &mut OpWrapper<O>, state: &IterState) -> (r: Result<
        ArgminIterData,
        ArgminError,
    >) {
        self.step(op, state)
    }
}

} // verus!
