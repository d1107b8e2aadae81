//! The dogleg method for the trust-region subproblem.
use vstd::prelude::*;
use crate::basics::{ArgminError, TerminationReason};
use crate::executor::Solver;
use crate::fixed::{
    SCALE, div_spec, fx_div, fx_mul, in_i64, isqrt, isqrt_spec, mul_spec, wide_div,
    wide_div_fits,
};
use crate::inverse::{det, inv_times, newton_direction, newton_direction_fits, rows};
use crate::solver::bfgs::diff;
use crate::linalg::{
    add_fits, check_square, dot, dot_fits, dot_spec, is_square, mat_vec_checked, mat_vec_fits,
    mat_vec_spec, neg, norm_sq_at_most, norm_sq_raw, scale, scale_fits, sub_fits, vec_add,
    vec_sub,
};
use crate::operator::{ArgminOp, OpWrapper, count_inc};
use crate::state::{ArgminIterData, IterState, copy_vec};

verus! {

/// `t1` of the boundary intersection.
pub open spec fn tau_t1(utu: int, btb: int, utb: int) -> int {
    3 * utb - btb - 2 * utu
}

/// The value under the square root of the boundary intersection.
pub open spec fn tau_disc(utu: int, btb: int, utb: int, delta: int) -> int {
    mul_spec(utb, utb) - 2 * mul_spec(utb, delta) + mul_spec(delta, btb) - mul_spec(btb, utu)
        + mul_spec(delta, utu)
}

/// `t3` of the boundary intersection.
pub open spec fn tau_t3(utu: int, btb: int, utb: int) -> int {
    -2 * utb + btb + utu
}

/// The parameter of the point where the dogleg path leaves the trust region,
/// from `utu = pu.pu`, `btb = pb.pb`, `utb = pu.pb` and `delta = radius^2`.
/// The larger root of the quadratic is taken; where the quadratic has no real
/// root or `t3` is zero, `(delta + btb - 2 utu) / (btb - utu)` is used
/// instead, and where that has a zero denominator there is no parameter.
pub open spec fn dogleg_tau(utu: int, btb: int, utb: int, delta: int) -> Option<int> {
    let t1 = tau_t1(utu, btb, utb);
    let disc = tau_disc(utu, btb, utb, delta);
    let t3 = tau_t3(utu, btb, utb);
    if disc >= 0 && t3 != 0 {
        let t2 = isqrt_spec(disc * (SCALE as int));
        let tau1 = div_spec(-(t1 + t2), t3);
        let tau2 = div_spec(-(t1 - t2), t3);
        Some(if tau1 >= tau2 { tau1 } else { tau2 })
    } else if btb - utu != 0 {
        Some(div_spec(delta + btb - 2 * utu, btb - utu))
    } else {
        None
    }
}

/// The Newton step `pb = -inverse(h) g`.
pub open spec fn dogleg_pb(h: Seq<Vec<i64>>, g: Seq<i64>) -> Seq<i64> {
    let d = newton_direction(h, g);
    Seq::new(d.len(), |i: int| (-d[i]) as i64)
}

/// The factor `-(g.g) / (g.h.g)` of the Cauchy step.
pub open spec fn cauchy_factor(h: Seq<Vec<i64>>, g: Seq<i64>) -> int {
    div_spec(-dot_spec(g, g), dot_spec(g, mat_vec_spec(h, g)))
}

/// The Cauchy step `pu = -(g.g) / (g.h.g) g`.
pub open spec fn dogleg_pu(h: Seq<Vec<i64>>, g: Seq<i64>) -> Seq<i64> {
    Seq::new(g.len(), |i: int| mul_spec(cauchy_factor(h, g), g[i] as int) as i64)
}

/// The point at parameter `tau` of the dogleg path: along `pu` for
/// `tau < 1`, from `pu` toward `pb` for `1 <= tau <= 2`.
pub open spec fn dogleg_path(pu: Seq<i64>, pb: Seq<i64>, tau: int) -> Seq<i64> {
    if tau < SCALE as int {
        Seq::new(pu.len(), |i: int| mul_spec(tau, pu[i] as int) as i64)
    } else {
        Seq::new(
            pu.len(),
            |i: int| (pu[i] + mul_spec(tau - SCALE as int, (pb[i] - pu[i]) as i64 as int)) as i64,
        )
    }
}

/// The dogleg parameter for gradient `g`, Hessian `h` and `radius`.
pub open spec fn dogleg_tau_of(h: Seq<Vec<i64>>, g: Seq<i64>, radius: i64) -> Option<int> {
    let pu = dogleg_pu(h, g);
    let pb = dogleg_pb(h, g);
    dogleg_tau(
        dot_spec(pu, pu),
        dot_spec(pb, pb),
        dot_spec(pu, pb),
        mul_spec(radius as int, radius as int),
    )
}

/// The Newton step lies in the trust region.
pub open spec fn newton_step_inside(h: Seq<Vec<i64>>, g: Seq<i64>, radius: i64) -> bool {
    radius >= 0 && norm_sq_raw(dogleg_pb(h, g)) <= radius * radius
}

/// Every value that the dogleg parameter's computation makes is in range.
pub open spec fn tau_fits(utu: int, btb: int, utb: int, delta: int) -> bool {
    let t1 = tau_t1(utu, btb, utb);
    let disc = tau_disc(utu, btb, utb, delta);
    let t3 = tau_t3(utu, btb, utb);
    &&& in_i64(mul_spec(utb, utb))
    &&& in_i64(mul_spec(utb, delta))
    &&& in_i64(mul_spec(delta, btb))
    &&& in_i64(mul_spec(btb, utu))
    &&& in_i64(mul_spec(delta, utu))
    &&& if disc >= 0 && t3 != 0 {
        let t2 = isqrt_spec(disc * (SCALE as int));
        wide_div_fits(-(t1 + t2), t3) && wide_div_fits(-(t1 - t2), t3)
    } else if btb - utu != 0 {
        wide_div_fits(delta + btb - 2 * utu, btb - utu)
    } else {
        true
    }
}

fn tau(utu: i64, btb: i64, utb: i64, delta: i64) -> (r: Result<i64, ArgminError>)
    ensures
        r matches Ok(t) ==> dogleg_tau(utu as int, btb as int, utb as int, delta as int) == Some(
            t as int,
        ),
        r is Ok <==> tau_fits(utu as int, btb as int, utb as int, delta as int) && dogleg_tau(
            utu as int,
            btb as int,
            utb as int,
            delta as int,
        ) is Some,
        r == Err::<i64, ArgminError>(ArgminError::ImpossibleError) <==> tau_fits(
            utu as int,
            btb as int,
            utb as int,
            delta as int,
        ) && dogleg_tau(utu as int, btb as int, utb as int, delta as int) is None,
        r matches Err(e) ==> e == ArgminError::ImpossibleError || e == ArgminError::NumericalFailure,
{
    let t1: i128 = 3 * (utb as i128) - (btb as i128) - 2 * (utu as i128);
    let t3: i128 = (btb as i128) + (utu as i128) - 2 * (utb as i128);
    let m1 = fx_mul(utb, utb);
    let m2 = fx_mul(utb, delta);
    let m3 = fx_mul(delta, btb);
    let m4 = fx_mul(btb, utu);
    let m5 = fx_mul(delta, utu);
    let (m1, m2, m3, m4, m5) = match (m1, m2, m3, m4, m5) {
        (Some(a), Some(b), Some(c), Some(d), Some(e)) => (a, b, c, d, e),
        _ => return Err(ArgminError::NumericalFailure),
    };
    let disc: i128 = (m1 as i128) - 2 * (m2 as i128) + (m3 as i128) - (m4 as i128) + (m5 as i128);
    if disc >= 0 && t3 != 0 {
        assert(disc * (SCALE as i128) < 0x4000_0000_0000_0000_0000_0000_0000_0000) by (nonlinear_arith)
            requires
                0 <= disc < 0x1000_0000_0000_0000_0000i128,
                SCALE == 1000000,
        ;
        let t2 = isqrt(disc * (SCALE as i128));
        assert(t2 < 0x8000_0000_0000_0000i128) by (nonlinear_arith)
            requires
                0 <= t2,
                t2 * t2 < 0x4000_0000_0000_0000_0000_0000_0000_0000i128,
        ;
        let tau1 = wide_div(-(t1 + t2), t3);
        let tau2 = wide_div(-(t1 - t2), t3);
        match (tau1, tau2) {
            (Some(a), Some(b)) => Ok(if a >= b { a } else { b }),
            _ => Err(ArgminError::NumericalFailure),
        }
    } else if (btb as i128) - (utu as i128) != 0 {
        match wide_div((delta as i128) + (btb as i128) - 2 * (utu as i128), (btb as i128) - (utu as i128)) {
            Some(t) => Ok(t),
            None => Err(ArgminError::NumericalFailure),
        }
    } else {
        Err(ArgminError::ImpossibleError)
    }
}

} // verus!

verus! {

/// The step along the bend at parameter `tau`: `(tau - 1) (pb - pu)`.
pub open spec fn bend_step(pu: Seq<i64>, pb: Seq<i64>, tau: int) -> Seq<i64> {
    Seq::new(pu.len(), |i: int| mul_spec(tau - SCALE as int, (pb[i] - pu[i]) as i64 as int) as i64)
}

/// The point at parameter `tau` of the dogleg path can be computed.
pub open spec fn path_fits(pu: Seq<i64>, pb: Seq<i64>, tau: int) -> bool {
    if tau < SCALE as int {
        scale_fits(tau as i64, pu)
    } else {
        &&& sub_fits(pb, pu)
        &&& scale_fits((tau - SCALE as int) as i64, diff(pb, pu))
        &&& add_fits(pu, bend_step(pu, pb, tau))
    }
}

/// Every value that the dogleg point's computation makes is in range: the
/// Newton step, and where it leaves the region, the Cauchy step, the inner
/// products, the parameter and the point on the path.
pub open spec fn dogleg_fits(h: Seq<Vec<i64>>, g: Seq<i64>, radius: i64) -> bool {
    let pb = dogleg_pb(h, g);
    let hg = mat_vec_spec(h, g);
    let pu = dogleg_pu(h, g);
    let delta = mul_spec(radius as int, radius as int);
    &&& newton_direction_fits(h, g)
    &&& forall|i: int| 0 <= i < g.len() ==> #[trigger] newton_direction(h, g)[i] != i64::MIN
    &&& !newton_step_inside(h, g, radius) ==> {
        &&& dot_fits(g, g)
        &&& mat_vec_fits(h, g)
        &&& dot_fits(g, hg)
        &&& dot_spec(g, hg) != 0
        &&& dot_spec(g, g) != i64::MIN
        &&& in_i64(cauchy_factor(h, g))
        &&& scale_fits(cauchy_factor(h, g) as i64, g)
        &&& dot_fits(pu, pu)
        &&& dot_fits(pb, pb)
        &&& dot_fits(pu, pb)
        &&& in_i64(delta)
        &&& tau_fits(dot_spec(pu, pu), dot_spec(pb, pb), dot_spec(pu, pb), delta)
        &&& (dogleg_tau_of(h, g, radius) matches Some(t) && 0 <= t <= 2 * SCALE) ==> path_fits(
            pu,
            pb,
            dogleg_tau_of(h, g, radius)->0,
        )
    }
}

/// The dogleg parameter exists and lies in `[0, 2]`.
pub open spec fn tau_in_range(h: Seq<Vec<i64>>, g: Seq<i64>, radius: i64) -> bool {
    dogleg_tau_of(h, g, radius) matches Some(t) && 0 <= t <= 2 * SCALE
}

/// The dogleg point for `h`, `g` and `radius`: the Newton step inside the
/// region, else the point of the path at the computed parameter.
pub open spec fn dogleg_value(h: Seq<Vec<i64>>, g: Seq<i64>, radius: i64) -> Seq<i64> {
    if newton_step_inside(h, g, radius) {
        dogleg_pb(h, g)
    } else {
        dogleg_path(dogleg_pu(h, g), dogleg_pb(h, g), dogleg_tau_of(h, g, radius)->0)
    }
}

/// What the subproblem for a gradient `g` and Hessian `h` of size `n`
/// returns: `InvalidParameter` for wrong sizes, else the dogleg point when it
/// can be computed, `ImpossibleError` when the parameter is outside `[0, 2]`
/// or missing, and `NumericalFailure` otherwise.
pub open spec fn dogleg_solved(
    g: Seq<i64>,
    h: Seq<Vec<i64>>,
    n: nat,
    radius: i64,
    r: Result<ArgminIterData, ArgminError>,
) -> bool {
    if g.len() != n || !is_square(h, n) {
        r == Err::<ArgminIterData, ArgminError>(ArgminError::InvalidParameter)
    } else if dogleg_fits(h, g, radius) && (newton_step_inside(h, g, radius) || tau_in_range(
        h,
        g,
        radius,
    )) {
        r matches Ok(d) && d.param is Some && d.param->0@ == dogleg_value(h, g, radius)
    } else if dogleg_fits(h, g, radius) {
        r == Err::<ArgminIterData, ArgminError>(ArgminError::ImpossibleError)
    } else {
        r == Err::<ArgminIterData, ArgminError>(ArgminError::NumericalFailure)
    }
}

/// The dogleg solution of the trust-region subproblem for gradient `g`,
/// Hessian `h` and `radius`. The Newton step `pb` is returned where it lies
/// in the region; otherwise the point of the dogleg path at the computed
/// parameter. A parameter outside `[0, 2]`, or none, fails with
/// `ImpossibleError`; a singular Hessian, a zero curvature `g.h.g` or a
/// value out of range fails with `NumericalFailure`.
pub fn dogleg_point(g: &Vec<i64>, h: &Vec<Vec<i64>>, radius: i64) -> (r: Result<
    Vec<i64>,
    ArgminError,
>)
    requires
        is_square(h@, g@.len()),
    ensures
        det(rows(h@)) == 0 ==> r is Err,
        r is Ok <==> dogleg_fits(h@, g@, radius) && (newton_step_inside(h@, g@, radius)
            || tau_in_range(h@, g@, radius)),
        r == Err::<Vec<i64>, ArgminError>(ArgminError::ImpossibleError) <==> dogleg_fits(
            h@,
            g@,
            radius,
        ) && !newton_step_inside(h@, g@, radius) && !tau_in_range(h@, g@, radius),
        r matches Ok(p) ==> {
            if newton_step_inside(h@, g@, radius) {
                p@ == dogleg_pb(h@, g@)
            } else {
                p@ == dogleg_path(
                    dogleg_pu(h@, g@),
                    dogleg_pb(h@, g@),
                    dogleg_tau_of(h@, g@, radius)->0,
                )
            }
        },
        r matches Err(e) ==> e == ArgminError::NumericalFailure || e
            == ArgminError::ImpossibleError,
{
    let d = match inv_times(h, g) {
        Ok(d) => d,
        Err(e) => return Err(e),
    };
    let pb = match neg(&d) {
        Some(v) => v,
        None => return Err(ArgminError::NumericalFailure),
    };
    assert(pb@ =~= dogleg_pb(h@, g@));
    let inside = if radius >= 0 {
        assert(0 <= (radius as int) * (radius as int) <= 0x4000_0000_0000_0000_0000_0000_0000_0000) by (nonlinear_arith)
            requires
                0 <= radius <= 0x7fff_ffff_ffff_ffffi64,
        ;
        norm_sq_at_most(&pb, (radius as i128) * (radius as i128))
    } else {
        false
    };
    if inside {
        return Ok(pb);
    }
    let gg = match dot(g, g) {
        Some(x) => x,
        None => return Err(ArgminError::NumericalFailure),
    };
    let hg = match mat_vec_checked(h, g) {
        Some(v) => v,
        None => return Err(ArgminError::NumericalFailure),
    };
    let ghg = match dot(g, &hg) {
        Some(x) => x,
        None => return Err(ArgminError::NumericalFailure),
    };
    if ghg == 0 || gg == i64::MIN {
        return Err(ArgminError::NumericalFailure);
    }
    let f = match fx_div(-gg, ghg) {
        Some(x) => x,
        None => return Err(ArgminError::NumericalFailure),
    };
    let pu = match scale(f, g) {
        Some(v) => v,
        None => return Err(ArgminError::NumericalFailure),
    };
    assert(pu@ =~= dogleg_pu(h@, g@));
    let utu = dot(&pu, &pu);
    let btb = dot(&pb, &pb);
    let utb = dot(&pu, &pb);
    let delta = fx_mul(radius, radius);
    let (utu, btb, utb, delta) = match (utu, btb, utb, delta) {
        (Some(a), Some(b), Some(c), Some(e)) => (a, b, c, e),
        _ => return Err(ArgminError::NumericalFailure),
    };
    let t = match tau(utu, btb, utb, delta) {
        Ok(t) => t,
        Err(e) => return Err(e),
    };
    if 0 <= t && t < SCALE {
        match scale(t, &pu) {
            Some(p) => {
                assert(p@ =~= dogleg_path(pu@, pb@, t as int));
                Ok(p)
            },
            None => Err(ArgminError::NumericalFailure),
        }
    } else if SCALE <= t && t <= 2 * SCALE {
        let dir = match vec_sub(&pb, &pu) {
            Some(v) => v,
            None => {
                assert(!path_fits(pu@, pb@, t as int));
                return Err(ArgminError::NumericalFailure);
            },
        };
        assert(dir@ =~= diff(pb@, pu@));
        let along = match scale(t - SCALE, &dir) {
            Some(v) => v,
            None => {
                assert(!path_fits(pu@, pb@, t as int));
                return Err(ArgminError::NumericalFailure);
            },
        };
        assert(along@ =~= bend_step(pu@, pb@, t as int));
        match vec_add(&pu, &along) {
            Some(p) => {
                assert(p@ =~= dogleg_path(pu@, pb@, t as int));
                Ok(p)
            },
            None => Err(ArgminError::NumericalFailure),
        }
    } else {
        Err(ArgminError::ImpossibleError)
    }
}

/// The dogleg method. It solves one trust-region subproblem per run, for
/// the radius that the outer trust-region method has set.
pub struct Dogleg {
    /// The trust-region radius; `None` until it is set.
    pub radius: Option<i64>,
}

impl Dogleg {
    /// A solver whose radius is not set yet.
    pub fn new() -> (r: Self)
        ensures
            r.radius is None,
    {
        Dogleg { radius: None }
    }

    /// The termination rule: one subproblem per run, so the run stops after
    /// its first step.
    pub fn check_termination(state: &IterState) -> (r: TerminationReason)
        ensures
            r == (if state.iter >= 1 {
                TerminationReason::MaxItersReached
            } else {
                TerminationReason::NotTerminated
            }),
    {
        if state.iter >= 1 {
            TerminationReason::MaxItersReached
        } else {
            TerminationReason::NotTerminated
        }
    }

    /// Sets the trust-region radius.
    pub fn set_radius(&mut self, radius: i64)
        ensures
            final(self).radius == Some(radius),
    {
        self.radius = Some(radius);
    }

    /// One subproblem: takes gradient and Hessian from the state, or
    /// evaluates them where the state holds none, and returns the dogleg
    /// point. Without a radius it fails with `ImpossibleError`; a gradient
    /// or Hessian of the wrong size fails with `InvalidParameter`.
    pub fn step<O: ArgminOp>(&self, op: &mut OpWrapper<O>, state: &IterState) -> (r: Result<
        ArgminIterData,
        ArgminError,
    >)
        ensures
            final(op).op == old(op).op,
            final(op).counts_at_least(old(op)),
            final(op).cost_func_count == old(op).cost_func_count,
            final(op).jacobian_func_count == old(op).jacobian_func_count,
            self.radius is None ==> r == Err::<ArgminIterData, ArgminError>(
                ArgminError::ImpossibleError,
            ) && *final(op) == *old(op),
            state.grad is Some ==> final(op).grad_func_count == old(op).grad_func_count,
            state.grad is None && self.radius is Some ==> final(op).grad_func_count == count_inc(
                old(op).grad_func_count,
            ),
            state.hessian is Some ==> final(op).hessian_func_count == old(op).hessian_func_count,
            final(op).hessian_func_count == old(op).hessian_func_count
                || final(op).hessian_func_count == count_inc(old(op).hessian_func_count),
            state.hessian is None && r is Ok ==> final(op).hessian_func_count == count_inc(
                old(op).hessian_func_count,
            ),
            r matches Ok(d) ==> d.param is Some && d.cost is None && d.grad is None
                && d.hessian is None,
            (self.radius is Some && state.grad is Some && state.hessian is Some) ==> dogleg_solved(
                state.grad->0@,
                state.hessian->0@,
                state.param@.len(),
                self.radius->0,
                r,
            ),
    {
        let radius = match self.radius {
            Some(r) => r,
            None => return Err(ArgminError::ImpossibleError),
        };
        let param = copy_vec(&state.param);
        let g = match &state.grad {
            Some(g) => copy_vec(g),
            None => match op.gradient(&param) {
                Ok(g) => g,
                Err(e) => return Err(e),
            },
        };
        match &state.hessian {
            Some(h) => Self::solve(&g, h, param.len(), radius),
            None => match op.hessian(&param) {
                Ok(h) => Self::solve(&g, &h, param.len(), radius),
                Err(e) => Err(e),
            },
        }
    }

    /// The subproblem for a known gradient and Hessian: sizes are checked,
    /// then the result is `dogleg_point`'s, reported as the parameter alone.
    pub fn solve(g: &Vec<i64>, h: &Vec<Vec<i64>>, n: usize, radius: i64) -> (r: Result<
        ArgminIterData,
        ArgminError,
    >)
        ensures
            dogleg_solved(g@, h@, n as nat, radius, r),
            r matches Ok(d) ==> d.param is Some && d.cost is None && d.grad is None
                && d.hessian is None,
    {
        if g.len() != n || !check_square(h, n) {
            return Err(ArgminError::InvalidParameter);
        }
        let pstar = match dogleg_point(g, h, radius) {
            Ok(p) => p,
            Err(e) => return Err(e),
        };
        Ok(ArgminIterData::new().param(pstar))
    }
}

impl<O: ArgminOp> Solver<O> for Dogleg {
    fn name(&self) -> &'static str {
        "Dogleg"
    }

    fn next_iter(&mut self, op: &mut OpWrapper<O>, state: &IterState) -> (r: Result<
        ArgminIterData,
        ArgminError,
    >) {
        self.step(op, state)
    }

    fn terminate(&mut self, state: &IterState) -> (r: TerminationReason) {
        Dogleg::check_termination(state)
    }
}

} // verus!
