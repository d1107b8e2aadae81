//! The BFGS quasi-Newton method, with a nested line search.
use vstd::prelude::*;
use crate::basics::{ArgminError, TerminationReason};
use crate::executor::{ArgminLineSearch, Executor, Solver};
use crate::fixed::{SCALE, in_i64, in_i128, lemma_i64_product_fits};
use crate::linalg::{
    check_square, dot, dot_fits, dot_spec, mat_t_vec_fits, mat_vec_fits, is_square, is_symmetric, mat_t_vec, mat_t_vec_spec, mat_vec_checked,
    mat_vec_spec, neg, norm_sq_below, norm_sq_raw, sub_fits, vec_sub, lemma_symmetric_t_vec,
};
use crate::operator::{ArgminOp, OpWrapper, count_add, count_inc};
use crate::state::{ArgminIterData, IterState, copy_vec};

verus! {

/// One entry of the updated inverse Hessian, from the old entry `hij`,
/// `ui = (H y)_i`, `wj = (H^T y)_j`, the step components `si`, `sj`,
/// `ys = y.s` and `yhy = y.(H y)`. In real numbers, with `rho = 1 / ys`:
/// `hij - rho (ui sj + si wj) + (rho + rho^2 yhy) si sj`.
pub open spec fn update_entry(hij: int, ui: int, wj: int, si: int, sj: int, ys: int, yhy: int) -> int {
    hij + ((ys + yhy) * (si * sj) - ys * (ui * sj + si * wj)) / (ys * ys)
}

/// Entry `(i, j)` of the BFGS update of `h` for the step `s` and the change of
/// gradient `y`:
/// `(I - rho s y^T) h (I - rho y s^T) + rho s s^T`.
pub open spec fn bfgs_entry(h: Seq<Vec<i64>>, s: Seq<i64>, y: Seq<i64>, i: int, j: int) -> int {
    let u = mat_vec_spec(h, y);
    let w = mat_t_vec_spec(h, y);
    update_entry(
        h[i]@[j] as int,
        u[i] as int,
        w[j] as int,
        s[i] as int,
        s[j] as int,
        dot_spec(y, s),
        dot_spec(y, u),
    )
}

/// Every intermediate value of `update_entry` fits an `i128`, and the entry
/// fits an `i64`.
pub open spec fn update_entry_fits(hij: int, ui: int, wj: int, si: int, sj: int, ys: int, yhy: int) -> bool {
    let t1 = (ys + yhy) * (si * sj);
    let q = ui * sj + si * wj;
    &&& in_i128(t1)
    &&& in_i128(q)
    &&& in_i128(ys * q)
    &&& in_i128(t1 - ys * q)
    &&& in_i64(update_entry(hij, ui, wj, si, sj, ys, yhy))
}

/// Entry `(i, j)` of the update can be computed.
pub open spec fn bfgs_entry_fits(h: Seq<Vec<i64>>, s: Seq<i64>, y: Seq<i64>, i: int, j: int) -> bool {
    let u = mat_vec_spec(h, y);
    let w = mat_t_vec_spec(h, y);
    update_entry_fits(
        h[i]@[j] as int,
        u[i] as int,
        w[j] as int,
        s[i] as int,
        s[j] as int,
        dot_spec(y, s),
        dot_spec(y, u),
    )
}

/// The update is defined (`y.s` is not zero) and every value computing it
/// is in range.
pub open spec fn bfgs_update_ok(h: Seq<Vec<i64>>, s: Seq<i64>, y: Seq<i64>) -> bool {
    &&& dot_fits(y, s)
    &&& dot_spec(y, s) != 0
    &&& mat_vec_fits(h, y)
    &&& mat_t_vec_fits(h, y)
    &&& dot_fits(y, mat_vec_spec(h, y))
    &&& forall|i: int, j: int|
        0 <= i < s.len() && 0 <= j < s.len() ==> #[trigger] bfgs_entry_fits(h, s, y, i, j)
}

fn entry(hij: i64, ui: i64, wj: i64, si: i64, sj: i64, ys: i64, yhy: i64) -> (r: Option<i64>)
    requires
        ys != 0,
    ensures
        r is Some <==> update_entry_fits(
            hij as int,
            ui as int,
            wj as int,
            si as int,
            sj as int,
            ys as int,
            yhy as int,
        ),
        r matches Some(v) ==> v == update_entry(
            hij as int,
            ui as int,
            wj as int,
            si as int,
            sj as int,
            ys as int,
            yhy as int,
        ),
{
    proof {
        lemma_i64_product_fits(si as int, sj as int);
        lemma_i64_product_fits(ui as int, sj as int);
        lemma_i64_product_fits(si as int, wj as int);
        lemma_i64_product_fits(ys as int, ys as int);
    }
    let a: i128 = ys as i128 + yhy as i128;
    let ss: i128 = (si as i128) * (sj as i128);
    let t1 = match a.checked_mul(ss) {
        Some(x) => x,
        None => return None,
    };
    let p1: i128 = (ui as i128) * (sj as i128);
    let p2: i128 = (si as i128) * (wj as i128);
    let q = match p1.checked_add(p2) {
        Some(x) => x,
        None => return None,
    };
    let t2 = match (ys as i128).checked_mul(q) {
        Some(x) => x,
        None => return None,
    };
    let num = match t1.checked_sub(t2) {
        Some(x) => x,
        None => return None,
    };
    let den: i128 = (ys as i128) * (ys as i128);
    assert(update_entry(hij as int, ui as int, wj as int, si as int, sj as int, ys as int, yhy as int)
        == hij as int + (num as int) / (den as int));
    assert(den > 0) by (nonlinear_arith)
        requires
            den == (ys as int) * (ys as int),
            ys != 0,
    ;
    let d = match num.checked_div_euclid(den) {
        Some(x) => x,
        None => {
            assert(!(i128::MIN <= (num as int) / (den as int) <= i128::MAX));
            return None;
        },
    };
    let total = match (hij as i128).checked_add(d) {
        Some(x) => x,
        None => return None,
    };
    if total < i64::MIN as i128 || total > i64::MAX as i128 {
        None
    } else {
        Some(total as i64)
    }
}

/// The BFGS update of the inverse Hessian approximation `h` for the step
/// `s = x_{k+1} - x_k` and the change of gradient `y = g_{k+1} - g_k`.
/// It fails with `NumericalFailure` where `y.s` is zero or a value leaves the
/// fixed-point range.
pub fn bfgs_update(h: &Vec<Vec<i64>>, s: &Vec<i64>, y: &Vec<i64>) -> (r: Result<
    Vec<Vec<i64>>,
    ArgminError,
>)
    requires
        is_square(h@, s@.len()),
        y@.len() == s@.len(),
    ensures
        r matches Ok(h2) ==> {
            &&& is_square(h2@, s@.len())
            &&& forall|i: int, j: int|
                0 <= i < s@.len() && 0 <= j < s@.len() ==> #[trigger] h2@[i]@[j] == bfgs_entry(
                    h@,
                    s@,
                    y@,
                    i,
                    j,
                )
        },
        r is Ok <==> bfgs_update_ok(h@, s@, y@),
        r matches Err(e) ==> e == ArgminError::NumericalFailure,
{
    let n = s.len();
    let ys = match dot(y, s) {
        Some(x) => x,
        None => return Err(ArgminError::NumericalFailure),
    };
    if ys == 0 {
        return Err(ArgminError::NumericalFailure);
    }
    let u = match mat_vec_checked(h, y) {
        Some(x) => x,
        None => return Err(ArgminError::NumericalFailure),
    };
    let w = match mat_t_vec(h, y) {
        Some(x) => x,
        None => return Err(ArgminError::NumericalFailure),
    };
    let yhy = match dot(y, &u) {
        Some(x) => x,
        None => return Err(ArgminError::NumericalFailure),
    };
    let mut out: Vec<Vec<i64>> = Vec::new();
    let mut i: usize = 0;
    while i < n
        invariant
            n == s@.len(),
            is_square(h@, n as nat),
            y@.len() == n,
            u@ == mat_vec_spec(h@, y@),
            w@ == mat_t_vec_spec(h@, y@),
            ys == dot_spec(y@, s@),
            ys != 0,
            yhy == dot_spec(y@, u@),
            i <= n,
            out@.len() == i,
            forall|a: int| 0 <= a < i ==> (#[trigger] out@[a])@.len() == n,
            forall|a: int, b: int|
                0 <= a < i && 0 <= b < n ==> #[trigger] out@[a]@[b] == bfgs_entry(h@, s@, y@, a, b),
            forall|a: int, b: int|
                0 <= a < i && 0 <= b < n ==> #[trigger] bfgs_entry_fits(h@, s@, y@, a, b),
            dot_fits(y@, s@),
            mat_vec_fits(h@, y@),
            mat_t_vec_fits(h@, y@),
            dot_fits(y@, u@),
        decreases n - i,
    {
        let mut row: Vec<i64> = Vec::new();
        let mut j: usize = 0;
        while j < n
            invariant
                n == s@.len(),
                is_square(h@, n as nat),
                y@.len() == n,
                u@ == mat_vec_spec(h@, y@),
                w@ == mat_t_vec_spec(h@, y@),
                ys == dot_spec(y@, s@),
                ys != 0,
                yhy == dot_spec(y@, u@),
                i < n,
                j <= n,
                row@.len() == j,
                forall|b: int| 0 <= b < j ==> #[trigger] row@[b] == bfgs_entry(h@, s@, y@, i as int, b),
                forall|a: int, b: int|
                    0 <= a < i && 0 <= b < n ==> #[trigger] bfgs_entry_fits(h@, s@, y@, a, b),
                forall|b: int| 0 <= b < j ==> #[trigger] bfgs_entry_fits(h@, s@, y@, i as int, b),
                dot_fits(y@, s@),
                mat_vec_fits(h@, y@),
                mat_t_vec_fits(h@, y@),
                dot_fits(y@, u@),
            decreases n - j,
        {
            assert(h@[i as int]@.len() == n);
            match entry(h[i][j], u[i], w[j], s[i], s[j], ys, yhy) {
                Some(v) => row.push(v),
                None => {
                    assert(!bfgs_entry_fits(h@, s@, y@, i as int, j as int));
                    return Err(ArgminError::NumericalFailure);
                },
            }
            j = j + 1;
        }
        out.push(row);
        i = i + 1;
    }
    Ok(out)
}

/// The BFGS update keeps a symmetric inverse Hessian approximation
/// symmetric: with `bfgs_update`'s contract, every matrix it returns for a
/// symmetric `h` is symmetric.
pub proof fn lemma_bfgs_update_symmetric(h: Seq<Vec<i64>>, s: Seq<i64>, y: Seq<i64>)
    requires
        is_square(h, s.len()),
        y.len() == s.len(),
        is_symmetric(h),
    ensures
        forall|i: int, j: int|
            0 <= i < s.len() && 0 <= j < s.len() ==> #[trigger] bfgs_entry(h, s, y, i, j)
                == bfgs_entry(h, s, y, j, i),
{
    lemma_symmetric_t_vec(h, y);
    let u = mat_vec_spec(h, y);
    assert forall|i: int, j: int|
        0 <= i < s.len() && 0 <= j < s.len() implies #[trigger] bfgs_entry(h, s, y, i, j)
            == bfgs_entry(h, s, y, j, i) by {
        let si = s[i] as int;
        let sj = s[j] as int;
        let ui = u[i] as int;
        let uj = u[j] as int;
        assert(si * sj == sj * si) by (nonlinear_arith);
        assert(ui * sj + si * uj == uj * si + sj * ui) by (nonlinear_arith);
    }
}

/// A matrix returned by `bfgs_update` for a symmetric `h` is symmetric.
pub proof fn lemma_bfgs_result_symmetric(
    h: Seq<Vec<i64>>,
    s: Seq<i64>,
    y: Seq<i64>,
    h2: Seq<Vec<i64>>,
)
    requires
        is_square(h, s.len()),
        y.len() == s.len(),
        is_symmetric(h),
        is_square(h2, s.len()),
        forall|i: int, j: int|
            0 <= i < s.len() && 0 <= j < s.len() ==> #[trigger] h2[i]@[j] == bfgs_entry(
                h,
                s,
                y,
                i,
                j,
            ),
    ensures
        is_symmetric(h2),
{
    lemma_bfgs_update_symmetric(h, s, y);
    assert forall|i: int, j: int| 0 <= i < h2.len() && 0 <= j < h2.len() implies #[trigger] h2[i]@[j]
        == h2[j]@[i] by {
        assert(h2[i]@[j] == bfgs_entry(h, s, y, i, j));
        assert(h2[j]@[i] == bfgs_entry(h, s, y, j, i));
    }
}

} // verus!

verus! {

/// `a - b` component by component, where every component fits.
pub open spec fn diff(a: Seq<i64>, b: Seq<i64>) -> Seq<i64> {
    Seq::new(a.len(), |i: int| (a[i] - b[i]) as i64)
}

/// When BFGS stops: the gradient's norm is below the square root of the
/// precision (one unit), or the cost did not change by a unit.
pub open spec fn bfgs_termination(state: IterState) -> TerminationReason {
    if state.grad matches Some(g) && norm_sq_raw(g@) < SCALE as int {
        TerminationReason::TargetPrecisionReached
    } else if state.prev_cost == state.cost {
        TerminationReason::NoChangeInCost
    } else {
        TerminationReason::NotTerminated
    }
}

/// What `bfgs_next_inverse` returns for the inverse Hessian `h`, the
/// point `x` and gradient `g` before the line search, and the point `x1` and
/// gradient `g1` after it: `Ok(None)` keeps `h`, `Ok(Some(h2))` replaces it.
pub open spec fn bfgs_next_result(
    h: Seq<Vec<i64>>,
    x: Seq<i64>,
    g: Seq<i64>,
    x1: Seq<i64>,
    g1: Seq<i64>,
    r: Result<Option<Vec<Vec<i64>>>, ArgminError>,
) -> bool {
    if x1.len() != x.len() || g1.len() != x.len() {
        r == Err::<Option<Vec<Vec<i64>>>, ArgminError>(ArgminError::InvalidParameter)
    } else if !sub_fits(g1, g) || !sub_fits(x1, x) {
        r == Err::<Option<Vec<Vec<i64>>>, ArgminError>(ArgminError::NumericalFailure)
    } else {
        let s = diff(x1, x);
        let y = diff(g1, g);
        if dot_fits(y, s) && dot_spec(y, s) == 0 {
            r == Ok::<Option<Vec<Vec<i64>>>, ArgminError>(None)
        } else if bfgs_update_ok(h, s, y) {
            &&& r matches Ok(Some(h2))
            &&& is_square(r->Ok_0->0@, x.len())
            &&& forall|i: int, j: int|
                0 <= i < x.len() && 0 <= j < x.len() ==> #[trigger] r->Ok_0->0@[i]@[j]
                    == bfgs_entry(h, s, y, i, j)
        } else {
            r == Err::<Option<Vec<Vec<i64>>>, ArgminError>(ArgminError::NumericalFailure)
        }
    }
}

/// What a successful step reports: the point `x` that the line search found,
/// its cost and its gradient `g`, and the inverse Hessian updated with
/// `s = x - x_k` and `y = g - g_k`, `g_k` being the gradient in the state.
/// Where `y.s` is zero the update is undefined and `H` is kept.
pub open spec fn bfgs_step_done(
    h_old: Seq<Vec<i64>>,
    h_new: Seq<Vec<i64>>,
    state: IterState,
    d: ArgminIterData,
) -> bool {
    &&& d.param is Some
    &&& d.cost is Some
    &&& d.grad is Some
    &&& d.hessian is None
    &&& state.grad is Some
    &&& {
        let x = d.param->0@;
        let g = d.grad->0@;
        let s = diff(x, state.param@);
        let y = diff(g, state.grad->0@);
        &&& x.len() == state.param@.len()
        &&& g.len() == x.len()
        &&& sub_fits(x, state.param@)
        &&& sub_fits(g, state.grad->0@)
        &&& if dot_fits(y, s) && dot_spec(y, s) == 0 {
            h_new == h_old
        } else {
            &&& bfgs_update_ok(h_old, s, y)
            &&& is_square(h_new, x.len())
            &&& forall|i: int, j: int|
                0 <= i < x.len() && 0 <= j < x.len() ==> #[trigger] h_new[i]@[j]
                    == bfgs_entry(h_old, s, y, i, j)
        }
    }
}

/// The inverse Hessian after a step from `x` (gradient `g`) to `x1`
/// (gradient `g1`): `None` where `y.s` is zero and `h` is kept, else the
/// BFGS update of `h`.
pub fn bfgs_next_inverse(
    h: &Vec<Vec<i64>>,
    x: &Vec<i64>,
    g: &Vec<i64>,
    x1: &Vec<i64>,
    g1: &Vec<i64>,
) -> (r: Result<Option<Vec<Vec<i64>>>, ArgminError>)
    requires
        is_square(h@, x@.len()),
        g@.len() == x@.len(),
    ensures
        bfgs_next_result(h@, x@, g@, x1@, g1@, r),
{
    let n = x.len();
    if x1.len() != n || g1.len() != n {
        return Err(ArgminError::InvalidParameter);
    }
    let yk = match vec_sub(g1, g) {
        Some(v) => v,
        None => return Err(ArgminError::NumericalFailure),
    };
    let sk = match vec_sub(x1, x) {
        Some(v) => v,
        None => return Err(ArgminError::NumericalFailure),
    };
    assert(sk@ =~= diff(x1@, x@));
    assert(yk@ =~= diff(g1@, g@));
    if let Some(0) = dot(&yk, &sk) {
        return Ok(None);
    }
    match bfgs_update(h, &sk, &yk) {
        Ok(h2) => Ok(Some(h2)),
        Err(e) => Err(e),
    }
}

/// The nested counts `c`, `gc`, `hc`, `jc` were added to `before`, and then
/// one gradient was evaluated.
pub open spec fn merged_then_gradient<O: ArgminOp>(
    before: OpWrapper<O>,
    after: OpWrapper<O>,
    c: u64,
    gc: u64,
    hc: u64,
    jc: u64,
) -> bool {
    &&& after.cost_func_count == count_add(before.cost_func_count, c)
    &&& after.grad_func_count == count_inc(count_add(before.grad_func_count, gc))
    &&& after.hessian_func_count == count_add(before.hessian_func_count, hc)
    &&& after.jacobian_func_count == count_add(before.jacobian_func_count, jc)
}

/// The BFGS method: an inverse Hessian approximation, updated after each
/// line search along `-H g`.
pub struct BFGS<L> {
    pub inv_hessian: Vec<Vec<i64>>,
    pub linesearch: L,
}

impl<L> BFGS<L> {
    /// A solver that starts from `init_inverse_hessian` (the identity, most
    /// often) and searches with `linesearch`.
    pub fn new(init_inverse_hessian: Vec<Vec<i64>>, linesearch: L) -> (r: Self)
        ensures
            r.inv_hessian == init_inverse_hessian,
            r.linesearch == linesearch,
    {
        BFGS { inv_hessian: init_inverse_hessian, linesearch }
    }

    /// The termination rule applied to a state.
    pub fn check_termination(state: &IterState) -> (r: TerminationReason)
        ensures
            r == bfgs_termination(*state),
    {
        if let Some(g) = &state.grad {
            if norm_sq_below(g, SCALE as i128) {
                return TerminationReason::TargetPrecisionReached;
            }
        }
        if state.prev_cost == state.cost {
            TerminationReason::NoChangeInCost
        } else {
            TerminationReason::NotTerminated
        }
    }
}

impl<L: Clone + ArgminLineSearch> BFGS<L> {
    /// Evaluates cost and gradient at the initial parameter. It takes no
    /// `self`, so the solver is left as it is.
    pub fn initialize<O: ArgminOp>(op: &mut OpWrapper<O>, state: &IterState) -> (r: Result<
        ArgminIterData,
        ArgminError,
    >)
        ensures
            final(op).op == old(op).op,
            final(op).counts_at_least(old(op)),
            final(op).cost_func_count == count_inc(old(op).cost_func_count),
            final(op).grad_func_count == old(op).grad_func_count || final(op).grad_func_count
                == count_inc(old(op).grad_func_count),
            r is Ok ==> final(op).grad_func_count == count_inc(old(op).grad_func_count),
            final(op).hessian_func_count == old(op).hessian_func_count,
            final(op).jacobian_func_count == old(op).jacobian_func_count,
            r matches Ok(d) ==> {
                &&& d.param is Some
                &&& d.param->0@ == state.param@
                &&& d.cost is Some
                &&& d.grad is Some
                &&& d.hessian is None
            },
    {
        let param = copy_vec(&state.param);
        let cost = match op.apply(&param) {
            Ok(c) => c,
            Err(e) => return Err(e),
        };
        let grad = match op.gradient(&param) {
            Ok(g) => g,
            Err(e) => return Err(e),
        };
        Ok(ArgminIterData::new().param(param).cost(cost).grad(grad))
    }

    /// One BFGS iteration: search along `p = -H g` from the current
    /// parameter with a nested run of the line search, evaluate the gradient
    /// at the point found, and update `H` as `bfgs_next_inverse` says. The
    /// counts of the nested run are added to `op`. A state without a
    /// gradient fails with `ImpossibleError`; on any failure `H` is kept.
    pub fn step<O: ArgminOp + Clone>(
        &mut self,
        op: &mut OpWrapper<O>,
        state: &IterState,
    ) -> (r: Result<ArgminIterData, ArgminError>)
        where
            L: Solver<O>,
        ensures
            final(op).op == old(op).op,
            final(op).counts_at_least(old(op)),
            state.grad is None ==> r == Err::<ArgminIterData, ArgminError>(
                ArgminError::ImpossibleError,
            ) && *final(op) == *old(op),
            state.grad is Some && !is_square(old(self).inv_hessian@, state.param@.len()) ==> r
                == Err::<ArgminIterData, ArgminError>(ArgminError::InvalidParameter),
            state.grad is Some && is_square(old(self).inv_hessian@, state.param@.len())
                && state.grad->0@.len() != state.param@.len() ==> r == Err::<
                ArgminIterData,
                ArgminError,
            >(ArgminError::InvalidParameter),
            state.grad is Some && is_square(old(self).inv_hessian@, state.param@.len())
                && state.grad->0@.len() == state.param@.len() && !mat_vec_fits(
                old(self).inv_hessian@,
                state.grad->0@,
            ) ==> r == Err::<ArgminIterData, ArgminError>(ArgminError::NumericalFailure),
            r is Err ==> final(self).inv_hessian == old(self).inv_hessian,
            r matches Ok(d) ==> {
                &&& bfgs_step_done(old(self).inv_hessian@, final(self).inv_hessian@, *state, d)
                &&& is_square(old(self).inv_hessian@, state.param@.len())
                &&& exists|c: u64, gc: u64, hc: u64, jc: u64|
                    #![trigger merged_then_gradient(*old(op), *final(op), c, gc, hc, jc)]
                    merged_then_gradient(*old(op), *final(op), c, gc, hc, jc)
            },
    {
        let n = state.param.len();
        let prev_grad = match &state.grad {
            Some(g) => copy_vec(g),
            None => return Err(ArgminError::ImpossibleError),
        };
        if !check_square(&self.inv_hessian, n) {
            return Err(ArgminError::InvalidParameter);
        }
        if prev_grad.len() != n {
            return Err(ArgminError::InvalidParameter);
        }
        let param = copy_vec(&state.param);
        let cur_cost = state.cost;
        let hg = match mat_vec_checked(&self.inv_hessian, &prev_grad) {
            Some(v) => v,
            None => return Err(ArgminError::NumericalFailure),
        };
        let p = match neg(&hg) {
            Some(v) => v,
            None => return Err(ArgminError::NumericalFailure),
        };
        self.linesearch.set_search_direction(p);
        let inner = Executor::new(op.op.clone(), self.linesearch.clone(), copy_vec(&param))
            .grad(copy_vec(&prev_grad))
            .cost(cur_cost);
        let res = match inner.run() {
            Ok(res) => res,
            Err(e) => return Err(e),
        };
        let xk1 = res.state.param;
        let next_cost = res.state.cost;
        let ghost nested = res.operator;
        op.consume_op(res.operator);
        let grad = match op.gradient(&xk1) {
            Ok(g) => g,
            Err(e) => return Err(e),
        };
        assert(merged_then_gradient(
            *old(op),
            *op,
            nested.cost_func_count,
            nested.grad_func_count,
            nested.hessian_func_count,
            nested.jacobian_func_count,
        ));
        match bfgs_next_inverse(&self.inv_hessian, &param, &prev_grad, &xk1, &grad) {
            Ok(Some(h2)) => {
                self.inv_hessian = h2;
            },
            Ok(None) => {},
            Err(e) => return Err(e),
        }
        Ok(ArgminIterData::new().param(xk1).cost(next_cost).grad(grad))
    }
}

impl<O: ArgminOp + Clone, L: Clone + ArgminLineSearch + Solver<O>> Solver<O> for BFGS<L> {
    fn name(&self) -> &'static str {
        "BFGS"
    }

    fn init(&mut self, op: &mut OpWrapper<O>, state: &IterState) -> (r: Result<
        Option<ArgminIterData>,
        ArgminError,
    >) {
        match Self::initialize(op, state) {
            Ok(d) => Ok(Some(d)),
            Err(e) => Err(e),
        }
    }

    fn next_iter(&mut self, op: &mut OpWrapper<O>, state: &IterState) -> (r: Result<
        ArgminIterData,
        ArgminError,
    >) {
        self.step(op, state)
    }

    fn terminate(&mut self, state: &IterState) -> (r: TerminationReason) {
        Self::check_termination(state)
    }
}

} // verus!
