use argmin::basics::{ArgminError, TerminationReason};
use argmin::executor::{ArgminLineSearch, Executor, Solver};
use argmin::fixed::SCALE;
use argmin::operator::{ArgminOp, OpWrapper};
use argmin::solver::bfgs::{bfgs_next_inverse, bfgs_update, BFGS};
use argmin::solver::dogleg::{dogleg_point, Dogleg};
use argmin::solver::landweber::Landweber;
use argmin::solver::newton::Newton;
use argmin::solver::steepestdescent::SteepestDescent;
use argmin::state::{ArgminIterData, IterState};

const ONE: i64 = SCALE;

fn fx(a: i64, b: i64) -> i64 {
    ((a as i128 * b as i128).div_euclid(SCALE as i128)) as i64
}

/// `(x - 1)^2 + 2 (y + 2)^2`.
#[derive(Clone)]
struct Bowl;

impl ArgminOp for Bowl {
    fn apply(&self, p: &Vec<i64>) -> Result<i64, ArgminError> {
        let a = p[0] - ONE;
        let b = p[1] + 2 * ONE;
        Ok(fx(a, a) + 2 * fx(b, b))
    }

    fn gradient(&self, p: &Vec<i64>) -> Result<Vec<i64>, ArgminError> {
        Ok(vec![2 * (p[0] - ONE), 4 * (p[1] + 2 * ONE)])
    }

    fn hessian(&self, _p: &Vec<i64>) -> Result<Vec<Vec<i64>>, ArgminError> {
        Ok(vec![vec![2 * ONE, 0], vec![0, 4 * ONE]])
    }
}

/// `|A x - y|^2` with `A = [[4, 1], [1, 3]]`, `y = [1, 2]`.
#[derive(Clone)]
struct LeastSquares;

impl LeastSquares {
    fn residual(p: &Vec<i64>) -> Vec<i64> {
        vec![4 * p[0] + p[1] - ONE, p[0] + 3 * p[1] - 2 * ONE]
    }
}

impl ArgminOp for LeastSquares {
    fn apply(&self, p: &Vec<i64>) -> Result<i64, ArgminError> {
        let r = Self::residual(p);
        Ok(fx(r[0], r[0]) + fx(r[1], r[1]))
    }

    fn gradient(&self, p: &Vec<i64>) -> Result<Vec<i64>, ArgminError> {
        let r = Self::residual(p);
        Ok(vec![2 * (4 * r[0] + r[1]), 2 * (r[0] + 3 * r[1])])
    }
}

/// `x^T H x / 2` with `H = [[4, 1], [1, 3]]`, minimum at the origin.
#[derive(Clone)]
struct Tilted;

impl ArgminOp for Tilted {
    fn apply(&self, p: &Vec<i64>) -> Result<i64, ArgminError> {
        let (x, y) = (p[0], p[1]);
        Ok(2 * fx(x, x) + fx(x, y) + fx(3 * y, y) / 2)
    }

    fn gradient(&self, p: &Vec<i64>) -> Result<Vec<i64>, ArgminError> {
        Ok(vec![4 * p[0] + p[1], p[0] + 3 * p[1]])
    }

    fn hessian(&self, _p: &Vec<i64>) -> Result<Vec<Vec<i64>>, ArgminError> {
        Ok(vec![vec![4 * ONE, ONE], vec![ONE, 3 * ONE]])
    }
}

/// An operator with a cost and nothing else.
#[derive(Clone)]
struct CostOnly;

impl ArgminOp for CostOnly {
    fn apply(&self, p: &Vec<i64>) -> Result<i64, ArgminError> {
        Ok(p[0])
    }
}

/// Backtracking along the search direction until the cost decreases by the
/// Armijo amount, halving the step each time.
#[derive(Clone)]
struct Backtracking {
    direction: Vec<i64>,
    step: i64,
}

impl Backtracking {
    fn new() -> Self {
        Backtracking { direction: vec![], step: ONE }
    }
}

impl ArgminLineSearch for Backtracking {
    fn set_search_direction(&mut self, direction: Vec<i64>) {
        self.direction = direction;
        self.step = ONE;
    }
}

impl<O: ArgminOp> Solver<O> for Backtracking {
    fn name(&self) -> &'static str {
        "Backtracking"
    }

    fn next_iter(
        &mut self,
        op: &mut OpWrapper<O>,
        state: &IterState,
    ) -> Result<ArgminIterData, ArgminError> {
        let x = &state.param;
        let g = state.grad.clone().unwrap();
        let slope: i64 = g.iter().zip(self.direction.iter()).map(|(a, b)| fx(*a, *b)).sum();
        let mut t = self.step;
        loop {
            let cand: Vec<i64> =
                x.iter().zip(self.direction.iter()).map(|(a, d)| a + fx(t, *d)).collect();
            let c = op.apply(&cand)?;
            if c <= state.cost + fx(fx(ONE / 10000, t), slope) || t < 2 {
                return Ok(ArgminIterData::new().param(cand).cost(c));
            }
            t /= 2;
        }
    }

    fn terminate(&mut self, state: &IterState) -> TerminationReason {
        if state.iter >= 1 {
            TerminationReason::MaxItersReached
        } else {
            TerminationReason::NotTerminated
        }
    }
}

fn identity(n: usize) -> Vec<Vec<i64>> {
    (0..n).map(|i| (0..n).map(|j| if i == j { ONE } else { 0 }).collect()).collect()
}

#[test]
fn landweber_step_subtracts_scaled_gradient() {
    let solver = Landweber::new(ONE / 100);
    let x = solver.landweber_step(&vec![ONE, 2 * ONE], &vec![300_000, -500_000]).unwrap();
    assert_eq!(x, vec![997_000, 2_005_000]);
}

#[test]
fn landweber_step_reports_overflow() {
    let solver = Landweber::new(2 * ONE);
    let r = solver.landweber_step(&vec![i64::MIN + 1], &vec![ONE]);
    assert_eq!(r, Err(ArgminError::NumericalFailure));
}

#[test]
fn landweber_least_squares_converges() {
    let res = Executor::new(LeastSquares, Landweber::new(ONE / 100), vec![0, 0])
        .max_iters(1000)
        .run()
        .ok()
        .unwrap();
    assert_eq!(res.state.iter, 1000);
    assert_eq!(res.state.termination_reason, TerminationReason::MaxItersReached);
    assert_eq!(res.operator.grad_func_count, 1000);
    // The solution of A^T A x = A^T y is (1/11, 7/11).
    assert!((res.state.param[0] - 90_909).abs() < 100);
    assert!((res.state.param[1] - 636_364).abs() < 100);
}

#[test]
fn newton_gamma_range() {
    assert_eq!(Newton::new().set_gamma(0).err(), Some(ArgminError::InvalidParameter));
    assert_eq!(Newton::new().set_gamma(-ONE / 10).err(), Some(ArgminError::InvalidParameter));
    assert_eq!(
        Newton::new().set_gamma(3 * ONE / 2).err(),
        Some(ArgminError::InvalidParameter)
    );
    assert_eq!(Newton::new().set_gamma(ONE).ok().unwrap().gamma, ONE);
    assert_eq!(Newton::new().set_gamma(ONE / 2).ok().unwrap().gamma, ONE / 2);
    assert_eq!(Newton::new().gamma, ONE);
}

#[test]
fn newton_one_step_on_quadratic() {
    for start in [vec![5 * ONE, 7 * ONE], vec![-3 * ONE, ONE / 2], vec![0, 0]] {
        let res = Executor::new(Bowl, Newton::new(), start).max_iters(1).run().ok().unwrap();
        assert_eq!(res.state.param, vec![ONE, -2 * ONE]);
        assert_eq!(res.state.iter, 1);
        assert_eq!(res.operator.hessian_func_count, 1);
    }
}

#[test]
fn newton_one_step_on_coupled_quadratic() {
    let res = Executor::new(Tilted, Newton::new(), vec![2 * ONE, -5 * ONE])
        .max_iters(1)
        .run()
        .ok()
        .unwrap();
    // The inverse of H is rounded to a unit, so the step lands within a few
    // units of the minimum: exactly (-11, -2) units here.
    assert_eq!(res.state.param, vec![-11, -2]);
}

#[test]
fn newton_half_step() {
    let newton = Newton::new().set_gamma(ONE / 2).ok().unwrap();
    let x = newton
        .newton_step(&vec![5 * ONE, 7 * ONE], &vec![8 * ONE, 36 * ONE], &vec![
            vec![2 * ONE, 0],
            vec![0, 4 * ONE],
        ])
        .unwrap();
    assert_eq!(x, vec![3 * ONE, 5 * ONE / 2]);
}

#[test]
fn newton_singular_hessian_fails() {
    let r = Newton::new().newton_step(&vec![ONE, ONE], &vec![ONE, ONE], &vec![
        vec![ONE, ONE],
        vec![ONE, ONE],
    ]);
    assert_eq!(r, Err(ArgminError::NumericalFailure));
}

#[test]
fn missing_capability_fails_the_run() {
    let r = Executor::new(CostOnly, Newton::new(), vec![ONE]).max_iters(3).run();
    assert_eq!(r.err(), Some(ArgminError::NotImplemented));
}

#[test]
fn bfgs_update_keeps_symmetry_and_positive_curvature() {
    let h = identity(2);
    let s = vec![ONE, ONE / 2];
    let y = vec![2 * ONE, ONE / 4];
    let h2 = bfgs_update(&h, &s, &y).unwrap();
    assert_eq!(h2[0][1], h2[1][0]);
    let probes = [(ONE, 0), (0, ONE), (ONE, ONE), (ONE, -ONE), (3 * ONE, -2 * ONE), (-ONE, 5 * ONE)];
    for (a, b) in probes {
        let hv0 = fx(h2[0][0], a) + fx(h2[0][1], b);
        let hv1 = fx(h2[1][0], a) + fx(h2[1][1], b);
        assert!(fx(a, hv0) + fx(b, hv1) > 0);
    }
    // The secant condition H y = s holds up to rounding.
    let hy0 = fx(h2[0][0], y[0]) + fx(h2[0][1], y[1]);
    let hy1 = fx(h2[1][0], y[0]) + fx(h2[1][1], y[1]);
    assert!((hy0 - s[0]).abs() <= 4);
    assert!((hy1 - s[1]).abs() <= 4);
}

#[test]
fn bfgs_update_exact_value() {
    // H = I, s = (1, 0), y = (2, 0): y.s = 2, so H' = diag(1/2, 1).
    let h2 = bfgs_update(&identity(2), &vec![ONE, 0], &vec![2 * ONE, 0]).unwrap();
    assert_eq!(h2, vec![vec![ONE / 2, 0], vec![0, ONE]]);
}

#[test]
fn bfgs_update_zero_curvature_fails() {
    let r = bfgs_update(&identity(2), &vec![ONE, 0], &vec![0, ONE]);
    assert_eq!(r, Err(ArgminError::NumericalFailure));
}

#[test]
fn bfgs_termination_rules() {
    let mut state = IterState::new(vec![0, 0]);
    state.grad = Some(vec![100, 200]);
    state.cost = 5;
    state.prev_cost = 7;
    assert_eq!(BFGS::<Backtracking>::check_termination(&state), TerminationReason::TargetPrecisionReached);

    let mut state = IterState::new(vec![0, 0]);
    state.grad = Some(vec![ONE, ONE]);
    state.cost = 42;
    state.prev_cost = 42;
    assert_eq!(BFGS::<Backtracking>::check_termination(&state), TerminationReason::NoChangeInCost);

    let mut state = IterState::new(vec![0, 0]);
    state.grad = Some(vec![ONE, ONE]);
    state.cost = 41;
    state.prev_cost = 42;
    assert_eq!(BFGS::<Backtracking>::check_termination(&state), TerminationReason::NotTerminated);

    // Norm just at the threshold: 1000^2 units squared is not below it.
    let mut state = IterState::new(vec![0]);
    state.grad = Some(vec![1000]);
    state.cost = 1;
    state.prev_cost = 2;
    assert_eq!(BFGS::<Backtracking>::check_termination(&state), TerminationReason::NotTerminated);
}

#[test]
fn bfgs_minimizes_quadratic() {
    let solver = BFGS::new(identity(2), Backtracking::new());
    let res = Executor::new(Tilted, solver, vec![2 * ONE, -5 * ONE]).max_iters(50).run().ok().unwrap();
    assert!(res.state.termination_reason.terminated());
    assert!(res.state.param[0].abs() < 2000);
    assert!(res.state.param[1].abs() < 2000);
    assert!(res.operator.cost_func_count >= 1);
    assert!(res.operator.grad_func_count >= res.state.iter);
}

#[test]
fn steepest_descent_counts_nested_evaluations() {
    let solver = SteepestDescent::new(Backtracking::new());
    let res = Executor::new(Bowl, solver, vec![5 * ONE, 7 * ONE]).max_iters(3).run().ok().unwrap();
    assert_eq!(res.state.iter, 3);
    // Each step evaluates cost and gradient once itself, and the line search
    // evaluates the cost at least once more.
    assert!(res.operator.cost_func_count >= 6);
    assert_eq!(res.operator.grad_func_count, 3);
    assert!(res.state.cost < 200 * ONE);
}

#[test]
fn dogleg_newton_step_inside_region() {
    let h = vec![vec![2 * ONE, 0], vec![0, 2 * ONE]];
    let p = dogleg_point(&vec![2 * ONE, 0], &h, 2 * ONE).unwrap();
    assert_eq!(p, vec![-ONE, 0]);
}

#[test]
fn dogleg_point_on_bend() {
    let h = vec![vec![2 * ONE, 0], vec![0, ONE]];
    let p = dogleg_point(&vec![ONE, ONE], &h, ONE).unwrap();
    assert_eq!(p, vec![-600_000, -800_001]);
    let norm_sq = (p[0] as i128).pow(2) + (p[1] as i128).pow(2);
    assert!(norm_sq <= (ONE as i128).pow(2) + 2 * ONE as i128);
}

#[test]
fn dogleg_large_radius_returns_newton_step() {
    let h = vec![vec![2 * ONE, 0], vec![0, ONE]];
    let p = dogleg_point(&vec![ONE, ONE], &h, 3 * ONE).unwrap();
    assert_eq!(p, vec![-ONE / 2, -ONE]);
}

#[test]
fn dogleg_tau_beyond_two_fails() {
    let h = vec![vec![3 * ONE, 0], vec![0, 3 * ONE]];
    let r = dogleg_point(&vec![ONE, ONE], &h, ONE / 5);
    assert_eq!(r, Err(ArgminError::ImpossibleError));
}

#[test]
fn dogleg_without_radius_fails() {
    let r = Executor::new(Bowl, Dogleg::new(), vec![0, 0]).run();
    assert_eq!(r.err(), Some(ArgminError::ImpossibleError));
}

#[test]
fn dogleg_solves_one_subproblem() {
    let mut d = Dogleg::new();
    d.set_radius(10 * ONE);
    let res = Executor::new(Bowl, d, vec![0, 0]).run().ok().unwrap();
    assert_eq!(res.state.iter, 1);
    assert_eq!(res.state.termination_reason, TerminationReason::MaxItersReached);
    // Gradient (-2, 8) and Hessian diag(2, 4): pb = (1, -2).
    assert_eq!(res.state.param, vec![ONE, -2 * ONE]);
}

#[test]
fn wrapper_counts_and_consumes() {
    let mut w = OpWrapper::new(Bowl);
    let _ = w.apply(&vec![0, 0]);
    let _ = w.apply(&vec![0, 0]);
    let _ = w.gradient(&vec![0, 0]);
    let _ = w.hessian(&vec![0, 0]);
    assert_eq!(w.jacobian(&vec![0, 0]).err(), Some(ArgminError::NotImplemented));
    let mut nested = OpWrapper::new(Bowl);
    let _ = nested.apply(&vec![1, 1]);
    let _ = nested.gradient(&vec![1, 1]);
    w.consume_op(nested);
    assert_eq!(w.cost_func_count, 3);
    assert_eq!(w.grad_func_count, 2);
    assert_eq!(w.hessian_func_count, 1);
    assert_eq!(w.jacobian_func_count, 1);
}

#[test]
fn merge_tracks_best() {
    let mut s = IterState::new(vec![0]);
    s.merge(ArgminIterData::new().param(vec![1]).cost(10));
    assert_eq!(s.best_cost, 10);
    assert_eq!(s.best_param, vec![1]);
    s.iter = 1;
    s.merge(ArgminIterData::new().param(vec![2]).cost(12));
    assert_eq!(s.best_cost, 10);
    assert_eq!(s.best_param, vec![1]);
    assert_eq!(s.prev_param, vec![1]);
    assert_eq!(s.prev_cost, 10);
    s.iter = 2;
    s.merge(ArgminIterData::new().param(vec![3]).cost(10));
    assert_eq!(s.best_param, vec![1]);
    assert_eq!(s.last_best_iter, 0);
    s.iter = 3;
    s.merge(ArgminIterData::new().param(vec![4]).cost(3).grad(vec![7]));
    assert_eq!(s.best_param, vec![4]);
    assert_eq!(s.last_best_iter, 3);
    assert_eq!(s.grad, Some(vec![7]));
    s.merge(ArgminIterData::new());
    assert_eq!(s.param, vec![4]);
    assert_eq!(s.grad, Some(vec![7]));
    assert_eq!(s.prev_grad, None);
}

#[test]
fn zero_iteration_limit_stops_at_once() {
    let res = Executor::new(Bowl, Landweber::new(ONE), vec![0, 0]).max_iters(0).run().ok().unwrap();
    assert_eq!(res.state.iter, 0);
    assert_eq!(res.state.termination_reason, TerminationReason::MaxItersReached);
    assert_eq!(res.operator.grad_func_count, 0);
}

#[test]
fn bfgs_wrong_matrix_size_fails() {
    let solver = BFGS::new(identity(3), Backtracking::new());
    let r = Executor::new(Tilted, solver, vec![ONE, ONE]).max_iters(5).run();
    assert_eq!(r.err(), Some(ArgminError::InvalidParameter));
}

#[test]
fn newton_default_takes_full_step() {
    let n: Newton = Default::default();
    assert_eq!(n.gamma, ONE);
}

#[test]
fn stopped_state_is_kept() {
    let mut e = Executor::new(Bowl, Landweber::new(ONE / 10), vec![0, 0]);
    e.state.termination_reason = TerminationReason::NoChangeInCost;
    let res = e.max_iters(10).run().ok().unwrap();
    assert_eq!(res.state.iter, 0);
    assert_eq!(res.state.termination_reason, TerminationReason::NoChangeInCost);
    assert_eq!(res.operator.grad_func_count, 0);
}

#[test]
fn termination_reason_texts() {
    assert!(!TerminationReason::NotTerminated.terminated());
    assert!(TerminationReason::MaxItersReached.terminated());
    assert_eq!(TerminationReason::NoChangeInCost.text(), "No change in cost function value");
}

#[test]
fn bfgs_step_without_gradient_fails() {
    let mut solver = BFGS::new(identity(2), Backtracking::new());
    let mut op = OpWrapper::new(Tilted);
    let state = IterState::new(vec![ONE, ONE]);
    let r = solver.step(&mut op, &state);
    assert_eq!(r.err(), Some(ArgminError::ImpossibleError));
    assert_eq!(op.grad_func_count, 0);
    assert_eq!(solver.inv_hessian, identity(2));
}

#[test]
fn bfgs_next_inverse_cases() {
    let h = identity(2);
    let x = vec![0, 0];
    let g = vec![ONE, 0];
    // y.s = 0: the matrix is kept.
    assert_eq!(bfgs_next_inverse(&h, &x, &g, &vec![ONE, 0], &vec![ONE, ONE]), Ok(None));
    // Wrong size after the search.
    assert_eq!(
        bfgs_next_inverse(&h, &x, &g, &vec![ONE], &vec![ONE, ONE]),
        Err(ArgminError::InvalidParameter)
    );
    // s = (1, 0), y = (2, 0): H' = diag(1/2, 1).
    assert_eq!(
        bfgs_next_inverse(&h, &x, &g, &vec![ONE, 0], &vec![3 * ONE, 0]),
        Ok(Some(vec![vec![ONE / 2, 0], vec![0, ONE]]))
    );
}

#[test]
fn dogleg_step_uses_state_derivatives() {
    let mut d = Dogleg::new();
    d.set_radius(3 * ONE);
    let mut op = OpWrapper::new(Bowl);
    let mut state = IterState::new(vec![0, 0]);
    state.grad = Some(vec![ONE, ONE]);
    state.hessian = Some(vec![vec![2 * ONE, 0], vec![0, ONE]]);
    let out = d.step(&mut op, &state).ok().unwrap();
    assert_eq!(out.param, Some(vec![-ONE / 2, -ONE]));
    assert_eq!(op.grad_func_count, 0);
    assert_eq!(op.hessian_func_count, 0);
    state.hessian = Some(vec![vec![ONE, ONE], vec![ONE, ONE]]);
    assert_eq!(d.step(&mut op, &state).err(), Some(ArgminError::NumericalFailure));
}

#[test]
fn solver_names() {
    assert_eq!(Solver::<Bowl>::name(&Landweber::new(1)), "Landweber");
    assert_eq!(Solver::<Bowl>::name(&Newton::new()), "Newton method");
    assert_eq!(Solver::<Bowl>::name(&Dogleg::new()), "Dogleg");
}
