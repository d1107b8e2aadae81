use argmin::basics::{ArgminError, TerminationReason};
use argmin::executor::{ArgminLineSearch, Executor, Solver};
use argmin::fixed::SCALE;
use argmin::operator::{ArgminOp, OpWrapper};
use argmin::solver::bfgs::BFGS;
use argmin::state::{ArgminIterData, IterState};
use argmin::testfunctions::{
    rosenbrock, rosenbrock_derivative, rosenbrock_hessian, sphere, sphere_derivative,
};

const ONE: i64 = SCALE;

fn fx(a: i64, b: i64) -> i64 {
    ((a as i128 * b as i128).div_euclid(SCALE as i128)) as i64
}

#[derive(Clone)]
struct Rosenbrock {
    a: i64,
    b: i64,
}

impl ArgminOp for Rosenbrock {
    fn apply(&self, p: &Vec<i64>) -> Result<i64, ArgminError> {
        rosenbrock(p, self.a, self.b).ok_or(ArgminError::NumericalFailure)
    }

    fn gradient(&self, p: &Vec<i64>) -> Result<Vec<i64>, ArgminError> {
        rosenbrock_derivative(p, self.a, self.b).ok_or(ArgminError::NumericalFailure)
    }
}

/// Backtracking until the Armijo condition holds.
#[derive(Clone)]
struct Armijo {
    direction: Vec<i64>,
}

impl ArgminLineSearch for Armijo {
    fn set_search_direction(&mut self, direction: Vec<i64>) {
        self.direction = direction;
    }
}

impl<O: ArgminOp> Solver<O> for Armijo {
    fn name(&self) -> &'static str {
        "Armijo"
    }

    fn next_iter(
        &mut self,
        op: &mut OpWrapper<O>,
        state: &IterState,
    ) -> Result<ArgminIterData, ArgminError> {
        let x = &state.param;
        let g = state.grad.clone().unwrap();
        let slope: i64 = g.iter().zip(self.direction.iter()).map(|(a, b)| fx(*a, *b)).sum();
        let mut t = ONE;
        loop {
            let cand: Vec<i64> =
                x.iter().zip(self.direction.iter()).map(|(a, d)| a + fx(t, *d)).collect();
            let c = match op.apply(&cand) {
                Ok(c) => c,
                Err(_) if t >= 2 => {
                    t /= 2;
                    continue;
                }
                Err(e) => return Err(e),
            };
            if c <= state.cost + fx(fx(ONE / 10000, t), slope) || t < 2 {
                return Ok(ArgminIterData::new().param(cand).cost(c));
            }
            t /= 2;
        }
    }

    fn terminate(&mut self, state: &IterState) -> TerminationReason {
        if state.iter >= 1 {
            TerminationReason::MaxItersReached
        } else {
            TerminationReason::NotTerminated
        }
    }
}

#[test]
fn rosenbrock_optimum_f64() {
    assert_eq!(rosenbrock(&vec![ONE, ONE], ONE, 100 * ONE), Some(0));
}

#[test]
fn rosenbrock_optimum_f32() {
    assert_eq!(rosenbrock(&vec![1_000_000, 1_000_000], 1_000_000, 100_000_000), Some(0));
}

#[test]
fn rosenbrock_value() {
    // At (0, 0): (1 - 0)^2 + 100 (0 - 0)^2 = 1.
    assert_eq!(rosenbrock(&vec![0, 0], ONE, 100 * ONE), Some(ONE));
    // At (-1.2, 1): 2.2^2 + 100 (1 - 1.44)^2 = 4.84 + 19.36 = 24.2.
    assert_eq!(rosenbrock(&vec![-1_200_000, ONE], ONE, 100 * ONE), Some(24_200_000));
    assert_eq!(rosenbrock(&vec![i64::MAX, 0], ONE, 100 * ONE), None);
}

#[test]
fn rosenbrock_derivative_values() {
    assert_eq!(rosenbrock_derivative(&vec![ONE, ONE], ONE, 100 * ONE), Some(vec![0, 0]));
    // At (-1.2, 1): (-2 + 4*100*(-1.728) - 4*100*(-1.2) - 2.4, 200 (1 - 1.44)).
    assert_eq!(
        rosenbrock_derivative(&vec![-1_200_000, ONE], ONE, 100 * ONE),
        Some(vec![-215_600_000, -88_000_000])
    );
}

#[test]
fn rosenbrock_hessian_values() {
    // At (1, 1): [1200 - 400 + 2, -400, -400, 200].
    assert_eq!(
        rosenbrock_hessian(&vec![ONE, ONE], ONE, 100 * ONE),
        Some(vec![802 * ONE, -400 * ONE, -400 * ONE, 200 * ONE])
    );
}

#[test]
fn sphere_values() {
    assert_eq!(sphere(&vec![ONE, 2 * ONE, -3 * ONE]), Some(14 * ONE));
    assert_eq!(sphere(&vec![]), Some(0));
    assert_eq!(sphere_derivative(&vec![ONE, -ONE / 2]), Some(vec![2 * ONE, -ONE]));
    assert_eq!(sphere_derivative(&vec![i64::MAX]), None);
}

#[test]
fn bfgs_minimizes_rosenbrock() {
    let cost = Rosenbrock { a: ONE, b: 100 * ONE };
    let init_hessian = vec![vec![ONE, 0], vec![0, ONE]];
    let solver = BFGS::new(init_hessian, Armijo { direction: vec![] });
    let res = match Executor::new(cost, solver, vec![-1_200_000, ONE]).max_iters(200).run() {
        Ok(res) => res,
        Err(e) => panic!("run failed: {:?}", e),
    };
    assert!(matches!(
        res.state.termination_reason,
        TerminationReason::NoChangeInCost | TerminationReason::TargetPrecisionReached
    ));
    assert!(res.state.iter < 50);
    assert!((res.state.best_param[0] - ONE).abs() < 2_000);
    assert!((res.state.best_param[1] - ONE).abs() < 4_000);
    assert!(res.state.best_cost < 100);
}
