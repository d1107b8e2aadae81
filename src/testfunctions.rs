//! Closed-form test functions in fixed point: Rosenbrock's function and the
//! sphere, with their derivatives. Each returns `None` where a value leaves
//! the fixed-point range.
use vstd::prelude::*;
use crate::fixed::{SCALE, in_i64, mul_spec, fx_mul, checked_sub, narrow};
use crate::linalg::{dot_fits, dot_spec, dot};

verus! {

/// `(a - x)^2 + b (y - x^2)^2` in fixed point.
pub open spec fn rosenbrock_spec(x: int, y: int, a: int, b: int) -> int {
    let u = a - x;
    let v = y - mul_spec(x, x);
    mul_spec(u, u) + mul_spec(b, mul_spec(v, v))
}

/// Every intermediate value of `rosenbrock_spec` fits.
pub open spec fn rosenbrock_fits(x: int, y: int, a: int, b: int) -> bool {
    let u = a - x;
    let xx = mul_spec(x, x);
    let v = y - xx;
    &&& in_i64(u) && in_i64(xx) && in_i64(v)
    &&& in_i64(mul_spec(u, u)) && in_i64(mul_spec(v, v))
    &&& in_i64(mul_spec(b, mul_spec(v, v)))
    &&& in_i64(rosenbrock_spec(x, y, a, b))
}

/// First component of the gradient: `-2a + 4b x^3 - 4b x y + 2x`.
pub open spec fn rosenbrock_dx(x: int, y: int, a: int, b: int) -> int {
    -2 * a + 4 * mul_spec(b, mul_spec(mul_spec(x, x), x)) - 4 * mul_spec(mul_spec(b, x), y) + 2 * x
}

/// Second component of the gradient: `2b (y - x^2)`.
pub open spec fn rosenbrock_dy(x: int, y: int, b: int) -> int {
    2 * mul_spec(b, y - mul_spec(x, x))
}

/// Every intermediate value of the gradient fits.
pub open spec fn rosenbrock_derivative_fits(x: int, y: int, a: int, b: int) -> bool {
    let xx = mul_spec(x, x);
    let xxx = mul_spec(xx, x);
    let bx = mul_spec(b, x);
    &&& in_i64(xx) && in_i64(xxx) && in_i64(mul_spec(b, xxx))
    &&& in_i64(bx) && in_i64(mul_spec(bx, y))
    &&& in_i64(rosenbrock_dx(x, y, a, b))
    &&& in_i64(y - xx) && in_i64(mul_spec(b, y - xx))
    &&& in_i64(rosenbrock_dy(x, y, b))
}

/// Entry `(0, 0)` of the Hessian: `12b x^2 - 4b y + 2`.
pub open spec fn rosenbrock_hxx(x: int, y: int, b: int) -> int {
    12 * mul_spec(b, mul_spec(x, x)) - 4 * mul_spec(b, y) + 2 * SCALE
}

/// Every intermediate value of the Hessian fits.
pub open spec fn rosenbrock_hessian_fits(x: int, y: int, b: int) -> bool {
    let xx = mul_spec(x, x);
    &&& in_i64(xx) && in_i64(mul_spec(b, xx)) && in_i64(mul_spec(b, y)) && in_i64(mul_spec(b, x))
    &&& in_i64(rosenbrock_hxx(x, y, b))
    &&& in_i64(-4 * mul_spec(b, x))
    &&& in_i64(2 * b)
}

/// Rosenbrock's function at `(param[0], param[1])` with parameters `a` and
/// `b` (most often 1 and 100).
pub fn rosenbrock(param: &Vec<i64>, a: i64, b: i64) -> (r: Option<i64>)
    requires
        param@.len() >= 2,
    ensures
        r is Some <==> rosenbrock_fits(param@[0] as int, param@[1] as int, a as int, b as int),
        r is Some ==> r->0 == rosenbrock_spec(param@[0] as int, param@[1] as int, a as int, b as int),
{
    let x = param[0];
    let y = param[1];
    let u = checked_sub(a, x)?;
    let xx = fx_mul(x, x)?;
    let v = checked_sub(y, xx)?;
    let uu = fx_mul(u, u)?;
    let vv = fx_mul(v, v)?;
    let bvv = fx_mul(b, vv)?;
    narrow(uu as i128 + bvv as i128)
}

/// The gradient of Rosenbrock's function at `(param[0], param[1])`.
pub fn rosenbrock_derivative(param: &Vec<i64>, a: i64, b: i64) -> (r: Option<Vec<i64>>)
    requires
        param@.len() >= 2,
    ensures
        r is Some <==> rosenbrock_derivative_fits(
            param@[0] as int,
            param@[1] as int,
            a as int,
            b as int,
        ),
        r matches Some(g) ==> {
            &&& g@.len() == 2
            &&& g@[0] == rosenbrock_dx(param@[0] as int, param@[1] as int, a as int, b as int)
            &&& g@[1] == rosenbrock_dy(param@[0] as int, param@[1] as int, b as int)
        },
{
    let x = param[0];
    let y = param[1];
    let xx = fx_mul(x, x)?;
    let xxx = fx_mul(xx, x)?;
    let bxxx = fx_mul(b, xxx)?;
    let bx = fx_mul(b, x)?;
    let bxy = fx_mul(bx, y)?;
    let d0 = narrow(4 * (bxxx as i128) - 4 * (bxy as i128) + 2 * (x as i128) - 2 * (a as i128))?;
    let v = checked_sub(y, xx)?;
    let bv = fx_mul(b, v)?;
    let d1 = narrow(2 * (bv as i128))?;
    let mut out: Vec<i64> = Vec::new();
    out.push(d0);
    out.push(d1);
    Some(out)
}

/// The Hessian of Rosenbrock's function at `(param[0], param[1])`, row by
/// row: `[12b x^2 - 4b y + 2, -4b x, -4b x, 2b]`.
pub fn rosenbrock_hessian(param: &Vec<i64>, a: i64, b: i64) -> (r: Option<Vec<i64>>)
    requires
        param@.len() >= 2,
    ensures
        r is Some <==> rosenbrock_hessian_fits(param@[0] as int, param@[1] as int, b as int),
        r matches Some(h) ==> {
            let x = param@[0] as int;
            let y = param@[1] as int;
            &&& h@.len() == 4
            &&& h@[0] == rosenbrock_hxx(x, y, b as int)
            &&& h@[1] == -4 * mul_spec(b as int, x)
            &&& h@[2] == -4 * mul_spec(b as int, x)
            &&& h@[3] == 2 * b
        },
{
    let x = param[0];
    let y = param[1];
    let xx = fx_mul(x, x)?;
    let bxx = fx_mul(b, xx)?;
    let by = fx_mul(b, y)?;
    let bx = fx_mul(b, x)?;
    let h00 = narrow(12 * (bxx as i128) - 4 * (by as i128) + 2 * (SCALE as i128))?;
    let h01 = narrow(-4 * (bx as i128))?;
    let h11 = narrow(2 * (b as i128))?;
    let mut out: Vec<i64> = Vec::new();
    out.push(h00);
    out.push(h01);
    out.push(h01);
    out.push(h11);
    Some(out)
}

/// The sphere function: the sum of the squares of the components.
pub fn sphere(param: &Vec<i64>) -> (r: Option<i64>)
    ensures
        r is Some <==> dot_fits(param@, param@),
        r is Some ==> r->0 == dot_spec(param@, param@),
{
    dot(param, param)
}

/// The gradient of the sphere function: twice each component.
pub fn sphere_derivative(param: &Vec<i64>) -> (r: Option<Vec<i64>>)
    ensures
        r is Some <==> forall|i: int| 0 <= i < param@.len() ==> in_i64(2 * #[trigger] param@[i]),
        r matches Some(g) ==> g@.len() == param@.len() && forall|i: int|
            0 <= i < param@.len() ==> #[trigger] g@[i] == 2 * param@[i],
{
    let mut out: Vec<i64> = Vec::new();
    let mut i: usize = 0;
    while i < param.len()
        invariant
            i <= param@.len(),
            out@.len() == i,
            forall|j: int| 0 <= j < i ==> #[trigger] out@[j] == 2 * param@[j],
            forall|j: int| 0 <= j < i ==> in_i64(2 * #[trigger] param@[j]),
        decreases param@.len() - i,
    {
        let v = param[i];
        if v > i64::MAX / 2 || v < i64::MIN / 2 {
            return None;
        }
        out.push(2 * v);
        i = i + 1;
    }
    Some(out)
}

} // verus!
