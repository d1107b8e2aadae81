//! The inverse of a square fixed-point matrix, as its adjugate divided by
//! its determinant.
use vstd::prelude::*;
use crate::fixed::{SCALE, in_i64, in_i128};
use crate::linalg::is_square;

verus! {

/// The rows of a matrix as sequences.
pub open spec fn rows(m: Seq<Vec<i64>>) -> Seq<Seq<i64>> {
    Seq::new(m.len(), |i: int| m[i]@)
}

/// `m` without row `r` and column `c`.
pub open spec fn minor(m: Seq<Seq<i64>>, r: int, c: int) -> Seq<Seq<i64>> {
    Seq::new(
        (m.len() - 1) as nat,
        |i: int|
            {
                let row = m[if i < r { i } else { i + 1 }];
                Seq::new((row.len() - 1) as nat, |j: int| row[if j < c { j } else { j + 1 }])
            },
    )
}

pub open spec fn sign(k: int) -> int {
    if k % 2 == 0 {
        1
    } else {
        -1
    }
}

/// The first `k` terms of the Laplace expansion along the first row.
pub open spec fn det_terms(m: Seq<Seq<i64>>, k: int) -> int
    decreases m.len(), k,
{
    if k <= 0 || m.len() == 0 {
        0
    } else {
        det_terms(m, k - 1) + sign(k - 1) * m[0][k - 1] * det(minor(m, 0, k - 1))
    }
}

/// The determinant, in units to the power of the size.
pub open spec fn det(m: Seq<Seq<i64>>) -> int
    decreases m.len(), m.len() + 1,
{
    if m.len() == 0 {
        1
    } else {
        det_terms(m, m.len() as int)
    }
}

/// Cofactor `(r, c)`.
pub open spec fn cofactor(m: Seq<Seq<i64>>, r: int, c: int) -> int {
    sign(r + c) * det(minor(m, r, c))
}

/// `a / d` rounded down, for `d != 0`.
pub open spec fn floor_div(a: int, d: int) -> int {
    if d < 0 {
        (-a) / (-d)
    } else {
        a / d
    }
}

/// Entry `(i, j)` of the fixed-point inverse: the real inverse is
/// `cofactor(j, i) / det`, which in units is `cofactor(j, i) * SCALE^2 / det`
/// for the matrix of units, rounded down.
pub open spec fn inv_entry(m: Seq<Seq<i64>>, i: int, j: int) -> int {
    floor_div(cofactor(m, j, i) * (SCALE as int) * (SCALE as int), det(m))
}

/// Builds `m` without row `r` and column `c`.
pub fn minor_of(m: &Vec<Vec<i64>>, r: usize, c: usize) -> (res: Vec<Vec<i64>>)
    requires
        m@.len() > 0,
        is_square(m@, m@.len()),
        r < m@.len(),
        c < m@.len(),
    ensures
        is_square(res@, (m@.len() - 1) as nat),
        rows(res@) == minor(rows(m@), r as int, c as int),
{
    let n = m.len();
    let mut out: Vec<Vec<i64>> = Vec::new();
    let mut i: usize = 0;
    while i < n
        invariant
            n == m@.len(),
            n > 0,
            is_square(m@, n as nat),
            r < n,
            c < n,
            i <= n,
            out@.len() == if i <= r { i as int } else { i - 1 },
            forall|a: int| 0 <= a < out@.len() ==> (#[trigger] out@[a])@.len() == n - 1,
            forall|a: int| 0 <= a < out@.len() ==> (#[trigger] out@[a])@ == minor(rows(m@), r as int, c as int)[a],
        decreases n - i,
    {
        if i != r {
            let mut row: Vec<i64> = Vec::new();
            let mut j: usize = 0;
            assert(m@[i as int]@.len() == n);
            while j < n
                invariant
                    n == m@.len(),
                    is_square(m@, n as nat),
                    i < n,
                    c < n,
                    j <= n,
                    row@.len() == if j <= c { j as int } else { j - 1 },
                    forall|b: int| 0 <= b < row@.len() ==> #[trigger] row@[b] == m@[i as int]@[if b < c { b } else { b + 1 }],
                decreases n - j,
            {
                assert(m@[i as int]@.len() == n);
                if j != c {
                    row.push(m[i][j]);
                }
                j = j + 1;
            }
            let ghost k: int = out@.len() as int;
            out.push(row);
            proof {
                assert(row@ =~= minor(rows(m@), r as int, c as int)[k]);
            }
        }
        i = i + 1;
    }
    proof {
        assert(rows(out@) =~= minor(rows(m@), r as int, c as int));
    }
    out
}

} // verus!

verus! {

/// Every value that the first `k` terms of the Laplace expansion compute
/// fits an `i128`: the minors' determinants, each product, its negation for
/// odd terms, and each running sum.
pub open spec fn det_terms_fit(m: Seq<Seq<i64>>, k: int) -> bool
    decreases m.len(), k,
{
    if k <= 0 || m.len() == 0 {
        true
    } else {
        let p = m[0][k - 1] * det(minor(m, 0, k - 1));
        &&& det_terms_fit(m, k - 1)
        &&& det_fits(minor(m, 0, k - 1))
        &&& in_i128(p)
        &&& ((k - 1) % 2 == 1 ==> in_i128(-p))
        &&& in_i128(det_terms(m, k))
    }
}

/// Every value that the expansion of the determinant computes fits an `i128`.
pub open spec fn det_fits(m: Seq<Seq<i64>>) -> bool
    decreases m.len(), m.len() + 1,
{
    m.len() == 0 || det_terms_fit(m, m.len() as int)
}

pub proof fn lemma_det_terms_fit_prefix(m: Seq<Seq<i64>>, k: int, n: int)
    requires
        0 <= k <= n,
        det_terms_fit(m, n),
    ensures
        det_terms_fit(m, k),
    decreases n - k,
{
    if k < n {
        lemma_det_terms_fit_prefix(m, k, n - 1);
    }
}

/// The determinant by Laplace expansion along the first row; `None` exactly
/// where an intermediate value leaves the `i128` range. The expansion is
/// exact on integers but takes time factorial in the size, which suits the
/// small matrices whose determinant fits an `i128` at all.
pub fn determinant(m: &Vec<Vec<i64>>) -> (r: Option<i128>)
    requires
        is_square(m@, m@.len()),
    ensures
        r is Some <==> det_fits(rows(m@)),
        r matches Some(d) ==> d == det(rows(m@)),
    decreases m@.len(),
{
    let n = m.len();
    if n == 0 {
        return Some(1);
    }
    let ghost rm = rows(m@);
    let mut acc: i128 = 0;
    let mut k: usize = 0;
    while k < n
        invariant
            n == m@.len(),
            n > 0,
            rm == rows(m@),
            rm.len() == n,
            is_square(m@, n as nat),
            k <= n,
            acc == det_terms(rm, k as int),
            det_terms_fit(rm, k as int),
        decreases n - k,
    {
        let sub = minor_of(m, 0, k);
        let d = match determinant(&sub) {
            Some(d) => d,
            None => {
                proof {
                    if det_terms_fit(rm, n as int) {
                        lemma_det_terms_fit_prefix(rm, (k + 1) as int, n as int);
                    }
                }
                return None;
            },
        };
        assert(m@[0]@.len() == n);
        let e: i64 = m[0][k];
        assert(e == rm[0][k as int]);
        let t = match (e as i128).checked_mul(d) {
            Some(t) => t,
            None => {
                proof {
                    if det_terms_fit(rm, n as int) {
                        lemma_det_terms_fit_prefix(rm, (k + 1) as int, n as int);
                    }
                }
                return None;
            },
        };
        let signed = if k % 2 == 0 {
            t
        } else {
            match (0i128).checked_sub(t) {
                Some(x) => x,
                None => {
                    proof {
                        if det_terms_fit(rm, n as int) {
                            lemma_det_terms_fit_prefix(rm, (k + 1) as int, n as int);
                        }
                    }
                    return None;
                },
            }
        };
        proof {
            let dd = det(minor(rm, 0, k as int));
            assert(sign(k as int) * e * dd == signed) by (nonlinear_arith)
                requires
                    sign(k as int) == 1 || sign(k as int) == -1,
                    sign(k as int) == 1 ==> signed == e * dd,
                    sign(k as int) == -1 ==> signed == -(e * dd),
            ;
        }
        acc = match acc.checked_add(signed) {
            Some(x) => x,
            None => {
                proof {
                    if det_terms_fit(rm, n as int) {
                        lemma_det_terms_fit_prefix(rm, (k + 1) as int, n as int);
                    }
                }
                return None;
            },
        };
        k = k + 1;
    }
    Some(acc)
}

} // verus!

verus! {

/// Every value that entry `(i, j)` of the inverse computes is in range:
/// the cofactor's determinant and its sign, the scaled numerator, the signs
/// flipped for a negative determinant, and the entry itself.
pub open spec fn inv_entry_fits(m: Seq<Seq<i64>>, i: int, j: int) -> bool {
    let c = det(minor(m, j, i));
    let cof = cofactor(m, j, i);
    let num = cof * (SCALE as int) * (SCALE as int);
    &&& det_fits(minor(m, j, i))
    &&& ((i + j) % 2 == 1 ==> in_i128(-c))
    &&& in_i128(cof * (SCALE as int))
    &&& in_i128(num)
    &&& (det(m) < 0 ==> in_i128(-num) && in_i128(-det(m)))
    &&& in_i64(inv_entry(m, i, j))
}

/// The inverse exists and every value computing it is in range.
pub open spec fn inv_fits(m: Seq<Seq<i64>>) -> bool {
    &&& det_fits(m)
    &&& det(m) != 0
    &&& forall|i: int, j: int| 0 <= i < m.len() && 0 <= j < m.len() ==> #[trigger] inv_entry_fits(m, i, j)
}

fn inverse_entry(m: &Vec<Vec<i64>>, d: i128, i: usize, j: usize) -> (r: Option<i64>)
    requires
        is_square(m@, m@.len()),
        i < m@.len(),
        j < m@.len(),
        d == det(rows(m@)),
        d != 0,
    ensures
        r is Some <==> inv_entry_fits(rows(m@), i as int, j as int),
        r matches Some(v) ==> v == inv_entry(rows(m@), i as int, j as int),
{
    let sub = minor_of(m, j, i);
    let c = match determinant(&sub) {
        Some(c) => c,
        None => return None,
    };
    let even: bool = (i % 2) == (j % 2);
    assert(even == ((i + j) as int % 2 == 0));
    let cof = if even {
        c
    } else {
        match (0i128).checked_sub(c) {
            Some(x) => x,
            None => return None,
        }
    };
    proof {
        let dd = det(minor(rows(m@), j as int, i as int));
        let sg = sign(j + i);
        assert(sg * dd == cof) by (nonlinear_arith)
            requires
                sg == 1 || sg == -1,
                sg == 1 ==> cof == dd,
                sg == -1 ==> cof == -dd,
        ;
        assert(sign(j + i) == sign((i + j) as int));
    }
    let s: i128 = SCALE as i128;
    let n1 = match cof.checked_mul(s) {
        Some(x) => x,
        None => return None,
    };
    let num = match n1.checked_mul(s) {
        Some(x) => x,
        None => return None,
    };
    let q = if d < 0 {
        let nn = match (0i128).checked_sub(num) {
            Some(x) => x,
            None => return None,
        };
        let pd = match (0i128).checked_sub(d) {
            Some(x) => x,
            None => return None,
        };
        match nn.checked_div_euclid(pd) {
            Some(x) => x,
            None => return None,
        }
    } else {
        match num.checked_div_euclid(d) {
            Some(x) => x,
            None => return None,
        }
    };
    if q < i64::MIN as i128 || q > i64::MAX as i128 {
        None
    } else {
        Some(q as i64)
    }
}

/// The fixed-point inverse of a square matrix. It fails with
/// `NumericalFailure` where the determinant is zero or a value leaves the
/// representable range.
pub fn inv(m: &Vec<Vec<i64>>) -> (r: Result<Vec<Vec<i64>>, crate::basics::ArgminError>)
    requires
        is_square(m@, m@.len()),
    ensures
        r matches Ok(w) ==> {
            &&& det(rows(m@)) != 0
            &&& is_square(w@, m@.len())
            &&& forall|i: int, j: int|
                0 <= i < m@.len() && 0 <= j < m@.len() ==> #[trigger] w@[i]@[j] == inv_entry(
                    rows(m@),
                    i,
                    j,
                )
        },
        r is Ok <==> inv_fits(rows(m@)),
        r matches Err(e) ==> e == crate::basics::ArgminError::NumericalFailure,
{
    let n = m.len();
    let d = match determinant(m) {
        Some(d) => d,
        None => return Err(crate::basics::ArgminError::NumericalFailure),
    };
    if d == 0 {
        return Err(crate::basics::ArgminError::NumericalFailure);
    }
    let mut out: Vec<Vec<i64>> = Vec::new();
    let mut i: usize = 0;
    while i < n
        invariant
            n == m@.len(),
            is_square(m@, n as nat),
            d == det(rows(m@)),
            d != 0,
            i <= n,
            out@.len() == i,
            forall|a: int| 0 <= a < i ==> (#[trigger] out@[a])@.len() == n,
            forall|a: int, b: int|
                0 <= a < i && 0 <= b < n ==> #[trigger] out@[a]@[b] == inv_entry(rows(m@), a, b),
            forall|a: int, b: int|
                0 <= a < i && 0 <= b < n ==> #[trigger] inv_entry_fits(rows(m@), a, b),
            det_fits(rows(m@)),
        decreases n - i,
    {
        let mut row: Vec<i64> = Vec::new();
        let mut j: usize = 0;
        while j < n
            invariant
                n == m@.len(),
                is_square(m@, n as nat),
                d == det(rows(m@)),
                d != 0,
                i < n,
                j <= n,
                row@.len() == j,
                forall|b: int| 0 <= b < j ==> #[trigger] row@[b] == inv_entry(rows(m@), i as int, b),
                forall|a: int, b: int|
                    0 <= a < i && 0 <= b < n ==> #[trigger] inv_entry_fits(rows(m@), a, b),
                forall|b: int| 0 <= b < j ==> #[trigger] inv_entry_fits(rows(m@), i as int, b),
                det_fits(rows(m@)),
            decreases n - j,
        {
            match inverse_entry(m, d, i, j) {
                Some(v) => row.push(v),
                None => return Err(crate::basics::ArgminError::NumericalFailure),
            }
            j = j + 1;
        }
        out.push(row);
        i = i + 1;
    }
    Ok(out)
}

} // verus!

verus! {

/// The fixed-point inverse as rows of values.
pub open spec fn inv_rows(m: Seq<Seq<i64>>) -> Seq<Seq<i64>> {
    Seq::new(m.len(), |i: int| Seq::new(m.len(), |j: int| inv_entry(m, i, j) as i64))
}

/// `inverse(h) * g`, the Newton direction, in fixed point.
pub open spec fn newton_direction(h: Seq<Vec<i64>>, g: Seq<i64>) -> Seq<i64> {
    Seq::new(h.len(), |i: int| crate::linalg::dot_spec(inv_rows(rows(h))[i], g) as i64)
}

/// The inverse of `h` exists and `inverse(h) * g` is in range.
pub open spec fn newton_direction_fits(h: Seq<Vec<i64>>, g: Seq<i64>) -> bool {
    &&& inv_fits(rows(h))
    &&& forall|i: int| 0 <= i < h.len() ==> crate::linalg::dot_fits(#[trigger] inv_rows(rows(h))[i], g)
}

/// Solves `h * d = g` for `d` by inverting `h`.
pub fn inv_times(h: &Vec<Vec<i64>>, g: &Vec<i64>) -> (r: Result<Vec<i64>, crate::basics::ArgminError>)
    requires
        is_square(h@, g@.len()),
    ensures
        r matches Ok(d) ==> d@ == newton_direction(h@, g@) && det(rows(h@)) != 0,
        r is Ok <==> newton_direction_fits(h@, g@),
        r matches Err(e) ==> e == crate::basics::ArgminError::NumericalFailure,
{
    let w = match inv(h) {
        Ok(w) => w,
        Err(e) => return Err(e),
    };
    assert forall|i: int| 0 <= i < h@.len() implies (#[trigger] w@[i])@ == inv_rows(rows(h@))[i] by {
        assert(w@[i]@ =~= inv_rows(rows(h@))[i]);
    }
    match crate::linalg::mat_vec(&w, g) {
        Some(d) => {
            assert(d@ =~= newton_direction(h@, g@));
            assert forall|i: int| 0 <= i < h@.len() implies crate::linalg::dot_fits(
                #[trigger] inv_rows(rows(h@))[i],
                g@,
            ) by {
                assert(crate::linalg::dot_fits(w@[i]@, g@));
            }
            Ok(d)
        },
        None => {
            proof {
                let i = choose|i: int|
                    0 <= i < w@.len() && !crate::linalg::dot_fits(#[trigger] w@[i]@, g@);
                assert(!crate::linalg::dot_fits(inv_rows(rows(h@))[i], g@));
            }
            Err(crate::basics::ArgminError::NumericalFailure)
        },
    }
}

} // verus!
