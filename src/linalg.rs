//! Vectors and matrices of fixed-point values, with exact contracts and
//! overflow reported as `None`.
use vstd::prelude::*;
use crate::fixed::{SCALE, in_i64, in_i128, mul_spec, fx_mul, checked_sub, checked_add, lemma_i64_product_fits};

verus! {

/// Sum of the products of the first `k` pairs of components, in squared units.
pub open spec fn dot_prefix(a: Seq<i64>, b: Seq<i64>, k: nat) -> int
    decreases k,
{
    if k == 0 {
        0
    } else {
        dot_prefix(a, b, (k - 1) as nat) + a[k - 1] * b[k - 1]
    }
}

/// Exact sum of the component products, in squared units.
pub open spec fn dot_raw(a: Seq<i64>, b: Seq<i64>) -> int {
    dot_prefix(a, b, a.len())
}

/// Fixed-point inner product.
pub open spec fn dot_spec(a: Seq<i64>, b: Seq<i64>) -> int {
    dot_raw(a, b) / (SCALE as int)
}

/// The running sums of the inner product fit the wide accumulator.
pub open spec fn dot_fits(a: Seq<i64>, b: Seq<i64>) -> bool {
    &&& forall|k: nat| k <= a.len() ==> in_i128(#[trigger] dot_prefix(a, b, k))
    &&& in_i64(dot_spec(a, b))
}

/// Squared Euclidean norm, in squared units.
pub open spec fn norm_sq_raw(v: Seq<i64>) -> int {
    dot_raw(v, v)
}

pub open spec fn sub_fits(a: Seq<i64>, b: Seq<i64>) -> bool {
    forall|i: int| 0 <= i < a.len() ==> in_i64(#[trigger] a[i] - b[i])
}

pub open spec fn add_fits(a: Seq<i64>, b: Seq<i64>) -> bool {
    forall|i: int| 0 <= i < a.len() ==> in_i64(#[trigger] a[i] + b[i])
}

pub open spec fn scale_fits(s: i64, v: Seq<i64>) -> bool {
    forall|i: int| 0 <= i < v.len() ==> in_i64(mul_spec(s as int, #[trigger] v[i] as int))
}

/// `p - omega * g` can be formed component by component.
pub open spec fn scaled_sub_fits(p: Seq<i64>, omega: i64, g: Seq<i64>) -> bool {
    forall|i: int|
        0 <= i < p.len() ==> {
            &&& in_i64(mul_spec(omega as int, #[trigger] g[i] as int))
            &&& in_i64(p[i] - mul_spec(omega as int, g[i] as int))
        }
}

/// Every row of `m` has `n` entries.
pub open spec fn rows_have_len(m: Seq<Vec<i64>>, n: nat) -> bool {
    forall|i: int| 0 <= i < m.len() ==> (#[trigger] m[i])@.len() == n
}

/// A square `n` by `n` matrix.
pub open spec fn is_square(m: Seq<Vec<i64>>, n: nat) -> bool {
    m.len() == n && rows_have_len(m, n)
}

pub open spec fn mat_vec_fits(m: Seq<Vec<i64>>, v: Seq<i64>) -> bool {
    forall|i: int| 0 <= i < m.len() ==> dot_fits(#[trigger] m[i]@, v)
}

pub proof fn lemma_dot_prefix_nonneg_square(v: Seq<i64>, k: nat, j: nat)
    requires
        j <= k,
    ensures
        0 <= dot_prefix(v, v, j) <= dot_prefix(v, v, k),
    decreases k,
{
    if k > j {
        lemma_dot_prefix_nonneg_square(v, (k - 1) as nat, j);
        assert(v[k - 1] * v[k - 1] >= 0) by (nonlinear_arith);
    } else if k > 0 {
        lemma_dot_prefix_nonneg_square(v, (k - 1) as nat, (k - 1) as nat);
        assert(v[k - 1] * v[k - 1] >= 0) by (nonlinear_arith);
    }
}

pub fn dot(a: &Vec<i64>, b: &Vec<i64>) -> (r: Option<i64>)
    requires
        a@.len() == b@.len(),
    ensures
        r is Some <==> dot_fits(a@, b@),
        r is Some ==> r->0 == dot_spec(a@, b@),
{
    let mut acc: i128 = 0;
    let mut i: usize = 0;
    while i < a.len()
        invariant
            a@.len() == b@.len(),
            i <= a@.len(),
            acc == dot_prefix(a@, b@, i as nat),
            forall|k: nat| k <= i ==> in_i128(#[trigger] dot_prefix(a@, b@, k)),
        decreases a@.len() - i,
    {
        proof {
            lemma_i64_product_fits(a@[i as int] as int, b@[i as int] as int);
        }
        let p: i128 = (a[i] as i128) * (b[i] as i128);
        match acc.checked_add(p) {
            Some(s) => {
                acc = s;
            },
            None => {
                assert(!in_i128(dot_prefix(a@, b@, (i + 1) as nat)));
                return None;
            },
        }
        i = i + 1;
    }
    match acc.checked_div_euclid(SCALE as i128) {
        Some(q) => {
            if q < i64::MIN as i128 || q > i64::MAX as i128 {
                None
            } else {
                Some(q as i64)
            }
        },
        None => None,
    }
}

/// Tells whether the squared norm of `v`, in squared units, is below `bound`.
/// Stops as soon as the running sum reaches the bound, so it never overflows.
pub fn norm_sq_below(v: &Vec<i64>, bound: i128) -> (r: bool)
    requires
        bound >= 0,
    ensures
        r == (norm_sq_raw(v@) < bound),
{
    if bound == 0 {
        proof {
            lemma_dot_prefix_nonneg_square(v@, v@.len(), 0);
        }
        return false;
    }
    let mut acc: i128 = 0;
    let mut i: usize = 0;
    while i < v.len()
        invariant
            i <= v@.len(),
            acc == dot_prefix(v@, v@, i as nat),
            0 <= acc < bound,
        decreases v@.len() - i,
    {
        proof {
            lemma_i64_product_fits(v@[i as int] as int, v@[i as int] as int);
            assert(v@[i as int] * v@[i as int] >= 0) by (nonlinear_arith);
        }
        let p: i128 = (v[i] as i128) * (v[i] as i128);
        if p >= bound - acc {
            proof {
                lemma_dot_prefix_nonneg_square(v@, v@.len(), (i + 1) as nat);
            }
            return false;
        }
        acc = acc + p;
        i = i + 1;
    }
    true
}

/// Tells whether the squared norm of `v`, in squared units, is at most `bound`.
pub fn norm_sq_at_most(v: &Vec<i64>, bound: i128) -> (r: bool)
    requires
        0 <= bound < i128::MAX,
    ensures
        r == (norm_sq_raw(v@) <= bound),
{
    norm_sq_below(v, bound + 1)
}

pub fn vec_sub(a: &Vec<i64>, b: &Vec<i64>) -> (r: Option<Vec<i64>>)
    requires
        a@.len() == b@.len(),
    ensures
        r is Some <==> sub_fits(a@, b@),
        r matches Some(w) ==> w@.len() == a@.len() && forall|i: int|
            0 <= i < a@.len() ==> #[trigger] w@[i] == a@[i] - b@[i],
{
    let mut out: Vec<i64> = Vec::new();
    let mut i: usize = 0;
    while i < a.len()
        invariant
            a@.len() == b@.len(),
            i <= a@.len(),
            out@.len() == i,
            forall|j: int| 0 <= j < i ==> #[trigger] out@[j] == a@[j] - b@[j],
            forall|j: int| 0 <= j < i ==> in_i64(#[trigger] a@[j] - b@[j]),
        decreases a@.len() - i,
    {
        match checked_sub(a[i], b[i]) {
            Some(x) => out.push(x),
            None => return None,
        }
        i = i + 1;
    }
    Some(out)
}

pub fn vec_add(a: &Vec<i64>, b: &Vec<i64>) -> (r: Option<Vec<i64>>)
    requires
        a@.len() == b@.len(),
    ensures
        r is Some <==> add_fits(a@, b@),
        r matches Some(w) ==> w@.len() == a@.len() && forall|i: int|
            0 <= i < a@.len() ==> #[trigger] w@[i] == a@[i] + b@[i],
{
    let mut out: Vec<i64> = Vec::new();
    let mut i: usize = 0;
    while i < a.len()
        invariant
            a@.len() == b@.len(),
            i <= a@.len(),
            out@.len() == i,
            forall|j: int| 0 <= j < i ==> #[trigger] out@[j] == a@[j] + b@[j],
            forall|j: int| 0 <= j < i ==> in_i64(#[trigger] a@[j] + b@[j]),
        decreases a@.len() - i,
    {
        match checked_add(a[i], b[i]) {
            Some(x) => out.push(x),
            None => return None,
        }
        i = i + 1;
    }
    Some(out)
}

/// `s * v`, component by component.
pub fn scale(s: i64, v: &Vec<i64>) -> (r: Option<Vec<i64>>)
    ensures
        r is Some <==> scale_fits(s, v@),
        r matches Some(w) ==> w@.len() == v@.len() && forall|i: int|
            0 <= i < v@.len() ==> #[trigger] w@[i] == mul_spec(s as int, v@[i] as int),
{
    let mut out: Vec<i64> = Vec::new();
    let mut i: usize = 0;
    while i < v.len()
        invariant
            i <= v@.len(),
            out@.len() == i,
            forall|j: int| 0 <= j < i ==> #[trigger] out@[j] == mul_spec(s as int, v@[j] as int),
            forall|j: int| 0 <= j < i ==> in_i64(mul_spec(s as int, #[trigger] v@[j] as int)),
        decreases v@.len() - i,
    {
        match fx_mul(s, v[i]) {
            Some(x) => out.push(x),
            None => return None,
        }
        i = i + 1;
    }
    Some(out)
}

/// `p - omega * g`, component by component.
pub fn scaled_sub(p: &Vec<i64>, omega: i64, g: &Vec<i64>) -> (r: Option<Vec<i64>>)
    requires
        p@.len() == g@.len(),
    ensures
        r is Some <==> scaled_sub_fits(p@, omega, g@),
        r matches Some(w) ==> w@.len() == p@.len() && forall|i: int|
            0 <= i < p@.len() ==> #[trigger] w@[i] == p@[i] - mul_spec(omega as int, g@[i] as int),
{
    let mut out: Vec<i64> = Vec::new();
    let mut i: usize = 0;
    while i < p.len()
        invariant
            p@.len() == g@.len(),
            i <= p@.len(),
            out@.len() == i,
            forall|j: int|
                0 <= j < i ==> #[trigger] out@[j] == p@[j] - mul_spec(omega as int, g@[j] as int),
            forall|j: int|
                0 <= j < i ==> {
                    &&& in_i64(mul_spec(omega as int, #[trigger] g@[j] as int))
                    &&& in_i64(p@[j] - mul_spec(omega as int, g@[j] as int))
                },
        decreases p@.len() - i,
    {
        match fx_mul(omega, g[i]) {
            Some(x) => match checked_sub(p[i], x) {
                Some(y) => out.push(y),
                None => return None,
            },
            None => return None,
        }
        i = i + 1;
    }
    Some(out)
}

/// `m * v`: each component is the inner product of a row with `v`.
pub fn mat_vec(m: &Vec<Vec<i64>>, v: &Vec<i64>) -> (r: Option<Vec<i64>>)
    requires
        rows_have_len(m@, v@.len()),
    ensures
        r is Some <==> mat_vec_fits(m@, v@),
        r matches Some(w) ==> w@.len() == m@.len() && forall|i: int|
            0 <= i < m@.len() ==> #[trigger] w@[i] == dot_spec(m@[i]@, v@),
{
    let mut out: Vec<i64> = Vec::new();
    let mut i: usize = 0;
    while i < m.len()
        invariant
            rows_have_len(m@, v@.len()),
            i <= m@.len(),
            out@.len() == i,
            forall|j: int| 0 <= j < i ==> #[trigger] out@[j] == dot_spec(m@[j]@, v@),
            forall|j: int| 0 <= j < i ==> dot_fits(#[trigger] m@[j]@, v@),
        decreases m@.len() - i,
    {
        assert(m@[i as int]@.len() == v@.len());
        match dot(&m[i], v) {
            Some(x) => out.push(x),
            None => return None,
        }
        i = i + 1;
    }
    Some(out)
}

} // verus!

verus! {

/// Column `j` of `m`.
pub open spec fn col(m: Seq<Vec<i64>>, j: int) -> Seq<i64> {
    Seq::new(m.len(), |k: int| m[k]@[j])
}

/// The fixed-point product `m * v` as a vector; meaningful where every
/// component fits.
pub open spec fn mat_vec_spec(m: Seq<Vec<i64>>, v: Seq<i64>) -> Seq<i64> {
    Seq::new(m.len(), |i: int| dot_spec(m[i]@, v) as i64)
}

/// The fixed-point product `transpose(m) * v`.
pub open spec fn mat_t_vec_spec(m: Seq<Vec<i64>>, v: Seq<i64>) -> Seq<i64> {
    Seq::new(v.len(), |j: int| dot_spec(col(m, j), v) as i64)
}

pub open spec fn is_symmetric(m: Seq<Vec<i64>>) -> bool {
    forall|i: int, j: int| 0 <= i < m.len() && 0 <= j < m.len() ==> #[trigger] m[i]@[j] == m[j]@[i]
}

/// `-v`, component by component.
pub fn neg(v: &Vec<i64>) -> (r: Option<Vec<i64>>)
    ensures
        r is Some <==> forall|i: int| 0 <= i < v@.len() ==> #[trigger] v@[i] != i64::MIN,
        r matches Some(w) ==> w@.len() == v@.len() && forall|i: int|
            0 <= i < v@.len() ==> #[trigger] w@[i] == -v@[i],
{
    let mut out: Vec<i64> = Vec::new();
    let mut i: usize = 0;
    while i < v.len()
        invariant
            i <= v@.len(),
            out@.len() == i,
            forall|j: int| 0 <= j < i ==> #[trigger] out@[j] == -v@[j],
            forall|j: int| 0 <= j < i ==> #[trigger] v@[j] != i64::MIN,
        decreases v@.len() - i,
    {
        if v[i] == i64::MIN {
            return None;
        }
        out.push(-v[i]);
        i = i + 1;
    }
    Some(out)
}

/// Column `j` of a matrix whose rows all have more than `j` entries.
pub fn column(m: &Vec<Vec<i64>>, j: usize) -> (r: Vec<i64>)
    requires
        forall|i: int| 0 <= i < m@.len() ==> j < (#[trigger] m@[i])@.len(),
    ensures
        r@ == col(m@, j as int),
{
    let mut out: Vec<i64> = Vec::new();
    let mut i: usize = 0;
    while i < m.len()
        invariant
            i <= m@.len(),
            forall|k: int| 0 <= k < m@.len() ==> j < (#[trigger] m@[k])@.len(),
            out@ == col(m@, j as int).subrange(0, i as int),
        decreases m@.len() - i,
    {
        assert(j < m@[i as int]@.len());
        out.push(m[i][j]);
        i = i + 1;
        assert(out@ =~= col(m@, j as int).subrange(0, i as int));
    }
    assert(out@ =~= col(m@, j as int));
    out
}

/// `m * v` with the result as a sequence.
pub fn mat_vec_checked(m: &Vec<Vec<i64>>, v: &Vec<i64>) -> (r: Option<Vec<i64>>)
    requires
        rows_have_len(m@, v@.len()),
    ensures
        r is Some <==> mat_vec_fits(m@, v@),
        r matches Some(w) ==> w@ == mat_vec_spec(m@, v@),
{
    match mat_vec(m, v) {
        Some(w) => {
            assert(w@ =~= mat_vec_spec(m@, v@));
            Some(w)
        },
        None => None,
    }
}

pub open spec fn mat_t_vec_fits(m: Seq<Vec<i64>>, v: Seq<i64>) -> bool {
    forall|j: int| 0 <= j < v.len() ==> dot_fits(#[trigger] col(m, j), v)
}

/// `transpose(m) * v` for a square matrix of the size of `v`.
pub fn mat_t_vec(m: &Vec<Vec<i64>>, v: &Vec<i64>) -> (r: Option<Vec<i64>>)
    requires
        is_square(m@, v@.len()),
    ensures
        r is Some <==> mat_t_vec_fits(m@, v@),
        r matches Some(w) ==> w@ == mat_t_vec_spec(m@, v@),
{
    let n = v.len();
    let mut out: Vec<i64> = Vec::new();
    let mut j: usize = 0;
    while j < n
        invariant
            n == v@.len(),
            is_square(m@, n as nat),
            j <= n,
            out@.len() == j,
            forall|k: int| 0 <= k < j ==> #[trigger] out@[k] == dot_spec(col(m@, k), v@) as i64,
            forall|k: int| 0 <= k < j ==> dot_fits(#[trigger] col(m@, k), v@),
        decreases n - j,
    {
        let c = column(m, j);
        match dot(&c, v) {
            Some(x) => out.push(x),
            None => return None,
        }
        j = j + 1;
    }
    assert(out@ =~= mat_t_vec_spec(m@, v@));
    Some(out)
}

/// For a symmetric matrix, multiplying by the transpose gives the same vector.
pub proof fn lemma_symmetric_t_vec(m: Seq<Vec<i64>>, v: Seq<i64>)
    requires
        is_square(m, v.len()),
        is_symmetric(m),
    ensures
        mat_t_vec_spec(m, v) == mat_vec_spec(m, v),
{
    assert forall|j: int| 0 <= j < v.len() implies col(m, j) == m[j]@ by {
        assert(col(m, j) =~= m[j]@);
    }
    assert(mat_t_vec_spec(m, v) =~= mat_vec_spec(m, v));
}

} // verus!

verus! {

/// Tells whether `m` is an `n` by `n` matrix.
pub fn check_square(m: &Vec<Vec<i64>>, n: usize) -> (r: bool)
    ensures
        r == is_square(m@, n as nat),
{
    if m.len() != n {
        return false;
    }
    let mut k: usize = 0;
    while k < n
        invariant
            m@.len() == n,
            k <= n,
            forall|a: int| 0 <= a < k ==> (#[trigger] m@[a])@.len() == n,
        decreases n - k,
    {
        if m[k].len() != n {
            return false;
        }
        k = k + 1;
    }
    true
}

} // verus!
