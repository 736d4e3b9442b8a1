//! Fixed-point arithmetic on millionths, and the statistics built on it.
//!
//! Every ratio, score and confidence of this library is an integer number
//! of millionths: `SCALE` stands for one whole. Speeds are kilobits per
//! second. Sums are carried in 128 bits, so no function here bounds the
//! length of its input.

use vstd::prelude::*;

verus! {

/// One whole, in millionths.
pub const SCALE: u64 = 1_000_000;

/// `SCALE` squared: one whole, in squared millionths.
pub const SCALE_SQ: u64 = 1_000_000_000_000;

/// The largest magnitude whose square can be summed over any vector.
pub const MAX_MAGNITUDE: u64 = 0x7fff_ffff;

/// The smaller of two integers.
pub open spec fn min_int(a: int, b: int) -> int {
    if a <= b {
        a
    } else {
        b
    }
}

/// The larger of two integers.
pub open spec fn max_int(a: int, b: int) -> int {
    if a >= b {
        a
    } else {
        b
    }
}

/// `part` of `whole`, in millionths, rounded down; zero where `whole` is not positive.
pub open spec fn ratio(part: int, whole: int) -> int {
    if whole <= 0 {
        0
    } else {
        part * SCALE as int / whole
    }
}

/// The sum of the items of `s`.
pub open spec fn sum(s: Seq<u64>) -> int
    decreases s.len(),
{
    if s.len() == 0 {
        0
    } else {
        sum(s.drop_last()) + s.last() as int
    }
}

/// The mean of `s`, rounded down; zero for the empty sequence.
pub open spec fn mean(s: Seq<u64>) -> int {
    if s.len() == 0 {
        0
    } else {
        sum(s) / s.len() as int
    }
}

/// The sum of the squared distances of the items of `s` from `m`.
pub open spec fn sq_dev_sum(s: Seq<u64>, m: int) -> int
    decreases s.len(),
{
    if s.len() == 0 {
        0
    } else {
        sq_dev_sum(s.drop_last(), m) + (s.last() as int - m) * (s.last() as int - m)
    }
}

/// Population variance of `s` around its rounded mean, rounded down.
pub open spec fn variance(s: Seq<u64>) -> int {
    if s.len() == 0 {
        0
    } else {
        sq_dev_sum(s, mean(s)) / s.len() as int
    }
}

/// Sample variance of `s` (divisor `len - 1`), rounded down; zero below two items.
pub open spec fn sample_variance(s: Seq<u64>) -> int {
    if s.len() < 2 {
        0
    } else {
        sq_dev_sum(s, mean(s)) / (s.len() as int - 1)
    }
}

/// All items of `s` are at most `bound`.
pub open spec fn all_at_most(s: Seq<u64>, bound: int) -> bool {
    forall|i: int| 0 <= i < s.len() ==> #[trigger] s[i] <= bound
}

/// `r` is the integer square root of `n`.
pub open spec fn is_sqrt(n: int, r: int) -> bool {
    0 <= r && r * r <= n && n < (r + 1) * (r + 1)
}

/// The integer square root of `n`: the largest number whose square is at most `n`.
pub open spec fn sqrt(n: int) -> int {
    choose|r: int| is_sqrt(n, r)
}

/// A number has one integer square root at most.
pub proof fn lemma_sqrt_unique(n: int, a: int, b: int)
    requires
        is_sqrt(n, a),
        is_sqrt(n, b),
    ensures
        a == b,
{
    if a < b {
        assert((a + 1) * (a + 1) <= b * b) by (nonlinear_arith)
            requires
                0 <= a,
                a + 1 <= b,
        ;
    } else if b < a {
        assert((b + 1) * (b + 1) <= a * a) by (nonlinear_arith)
            requires
                0 <= b,
                b + 1 <= a,
        ;
    }
}

/// A sum of items of at most `bound` is at most as many times `bound`.
pub proof fn lemma_sum_bounds(s: Seq<u64>, bound: int)
    requires
        all_at_most(s, bound),
    ensures
        0 <= sum(s) <= s.len() * bound,
    decreases s.len(),
{
    if s.len() == 0 {
        assert(s.len() * bound == 0) by (nonlinear_arith)
            requires
                s.len() == 0,
        ;
    } else {
        let t = s.drop_last();
        assert forall|i: int| 0 <= i < t.len() implies #[trigger] t[i] <= bound by {
            assert(t[i] == s[i]);
        }
        lemma_sum_bounds(t, bound);
        assert(s.last() == s[s.len() - 1]);
        assert(s.len() * bound == t.len() * bound + bound) by (nonlinear_arith)
            requires
                s.len() == t.len() + 1,
        ;
    }
}

/// The sum of one item more is the sum so far and that item.
pub proof fn lemma_sum_prefix(s: Seq<u64>, n: int)
    requires
        0 <= n < s.len(),
    ensures
        sum(s.take(n + 1)) == sum(s.take(n)) + s[n],
{
    assert(s.take(n + 1).drop_last() =~= s.take(n));
    assert(s.take(n + 1).last() == s[n]);
}

/// The mean of items of at most `bound` is at most `bound`.
pub proof fn lemma_mean_bounds(s: Seq<u64>, bound: int)
    requires
        all_at_most(s, bound),
        0 <= bound,
    ensures
        0 <= mean(s) <= bound,
{
    if s.len() > 0 {
        lemma_sum_bounds(s, bound);
        let n = s.len() as int;
        assert(sum(s) / n <= bound) by (nonlinear_arith)
            requires
                0 <= sum(s) <= n * bound,
                n > 0,
        ;
        assert(0 <= sum(s) / n) by (nonlinear_arith)
            requires
                0 <= sum(s),
                n > 0,
        ;
    }
}

/// Each squared distance within a span of `bound` is at most its square.
pub proof fn lemma_sq_dev_sum_bounds(s: Seq<u64>, m: int, bound: int)
    requires
        all_at_most(s, bound),
        0 <= m <= bound,
    ensures
        0 <= sq_dev_sum(s, m) <= s.len() * (bound * bound),
    decreases s.len(),
{
    if s.len() == 0 {
        assert(s.len() * (bound * bound) == 0) by (nonlinear_arith)
            requires
                s.len() == 0,
        ;
    } else {
        let t = s.drop_last();
        assert forall|i: int| 0 <= i < t.len() implies #[trigger] t[i] <= bound by {
            assert(t[i] == s[i]);
        }
        lemma_sq_dev_sum_bounds(t, m, bound);
        let x = s.last() as int;
        assert(s.last() == s[s.len() - 1]);
        assert(0 <= (x - m) * (x - m) <= bound * bound) by (nonlinear_arith)
            requires
                0 <= x <= bound,
                0 <= m <= bound,
        ;
        assert(s.len() * (bound * bound) == t.len() * (bound * bound) + bound * bound)
            by (nonlinear_arith)
            requires
                s.len() == t.len() + 1,
        ;
    }
}

/// The variance of items of at most `bound` is at most its square.
pub proof fn lemma_variance_bounds(s: Seq<u64>, bound: int)
    requires
        all_at_most(s, bound),
        0 <= bound,
    ensures
        0 <= variance(s) <= bound * bound,
{
    if s.len() > 0 {
        lemma_mean_bounds(s, bound);
        lemma_sq_dev_sum_bounds(s, mean(s), bound);
        let n = s.len() as int;
        let total = sq_dev_sum(s, mean(s));
        let cap = bound * bound;
        assert(0 <= total / n <= cap) by (nonlinear_arith)
            requires
                0 <= total <= n * cap,
                n > 0,
        ;
    } else {
        assert(0 <= bound * bound) by (nonlinear_arith);
    }
}

/// The squared distances of one item more are those so far and that item's.
pub proof fn lemma_sq_dev_sum_prefix(s: Seq<u64>, m: int, n: int)
    requires
        0 <= n < s.len(),
    ensures
        sq_dev_sum(s.take(n + 1), m) == sq_dev_sum(s.take(n), m) + (s[n] as int - m) * (s[n] as int
            - m),
{
    assert(s.take(n + 1).drop_last() =~= s.take(n));
    assert(s.take(n + 1).last() == s[n]);
}

/// The sum of a vector, in 128 bits.
pub fn sum_of(v: &Vec<u64>) -> (r: u128)
    ensures
        r == sum(v@),
{
    let mut acc: u128 = 0;
    let mut i: usize = 0;
    while i < v.len()
        invariant
            i <= v.len(),
            acc == sum(v@.take(i as int)),
            acc <= i * u64::MAX,
        decreases v.len() - i,
    {
        proof {
            lemma_sum_prefix(v@, i as int);
            assert((i + 1) * u64::MAX == i * u64::MAX + u64::MAX) by (nonlinear_arith);
            assert(i * u64::MAX <= usize::MAX * u64::MAX) by (nonlinear_arith)
                requires
                    i <= usize::MAX,
            ;
        }
        acc = acc + v[i] as u128;
        i = i + 1;
    }
    proof {
        assert(v@.take(v.len() as int) =~= v@);
    }
    acc
}

/// The mean of a vector, rounded down; zero for an empty one.
pub fn mean_of(v: &Vec<u64>) -> (r: u64)
    ensures
        r == mean(v@),
{
    if v.len() == 0 {
        0
    } else {
        let total = sum_of(v);
        proof {
            assert(all_at_most(v@, u64::MAX as int));
            lemma_mean_bounds(v@, u64::MAX as int);
        }
        (total / (v.len() as u128)) as u64
    }
}

/// The sum of the squared distances of the items of `v` from `m`.
pub fn sq_dev_sum_of(v: &Vec<u64>, m: u64) -> (r: u128)
    requires
        all_at_most(v@, MAX_MAGNITUDE as int),
        m <= MAX_MAGNITUDE,
    ensures
        r == sq_dev_sum(v@, m as int),
        r <= v.len() * (MAX_MAGNITUDE * MAX_MAGNITUDE),
{
    let mut acc: u128 = 0;
    let mut i: usize = 0;
    while i < v.len()
        invariant
            i <= v.len(),
            all_at_most(v@, MAX_MAGNITUDE as int),
            m <= MAX_MAGNITUDE,
            acc == sq_dev_sum(v@.take(i as int), m as int),
            acc <= i * (MAX_MAGNITUDE * MAX_MAGNITUDE),
        decreases v.len() - i,
    {
        let x = v[i];
        let d: u64 = if x >= m {
            x - m
        } else {
            m - x
        };
        proof {
            lemma_sq_dev_sum_prefix(v@, m as int, i as int);
            assert(d * d == (x as int - m as int) * (x as int - m as int)) by (nonlinear_arith)
                requires
                    d == x - m || d == m - x,
            ;
            assert(d * d <= MAX_MAGNITUDE * MAX_MAGNITUDE) by (nonlinear_arith)
                requires
                    0 <= d <= MAX_MAGNITUDE,
            ;
            assert((i + 1) * (MAX_MAGNITUDE * MAX_MAGNITUDE) == i * (MAX_MAGNITUDE * MAX_MAGNITUDE)
                + MAX_MAGNITUDE * MAX_MAGNITUDE) by (nonlinear_arith);
            assert(i * (MAX_MAGNITUDE * MAX_MAGNITUDE) <= usize::MAX * (MAX_MAGNITUDE
                * MAX_MAGNITUDE)) by (nonlinear_arith)
                requires
                    i <= usize::MAX,
            ;
        }
        acc = acc + (d as u128) * (d as u128);
        i = i + 1;
    }
    proof {
        assert(v@.take(v.len() as int) =~= v@);
    }
    acc
}

/// Population variance of a vector around its rounded mean.
pub fn variance_of(v: &Vec<u64>) -> (r: u64)
    requires
        all_at_most(v@, MAX_MAGNITUDE as int),
    ensures
        r == variance(v@),
        r <= MAX_MAGNITUDE * MAX_MAGNITUDE,
{
    if v.len() == 0 {
        0
    } else {
        proof {
            lemma_mean_bounds(v@, MAX_MAGNITUDE as int);
        }
        let m = mean_of(v);
        let total = sq_dev_sum_of(v, m);
        let n = v.len() as u128;
        proof {
            assert(total as int / n as int <= MAX_MAGNITUDE * MAX_MAGNITUDE) by (nonlinear_arith)
                requires
                    0 <= total <= n * (MAX_MAGNITUDE * MAX_MAGNITUDE),
                    n > 0,
            ;
        }
        (total / n) as u64
    }
}

/// Sample variance of a vector (divisor `len - 1`); zero below two items.
pub fn sample_variance_of(v: &Vec<u64>) -> (r: u64)
    requires
        all_at_most(v@, MAX_MAGNITUDE as int),
    ensures
        r == sample_variance(v@),
        r <= 2 * (MAX_MAGNITUDE * MAX_MAGNITUDE),
{
    if v.len() < 2 {
        0
    } else {
        proof {
            lemma_mean_bounds(v@, MAX_MAGNITUDE as int);
        }
        let m = mean_of(v);
        let total = sq_dev_sum_of(v, m);
        let n = v.len() as u128;
        proof {
            assert(total as int / (n as int - 1) <= 2 * (MAX_MAGNITUDE * MAX_MAGNITUDE))
                by (nonlinear_arith)
                requires
                    0 <= total <= n * (MAX_MAGNITUDE * MAX_MAGNITUDE),
                    n >= 2,
            ;
        }
        (total / (n - 1)) as u64
    }
}

/// The integer square root: the largest `r` with `r * r <= n`.
pub fn isqrt(n: u128) -> (r: u64)
    ensures
        is_sqrt(n as int, r as int),
        r == sqrt(n as int),
{
    let mut lo: u128 = 0;
    let mut hi: u128 = 0x1_0000_0000_0000_0000;
    proof {
        assert(hi * hi > n) by (nonlinear_arith)
            requires
                hi == 0x1_0000_0000_0000_0000,
                n <= u128::MAX,
        ;
    }
    while hi - lo > 1
        invariant
            lo < hi <= 0x1_0000_0000_0000_0000,
            lo * lo <= n < hi * hi,
        decreases hi - lo,
    {
        let mid: u128 = lo + (hi - lo) / 2;
        proof {
            assert(mid * mid <= u128::MAX) by (nonlinear_arith)
                requires
                    0 <= mid < 0x1_0000_0000_0000_0000,
            ;
        }
        if mid * mid <= n {
            lo = mid;
        } else {
            hi = mid;
        }
    }
    proof {
        assert(is_sqrt(n as int, lo as int));
        lemma_sqrt_unique(n as int, lo as int, sqrt(n as int));
    }
    lo as u64
}

} // verus!
