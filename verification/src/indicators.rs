//! The indicator engine: pure windowed statistics over price windows.
//!
//! Every function takes a window of admissible fixed-point prices (see
//! [`crate::price_ok`]) and returns a fixed-point value at the same scale.
//! Division is integer division; with non-negative operands it truncates,
//! which matches Euclidean division in the specifications.

use vstd::prelude::*;
use vstd::arithmetic::div_mod::{
    lemma_div_is_ordered, lemma_div_multiples_vanish, lemma_div_pos_is_pos,
};
use crate::{price_ok, MULT_MAX, PRICE_MAX, WINDOW_MAX};
use crate::errors::EnrichError;

verus! {

/// A window is admissible when it is non-empty, no longer than
/// `WINDOW_MAX`, and holds admissible prices only.
pub open spec fn window_ok(w: Seq<i64>) -> bool {
    &&& 1 <= w.len() <= WINDOW_MAX
    &&& forall|i: int| 0 <= i < w.len() ==> price_ok(#[trigger] w[i])
}

/// The sum of a window's values.
pub open spec fn sum_of(w: Seq<i64>) -> int
    decreases w.len(),
{
    if w.len() == 0 {
        0
    } else {
        sum_of(w.drop_last()) + w.last()
    }
}

/// A window of values inside `[lo, hi]` sums to within `len` times those
/// bounds.
pub proof fn lemma_sum_bounds(w: Seq<i64>, lo: int, hi: int)
    requires
        forall|i: int| 0 <= i < w.len() ==> lo <= #[trigger] w[i] <= hi,
    ensures
        w.len() * lo <= sum_of(w) <= w.len() * hi,
    decreases w.len(),
{
    if w.len() == 0 {
    } else {
        lemma_sum_bounds(w.drop_last(), lo, hi);
        assert((w.len() - 1) * lo + lo == w.len() * lo) by (nonlinear_arith);
        assert((w.len() - 1) * hi + hi == w.len() * hi) by (nonlinear_arith);
    }
}

/// A window of one repeated value sums to `len` times that value.
pub proof fn lemma_sum_constant(w: Seq<i64>, v: i64)
    requires
        forall|i: int| 0 <= i < w.len() ==> #[trigger] w[i] == v,
    ensures
        sum_of(w) == w.len() * v,
    decreases w.len(),
{
    if w.len() == 0 {
    } else {
        lemma_sum_constant(w.drop_last(), v);
        assert((w.len() - 1) * v + v == w.len() * v) by (nonlinear_arith);
    }
}

/// The simple moving average: the sum of the window divided by its length.
pub open spec fn sma_spec(w: Seq<i64>) -> int
    recommends
        w.len() >= 1,
{
    sum_of(w) / w.len() as int
}

/// A quotient of a value within `[0, len * PRICE_MAX]` by `len` is an
/// admissible price.
proof fn lemma_avg_in_range(total: int, len: int)
    requires
        1 <= len,
        0 <= total <= len * PRICE_MAX,
    ensures
        0 <= total / len <= PRICE_MAX,
{
    lemma_div_pos_is_pos(total, len);
    lemma_div_is_ordered(total, len * PRICE_MAX, len);
    lemma_div_multiples_vanish(PRICE_MAX as int, len);
}

/// Simple Moving Average: the arithmetic mean of the window.
///
/// For every window of length `n`, the result equals `sum(window) / n`.
pub fn sma(w: &Vec<i64>) -> (r: i64)
    requires
        window_ok(w@),
    ensures
        r == sma_spec(w@),
        r == sum_of(w@) / w@.len() as int,
        price_ok(r),
{
    let mut sum: i64 = 0;
    let mut i: usize = 0;
    proof {
        assert(w@.take(0) =~= Seq::<i64>::empty());
    }
    while i < w.len()
        invariant
            window_ok(w@),
            i <= w@.len(),
            sum == sum_of(w@.take(i as int)),
            0 <= sum <= i * PRICE_MAX,
        decreases w@.len() - i,
    {
        proof {
            let pre = w@.take(i as int);
            let post = w@.take(i + 1);
            assert(post.drop_last() =~= pre);
            assert(post.last() == w@[i as int]);
            assert(i * PRICE_MAX + PRICE_MAX == (i + 1) * PRICE_MAX) by (nonlinear_arith);
        }
        sum = sum + w[i];
        i += 1;
    }
    proof {
        assert(w@.take(w@.len() as int) =~= w@);
        lemma_avg_in_range(sum as int, w@.len() as int);
    }
    sum / (w.len() as i64)
}

/// One exponential-smoothing step with factor `2 / (period + 1)`, carried
/// out exactly over the integers:
/// `(2 * value + (period - 1) * previous) / (period + 1)`.
pub open spec fn ema_step(prev: int, v: int, period: int) -> int
    recommends
        period >= 1,
{
    (2 * v + (period - 1) * prev) / (period + 1)
}

/// The smoothing recursion folded over the window in chronological order,
/// starting from `seed`.
pub open spec fn ema_rec(w: Seq<i64>, seed: int, period: int) -> int
    decreases w.len(),
{
    if w.len() == 0 {
        seed
    } else {
        ema_step(ema_rec(w.drop_last(), seed, period), w.last() as int, period)
    }
}

/// The exponential moving average: smoothing with factor `2 / (period + 1)`,
/// seeded with the window's simple moving average and applied across the
/// window in chronological order.
pub open spec fn ema_spec(w: Seq<i64>, period: int) -> int
    recommends
        w.len() >= 1,
        period >= 1,
{
    ema_rec(w, sma_spec(w), period)
}

/// One smoothing step keeps an admissible value admissible.
proof fn lemma_ema_step_in_range(prev: int, v: int, period: int)
    requires
        1 <= period,
        0 <= prev <= PRICE_MAX,
        0 <= v <= PRICE_MAX,
    ensures
        0 <= ema_step(prev, v, period) <= PRICE_MAX,
{
    assert((period - 1) * prev <= (period - 1) * PRICE_MAX) by (nonlinear_arith)
        requires
            0 <= prev <= PRICE_MAX,
            period >= 1,
    ;
    assert(0 <= (period - 1) * prev) by (nonlinear_arith)
        requires
            0 <= prev,
            period >= 1,
    ;
    assert(2 * PRICE_MAX + (period - 1) * PRICE_MAX == (period + 1) * PRICE_MAX) by (nonlinear_arith);
    lemma_div_pos_is_pos(2 * v + (period - 1) * prev, period + 1);
    lemma_div_is_ordered(2 * v + (period - 1) * prev, (period + 1) * PRICE_MAX, period + 1);
    lemma_div_multiples_vanish(PRICE_MAX as int, period + 1);
}

/// Exponential Moving Average over the window with the given period.
///
/// Fails with a computation error exactly when the period is zero or the
/// window is empty; otherwise the result is the smoothing recursion seeded
/// with the window's simple moving average.
pub fn ema(w: &Vec<i64>, period: usize) -> (r: Result<i64, EnrichError>)
    requires
        w@.len() <= WINDOW_MAX,
        forall|i: int| 0 <= i < w@.len() ==> price_ok(#[trigger] w@[i]),
        period <= WINDOW_MAX,
    ensures
        r is Ok <==> (period >= 1 && w@.len() >= 1),
        r matches Ok(v) ==> v == ema_spec(w@, period as int) && price_ok(v),
        r matches Err(e) ==> e == EnrichError::Computation,
{
    if period == 0 || w.len() == 0 {
        return Err(EnrichError::Computation);
    }
    let mut e: i64 = sma(w);
    let p: i64 = period as i64;
    let mut i: usize = 0;
    proof {
        assert(w@.take(0) =~= Seq::<i64>::empty());
    }
    while i < w.len()
        invariant
            window_ok(w@),
            1 <= period <= WINDOW_MAX,
            p == period,
            i <= w@.len(),
            e == ema_rec(w@.take(i as int), sma_spec(w@), period as int),
            price_ok(e),
        decreases w@.len() - i,
    {
        proof {
            let pre = w@.take(i as int);
            let post = w@.take(i + 1);
            assert(post.drop_last() =~= pre);
            assert(post.last() == w@[i as int]);
            lemma_ema_step_in_range(e as int, w@[i as int] as int, period as int);
            assert((p - 1) * e <= (period - 1) * PRICE_MAX) by (nonlinear_arith)
                requires
                    0 <= e <= PRICE_MAX,
                    p == period,
                    period >= 1,
            ;
            assert(0 <= (p - 1) * e) by (nonlinear_arith)
                requires
                    0 <= e,
                    p >= 1,
            ;
            assert((period - 1) * PRICE_MAX <= WINDOW_MAX * PRICE_MAX) by (nonlinear_arith)
                requires
                    1 <= period <= WINDOW_MAX,
            ;
        }
        e = (2 * w[i] + (p - 1) * e) / (p + 1);
        i += 1;
    }
    proof {
        assert(w@.take(w@.len() as int) =~= w@);
    }
    Ok(e)
}

/// A smoothing step on a constant window leaves the value unchanged.
proof fn lemma_ema_rec_constant(w: Seq<i64>, v: i64, period: int)
    requires
        period >= 1,
        forall|i: int| 0 <= i < w.len() ==> #[trigger] w[i] == v,
    ensures
        ema_rec(w, v as int, period) == v,
    decreases w.len(),
{
    if w.len() == 0 {
    } else {
        lemma_ema_rec_constant(w.drop_last(), v, period);
        assert(2 * (v as int) + (period - 1) * (v as int) == (period + 1) * (v as int))
            by (nonlinear_arith);
        lemma_div_multiples_vanish(v as int, period + 1);
    }
}

/// The exponential moving average is a fixed point on constant windows:
/// a window holding only the value `v` has EMA exactly `v`, for any period.
pub proof fn lemma_ema_constant_window(w: Seq<i64>, v: i64, period: int)
    requires
        period >= 1,
        w.len() >= 1,
        forall|i: int| 0 <= i < w.len() ==> #[trigger] w[i] == v,
    ensures
        ema_spec(w, period) == v,
{
    lemma_sum_constant(w, v);
    lemma_div_multiples_vanish(v as int, w.len() as int);
    assert(sma_spec(w) == v);
    lemma_ema_rec_constant(w, v, period);
}

/// The sum of the upward moves between consecutive window values.
pub open spec fn gain_sum(w: Seq<i64>) -> int
    decreases w.len(),
{
    if w.len() < 2 {
        0
    } else {
        gain_sum(w.drop_last()) + if w.last() > w[w.len() - 2] {
            w.last() - w[w.len() - 2]
        } else {
            0
        }
    }
}

/// The sum of the downward moves between consecutive window values.
pub open spec fn loss_sum(w: Seq<i64>) -> int
    decreases w.len(),
{
    if w.len() < 2 {
        0
    } else {
        loss_sum(w.drop_last()) + if w.last() < w[w.len() - 2] {
            w[w.len() - 2] - w.last()
        } else {
            0
        }
    }
}

/// Wilder's relative strength index over the window's consecutive
/// differences, scaled to `0..=100`: `100 * gains / (gains + losses)`, with
/// the convention that a window without losses has index `100`.
pub open spec fn rsi_spec(w: Seq<i64>) -> int {
    if loss_sum(w) == 0 {
        100
    } else {
        100 * gain_sum(w) / (gain_sum(w) + loss_sum(w))
    }
}

/// Relative Strength Index over the window, scaled to `0..=100`.
///
/// Gains and losses are the positive and negative parts of the consecutive
/// differences within the window; the result is
/// `100 * gains / (gains + losses)`, and `100` when there are no losses.
pub fn rsi(w: &Vec<i64>) -> (r: i64)
    requires
        window_ok(w@),
    ensures
        r == rsi_spec(w@),
        0 <= r <= 100,
{
    let mut gains: i64 = 0;
    let mut losses: i64 = 0;
    let mut i: usize = 1;
    proof {
        assert(w@.take(1).len() < 2);
    }
    while i < w.len()
        invariant
            window_ok(w@),
            1 <= i <= w@.len() || (w@.len() == 1 && i == 1),
            gains == gain_sum(w@.take(i as int)),
            losses == loss_sum(w@.take(i as int)),
            0 <= gains <= i * PRICE_MAX,
            0 <= losses <= i * PRICE_MAX,
        decreases w@.len() - i,
    {
        proof {
            let pre = w@.take(i as int);
            let post = w@.take(i + 1);
            assert(post.drop_last() =~= pre);
            assert(post.last() == w@[i as int]);
            assert(post[post.len() - 2] == w@[i - 1]);
            assert(i * PRICE_MAX + PRICE_MAX == (i + 1) * PRICE_MAX) by (nonlinear_arith);
        }
        if w[i] > w[i - 1] {
            gains = gains + (w[i] - w[i - 1]);
        } else if w[i] < w[i - 1] {
            losses = losses + (w[i - 1] - w[i]);
        }
        i += 1;
    }
    proof {
        assert(w@.take(w@.len() as int) =~= w@);
    }
    if losses == 0 {
        return 100;
    }
    proof {
        let g = gains as int;
        let l = losses as int;
        lemma_div_pos_is_pos(100 * g, g + l);
        assert(100 * g <= 100 * (g + l)) by (nonlinear_arith)
            requires
                0 <= g,
                0 < l,
        ;
        lemma_div_is_ordered(100 * g, 100 * (g + l), g + l);
        lemma_div_multiples_vanish(100, g + l);
    }
    (100 * gains) / (gains + losses)
}

/// A strictly rising window has no losses.
proof fn lemma_rising_no_losses(w: Seq<i64>)
    requires
        forall|i: int| 0 <= i < w.len() - 1 ==> #[trigger] w[i] < w[i + 1],
    ensures
        loss_sum(w) == 0,
    decreases w.len(),
{
    if w.len() < 2 {
    } else {
        lemma_rising_no_losses(w.drop_last());
        assert(w[w.len() - 2] < w[w.len() - 1]);
    }
}

/// A strictly falling window has no gains.
proof fn lemma_falling_no_gains(w: Seq<i64>)
    requires
        forall|i: int| 0 <= i < w.len() - 1 ==> #[trigger] w[i] > w[i + 1],
    ensures
        gain_sum(w) == 0,
    decreases w.len(),
{
    if w.len() < 2 {
    } else {
        lemma_falling_no_gains(w.drop_last());
        assert(w[w.len() - 2] > w[w.len() - 1]);
    }
}

/// On a strictly increasing window the relative strength index is exactly
/// `100`.
pub proof fn lemma_rsi_strictly_increasing(w: Seq<i64>)
    requires
        forall|i: int| 0 <= i < w.len() - 1 ==> #[trigger] w[i] < w[i + 1],
    ensures
        rsi_spec(w) == 100,
{
    lemma_rising_no_losses(w);
}

/// On a strictly decreasing window of at least two values the relative
/// strength index is exactly `0`. (A single-value window has no
/// differences at all, and the no-losses convention puts it at `100`.)
pub proof fn lemma_rsi_strictly_decreasing(w: Seq<i64>)
    requires
        w.len() >= 2,
        forall|i: int| 0 <= i < w.len() - 1 ==> #[trigger] w[i] > w[i + 1],
    ensures
        rsi_spec(w) == 0,
{
    lemma_falling_no_gains(w);
    lemma_losses_positive(w);
    vstd::arithmetic::div_mod::lemma_div_of0(loss_sum(w));
}

/// A strictly falling window of at least two values has a positive loss sum.
proof fn lemma_losses_positive(w: Seq<i64>)
    requires
        w.len() >= 2,
        forall|i: int| 0 <= i < w.len() - 1 ==> #[trigger] w[i] > w[i + 1],
    ensures
        loss_sum(w) > 0,
    decreases w.len(),
{
    if w.len() == 2 {
        assert(w[0] > w[1]);
        assert(loss_sum(w.drop_last()) == 0);
        assert(w.last() == w[1] && w[w.len() - 2] == w[0]);
    } else {
        lemma_losses_positive(w.drop_last());
        assert(w[w.len() - 2] > w[w.len() - 1]);
    }
}

/// The largest value of the window.
pub open spec fn max_of(w: Seq<i64>) -> i64
    recommends
        w.len() >= 1,
    decreases w.len(),
{
    if w.len() <= 1 {
        w[0]
    } else if w.last() > max_of(w.drop_last()) {
        w.last()
    } else {
        max_of(w.drop_last())
    }
}

/// The smallest value of the window.
pub open spec fn min_of(w: Seq<i64>) -> i64
    recommends
        w.len() >= 1,
    decreases w.len(),
{
    if w.len() <= 1 {
        w[0]
    } else if w.last() < min_of(w.drop_last()) {
        w.last()
    } else {
        min_of(w.drop_last())
    }
}

/// Rolling high: the maximum of the window. The result is at least every
/// element and is itself one of the elements.
pub fn rolling_high(w: &Vec<i64>) -> (r: i64)
    requires
        w@.len() >= 1,
    ensures
        r == max_of(w@),
        forall|i: int| 0 <= i < w@.len() ==> #[trigger] w@[i] <= r,
        exists|i: int| 0 <= i < w@.len() && #[trigger] w@[i] == r,
{
    let mut r: i64 = w[0];
    let mut i: usize = 1;
    proof {
        assert(w@.take(1) =~= seq![w@[0]]);
    }
    while i < w.len()
        invariant
            1 <= i <= w@.len(),
            r == max_of(w@.take(i as int)),
            forall|j: int| 0 <= j < i ==> #[trigger] w@[j] <= r,
            exists|j: int| 0 <= j < i && #[trigger] w@[j] == r,
        decreases w@.len() - i,
    {
        proof {
            let pre = w@.take(i as int);
            let post = w@.take(i + 1);
            assert(post.drop_last() =~= pre);
            assert(post.last() == w@[i as int]);
        }
        if w[i] > r {
            r = w[i];
        }
        i += 1;
    }
    proof {
        assert(w@.take(w@.len() as int) =~= w@);
    }
    r
}

/// The integer square root: the largest `r` with `r * r <= n`.
pub open spec fn isqrt_spec(n: nat) -> nat
    decreases n,
{
    if n == 0 {
        0
    } else {
        let r = isqrt_spec((n - 1) as nat);
        if (r + 1) * (r + 1) <= n {
            (r + 1) as nat
        } else {
            r
        }
    }
}

/// `isqrt_spec(n)` squares to at most `n`, and the next integer squares to
/// more.
pub proof fn lemma_isqrt_bounds(n: nat)
    ensures
        isqrt_spec(n) * isqrt_spec(n) <= n,
        n < (isqrt_spec(n) + 1) * (isqrt_spec(n) + 1),
    decreases n,
{
    if n == 0 {
        let s = isqrt_spec(n);
        assert(s == 0);
        assert(s * s <= n && n < (s + 1) * (s + 1)) by (nonlinear_arith)
            requires
                n == 0,
                s == 0,
        ;
    } else {
        lemma_isqrt_bounds((n - 1) as nat);
        let r = isqrt_spec((n - 1) as nat);
        if (r + 1) * (r + 1) <= n {
            assert(isqrt_spec(n) == r + 1);
            assert(n - 1 < (r + 1) * (r + 1));
            assert(n == (r + 1) * (r + 1));
            assert(n < (r + 2) * (r + 2)) by (nonlinear_arith)
                requires
                    n == (r + 1) * (r + 1),
                    r >= 0,
            ;
        } else {
            assert(isqrt_spec(n) == r);
            assert(r * r <= n - 1);
        }
    }
}

/// Any `r` whose square brackets `n` is the integer square root of `n`.
pub proof fn lemma_isqrt_unique(n: nat, r: nat)
    requires
        r * r <= n,
        n < (r + 1) * (r + 1),
    ensures
        r == isqrt_spec(n),
{
    let s = isqrt_spec(n);
    lemma_isqrt_bounds(n);
    if r < s {
        assert((r + 1) * (r + 1) <= s * s) by (nonlinear_arith)
            requires
                0 <= r + 1 <= s,
        ;
    }
    if s < r {
        assert((s + 1) * (s + 1) <= r * r) by (nonlinear_arith)
            requires
                0 <= s + 1 <= r,
        ;
    }
}

/// Computes the integer square root of `n` by binary search.
pub fn isqrt(n: u128) -> (r: u128)
    ensures
        r * r <= n < (r + 1) * (r + 1),
        r as nat == isqrt_spec(n as nat),
{
    let mut lo: u128 = 0;
    let mut hi: u128 = 1u128 << 64;
    proof {
        assert((1u128 << 64) as int == 0x1_0000_0000_0000_0000) by (bit_vector);
        assert(n < 0x1_0000_0000_0000_0000 * 0x1_0000_0000_0000_0000);
    }
    while lo + 1 < hi
        invariant
            lo < hi,
            hi <= 0x1_0000_0000_0000_0000,
            lo * lo <= n,
            n < hi * hi,
        decreases hi - lo,
    {
        let mid = lo + (hi - lo) / 2;
        proof {
            assert(lo < mid < hi);
            assert(mid * mid <= (0x1_0000_0000_0000_0000 - 1) * (0x1_0000_0000_0000_0000 - 1))
                by (nonlinear_arith)
                requires
                    0 <= mid <= 0x1_0000_0000_0000_0000 - 1,
            ;
        }
        if mid * mid <= n {
            lo = mid;
        } else {
            hi = mid;
        }
    }
    proof {
        lemma_isqrt_unique(n as nat, lo as nat);
    }
    lo
}

/// The sum of squared deviations of the window's values from `mean`.
pub open spec fn dev_sq_sum(w: Seq<i64>, mean: int) -> int
    decreases w.len(),
{
    if w.len() == 0 {
        0
    } else {
        dev_sq_sum(w.drop_last(), mean) + (w.last() - mean) * (w.last() - mean)
    }
}

/// With admissible values and an admissible mean, the squared deviations sum
/// to within `len` times `PRICE_MAX` squared.
proof fn lemma_dev_sq_sum_bounds(w: Seq<i64>, mean: int)
    requires
        forall|i: int| 0 <= i < w.len() ==> price_ok(#[trigger] w[i]),
        0 <= mean <= PRICE_MAX,
    ensures
        0 <= dev_sq_sum(w, mean) <= w.len() * (PRICE_MAX * PRICE_MAX),
    decreases w.len(),
{
    if w.len() == 0 {
    } else {
        lemma_dev_sq_sum_bounds(w.drop_last(), mean);
        let d = w.last() - mean;
        assert(0 <= d * d <= PRICE_MAX * PRICE_MAX) by (nonlinear_arith)
            requires
                -PRICE_MAX <= d <= PRICE_MAX,
        ;
        let m2 = PRICE_MAX * PRICE_MAX;
        assert((w.len() - 1) * m2 + m2 == w.len() * m2) by (nonlinear_arith);
    }
}

/// The sample variance of the window around its simple moving average:
/// the squared deviations divided by `len - 1`, and `0` for a single-value
/// window.
pub open spec fn variance_spec(w: Seq<i64>) -> int
    recommends
        w.len() >= 1,
{
    if w.len() < 2 {
        0
    } else {
        dev_sq_sum(w, sma_spec(w)) / (w.len() - 1) as int
    }
}

/// The integer sample standard deviation of the window.
pub open spec fn stddev_spec(w: Seq<i64>) -> int {
    isqrt_spec(variance_spec(w) as nat) as int
}

/// The variance of an admissible window is non-negative and at most twice
/// `PRICE_MAX` squared; its standard deviation is at most twice `PRICE_MAX`.
pub proof fn lemma_variance_bounds(w: Seq<i64>)
    requires
        window_ok(w),
    ensures
        0 <= variance_spec(w) <= 2 * (PRICE_MAX * PRICE_MAX),
        0 <= stddev_spec(w) <= 2 * PRICE_MAX,
{
    if w.len() < 2 {
        assert(isqrt_spec(0) == 0);
    } else {
        let len = w.len() as int;
        let m2 = PRICE_MAX * PRICE_MAX;
        lemma_sum_bounds(w, 0, PRICE_MAX as int);
        lemma_avg_in_range(sum_of(w), len);
        lemma_dev_sq_sum_bounds(w, sma_spec(w));
        lemma_div_pos_is_pos(dev_sq_sum(w, sma_spec(w)), len - 1);
        lemma_div_is_ordered(dev_sq_sum(w, sma_spec(w)), len * m2, len - 1);
        assert(len * m2 / (len - 1) <= 2 * m2) by (nonlinear_arith)
            requires
                len >= 2,
                m2 > 0,
        ;
    }
    let v = variance_spec(w) as nat;
    lemma_isqrt_bounds(v);
    let s = isqrt_spec(v);
    if s > 2 * PRICE_MAX {
        assert(s * s > (2 * PRICE_MAX) * (2 * PRICE_MAX)) by (nonlinear_arith)
            requires
                s > 2 * PRICE_MAX >= 0,
        ;
        assert((2 * PRICE_MAX) * (2 * PRICE_MAX) >= 2 * (PRICE_MAX * PRICE_MAX))
            by (nonlinear_arith);
    }
}

/// The three Bollinger bands: the window's simple moving average, flanked by
/// an envelope of `multiplier` standard deviations on either side.
#[derive(Clone, Copy, Debug, PartialEq, Eq, Structural)]
pub struct BollingerBands {
    pub top: i64,
    pub mid: i64,
    pub bottom: i64,
}

/// The Bollinger bands of the window: mid is the simple moving average,
/// top and bottom sit `multiplier` sample standard deviations above and
/// below it.
pub open spec fn bollinger_spec(w: Seq<i64>, multiplier: u32) -> BollingerBands {
    let mid = sma_spec(w);
    let k = multiplier * stddev_spec(w);
    BollingerBands { top: (mid + k) as i64, mid: mid as i64, bottom: (mid - k) as i64 }
}

/// Bollinger Bands over the window.
///
/// Fails with a computation error exactly when the window's length differs
/// from `period` or the window is empty. On success the mid band equals the
/// window's simple moving average and the top and bottom bands sit
/// symmetrically around it: `top - mid == mid - bottom`.
pub fn bollinger(w: &Vec<i64>, period: usize, multiplier: u32) -> (r: Result<
    BollingerBands,
    EnrichError,
>)
    requires
        w@.len() <= WINDOW_MAX,
        forall|i: int| 0 <= i < w@.len() ==> price_ok(#[trigger] w@[i]),
        multiplier <= MULT_MAX,
    ensures
        r is Ok <==> (w@.len() == period && period >= 1),
        r matches Ok(b) ==> b == bollinger_spec(w@, multiplier),
        r matches Ok(b) ==> b.mid == sma_spec(w@) && b.top - b.mid == b.mid - b.bottom,
        r matches Err(e) ==> e == EnrichError::Computation,
{
    if w.len() != period || w.len() == 0 {
        return Err(EnrichError::Computation);
    }
    let mean = sma(w);
    let mut acc: i128 = 0;
    let mut i: usize = 0;
    proof {
        assert(w@.take(0) =~= Seq::<i64>::empty());
    }
    while i < w.len()
        invariant
            window_ok(w@),
            price_ok(mean),
            i <= w@.len(),
            acc == dev_sq_sum(w@.take(i as int), mean as int),
            0 <= acc <= i * (PRICE_MAX * PRICE_MAX),
        decreases w@.len() - i,
    {
        proof {
            let pre = w@.take(i as int);
            let post = w@.take(i + 1);
            assert(post.drop_last() =~= pre);
            assert(post.last() == w@[i as int]);
            let d = w@[i as int] - mean;
            assert(0 <= d * d <= PRICE_MAX * PRICE_MAX) by (nonlinear_arith)
                requires
                    -PRICE_MAX <= d <= PRICE_MAX,
            ;
            let m2 = PRICE_MAX * PRICE_MAX;
            assert(i * m2 + m2 == (i + 1) * m2) by (nonlinear_arith);
        }
        let d: i128 = w[i] as i128 - mean as i128;
        acc = acc + d * d;
        i += 1;
    }
    proof {
        assert(w@.take(w@.len() as int) =~= w@);
        lemma_variance_bounds(w@);
    }
    let var: i128 = if w.len() < 2 {
        0
    } else {
        acc / ((w.len() - 1) as i128)
    };
    proof {
        assert(var == variance_spec(w@));
    }
    let sd128 = isqrt(var as u128);
    proof {
        assert(sd128 as nat == isqrt_spec(variance_spec(w@) as nat));
        assert(sd128 == stddev_spec(w@));
        assert(sd128 <= 2 * PRICE_MAX);
    }
    let sd: i64 = sd128 as i64;
    proof {
        assert((multiplier as int) * (sd as int) <= MULT_MAX * (2 * PRICE_MAX))
            by (nonlinear_arith)
            requires
                0 <= sd <= 2 * PRICE_MAX,
                0 <= multiplier <= MULT_MAX,
        ;
        assert(0 <= (multiplier as int) * (sd as int)) by (nonlinear_arith)
            requires
                0 <= sd,
                0 <= multiplier,
        ;
    }
    let k: i64 = (multiplier as i64) * sd;
    proof {
        assert(k == multiplier * stddev_spec(w@));
    }
    Ok(BollingerBands { top: mean + k, mid: mean, bottom: mean - k })
}

/// Rolling low: the minimum of the window. The result is at most every
/// element and is itself one of the elements.
pub fn rolling_low(w: &Vec<i64>) -> (r: i64)
    requires
        w@.len() >= 1,
    ensures
        r == min_of(w@),
        forall|i: int| 0 <= i < w@.len() ==> #[trigger] w@[i] >= r,
        exists|i: int| 0 <= i < w@.len() && #[trigger] w@[i] == r,
{
    let mut r: i64 = w[0];
    let mut i: usize = 1;
    proof {
        assert(w@.take(1) =~= seq![w@[0]]);
    }
    while i < w.len()
        invariant
            1 <= i <= w@.len(),
            r == min_of(w@.take(i as int)),
            forall|j: int| 0 <= j < i ==> #[trigger] w@[j] >= r,
            exists|j: int| 0 <= j < i && #[trigger] w@[j] == r,
        decreases w@.len() - i,
    {
        proof {
            let pre = w@.take(i as int);
            let post = w@.take(i + 1);
            assert(post.drop_last() =~= pre);
            assert(post.last() == w@[i as int]);
        }
        if w[i] < r {
            r = w[i];
        }
        i += 1;
    }
    proof {
        assert(w@.take(w@.len() as int) =~= w@);
    }
    r
}

} // verus!
