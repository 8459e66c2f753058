//! Statistics over a window of readings: the mean and the two extremes.

use vstd::prelude::*;
use vstd::arithmetic::div_mod::*;

verus! {

/// The sum of all values.
pub open spec fn sum_of(values: Seq<i32>) -> int
    decreases values.len(),
{
    if values.len() == 0 {
        0
    } else {
        sum_of(values.drop_last()) + values.last()
    }
}

/// `m` is the smallest of `values`: it occurs among them and none is smaller.
pub open spec fn is_minimum(values: Seq<i32>, m: i32) -> bool {
    &&& exists|i: int| 0 <= i < values.len() && values[i] == m
    &&& forall|i: int| 0 <= i < values.len() ==> m <= values[i]
}

/// `m` is the largest of `values`: it occurs among them and none is larger.
pub open spec fn is_maximum(values: Seq<i32>, m: i32) -> bool {
    &&& exists|i: int| 0 <= i < values.len() && values[i] == m
    &&& forall|i: int| 0 <= i < values.len() ==> values[i] <= m
}

/// The arithmetic mean of `values`, rounded down to a whole hundredth.
pub open spec fn floor_mean(values: Seq<i32>) -> int
    recommends
        values.len() > 0,
{
    sum_of(values) / (values.len() as int)
}

/// The mean and the extremes of a window, in hundredths.
#[derive(Clone, Copy, Debug, PartialEq, Eq, Structural)]
pub struct Statistics {
    /// The arithmetic mean, rounded down to a whole hundredth.
    pub average: i32,
    pub min: i32,
    pub max: i32,
}

/// Statistics were asked of a window that holds no reading.
#[derive(Clone, Copy, Debug, PartialEq, Eq, Structural)]
pub struct EmptyWindowError;

/// The sum of values that all lie between `low` and `high` lies between the
/// two bounds taken as many times as there are values.
proof fn lemma_sum_bounds(values: Seq<i32>, low: int, high: int)
    requires
        forall|i: int| 0 <= i < values.len() ==> low <= #[trigger] values[i] <= high,
    ensures
        low * values.len() <= sum_of(values) <= high * values.len(),
    decreases values.len(),
{
    if values.len() > 0 {
        let front = values.drop_last();
        lemma_sum_bounds(front, low, high);
        assert(low * values.len() == low * front.len() + low) by (nonlinear_arith)
            requires
                values.len() == front.len() + 1,
        ;
        assert(high * values.len() == high * front.len() + high) by (nonlinear_arith)
            requires
                values.len() == front.len() + 1,
        ;
    }
}

/// The mean of a non-empty window lies between its extremes.
pub proof fn lemma_mean_between_extremes(values: Seq<i32>, low: i32, high: i32)
    requires
        values.len() > 0,
        is_minimum(values, low),
        is_maximum(values, high),
    ensures
        low <= floor_mean(values) <= high,
{
    let n = values.len() as int;
    let total = sum_of(values);
    lemma_sum_bounds(values, low as int, high as int);
    lemma_fundamental_div_mod(total, n);
    lemma_mod_bound(total, n);
    let q = total / n;
    assert(low <= q) by (nonlinear_arith)
        requires
            n > 0,
            low * n <= total,
            total == n * q + total % n,
            0 <= total % n < n,
    ;
    assert(q <= high) by (nonlinear_arith)
        requires
            n > 0,
            total <= high * n,
            total == n * q + total % n,
            0 <= total % n < n,
    ;
}

/// The quotient of `total` by `count`, rounded down.
fn floor_div(total: i128, count: i128) -> (q: i128)
    requires
        count > 0,
        -0x4000_0000_0000_0000_0000_0000_0000_0000 < total
            < 0x4000_0000_0000_0000_0000_0000_0000_0000,
        count < 0x4000_0000_0000_0000_0000_0000_0000_0000,
    ensures
        q == total as int / count as int,
{
    if total >= 0 {
        total / count
    } else {
        let up: i128 = -total + (count - 1);
        let c: i128 = up / count;
        proof {
            let n = count as int;
            let t = total as int;
            let u = up as int;
            let k = c as int;
            let m = u % n;
            lemma_fundamental_div_mod(u, n);
            lemma_mod_bound(u, n);
            let r = k * n + t;
            assert(0 <= r < n) by (nonlinear_arith)
                requires
                    r == k * n + t,
                    u == n * k + m,
                    0 <= m < n,
                    u == -t + (n - 1),
            ;
            assert(t == (-k) * n + r) by (nonlinear_arith)
                requires
                    r == k * n + t,
            ;
            lemma_fundamental_div_mod_converse(t, n, -k, r);
        }
        -c
    }
}

/// The statistics of `values`: the mean rounded down, the smallest and the
/// largest value. A window without readings has none, and is refused.
pub fn calculate_statistics(values: &[i32]) -> (result: Result<Statistics, EmptyWindowError>)
    ensures
        result is Err <==> values@.len() == 0,
        result matches Ok(s) ==> {
            &&& s.average == floor_mean(values@)
            &&& is_minimum(values@, s.min)
            &&& is_maximum(values@, s.max)
        },
{
    let n = values.len();
    if n == 0 {
        return Err(EmptyWindowError);
    }
    let mut total: i128 = values[0] as i128;
    let mut low: i32 = values[0];
    let mut high: i32 = values[0];
    let mut i: usize = 1;
    proof {
        let first = values@.take(1);
        assert(first.drop_last() =~= Seq::<i32>::empty());
        assert(sum_of(first.drop_last()) == 0);
        assert(first.last() == values@[0]);
        assert(first[0] == values@[0]);
    }
    while i < n
        invariant
            1 <= i <= n,
            n == values@.len(),
            total == sum_of(values@.take(i as int)),
            -0x8000_0000 * i <= total <= 0x8000_0000 * i,
            is_minimum(values@.take(i as int), low),
            is_maximum(values@.take(i as int), high),
        decreases n - i,
    {
        let v = values[i];
        proof {
            let before = values@.take(i as int);
            let after = values@.take(i + 1);
            assert(after.drop_last() =~= before);
            assert(after.last() == v);
            let at_low = choose|k: int| 0 <= k < before.len() && before[k] == low;
            let at_high = choose|k: int| 0 <= k < before.len() && before[k] == high;
            assert(after[at_low] == low);
            assert(after[at_high] == high);
            assert(after[i as int] == v);
            assert forall|k: int| 0 <= k < after.len() implies (if v < low {
                v
            } else {
                low
            }) <= after[k] by {
                if k < i {
                    assert(after[k] == before[k]);
                }
            }
            assert forall|k: int| 0 <= k < after.len() implies after[k] <= (if v > high {
                v
            } else {
                high
            }) by {
                if k < i {
                    assert(after[k] == before[k]);
                }
            }
        }
        total = total + v as i128;
        if v < low {
            low = v;
        }
        if v > high {
            high = v;
        }
        i = i + 1;
    }
    proof {
        assert(values@.take(n as int) =~= values@);
        lemma_mean_between_extremes(values@, low, high);
    }
    let mean = floor_div(total, n as i128);
    Ok(Statistics { average: mean as i32, min: low, max: high })
}

} // verus!
