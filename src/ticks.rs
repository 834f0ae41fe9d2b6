//! "Nice number" tick generation for an axis range.
use vstd::prelude::*;

use crate::COORD_MAX;

verus! {

/// Desired band for the number of ticks on an axis.
#[derive(Clone, Copy, Debug)]
pub struct TickConfig {
    pub min_ticks: usize,
    pub max_ticks: usize,
}

impl Default for TickConfig {
    fn default() -> (r: Self)
        ensures
            r.min_ticks == 4,
            r.max_ticks == 10,
    {
        TickConfig { min_ticks: 4, max_ticks: 10 }
    }
}

pub open spec fn pow10(k: nat) -> int
    decreases k,
{
    if k == 0 {
        1
    } else {
        10 * pow10((k - 1) as nat)
    }
}

/// The `j`-th nice step: 1, 2, 5, 10, 20, 50, 100, ...
pub open spec fn nice_value(j: nat) -> int {
    (if j % 3 == 0 {
        1int
    } else if j % 3 == 1 {
        2int
    } else {
        5int
    }) * pow10(j / 3)
}

/// A value of the form {1, 2, 5} x 10^k.
pub open spec fn is_nice(step: int) -> bool {
    exists|j: nat| nice_value(j) == step
}

/// `j` indexes the smallest nice step that covers `span` in `target` steps.
pub open spec fn is_step_index(j: nat, span: int, target: int) -> bool {
    &&& nice_value(j) * target >= span
    &&& (j == 0 || nice_value((j - 1) as nat) * target < span)
}

/// The tick step for a span divided into about `target` intervals.
pub open spec fn tick_step(span: int, target: int) -> int {
    nice_value(choose|j: nat| is_step_index(j, span, target))
}

/// The tick count aimed at: the middle of the configured band, at least two.
pub open spec fn target_ticks(config: TickConfig) -> int {
    let mid = (config.min_ticks + config.max_ticks) / 2;
    if mid < 2 {
        2
    } else {
        mid
    }
}

/// The largest multiple of `step` not above `lo`.
pub open spec fn tick_start(lo: int, step: int) -> int {
    (lo / step) * step
}

/// The ticks `start, start + step, ...` up to and including `hi`.
pub open spec fn tick_run(lo: int, hi: int, step: int) -> Seq<int> {
    let start = tick_start(lo, step);
    Seq::new(((hi - start) / step + 1) as nat, |i: int| start + i * step)
}

/// The ticks for a range whose ends may come in either order.
pub open spec fn ticks_of(a: int, b: int, config: TickConfig) -> Seq<int> {
    if a == b {
        seq![a]
    } else {
        let lo = if a < b { a } else { b };
        let hi = if a < b { b } else { a };
        tick_run(lo, hi, tick_step(hi - lo, target_ticks(config)))
    }
}

pub proof fn lemma_pow10_positive(k: nat)
    ensures
        pow10(k) >= 1,
    decreases k,
{
    if k > 0 {
        lemma_pow10_positive((k - 1) as nat);
    }
}

proof fn lemma_nice_next(i: nat)
    ensures
        nice_value(i) < nice_value(i + 1),
        2 * nice_value(i + 1) <= 5 * nice_value(i),
{
    lemma_pow10_positive(i / 3);
    if i % 3 == 2 {
        assert(pow10((i + 1) / 3) == 10 * pow10(i / 3)) by {
            assert((i + 1) / 3 == i / 3 + 1);
        }
    } else {
        assert((i + 1) / 3 == i / 3);
    }
}

/// Nice steps grow strictly with their index.
pub proof fn lemma_nice_increasing(i: nat, j: nat)
    requires
        i < j,
    ensures
        nice_value(i) < nice_value(j),
    decreases j - i,
{
    lemma_pow10_positive(i / 3);
    lemma_pow10_positive((i + 1) / 3);
    if i % 3 == 2 {
        assert(pow10((i + 1) / 3) == 10 * pow10(i / 3)) by {
            assert((i + 1) / 3 == i / 3 + 1);
        }
    } else {
        assert((i + 1) / 3 == i / 3);
    }
    assert(nice_value(i) < nice_value(i + 1));
    if i + 1 < j {
        lemma_nice_increasing(i + 1, j);
    }
}

/// At most one index meets the step condition.
pub proof fn lemma_step_index_unique(j: nat, k: nat, span: int, target: int)
    requires
        target > 0,
        is_step_index(j, span, target),
        is_step_index(k, span, target),
    ensures
        j == k,
{
    if j < k {
        if j < (k - 1) as nat {
            lemma_nice_increasing(j, (k - 1) as nat);
        }
        assert(nice_value(j) <= nice_value((k - 1) as nat));
        assert(nice_value(j) * target <= nice_value((k - 1) as nat) * target) by (nonlinear_arith)
            requires
                nice_value(j) <= nice_value((k - 1) as nat),
                target > 0,
        ;
    } else if k < j {
        if k < (j - 1) as nat {
            lemma_nice_increasing(k, (j - 1) as nat);
        }
        assert(nice_value(k) * target <= nice_value((j - 1) as nat) * target) by (nonlinear_arith)
            requires
                nice_value(k) <= nice_value((j - 1) as nat),
                target > 0,
        ;
    }
}

proof fn lemma_step_index_from(j: nat, span: int, target: int)
    requires
        target >= 1,
        span >= 1,
        nice_value(j) <= 3 * span,
        j == 0 || nice_value((j - 1) as nat) * target < span,
    ensures
        exists|k: nat| is_step_index(k, span, target),
    decreases 3 * span - nice_value(j),
{
    if nice_value(j) * target >= span {
        assert(is_step_index(j, span, target));
    } else {
        lemma_nice_next(j);
        assert(nice_value(j) < span) by (nonlinear_arith)
            requires
                nice_value(j) * target < span,
                target >= 1,
                nice_value(j) >= 1,
        {
        }
        lemma_step_index_from(j + 1, span, target);
    }
}

/// Every positive span has a tick step, and it is a nice value.
pub proof fn lemma_tick_step(span: int, target: int)
    requires
        span >= 1,
        target >= 1,
    ensures
        is_nice(tick_step(span, target)),
        tick_step(span, target) >= 1,
        tick_step(span, target) * target >= span,
{
    lemma_pow10_positive(0);
    assert(nice_value(0) >= 1);
    lemma_step_index_from(0, span, target);
    let j = choose|j: nat| is_step_index(j, span, target);
    lemma_pow10_positive(j / 3);
}

/// Ticks of a proper range ascend strictly by one nice step, start at or
/// below its low end and stop within one step below its high end; the high
/// end is itself a tick whenever it is a multiple of the step.
pub proof fn lemma_ticks_cover(lo: int, hi: int, config: TickConfig)
    requires
        lo < hi,
    ensures
        ({
            let t = ticks_of(lo, hi, config);
            let step = tick_step(hi - lo, target_ticks(config));
            &&& is_nice(step)
            &&& t.len() >= 1
            &&& forall|i: int| 0 <= i < t.len() - 1 ==> #[trigger] t[i + 1] - t[i] == step
            &&& forall|i: int, k: int| 0 <= i < k < t.len() ==> t[i] < t[k]
            &&& t[0] <= lo
            &&& t[t.len() - 1] <= hi < t[t.len() - 1] + step
            &&& (hi % step == 0 ==> t[t.len() - 1] == hi)
        }),
{
    let step = tick_step(hi - lo, target_ticks(config));
    lemma_tick_step(hi - lo, target_ticks(config));
    let start = tick_start(lo, step);
    vstd::arithmetic::div_mod::lemma_fundamental_div_mod(lo, step);
    vstd::arithmetic::div_mod::lemma_mod_bound(lo, step);
    assert(start <= lo < start + step) by (nonlinear_arith)
        requires
            lo == step * (lo / step) + lo % step,
            0 <= lo % step < step,
            start == (lo / step) * step,
    ;
    let t = ticks_of(lo, hi, config);
    let n = (hi - start) / step + 1;
    vstd::arithmetic::div_mod::lemma_fundamental_div_mod(hi - start, step);
    vstd::arithmetic::div_mod::lemma_mod_bound(hi - start, step);
    assert(n >= 1) by (nonlinear_arith)
        requires
            n == (hi - start) / step + 1,
            hi - start >= 0,
            step >= 1,
    ;
    assert(t.len() == n);
    assert forall|i: int| 0 <= i < t.len() - 1 implies #[trigger] t[i + 1] - t[i] == step by {
        assert(start + (i + 1) * step - (start + i * step) == step) by (nonlinear_arith);
    }
    assert forall|i: int, k: int| 0 <= i < k < t.len() implies t[i] < t[k] by {
        assert(start + i * step < start + k * step) by (nonlinear_arith)
            requires
                i < k,
                step >= 1,
        ;
    }
    let q = (hi - start) / step;
    assert(t[t.len() - 1] == start + q * step);
    assert(start + q * step <= hi < start + q * step + step) by (nonlinear_arith)
        requires
            hi - start == step * q + (hi - start) % step,
            0 <= (hi - start) % step < step,
    ;
    if hi % step == 0 {
        vstd::arithmetic::div_mod::lemma_fundamental_div_mod(hi, step);
        vstd::arithmetic::div_mod::lemma_fundamental_div_mod(start, step);
        assert(start % step == 0) by {
            vstd::arithmetic::div_mod::lemma_mod_multiples_basic(lo / step, step);
        }
        let a = hi / step;
        let b = start / step;
        assert(start + q * step == hi) by (nonlinear_arith)
            requires
                hi == step * a,
                start == step * b,
                start + q * step <= hi < start + q * step + step,
                step >= 1,
        {
            assert((b + q) * step <= a * step < (b + q + 1) * step);
            assert(b + q <= a < b + q + 1);
        }
    }
    assert(is_nice(step));
    assert(t.len() >= 1);
    assert(t[0] == start + 0 * step);
    assert(t[0] <= lo);
    assert(t[t.len() - 1] <= hi < t[t.len() - 1] + step);
}

/// The midpoint of the tick band, at least two.
pub fn target_tick_count(config: &TickConfig) -> (r: u64)
    ensures
        r == target_ticks(*config),
        r >= 2,
{
    let a = config.min_ticks as u64;
    let b = config.max_ticks as u64;
    let mid = a / 2 + b / 2 + (a % 2 + b % 2) / 2;
    assert(mid == (a + b) / 2);
    if mid < 2 {
        2
    } else {
        mid
    }
}

/// The smallest step of the form {1, 2, 5} x 10^k whose `target` multiples cover `span`.
pub fn nice_step(span: u64, target: u64) -> (step: u64)
    requires
        1 <= span <= 2 * COORD_MAX,
        target >= 1,
    ensures
        step == tick_step(span as int, target as int),
        is_nice(step as int),
        1 <= step <= 3 * span,
{
    let mut step: u64 = 1;
    let mut mag: u64 = 1;
    let mut which: u8 = 0;
    let ghost mut j: nat = 0;
    assert(nice_value(0) == 1) by {
        reveal_with_fuel(pow10, 1);
    }
    let mut covered: bool = target as u128 >= span as u128;
    while !covered
        invariant
            1 <= span <= 2 * COORD_MAX,
            target >= 1,
            step == nice_value(j),
            mag == pow10(j / 3),
            which == j % 3,
            1 <= mag <= step <= 3 * span,
            step == (if which == 0 {
                mag as int
            } else if which == 1 {
                2 * mag
            } else {
                5 * mag
            }),
            j == 0 || nice_value((j - 1) as nat) * target < span,
            covered == (step * target >= span),
        decreases 3 * span - step,
    {
        assert(step < span) by (nonlinear_arith)
            requires
                step * target < span,
                target >= 1,
        ;
        let ghost old_step = step;
        let ghost prev = j;
        proof {
            j = j + 1;
            if prev % 3 == 2 {
                assert(j / 3 == prev / 3 + 1);
            } else {
                assert(j / 3 == prev / 3);
            }
        }
        if which == 0 {
            step = 2 * mag;
            which = 1;
        } else if which == 1 {
            step = 5 * mag;
            which = 2;
        } else {
            mag = 10 * mag;
            step = mag;
            which = 0;
        }
        assert(old_step < step);
        assert((step as u128) * (target as u128) <= 6 * COORD_MAX * 0x1_0000_0000_0000_0000) by (nonlinear_arith)
            requires
                step <= 6 * COORD_MAX,
                target < 0x1_0000_0000_0000_0000,
        ;
        covered = (step as u128) * (target as u128) >= span as u128;
    }
    proof {
        assert(is_step_index(j, span as int, target as int));
        let k = choose|k: nat| is_step_index(k, span as int, target as int);
        lemma_step_index_unique(j, k, span as int, target as int);
    }
    step
}

/// A multiple of `step` within one step below `lo` is the floor multiple.
proof fn lemma_floor_multiple(lo: int, step: int, c: int)
    requires
        step >= 1,
        c * step <= lo < c * step + step,
    ensures
        tick_start(lo, step) == c * step,
{
    let f = lo / step;
    vstd::arithmetic::div_mod::lemma_fundamental_div_mod(lo, step);
    vstd::arithmetic::div_mod::lemma_mod_bound(lo, step);
    assert(f * step <= lo < f * step + step) by (nonlinear_arith)
        requires
            lo == step * f + lo % step,
            0 <= lo % step < step,
    ;
    assert(f == c) by (nonlinear_arith)
        requires
            f * step <= lo < f * step + step,
            c * step <= lo < c * step + step,
            step >= 1,
    ;
}

/// The largest multiple of `step` not above `lo`.
fn floor_multiple(lo: i64, step: u64) -> (r: i64)
    requires
        -COORD_MAX <= lo <= COORD_MAX,
        1 <= step <= 6 * COORD_MAX,
    ensures
        r == tick_start(lo as int, step as int),
        r <= lo < r + step,
{
    if lo >= 0 {
        let m = lo as u64;
        let q = m / step;
        assert(q * step <= m) by (nonlinear_arith)
            requires
                q == m / step,
                step >= 1,
        ;
        assert(m < q * step + step) by (nonlinear_arith)
            requires
                q == m / step,
                step >= 1,
        ;
        let r = (q * step) as i64;
        proof {
            lemma_floor_multiple(lo as int, step as int, q as int);
        }
        r
    } else {
        let m = (-lo) as u64;
        let q = (m + step - 1) / step;
        assert(q * step >= m && q * step < m + step) by (nonlinear_arith)
            requires
                q == (m + step - 1) as int / step as int,
                step >= 1,
        ;
        assert(q * step <= 8 * COORD_MAX);
        let r = -((q * step) as i64);
        proof {
            assert((-(q as int)) * step == -(q * step)) by (nonlinear_arith);
            lemma_floor_multiple(lo as int, step as int, -(q as int));
        }
        r
    }
}

/// Ticks at every multiple of a nice step from at or below `range_min` up to
/// `range_max`, in ascending order. A range with equal ends has one tick.
pub fn compute_ticks(range_min: i64, range_max: i64, config: &TickConfig) -> (ticks: Vec<i64>)
    requires
        -COORD_MAX <= range_min <= COORD_MAX,
        -COORD_MAX <= range_max <= COORD_MAX,
    ensures
        ticks@.map_values(|v: i64| v as int) == ticks_of(range_min as int, range_max as int, *config),
{
    if range_min == range_max {
        let v = vec![range_min];
        assert(v@.map_values(|v: i64| v as int) =~= seq![range_min as int]);
        return v;
    }
    let (lo, hi) = if range_min < range_max {
        (range_min, range_max)
    } else {
        (range_max, range_min)
    };
    let target = target_tick_count(config);
    let span = (hi - lo) as u64;
    let step = nice_step(span, target);
    let start = floor_multiple(lo, step);
    let ghost expected = tick_run(lo as int, hi as int, step as int);
    let mut ticks: Vec<i64> = Vec::new();
    let mut v: i64 = start;
    let ghost mut k: int = 0;
    while v <= hi
        invariant
            -COORD_MAX <= lo < hi <= COORD_MAX,
            1 <= step <= 3 * (hi - lo),
            start == tick_start(lo as int, step as int),
            start <= lo < start + step,
            v == start + k * step,
            0 <= k,
            v <= hi + step,
            k > 0 ==> v - step <= hi,
            ticks@.len() == k,
            forall|i: int| 0 <= i < k ==> ticks@[i] == start + i * step,
        decreases hi + step - v,
    {
        ticks.push(v);
        proof {
            assert(start + (k + 1) * step == v + step) by (nonlinear_arith)
                requires
                    v == start + k * step,
            ;
            k = k + 1;
        }
        v = v + step as i64;
    }
    proof {
        let n = (hi - start) / (step as int) + 1;
        assert(k == n) by (nonlinear_arith)
            requires
                v == start + k * step,
                v - step <= hi,
                hi < v,
                step >= 1,
                n == (hi - start) / (step as int) + 1,
                k >= 1,
        {
            let q = (hi - start) / (step as int);
            assert(q * step <= hi - start < q * step + step);
        }
        assert(ticks@.map_values(|v: i64| v as int) =~= expected);
    }
    ticks
}

} // verus!
