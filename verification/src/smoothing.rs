//! Exponential smoothing: each tick a value closes a fraction of its gap to a target.
use vstd::prelude::*;
use crate::fixed::WHOLE;

verus! {

/// The fraction of a gap that closes in `dt` microseconds at `rate` millionths per second:
/// `rate * dt`, and never more than the whole gap.
pub open spec fn blend_fraction(rate: int, dt: int) -> int {
    if rate * dt >= WHOLE as int {
        WHOLE as int
    } else {
        rate * dt
    }
}

/// The part of a gap of `gap` millionths that `fraction` closes, rounded up: once the fraction is
/// positive, a gap that is open closes by at least one millionth.
pub open spec fn portion(gap: int, fraction: int) -> int {
    (gap * fraction + WHOLE - 1) / (WHOLE as int)
}

/// Where `current` stands after one tick on its way to `target`. A fraction of zero stands for
/// "no smoothing": the value is set on the target at once.
pub open spec fn approached(current: int, target: int, fraction: int) -> int {
    if fraction == 0 {
        target
    } else if target >= current {
        current + portion(target - current, fraction)
    } else {
        current - portion(current - target, fraction)
    }
}

/// Where `current` stands after one tick for each fraction of `fractions`, in order.
pub open spec fn approached_through(current: int, target: int, fractions: Seq<int>) -> int
    decreases fractions.len(),
{
    if fractions.len() == 0 {
        current
    } else {
        approached(
            approached_through(current, target, fractions.drop_last()),
            target,
            fractions.last(),
        )
    }
}

/// The distance between two values.
pub open spec fn gap(a: int, b: int) -> int {
    if a >= b {
        a - b
    } else {
        b - a
    }
}

/// The blend fraction of a tick.
pub fn smoothing(rate: u64, dt: u64) -> (fraction: u64)
    ensures
        fraction as int == blend_fraction(rate as int, dt as int),
        fraction <= WHOLE,
        fraction == 0 <==> (rate == 0 || dt == 0),
{
    proof {
        lemma_product_fits(rate as int, dt as int);
    }
    let product: u128 = (rate as u128) * (dt as u128);
    if product >= WHOLE as u128 {
        WHOLE
    } else {
        product as u64
    }
}

/// Moves `current` one tick toward `target`.
pub fn approach(current: i64, target: i64, fraction: u64) -> (r: i64)
    requires
        fraction <= WHOLE,
    ensures
        r as int == approached(current as int, target as int, fraction as int),
{
    if fraction == 0 {
        target
    } else if target >= current {
        let open: u64 = (target as i128 - current as i128) as u64;
        let closed: u64 = part_of(open, fraction);
        (current as i128 + closed as i128) as i64
    } else {
        let open: u64 = (current as i128 - target as i128) as u64;
        let closed: u64 = part_of(open, fraction);
        (current as i128 - closed as i128) as i64
    }
}

/// The part of a gap that a fraction closes.
fn part_of(open: u64, fraction: u64) -> (closed: u64)
    requires
        0 < fraction <= WHOLE,
    ensures
        closed as int == portion(open as int, fraction as int),
        closed <= open,
{
    proof {
        lemma_product_fits(open as int, fraction as int);
        lemma_portion_within_gap(open as int, fraction as int);
    }
    let product: u128 = (open as u128) * (fraction as u128);
    let closed: u128 = (product + (WHOLE as u128 - 1)) / (WHOLE as u128);
    closed as u64
}

proof fn lemma_product_fits(a: int, b: int)
    by (nonlinear_arith)
    requires
        0 <= a <= u64::MAX,
        0 <= b <= u64::MAX,
    ensures
        0 <= a * b <= u64::MAX * u64::MAX,
        (a * b == 0) <==> (a == 0 || b == 0),
{
}

/// A positive fraction closes at least one millionth of an open gap, and never more than the gap.
pub proof fn lemma_portion_within_gap(open: int, fraction: int)
    requires
        0 <= open,
        0 < fraction <= WHOLE,
    ensures
        portion(0, fraction) == 0,
        open > 0 ==> 1 <= portion(open, fraction) <= open,
        fraction == WHOLE ==> portion(open, fraction) == open,
{
    let w: int = WHOLE as int;
    assert(0 * fraction == 0);
    assert(open * fraction <= open * w && (open > 0 ==> open * fraction >= 1)) by (nonlinear_arith)
        requires
            0 <= open,
            0 < fraction <= w,
    ;
    if open > 0 {
        assert((open * fraction + w - 1) / w >= 1) by (nonlinear_arith)
            requires
                open * fraction >= 1,
                w > 0,
        ;
        assert((open * fraction + w - 1) / w <= open) by (nonlinear_arith)
            requires
                open * fraction <= open * w,
                w > 0,
        ;
    }
    if fraction == w {
        assert((open * w + w - 1) / w == open) by (nonlinear_arith)
            requires
                w > 0,
        ;
    }
}

/// One tick never carries a value past its target: the value stays between where it stood and
/// the target, and while the gap is open it closes by at least one millionth.
pub proof fn lemma_approach_never_overshoots(current: int, target: int, fraction: int)
    requires
        0 <= fraction <= WHOLE,
    ensures
        target >= current ==> current <= approached(current, target, fraction) <= target,
        target <= current ==> target <= approached(current, target, fraction) <= current,
        current != target ==> gap(approached(current, target, fraction), target) < gap(
            current,
            target,
        ),
        approached(target, target, fraction) == target,
        fraction == WHOLE ==> approached(current, target, fraction) == target,
{
    if fraction > 0 {
        lemma_portion_within_gap(gap(current, target), fraction);
    }
}

/// With the target held, a value that is smoothed tick after tick, each time by a fraction of at
/// most one, moves toward the target only: it never passes it, no tick takes it further away
/// than it stood after any earlier tick, and after as many ticks as the gap had millionths it has
/// arrived.
pub proof fn lemma_smoothing_converges_monotonically(
    current: int,
    target: int,
    fractions: Seq<int>,
)
    requires
        forall|i: int| 0 <= i < fractions.len() ==> 0 <= #[trigger] fractions[i] <= WHOLE,
    ensures
        target >= current ==> current <= approached_through(current, target, fractions) <= target,
        target <= current ==> target <= approached_through(current, target, fractions) <= current,
        forall|k: int|
            0 <= k <= fractions.len() ==> gap(
                approached_through(current, target, fractions),
                target,
            ) <= gap(#[trigger] approached_through(current, target, fractions.take(k)), target),
        gap(approached_through(current, target, fractions), target) <= gap(current, target)
            - fractions.len() || approached_through(current, target, fractions) == target,
    decreases fractions.len(),
{
    let n: int = fractions.len() as int;
    if n == 0 {
        assert forall|k: int| 0 <= k <= n implies gap(
            approached_through(current, target, fractions),
            target,
        ) <= gap(#[trigger] approached_through(current, target, fractions.take(k)), target) by {
            assert(fractions.take(k) =~= fractions);
        }
    } else {
        let earlier: Seq<int> = fractions.drop_last();
        let before: int = approached_through(current, target, earlier);
        lemma_smoothing_converges_monotonically(current, target, earlier);
        lemma_approach_never_overshoots(before, target, fractions.last());
        assert forall|k: int| 0 <= k <= n implies gap(
            approached_through(current, target, fractions),
            target,
        ) <= gap(#[trigger] approached_through(current, target, fractions.take(k)), target) by {
            if k == n {
                assert(fractions.take(k) =~= fractions);
            } else {
                assert(earlier.take(k) =~= fractions.take(k));
            }
        }
    }
}

} // verus!
