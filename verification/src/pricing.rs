//! The pricing function: a linear decay between two block/price endpoints,
//! computed with saturating integer arithmetic and floored at the minimum
//! price.

use vstd::arithmetic::div_mod::lemma_div_is_ordered;
use vstd::arithmetic::div_mod::lemma_div_pos_is_pos;
use vstd::arithmetic::mul::lemma_mul_inequality;
use vstd::arithmetic::mul::lemma_mul_nonnegative;
use vstd::prelude::*;

verus! {

/// Subtraction clamped at zero: the mathematical value of a saturating
/// subtraction of values in the `u128` range.
pub open spec fn clamped_sub(a: int, b: int) -> int {
    if a >= b {
        a - b
    } else {
        0
    }
}

/// Multiplication clamped at `u128::MAX`: the mathematical value of a
/// saturating multiplication of values in the `u128` range.
pub open spec fn clamped_mul(a: int, b: int) -> int {
    if a * b > u128::MAX {
        u128::MAX as int
    } else {
        a * b
    }
}

/// The value at `x` of the decaying line through `(x_start, y_start)` and
/// `(x_end, y_end)`, clamped to `y_end` past the end and to `y_start` before
/// the start.
///
/// Inside the interval the decrease is computed in whichever ratio is at
/// least one, so that integer truncation loses as little resolution as
/// possible: when the price span exceeds the block span, the price drop per
/// block is multiplied by the elapsed blocks; otherwise the elapsed blocks
/// are divided by the blocks per unit of price. A price span of zero (a flat
/// or inverted schedule) decreases nothing.
pub open spec fn spec_linear_decrease(
    x_start: int,
    y_start: int,
    x_end: int,
    y_end: int,
    x: int,
) -> int {
    if x >= x_end {
        y_end
    } else if x <= x_start {
        y_start
    } else {
        let steps = x - x_start;
        let x_span = x_end - x_start;
        let y_span = clamped_sub(y_start, y_end);
        if y_span > x_span {
            clamped_sub(y_start, clamped_mul(steps, y_span / x_span))
        } else if y_span == 0 {
            y_start
        } else {
            clamped_sub(y_start, steps / (x_span / y_span))
        }
    }
}

/// The full price schedule: the decaying line from `(start_time, start_price)`
/// to `(end_time, min_price)`, additionally floored at `min_price`. The floor
/// is redundant while `min_price <= start_price`, but keeps the price at or
/// above the minimum even for a schedule whose minimum was raised above the
/// line after it was set.
pub open spec fn spec_floored_price(
    start_time: int,
    start_price: int,
    end_time: int,
    min_price: int,
    x: int,
) -> int {
    let line = spec_linear_decrease(start_time, start_price, end_time, min_price, x);
    if line >= min_price {
        line
    } else {
        min_price
    }
}

/// Saturating multiplication on `u128`.
pub fn saturating_mul_u128(a: u128, b: u128) -> (r: u128)
    ensures
        r == clamped_mul(a as int, b as int),
{
    match a.checked_mul(b) {
        Some(p) => p,
        None => u128::MAX,
    }
}

/// Returns the value of the decaying line through `(x_start, y_start)` and
/// `(x_end, y_end)` at `x`, per `spec_linear_decrease`.
pub fn linear_decrease(x_start: u128, y_start: u128, x_end: u128, y_end: u128, x: u128) -> (r:
    u128)
    ensures
        r == spec_linear_decrease(x_start as int, y_start as int, x_end as int, y_end as int, x as int),
{
    let steps: u128 = x.saturating_sub(x_start);
    let x_span: u128 = x_end.saturating_sub(x_start);
    let y_span: u128 = y_start.saturating_sub(y_end);

    if x >= x_end {
        y_end
    } else if x <= x_start {
        y_start
    } else if y_span > x_span {
        let y_per_x: u128 = y_span / x_span;
        y_start.saturating_sub(saturating_mul_u128(steps, y_per_x))
    } else if y_span == 0 {
        y_start
    } else {
        let x_per_y: u128 = x_span / y_span;
        proof {
            lemma_div_is_ordered(y_span as int, x_span as int, y_span as int);
            assert(y_span as int / y_span as int == 1) by (nonlinear_arith)
                requires
                    y_span >= 1,
            ;
        }
        y_start.saturating_sub(steps / x_per_y)
    }
}

/// Clamped multiplication is monotone in its first argument.
proof fn lemma_clamped_mul_monotone(a1: int, a2: int, b: int)
    requires
        0 <= a1 <= a2,
        0 <= b,
    ensures
        clamped_mul(a1, b) <= clamped_mul(a2, b),
{
    lemma_mul_inequality(a1, a2, b);
}

/// The decrease subtracted inside the schedule is nonnegative, so the line
/// never rises above the starting price while the minimum lies at or below
/// it.
proof fn lemma_linear_decrease_at_most_start(
    start_time: int,
    start_price: int,
    end_time: int,
    min_price: int,
    x: int,
)
    requires
        0 <= min_price <= start_price,
    ensures
        spec_linear_decrease(start_time, start_price, end_time, min_price, x) <= start_price,
{
    if x >= end_time || x <= start_time {
    } else {
        let steps = x - start_time;
        let x_span = end_time - start_time;
        let y_span = clamped_sub(start_price, min_price);
        if y_span > x_span {
            lemma_div_pos_is_pos(y_span, x_span);
            lemma_mul_nonnegative(steps, y_span / x_span);
        } else if y_span == 0 {
        } else {
            lemma_div_is_ordered(y_span, x_span, y_span);
            assert(y_span / y_span == 1) by (nonlinear_arith)
                requires
                    y_span >= 1,
            ;
            lemma_div_pos_is_pos(steps, x_span / y_span);
        }
    }
}

/// The floored price never falls below the minimum price, whatever the
/// schedule and whatever the block.
pub proof fn lemma_floored_price_at_least_min(
    start_time: int,
    start_price: int,
    end_time: int,
    min_price: int,
    x: int,
)
    ensures
        spec_floored_price(start_time, start_price, end_time, min_price, x) >= min_price,
{
}

/// At or after the end of the schedule the floored price is exactly the
/// minimum price, whatever the rest of the schedule.
pub proof fn lemma_floored_price_after_end(
    start_time: int,
    start_price: int,
    end_time: int,
    min_price: int,
    x: int,
)
    requires
        x >= end_time,
    ensures
        spec_floored_price(start_time, start_price, end_time, min_price, x) == min_price,
{
}

/// At or before the start of a forward schedule whose minimum does not exceed
/// its starting price, the floored price is exactly the starting price.
pub proof fn lemma_floored_price_before_start(
    start_time: int,
    start_price: int,
    end_time: int,
    min_price: int,
    x: int,
)
    requires
        min_price <= start_price,
        start_time < end_time,
        x <= start_time,
    ensures
        spec_floored_price(start_time, start_price, end_time, min_price, x) == start_price,
{
}

/// While the minimum does not exceed the starting price, the floored price
/// lies between the two, at every block.
pub proof fn lemma_floored_price_bounds(
    start_time: int,
    start_price: int,
    end_time: int,
    min_price: int,
    x: int,
)
    requires
        0 <= min_price <= start_price,
    ensures
        min_price <= spec_floored_price(start_time, start_price, end_time, min_price, x)
            <= start_price,
{
    lemma_linear_decrease_at_most_start(start_time, start_price, end_time, min_price, x);
}

/// While the minimum does not exceed the starting price, the floored price is
/// monotonically non-increasing in the block number.
pub proof fn lemma_floored_price_monotone(
    start_time: int,
    start_price: int,
    end_time: int,
    min_price: int,
    x1: int,
    x2: int,
)
    requires
        0 <= min_price <= start_price,
        x1 <= x2,
    ensures
        spec_floored_price(start_time, start_price, end_time, min_price, x2)
            <= spec_floored_price(start_time, start_price, end_time, min_price, x1),
{
    let line1 = spec_linear_decrease(start_time, start_price, end_time, min_price, x1);
    let line2 = spec_linear_decrease(start_time, start_price, end_time, min_price, x2);
    if x2 >= end_time {
        // the price has reached the floor, and the floored price never lies
        // below it
    } else if x2 <= start_time {
        // both blocks precede the schedule, so both prices are the start price
        assert(line1 == start_price);
        assert(line2 == start_price);
    } else if x1 <= start_time {
        // the earlier block pays the full starting price and no price exceeds
        // it
        assert(line1 == start_price);
        lemma_linear_decrease_at_most_start(start_time, start_price, end_time, min_price, x2);
    } else {
        // both blocks lie strictly inside the schedule: the decrease grows
        // with the elapsed blocks, in whichever branch the spans select
        let steps1 = x1 - start_time;
        let steps2 = x2 - start_time;
        let x_span = end_time - start_time;
        let y_span = clamped_sub(start_price, min_price);
        if y_span > x_span {
            lemma_div_pos_is_pos(y_span, x_span);
            lemma_clamped_mul_monotone(steps1, steps2, y_span / x_span);
        } else if y_span == 0 {
        } else {
            lemma_div_is_ordered(y_span, x_span, y_span);
            assert(y_span / y_span == 1) by (nonlinear_arith)
                requires
                    y_span >= 1,
            ;
            lemma_div_is_ordered(steps1, steps2, x_span / y_span);
        }
    }
}

} // verus!
