//! Unrealized profit-and-loss arithmetic: the delta of a position against
//! the mark price, the blended average entry price after an increase, and
//! the blended average price of the aggregate short book.

use vstd::prelude::*;

use crate::error::ContractError;
use crate::fees::spec_abs_diff;

verus! {

/// Whether the mark price is on the profitable side of the entry price.
pub open spec fn spec_has_profit(is_long: bool, average_price: int, mark_price: int) -> bool {
    if is_long {
        mark_price > average_price
    } else {
        average_price > mark_price
    }
}

/// Unrealized delta before the anti-wick guard.
pub open spec fn spec_raw_delta(size: int, average_price: int, mark_price: int) -> int {
    size * spec_abs_diff(average_price, mark_price) / average_price
}

/// The minimum-profit threshold in force. The lockout covers exactly the
/// window `now - last_increased_time < min_profit_time`; from the boundary
/// second onward the threshold is zero and small profits stand.
pub open spec fn spec_min_bps(
    now: int,
    last_increased_time: int,
    min_profit_time: int,
    min_profit_bps: int,
) -> int {
    if now >= last_increased_time + min_profit_time {
        0
    } else {
        min_profit_bps
    }
}

/// Unrealized delta with the anti-wick guard: a profit too small to clear
/// the minimum-profit threshold during the lockout window counts as zero.
pub open spec fn spec_delta(
    size: int,
    average_price: int,
    mark_price: int,
    is_long: bool,
    now: int,
    last_increased_time: int,
    min_profit_time: int,
    min_profit_bps: int,
) -> int {
    let raw = spec_raw_delta(size, average_price, mark_price);
    if spec_has_profit(is_long, average_price, mark_price) && raw * 10000 <= spec_min_bps(
        now,
        last_increased_time,
        min_profit_time,
        min_profit_bps,
    ) {
        0
    } else {
        raw
    }
}

/// The delta computation stays within the fixed-point range.
pub open spec fn delta_fits(size: int, average_price: int, mark_price: int, is_long: bool) -> bool {
    &&& size * spec_abs_diff(average_price, mark_price) <= u128::MAX
    &&& (spec_has_profit(is_long, average_price, mark_price) ==> spec_raw_delta(
        size,
        average_price,
        mark_price,
    ) * 10000 <= u128::MAX)
}

/// Unrealized PnL of a position against the supplied mark price: the side
/// (profit or loss) and its USD magnitude.
pub fn get_delta(
    size: u128,
    average_price: u128,
    is_long: bool,
    mark_price: u128,
    min_profit_bps: u128,
    min_profit_time: u64,
    last_increased_time: u64,
    now: u64,
) -> (r: Result<(bool, u128), ContractError>)
    ensures
        average_price == 0 ==> r == Err::<(bool, u128), ContractError>(
            ContractError::InvalidAmount,
        ),
        average_price > 0 && delta_fits(size as int, average_price as int, mark_price as int, is_long)
            ==> r == Ok::<(bool, u128), ContractError>(
            (
                spec_has_profit(is_long, average_price as int, mark_price as int),
                spec_delta(
                    size as int,
                    average_price as int,
                    mark_price as int,
                    is_long,
                    now as int,
                    last_increased_time as int,
                    min_profit_time as int,
                    min_profit_bps as int,
                ) as u128,
            ),
        ),
        average_price > 0 && !delta_fits(
            size as int,
            average_price as int,
            mark_price as int,
            is_long,
        ) ==> r == Err::<(bool, u128), ContractError>(ContractError::ArithmeticFailure),
        r matches Ok((_, d)) ==> d <= size * spec_abs_diff(average_price as int, mark_price as int)
            / average_price as int,
{
    if average_price == 0 {
        return Err(ContractError::InvalidAmount);
    }
    let price_delta: u128 = if average_price > mark_price {
        average_price - mark_price
    } else {
        mark_price - average_price
    };
    let delta = match crate::math::mul_div(size, price_delta, average_price) {
        Ok(v) => v,
        Err(e) => {
            return Err(e);
        },
    };
    let has_profit = if is_long {
        mark_price > average_price
    } else {
        average_price > mark_price
    };
    let min_bps: u128 = if now as u128 >= last_increased_time as u128 + min_profit_time as u128 {
        0
    } else {
        min_profit_bps
    };
    if has_profit {
        let scaled = match delta.checked_mul(10000) {
            Some(v) => v,
            None => {
                return Err(ContractError::ArithmeticFailure);
            },
        };
        if scaled <= min_bps {
            return Ok((has_profit, 0));
        }
    }
    Ok((has_profit, delta))
}

/// The divisor of the average-price blend: profit widens it for longs and
/// narrows it for shorts.
pub open spec fn spec_divisor(is_long: bool, has_profit: bool, next_size: int, delta: int) -> int {
    if is_long == has_profit {
        next_size + delta
    } else {
        next_size - delta
    }
}

/// Blended average entry price after adding `size_delta` at `mark_price`.
/// The unrealized delta folded into the blend is valued at `delta_price`,
/// the price side unfavorable to the trader.
pub open spec fn spec_next_average_price(
    size: int,
    average_price: int,
    delta_price: int,
    mark_price: int,
    is_long: bool,
    size_delta: int,
    now: int,
    last_increased_time: int,
    min_profit_time: int,
    min_profit_bps: int,
) -> int {
    let delta = spec_delta(
        size,
        average_price,
        delta_price,
        is_long,
        now,
        last_increased_time,
        min_profit_time,
        min_profit_bps,
    );
    let has_profit = spec_has_profit(is_long, average_price, delta_price);
    let next_size = size + size_delta;
    mark_price * next_size / spec_divisor(is_long, has_profit, next_size, delta)
}

/// The average-price blend stays within the fixed-point range and its
/// divisor is positive.
pub open spec fn next_avg_price_fits(
    size: int,
    average_price: int,
    delta_price: int,
    mark_price: int,
    is_long: bool,
    size_delta: int,
    now: int,
    last_increased_time: int,
    min_profit_time: int,
    min_profit_bps: int,
) -> bool {
    let delta = spec_delta(
        size,
        average_price,
        delta_price,
        is_long,
        now,
        last_increased_time,
        min_profit_time,
        min_profit_bps,
    );
    let has_profit = spec_has_profit(is_long, average_price, delta_price);
    let next_size = size + size_delta;
    &&& delta_fits(size, average_price, delta_price, is_long)
    &&& size + size_delta <= u128::MAX
    &&& 0 < spec_divisor(is_long, has_profit, next_size, delta) <= u128::MAX
    &&& mark_price * next_size <= u128::MAX
}

pub fn get_next_average_price(
    size: u128,
    average_price: u128,
    is_long: bool,
    delta_price: u128,
    mark_price: u128,
    size_delta: u128,
    min_profit_bps: u128,
    min_profit_time: u64,
    last_increased_time: u64,
    now: u64,
) -> (r: Result<u128, ContractError>)
    ensures
        average_price == 0 ==> r == Err::<u128, ContractError>(ContractError::InvalidAmount),
        average_price > 0 && next_avg_price_fits(
            size as int,
            average_price as int,
            delta_price as int,
            mark_price as int,
            is_long,
            size_delta as int,
            now as int,
            last_increased_time as int,
            min_profit_time as int,
            min_profit_bps as int,
        ) ==> r == Ok::<u128, ContractError>(
            spec_next_average_price(
                size as int,
                average_price as int,
                delta_price as int,
                mark_price as int,
                is_long,
                size_delta as int,
                now as int,
                last_increased_time as int,
                min_profit_time as int,
                min_profit_bps as int,
            ) as u128,
        ),
        average_price > 0 && !next_avg_price_fits(
            size as int,
            average_price as int,
            delta_price as int,
            mark_price as int,
            is_long,
            size_delta as int,
            now as int,
            last_increased_time as int,
            min_profit_time as int,
            min_profit_bps as int,
        ) ==> r == Err::<u128, ContractError>(ContractError::ArithmeticFailure),
{
    let (has_profit, delta) = match get_delta(
        size,
        average_price,
        is_long,
        delta_price,
        min_profit_bps,
        min_profit_time,
        last_increased_time,
        now,
    ) {
        Ok(v) => v,
        Err(e) => {
            return Err(e);
        },
    };
    let next_size = match size.checked_add(size_delta) {
        Some(v) => v,
        None => {
            return Err(ContractError::ArithmeticFailure);
        },
    };
    let divisor: u128 = if is_long == has_profit {
        match next_size.checked_add(delta) {
            Some(v) => v,
            None => {
                return Err(ContractError::ArithmeticFailure);
            },
        }
    } else {
        match next_size.checked_sub(delta) {
            Some(v) => v,
            None => {
                return Err(ContractError::ArithmeticFailure);
            },
        }
    };
    if divisor == 0 {
        return Err(ContractError::ArithmeticFailure);
    }
    crate::math::mul_div(mark_price, next_size, divisor)
}

/// Blended average price of the aggregate short book after `size_delta`
/// of new shorts enter at `next_price`.
pub open spec fn spec_next_global_short_average_price(
    global_size: int,
    global_average_price: int,
    next_price: int,
    size_delta: int,
) -> int {
    let delta = global_size * spec_abs_diff(global_average_price, next_price)
        / global_average_price;
    let has_profit = global_average_price > next_price;
    let next_size = global_size + size_delta;
    let divisor = if has_profit {
        next_size - delta
    } else {
        next_size + delta
    };
    next_price * next_size / divisor
}

pub open spec fn next_global_short_avg_fits(
    global_size: int,
    global_average_price: int,
    next_price: int,
    size_delta: int,
) -> bool {
    let delta = global_size * spec_abs_diff(global_average_price, next_price)
        / global_average_price;
    let has_profit = global_average_price > next_price;
    let next_size = global_size + size_delta;
    let divisor = if has_profit {
        next_size - delta
    } else {
        next_size + delta
    };
    &&& global_size * spec_abs_diff(global_average_price, next_price) <= u128::MAX
    &&& global_size + size_delta <= u128::MAX
    &&& 0 < divisor <= u128::MAX
    &&& next_price * next_size <= u128::MAX
}

pub fn get_next_global_short_average_price(
    global_size: u128,
    global_average_price: u128,
    next_price: u128,
    size_delta: u128,
) -> (r: Result<u128, ContractError>)
    ensures
        global_average_price == 0 ==> r == Err::<u128, ContractError>(
            ContractError::InvalidAmount,
        ),
        global_average_price > 0 && next_global_short_avg_fits(
            global_size as int,
            global_average_price as int,
            next_price as int,
            size_delta as int,
        ) ==> r == Ok::<u128, ContractError>(
            spec_next_global_short_average_price(
                global_size as int,
                global_average_price as int,
                next_price as int,
                size_delta as int,
            ) as u128,
        ),
        global_average_price > 0 && !next_global_short_avg_fits(
            global_size as int,
            global_average_price as int,
            next_price as int,
            size_delta as int,
        ) ==> r == Err::<u128, ContractError>(ContractError::ArithmeticFailure),
{
    if global_average_price == 0 {
        return Err(ContractError::InvalidAmount);
    }
    let price_delta: u128 = if global_average_price > next_price {
        global_average_price - next_price
    } else {
        next_price - global_average_price
    };
    let delta = match crate::math::mul_div(global_size, price_delta, global_average_price) {
        Ok(v) => v,
        Err(e) => {
            return Err(e);
        },
    };
    let has_profit = global_average_price > next_price;
    let next_size = match global_size.checked_add(size_delta) {
        Some(v) => v,
        None => {
            return Err(ContractError::ArithmeticFailure);
        },
    };
    let divisor: u128 = if has_profit {
        match next_size.checked_sub(delta) {
            Some(v) => v,
            None => {
                return Err(ContractError::ArithmeticFailure);
            },
        }
    } else {
        match next_size.checked_add(delta) {
            Some(v) => v,
            None => {
                return Err(ContractError::ArithmeticFailure);
            },
        }
    };
    if divisor == 0 {
        return Err(ContractError::ArithmeticFailure);
    }
    crate::math::mul_div(next_price, next_size, divisor)
}

} // verus!
