//! Fixed-point conversions between USD values, asset units and the
//! synthetic stable asset's decimal base.
//!
//! Prices are supplied by the caller as `{min, max}` pairs; the engine
//! always picks the side unfavorable to the trader and never assumes the
//! two sides are equal.

use vstd::prelude::*;

use crate::error::ContractError;
use crate::math::pow10;

verus! {

/// An oracle answer for one asset: both sides of the spread, fixed-point
/// USD per whole unit.
#[derive(Clone, Copy, Debug, PartialEq, Eq, Structural)]
pub struct PricePair {
    pub min: u128,
    pub max: u128,
}

impl PricePair {
    /// A usable quote: both sides positive, the spread ordered.
    pub open spec fn valid(self) -> bool {
        0 < self.min <= self.max
    }

    /// Validate an externally supplied quote before pricing with it.
    pub fn check(self) -> (r: bool)
        ensures
            r == self.valid(),
    {
        0 < self.min && self.min <= self.max
    }
}

/// Asset units worth `usd` at `price`, rounded down.
pub open spec fn spec_usd_to_token(usd: int, price: int, decimals: nat) -> int {
    usd * pow10(decimals) / price
}

/// USD value of `amount` asset units at `price`, rounded down.
pub open spec fn spec_token_to_usd(amount: int, price: int, decimals: nat) -> int {
    amount * price / pow10(decimals) as int
}

/// Rebase an amount from one decimal count to another.
pub open spec fn spec_adjust_decimals(amount: int, decimals_div: nat, decimals_mul: nat) -> int {
    amount * pow10(decimals_mul) / pow10(decimals_div) as int
}

/// Asset units worth `usd`, valued at the given price side.
pub fn usd_to_token(usd: u128, price: u128, decimals: u32) -> (r: Result<u128, ContractError>)
    requires
        price > 0,
        decimals <= crate::MAX_TOKEN_DECIMALS,
    ensures
        usd * pow10(decimals as nat) <= u128::MAX ==> r == Ok::<u128, ContractError>(
            spec_usd_to_token(usd as int, price as int, decimals as nat) as u128,
        ) && 0 <= spec_usd_to_token(usd as int, price as int, decimals as nat) <= u128::MAX,
        usd * pow10(decimals as nat) > u128::MAX ==> r == Err::<u128, ContractError>(
            ContractError::ArithmeticFailure,
        ),
{
    let scale = crate::math::pow10_u128(decimals);
    crate::math::mul_div(usd, scale, price)
}

/// The smallest token amount `usd` can buy: valued at the max price.
pub fn usd_to_token_min(usd: u128, price: PricePair, decimals: u32) -> (r: Result<
    u128,
    ContractError,
>)
    requires
        price.valid(),
        decimals <= crate::MAX_TOKEN_DECIMALS,
    ensures
        usd * pow10(decimals as nat) <= u128::MAX ==> r == Ok::<u128, ContractError>(
            spec_usd_to_token(usd as int, price.max as int, decimals as nat) as u128,
        ) && 0 <= spec_usd_to_token(usd as int, price.max as int, decimals as nat) <= u128::MAX,
        usd * pow10(decimals as nat) > u128::MAX ==> r == Err::<u128, ContractError>(
            ContractError::ArithmeticFailure,
        ),
{
    usd_to_token(usd, price.max, decimals)
}

/// The largest token amount `usd` can stand for: valued at the min price.
pub fn usd_to_token_max(usd: u128, price: PricePair, decimals: u32) -> (r: Result<
    u128,
    ContractError,
>)
    requires
        price.valid(),
        decimals <= crate::MAX_TOKEN_DECIMALS,
    ensures
        usd * pow10(decimals as nat) <= u128::MAX ==> r == Ok::<u128, ContractError>(
            spec_usd_to_token(usd as int, price.min as int, decimals as nat) as u128,
        ) && 0 <= spec_usd_to_token(usd as int, price.min as int, decimals as nat) <= u128::MAX,
        usd * pow10(decimals as nat) > u128::MAX ==> r == Err::<u128, ContractError>(
            ContractError::ArithmeticFailure,
        ),
{
    usd_to_token(usd, price.min, decimals)
}

/// The least USD value of `amount` asset units: valued at the min price.
pub fn token_to_usd_min(amount: u128, price: PricePair, decimals: u32) -> (r: Result<
    u128,
    ContractError,
>)
    requires
        price.valid(),
        decimals <= crate::MAX_TOKEN_DECIMALS,
    ensures
        amount * price.min <= u128::MAX ==> r == Ok::<u128, ContractError>(
            spec_token_to_usd(amount as int, price.min as int, decimals as nat) as u128,
        ) && 0 <= spec_token_to_usd(amount as int, price.min as int, decimals as nat) <= u128::MAX,
        amount * price.min > u128::MAX ==> r == Err::<u128, ContractError>(
            ContractError::ArithmeticFailure,
        ),
{
    let scale = crate::math::pow10_u128(decimals);
    proof {
        crate::math::lemma_pow10_pos(decimals as nat);
    }
    crate::math::mul_div(amount, price.min, scale)
}

/// Rebase `amount` from an asset with `decimals_div` decimals to one with
/// `decimals_mul` decimals.
pub fn adjust_for_decimals(amount: u128, decimals_div: u32, decimals_mul: u32) -> (r: Result<
    u128,
    ContractError,
>)
    requires
        decimals_div <= crate::MAX_TOKEN_DECIMALS,
        decimals_mul <= crate::MAX_TOKEN_DECIMALS,
    ensures
        amount * pow10(decimals_mul as nat) <= u128::MAX ==> r == Ok::<u128, ContractError>(
            spec_adjust_decimals(amount as int, decimals_div as nat, decimals_mul as nat) as u128,
        ) && 0 <= spec_adjust_decimals(amount as int, decimals_div as nat, decimals_mul as nat)
            <= u128::MAX,
        amount * pow10(decimals_mul as nat) > u128::MAX ==> r == Err::<u128, ContractError>(
            ContractError::ArithmeticFailure,
        ),
{
    let mul_scale = crate::math::pow10_u128(decimals_mul);
    let div_scale = crate::math::pow10_u128(decimals_div);
    proof {
        crate::math::lemma_pow10_pos(decimals_div as nat);
    }
    crate::math::mul_div(amount, mul_scale, div_scale)
}

/// Token units redeemable for `usdg_amount` of synthetic stable against an
/// asset quoted at `price`: valued at the max price, then rebased from the
/// stable decimal base to the asset's.
pub open spec fn spec_redemption_amount(usdg_amount: int, max_price: int, decimals: nat) -> int {
    spec_adjust_decimals(
        usdg_amount * crate::PRICE_PRECISION / max_price,
        crate::USDG_DECIMALS as nat,
        decimals,
    )
}

pub fn get_redemption_amount(usdg_amount: u128, price: PricePair, decimals: u32) -> (r: Result<
    u128,
    ContractError,
>)
    requires
        price.valid(),
        decimals <= crate::MAX_TOKEN_DECIMALS,
    ensures
        usdg_amount * crate::PRICE_PRECISION <= u128::MAX && (usdg_amount
            * crate::PRICE_PRECISION / price.max as int) * pow10(decimals as nat) <= u128::MAX
            ==> r == Ok::<u128, ContractError>(
            spec_redemption_amount(usdg_amount as int, price.max as int, decimals as nat) as u128,
        ) && 0 <= spec_redemption_amount(usdg_amount as int, price.max as int, decimals as nat)
            <= u128::MAX,
        usdg_amount * crate::PRICE_PRECISION > u128::MAX || (usdg_amount * crate::PRICE_PRECISION
            / price.max as int) * pow10(decimals as nat) > u128::MAX ==> r == Err::<
            u128,
            ContractError,
        >(ContractError::ArithmeticFailure),
{
    let raw = match crate::math::mul_div(usdg_amount, crate::PRICE_PRECISION, price.max) {
        Ok(v) => v,
        Err(e) => {
            return Err(e);
        },
    };
    adjust_for_decimals(raw, crate::USDG_DECIMALS, decimals)
}

} // verus!
