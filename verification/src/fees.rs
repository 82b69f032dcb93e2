//! Fee engine: margin fees, funding fees, and the basis-point schedule for
//! swaps and synthetic-stable mint/burn, including the dynamic component
//! that taxes trades moving an asset's issuance away from its target weight
//! share and rebates trades moving it closer.

use vstd::prelude::*;

use crate::asset::AssetState;
use crate::config::VaultConfig;
use crate::error::ContractError;

verus! {

/// USD fee charged for opening or closing `size_delta` of notional.
pub open spec fn spec_position_fee(size_delta: int, margin_fee_bps: int) -> int {
    size_delta - size_delta * (10000 - margin_fee_bps) / 10000
}

/// USD funding owed by a position of `size` whose entry snapshot of the
/// cumulative index is `entry`.
pub open spec fn spec_funding_fee(size: int, cumulative: int, entry: int) -> int {
    (cumulative - entry) * size / (crate::FUNDING_RATE_PRECISION as int)
}

/// Total margin fee: open/close fee on the delta plus outstanding funding
/// on the whole position.
pub open spec fn spec_margin_fee(
    size_delta: int,
    size: int,
    cumulative: int,
    entry: int,
    margin_fee_bps: int,
) -> int {
    spec_position_fee(size_delta, margin_fee_bps) + spec_funding_fee(size, cumulative, entry)
}

pub fn get_position_fee(size_delta: u128, cfg: &VaultConfig) -> (r: Result<u128, ContractError>)
    requires
        cfg.inv(),
    ensures
        size_delta * (10000 - cfg.margin_fee_basis_points) <= u128::MAX ==> r == Ok::<
            u128,
            ContractError,
        >(spec_position_fee(size_delta as int, cfg.margin_fee_basis_points as int) as u128) && 0
            <= spec_position_fee(size_delta as int, cfg.margin_fee_basis_points as int)
            <= size_delta,
        size_delta * (10000 - cfg.margin_fee_basis_points) > u128::MAX ==> r == Err::<
            u128,
            ContractError,
        >(ContractError::ArithmeticFailure),
{
    proof {
        crate::math::lemma_mul_div_le(
            size_delta as int,
            (10000 - cfg.margin_fee_basis_points) as int,
            10000,
        );
    }
    let after_fee = match crate::math::mul_div(
        size_delta,
        10000 - cfg.margin_fee_basis_points,
        10000,
    ) {
        Ok(v) => v,
        Err(e) => {
            return Err(e);
        },
    };
    Ok(size_delta - after_fee)
}

pub fn get_funding_fee(size: u128, cumulative: u128, entry: u128) -> (r: Result<
    u128,
    ContractError,
>)
    ensures
        entry > cumulative ==> r == Err::<u128, ContractError>(ContractError::ArithmeticFailure),
        entry <= cumulative && (cumulative - entry) * size <= u128::MAX ==> r == Ok::<
            u128,
            ContractError,
        >(spec_funding_fee(size as int, cumulative as int, entry as int) as u128) && 0
            <= spec_funding_fee(size as int, cumulative as int, entry as int) <= u128::MAX,
        entry <= cumulative && (cumulative - entry) * size > u128::MAX ==> r == Err::<
            u128,
            ContractError,
        >(ContractError::ArithmeticFailure),
{
    let diff = match cumulative.checked_sub(entry) {
        Some(v) => v,
        None => {
            return Err(ContractError::ArithmeticFailure);
        },
    };
    crate::math::mul_div(diff, size, crate::FUNDING_RATE_PRECISION)
}

/// The two margin-fee components stay within the fixed-point range.
pub open spec fn margin_fee_fits(
    size_delta: int,
    size: int,
    cumulative: int,
    entry: int,
    margin_fee_bps: int,
) -> bool {
    &&& size_delta * (10000 - margin_fee_bps) <= u128::MAX
    &&& entry <= cumulative
    &&& (cumulative - entry) * size <= u128::MAX
    &&& spec_margin_fee(size_delta, size, cumulative, entry, margin_fee_bps) <= u128::MAX
}

/// USD margin fee for changing a position by `size_delta` notional.
pub fn get_margin_fees(size_delta: u128, size: u128, cumulative: u128, entry: u128, cfg: &VaultConfig) -> (r:
    Result<u128, ContractError>)
    requires
        cfg.inv(),
    ensures
        margin_fee_fits(
            size_delta as int,
            size as int,
            cumulative as int,
            entry as int,
            cfg.margin_fee_basis_points as int,
        ) ==> r == Ok::<u128, ContractError>(
            spec_margin_fee(
                size_delta as int,
                size as int,
                cumulative as int,
                entry as int,
                cfg.margin_fee_basis_points as int,
            ) as u128,
        ) && 0 <= spec_margin_fee(
            size_delta as int,
            size as int,
            cumulative as int,
            entry as int,
            cfg.margin_fee_basis_points as int,
        ) <= u128::MAX,
        !margin_fee_fits(
            size_delta as int,
            size as int,
            cumulative as int,
            entry as int,
            cfg.margin_fee_basis_points as int,
        ) ==> r == Err::<u128, ContractError>(ContractError::ArithmeticFailure),
{
    let position_fee = match get_position_fee(size_delta, cfg) {
        Ok(v) => v,
        Err(e) => {
            return Err(e);
        },
    };
    let funding_fee = match get_funding_fee(size, cumulative, entry) {
        Ok(v) => v,
        Err(e) => {
            return Err(e);
        },
    };
    match position_fee.checked_add(funding_fee) {
        Some(v) => Ok(v),
        None => Err(ContractError::ArithmeticFailure),
    }
}

/// Issuance the dynamic fee compares against: the asset's weight share of
/// the total synthetic-stable supply.
pub open spec fn spec_target_usdg(weight: int, supply: int, total_weights: int) -> int {
    if total_weights == 0 {
        0
    } else {
        weight * supply / total_weights
    }
}

/// Issuance backed by the asset after the trade under consideration.
pub open spec fn spec_next_usdg(initial: int, delta: int, increment: bool) -> int {
    if increment {
        initial + delta
    } else if delta > initial {
        0
    } else {
        initial - delta
    }
}

pub open spec fn spec_abs_diff(a: int, b: int) -> int {
    if a > b {
        a - b
    } else {
        b - a
    }
}

/// The swap/mint/burn fee schedule: the flat `fee_bps` when dynamic fees
/// are off or the asset has no target share; otherwise `fee_bps` minus a
/// rebate proportional to how much the trade narrows the deviation from
/// target, or plus a tax proportional to the average deviation it causes.
pub open spec fn spec_fee_basis_points(
    has_dynamic: bool,
    initial: int,
    delta: int,
    increment: bool,
    weight: int,
    supply: int,
    total_weights: int,
    fee_bps: int,
    tax_bps: int,
) -> int {
    if !has_dynamic {
        fee_bps
    } else {
        let next = spec_next_usdg(initial, delta, increment);
        let target = spec_target_usdg(weight, supply, total_weights);
        if target == 0 {
            fee_bps
        } else {
            let initial_diff = spec_abs_diff(initial, target);
            let next_diff = spec_abs_diff(next, target);
            if next_diff < initial_diff {
                let rebate = tax_bps * initial_diff / target;
                if rebate > fee_bps {
                    0
                } else {
                    fee_bps - rebate
                }
            } else {
                let average_diff = (initial_diff + next_diff) / 2;
                let capped_diff = if average_diff > target {
                    target
                } else {
                    average_diff
                };
                fee_bps + tax_bps * capped_diff / target
            }
        }
    }
}

/// Law: the fee schedule is clamped to `[0, fee_bps + tax_bps]` on every
/// input.
pub proof fn lemma_fee_basis_points_clamped(
    has_dynamic: bool,
    initial: int,
    delta: int,
    increment: bool,
    weight: int,
    supply: int,
    total_weights: int,
    fee_bps: int,
    tax_bps: int,
)
    requires
        initial >= 0,
        delta >= 0,
        weight >= 0,
        supply >= 0,
        total_weights >= 0,
        fee_bps >= 0,
        tax_bps >= 0,
    ensures
        0 <= spec_fee_basis_points(
            has_dynamic,
            initial,
            delta,
            increment,
            weight,
            supply,
            total_weights,
            fee_bps,
            tax_bps,
        ) <= fee_bps + tax_bps,
{
    if has_dynamic {
        let next = spec_next_usdg(initial, delta, increment);
        let target = spec_target_usdg(weight, supply, total_weights);
        if target != 0 {
            vstd::arithmetic::mul::lemma_mul_nonnegative(weight, supply);
            vstd::arithmetic::div_mod::lemma_div_is_ordered(0, weight * supply, total_weights);
            let initial_diff = spec_abs_diff(initial, target);
            let next_diff = spec_abs_diff(next, target);
            if next_diff < initial_diff {
                vstd::arithmetic::mul::lemma_mul_nonnegative(tax_bps, initial_diff);
                vstd::arithmetic::div_mod::lemma_div_is_ordered(
                    0,
                    tax_bps * initial_diff,
                    target,
                );
            } else {
                let average_diff = (initial_diff + next_diff) / 2;
                let capped_diff = if average_diff > target {
                    target
                } else {
                    average_diff
                };
                vstd::arithmetic::div_mod::lemma_div_is_ordered(
                    0,
                    initial_diff + next_diff,
                    2,
                );
                crate::math::lemma_mul_div_le(tax_bps, capped_diff, target);
            }
        }
    }
}

/// The executable fee schedule succeeds exactly under these bounds.
pub open spec fn fee_basis_points_fits(
    has_dynamic: bool,
    initial: int,
    delta: int,
    increment: bool,
    weight: int,
    supply: int,
    total_weights: int,
    tax_bps: int,
) -> bool {
    has_dynamic ==> {
        &&& (increment ==> initial + delta <= u128::MAX)
        &&& (total_weights != 0 ==> weight * supply <= u128::MAX)
        &&& {
            let next = spec_next_usdg(initial, delta, increment);
            let target = spec_target_usdg(weight, supply, total_weights);
            target != 0 ==> {
                let initial_diff = spec_abs_diff(initial, target);
                let next_diff = spec_abs_diff(next, target);
                if next_diff < initial_diff {
                    tax_bps * initial_diff <= u128::MAX
                } else {
                    &&& initial_diff + next_diff <= u128::MAX
                    &&& tax_bps * (if (initial_diff + next_diff) / 2 > target {
                        target
                    } else {
                        (initial_diff + next_diff) / 2
                    }) <= u128::MAX
                }
            }
        }
    }
}

/// Basis points charged for a trade of `usdg_delta` (stable-decimal USD)
/// against the asset `st`, raising or lowering its backed issuance.
pub fn get_fee_basis_points(
    st: &AssetState,
    usdg_delta: u128,
    fee_bps: u128,
    tax_bps: u128,
    increment: bool,
    has_dynamic: bool,
    usdg_supply: u128,
    total_weights: u128,
) -> (r: Result<u128, ContractError>)
    requires
        fee_bps <= 10000,
        tax_bps <= 10000,
    ensures
        fee_basis_points_fits(
            has_dynamic,
            st.usdg_amount as int,
            usdg_delta as int,
            increment,
            st.token_weight as int,
            usdg_supply as int,
            total_weights as int,
            tax_bps as int,
        ) ==> r == Ok::<u128, ContractError>(
            spec_fee_basis_points(
                has_dynamic,
                st.usdg_amount as int,
                usdg_delta as int,
                increment,
                st.token_weight as int,
                usdg_supply as int,
                total_weights as int,
                fee_bps as int,
                tax_bps as int,
            ) as u128,
        ),
        !fee_basis_points_fits(
            has_dynamic,
            st.usdg_amount as int,
            usdg_delta as int,
            increment,
            st.token_weight as int,
            usdg_supply as int,
            total_weights as int,
            tax_bps as int,
        ) ==> r == Err::<u128, ContractError>(ContractError::ArithmeticFailure),
        r matches Ok(v) ==> v <= fee_bps + tax_bps,
{
    proof {
        lemma_fee_basis_points_clamped(
            has_dynamic,
            st.usdg_amount as int,
            usdg_delta as int,
            increment,
            st.token_weight as int,
            usdg_supply as int,
            total_weights as int,
            fee_bps as int,
            tax_bps as int,
        );
    }
    if !has_dynamic {
        return Ok(fee_bps);
    }
    let initial = st.usdg_amount;
    let next: u128 = if increment {
        match initial.checked_add(usdg_delta) {
            Some(v) => v,
            None => {
                return Err(ContractError::ArithmeticFailure);
            },
        }
    } else {
        if usdg_delta > initial {
            0
        } else {
            initial - usdg_delta
        }
    };
    let target: u128 = if total_weights == 0 {
        0
    } else {
        match crate::math::mul_div(st.token_weight, usdg_supply, total_weights) {
            Ok(v) => v,
            Err(e) => {
                return Err(e);
            },
        }
    };
    if target == 0 {
        return Ok(fee_bps);
    }
    let initial_diff: u128 = if initial > target {
        initial - target
    } else {
        target - initial
    };
    let next_diff: u128 = if next > target {
        next - target
    } else {
        target - next
    };
    if next_diff < initial_diff {
        let rebate = match crate::math::mul_div(tax_bps, initial_diff, target) {
            Ok(v) => v,
            Err(e) => {
                return Err(e);
            },
        };
        return Ok(
            if rebate > fee_bps {
                0
            } else {
                fee_bps - rebate
            },
        );
    }
    let diff_sum = match initial_diff.checked_add(next_diff) {
        Some(v) => v,
        None => {
            return Err(ContractError::ArithmeticFailure);
        },
    };
    let average_diff = diff_sum / 2;
    let capped_diff = if average_diff > target {
        target
    } else {
        average_diff
    };
    let tax = match crate::math::mul_div(tax_bps, capped_diff, target) {
        Ok(v) => v,
        Err(e) => {
            return Err(e);
        },
    };
    proof {
        crate::math::lemma_mul_div_le(tax_bps as int, capped_diff as int, target as int);
    }
    Ok(fee_bps + tax)
}

/// Fee schedule for minting synthetic stable against `st`.
pub open spec fn spec_buy_usdg_fee_bps(
    cfg: VaultConfig,
    st: AssetState,
    usdg_delta: int,
    usdg_supply: int,
    total_weights: int,
) -> int {
    spec_fee_basis_points(
        cfg.has_dynamic_fees,
        st.usdg_amount as int,
        usdg_delta,
        true,
        st.token_weight as int,
        usdg_supply,
        total_weights,
        cfg.mint_burn_fee_basis_points as int,
        cfg.tax_basis_points as int,
    )
}

pub open spec fn buy_usdg_fee_fits(
    cfg: VaultConfig,
    st: AssetState,
    usdg_delta: int,
    usdg_supply: int,
    total_weights: int,
) -> bool {
    fee_basis_points_fits(
        cfg.has_dynamic_fees,
        st.usdg_amount as int,
        usdg_delta,
        true,
        st.token_weight as int,
        usdg_supply,
        total_weights,
        cfg.tax_basis_points as int,
    )
}

/// Fee schedule for redeeming synthetic stable out of `st`.
pub open spec fn spec_sell_usdg_fee_bps(
    cfg: VaultConfig,
    st: AssetState,
    usdg_delta: int,
    usdg_supply: int,
    total_weights: int,
) -> int {
    spec_fee_basis_points(
        cfg.has_dynamic_fees,
        st.usdg_amount as int,
        usdg_delta,
        false,
        st.token_weight as int,
        usdg_supply,
        total_weights,
        cfg.mint_burn_fee_basis_points as int,
        cfg.tax_basis_points as int,
    )
}

pub open spec fn sell_usdg_fee_fits(
    cfg: VaultConfig,
    st: AssetState,
    usdg_delta: int,
    usdg_supply: int,
    total_weights: int,
) -> bool {
    fee_basis_points_fits(
        cfg.has_dynamic_fees,
        st.usdg_amount as int,
        usdg_delta,
        false,
        st.token_weight as int,
        usdg_supply,
        total_weights,
        cfg.tax_basis_points as int,
    )
}

pub fn get_buy_usdg_fee_basis_points(
    cfg: &VaultConfig,
    st: &AssetState,
    usdg_delta: u128,
    usdg_supply: u128,
    total_weights: u128,
) -> (r: Result<u128, ContractError>)
    requires
        cfg.inv(),
    ensures
        buy_usdg_fee_fits(
            *cfg,
            *st,
            usdg_delta as int,
            usdg_supply as int,
            total_weights as int,
        ) ==> r == Ok::<u128, ContractError>(
            spec_buy_usdg_fee_bps(
                *cfg,
                *st,
                usdg_delta as int,
                usdg_supply as int,
                total_weights as int,
            ) as u128,
        ),
        !buy_usdg_fee_fits(
            *cfg,
            *st,
            usdg_delta as int,
            usdg_supply as int,
            total_weights as int,
        ) ==> r == Err::<u128, ContractError>(ContractError::ArithmeticFailure),
        r matches Ok(v) ==> v <= cfg.mint_burn_fee_basis_points + cfg.tax_basis_points,
{
    get_fee_basis_points(
        st,
        usdg_delta,
        cfg.mint_burn_fee_basis_points,
        cfg.tax_basis_points,
        true,
        cfg.has_dynamic_fees,
        usdg_supply,
        total_weights,
    )
}

pub fn get_sell_usdg_fee_basis_points(
    cfg: &VaultConfig,
    st: &AssetState,
    usdg_delta: u128,
    usdg_supply: u128,
    total_weights: u128,
) -> (r: Result<u128, ContractError>)
    requires
        cfg.inv(),
    ensures
        sell_usdg_fee_fits(
            *cfg,
            *st,
            usdg_delta as int,
            usdg_supply as int,
            total_weights as int,
        ) ==> r == Ok::<u128, ContractError>(
            spec_sell_usdg_fee_bps(
                *cfg,
                *st,
                usdg_delta as int,
                usdg_supply as int,
                total_weights as int,
            ) as u128,
        ),
        !sell_usdg_fee_fits(
            *cfg,
            *st,
            usdg_delta as int,
            usdg_supply as int,
            total_weights as int,
        ) ==> r == Err::<u128, ContractError>(ContractError::ArithmeticFailure),
        r matches Ok(v) ==> v <= cfg.mint_burn_fee_basis_points + cfg.tax_basis_points,
{
    get_fee_basis_points(
        st,
        usdg_delta,
        cfg.mint_burn_fee_basis_points,
        cfg.tax_basis_points,
        false,
        cfg.has_dynamic_fees,
        usdg_supply,
        total_weights,
    )
}

/// Base and tax schedule applying to a swap between these two assets:
/// the stable schedule when both legs are stable.
pub open spec fn spec_swap_base_bps(cfg: VaultConfig, st_in: AssetState, st_out: AssetState) -> int {
    if st_in.is_stable && st_out.is_stable {
        cfg.stable_swap_fee_basis_points as int
    } else {
        cfg.swap_fee_basis_points as int
    }
}

pub open spec fn spec_swap_tax_bps(cfg: VaultConfig, st_in: AssetState, st_out: AssetState) -> int {
    if st_in.is_stable && st_out.is_stable {
        cfg.stable_tax_basis_points as int
    } else {
        cfg.tax_basis_points as int
    }
}

/// A swap pays the worse of its two legs' schedules: the inbound leg is
/// priced as an issuance increase, the outbound leg as a decrease.
pub open spec fn spec_swap_fee_bps(
    cfg: VaultConfig,
    st_in: AssetState,
    st_out: AssetState,
    usdg_delta: int,
    usdg_supply: int,
    total_weights: int,
) -> int {
    let base = spec_swap_base_bps(cfg, st_in, st_out);
    let tax = spec_swap_tax_bps(cfg, st_in, st_out);
    let bps_in = spec_fee_basis_points(
        cfg.has_dynamic_fees,
        st_in.usdg_amount as int,
        usdg_delta,
        true,
        st_in.token_weight as int,
        usdg_supply,
        total_weights,
        base,
        tax,
    );
    let bps_out = spec_fee_basis_points(
        cfg.has_dynamic_fees,
        st_out.usdg_amount as int,
        usdg_delta,
        false,
        st_out.token_weight as int,
        usdg_supply,
        total_weights,
        base,
        tax,
    );
    if bps_in > bps_out {
        bps_in
    } else {
        bps_out
    }
}

pub open spec fn swap_fee_fits(
    cfg: VaultConfig,
    st_in: AssetState,
    st_out: AssetState,
    usdg_delta: int,
    usdg_supply: int,
    total_weights: int,
) -> bool {
    let tax = spec_swap_tax_bps(cfg, st_in, st_out);
    &&& fee_basis_points_fits(
        cfg.has_dynamic_fees,
        st_in.usdg_amount as int,
        usdg_delta,
        true,
        st_in.token_weight as int,
        usdg_supply,
        total_weights,
        tax,
    )
    &&& fee_basis_points_fits(
        cfg.has_dynamic_fees,
        st_out.usdg_amount as int,
        usdg_delta,
        false,
        st_out.token_weight as int,
        usdg_supply,
        total_weights,
        tax,
    )
}

pub fn get_swap_fee_basis_points(
    cfg: &VaultConfig,
    st_in: &AssetState,
    st_out: &AssetState,
    usdg_delta: u128,
    usdg_supply: u128,
    total_weights: u128,
) -> (r: Result<u128, ContractError>)
    requires
        cfg.inv(),
    ensures
        swap_fee_fits(
            *cfg,
            *st_in,
            *st_out,
            usdg_delta as int,
            usdg_supply as int,
            total_weights as int,
        ) ==> r == Ok::<u128, ContractError>(
            spec_swap_fee_bps(
                *cfg,
                *st_in,
                *st_out,
                usdg_delta as int,
                usdg_supply as int,
                total_weights as int,
            ) as u128,
        ),
        !swap_fee_fits(
            *cfg,
            *st_in,
            *st_out,
            usdg_delta as int,
            usdg_supply as int,
            total_weights as int,
        ) ==> r == Err::<u128, ContractError>(ContractError::ArithmeticFailure),
        r matches Ok(v) ==> v <= spec_swap_base_bps(*cfg, *st_in, *st_out) + spec_swap_tax_bps(
            *cfg,
            *st_in,
            *st_out,
        ),
{
    proof {
        lemma_fee_basis_points_clamped(
            cfg.has_dynamic_fees,
            st_in.usdg_amount as int,
            usdg_delta as int,
            true,
            st_in.token_weight as int,
            usdg_supply as int,
            total_weights as int,
            spec_swap_base_bps(*cfg, *st_in, *st_out),
            spec_swap_tax_bps(*cfg, *st_in, *st_out),
        );
        lemma_fee_basis_points_clamped(
            cfg.has_dynamic_fees,
            st_out.usdg_amount as int,
            usdg_delta as int,
            false,
            st_out.token_weight as int,
            usdg_supply as int,
            total_weights as int,
            spec_swap_base_bps(*cfg, *st_in, *st_out),
            spec_swap_tax_bps(*cfg, *st_in, *st_out),
        );
    }
    let stable_swap = st_in.is_stable && st_out.is_stable;
    let base = if stable_swap {
        cfg.stable_swap_fee_basis_points
    } else {
        cfg.swap_fee_basis_points
    };
    let tax = if stable_swap {
        cfg.stable_tax_basis_points
    } else {
        cfg.tax_basis_points
    };
    let bps_in = match get_fee_basis_points(
        st_in,
        usdg_delta,
        base,
        tax,
        true,
        cfg.has_dynamic_fees,
        usdg_supply,
        total_weights,
    ) {
        Ok(v) => v,
        Err(e) => {
            return Err(e);
        },
    };
    let bps_out = match get_fee_basis_points(
        st_out,
        usdg_delta,
        base,
        tax,
        false,
        cfg.has_dynamic_fees,
        usdg_supply,
        total_weights,
    ) {
        Ok(v) => v,
        Err(e) => {
            return Err(e);
        },
    };
    if bps_in > bps_out {
        Ok(bps_in)
    } else {
        Ok(bps_out)
    }
}

} // verus!
