//! Liquidation decisioning: whether a position may be forcibly closed,
//! and under which of the two regimes.
//!
//! The maintenance rule is deliberately slightly stricter than "fee plus
//! unrealized loss" alone: a position whose loss-adjusted collateral
//! could not also fund the fixed liquidation fee is already insolvent
//! (seizing it later could not pay the liquidator), and the leverage
//! ceiling is tested against loss-adjusted collateral, the amount that
//! would actually remain on a close. Both refinements are intended
//! behaviour, not accidents of rounding.

use vstd::prelude::*;

use crate::config::VaultConfig;
use crate::error::ContractError;
use crate::pnl;
use crate::position::Position;

verus! {

/// The tri-state liquidation verdict.
#[derive(Clone, Copy, Debug, PartialEq, Eq, Structural)]
pub enum LiquidationState {
    /// Healthy: neither margin breach nor leverage breach.
    NotLiquidatable,
    /// Maintenance-margin breach: collateral cannot cover the outstanding
    /// margin fee plus unrealized loss (plus the fixed liquidation fee).
    Insolvent,
    /// Still solvent but above the leverage ceiling; resolved by a forced
    /// ordinary close, with no fee seizure.
    MaxLeverageExceeded,
}

/// The verdict given the unrealized delta and the outstanding fee.
/// `Insolvent` covers three maintenance breaches in turn: the loss
/// exceeds the collateral outright; the remainder cannot cover the
/// outstanding margin fee; or it cannot also cover the fixed liquidation
/// fee that a seizure must pay out. A position clearing all three is
/// `MaxLeverageExceeded` when its notional, in basis points of the
/// loss-adjusted remainder, is above the ceiling.
pub open spec fn spec_evaluate_verdict(
    cfg: VaultConfig,
    p: Position,
    has_profit: bool,
    delta: int,
    fees: int,
) -> Result<(LiquidationState, u128), ContractError> {
    if !has_profit && p.collateral < delta {
        Ok((LiquidationState::Insolvent, fees as u128))
    } else {
        let remaining = if has_profit {
            p.collateral as int
        } else {
            p.collateral - delta
        };
        if remaining < fees {
            Ok((LiquidationState::Insolvent, fees as u128))
        } else if fees + cfg.liquidation_fee_usd > u128::MAX {
            Err(ContractError::ArithmeticFailure)
        } else if remaining < fees + cfg.liquidation_fee_usd {
            Ok((LiquidationState::Insolvent, fees as u128))
        } else if remaining * cfg.max_leverage > u128::MAX {
            Err(ContractError::ArithmeticFailure)
        } else if p.size * crate::BASIS_POINTS_DIVISOR > u128::MAX {
            Err(ContractError::ArithmeticFailure)
        } else if remaining * cfg.max_leverage < p.size * crate::BASIS_POINTS_DIVISOR {
            Ok((LiquidationState::MaxLeverageExceeded, fees as u128))
        } else {
            Ok((LiquidationState::NotLiquidatable, fees as u128))
        }
    }
}

/// Evaluate whether a position may be liquidated. The position's side is
/// the `is_long` the caller keys it by; the caller supplies the index
/// price side unfavorable to the position as `delta_price` and the
/// collateral asset's cumulative funding index as `cumulative`.
pub fn evaluate_liquidation(
    cfg: &VaultConfig,
    p: &Position,
    is_long: bool,
    cumulative: u128,
    delta_price: u128,
    min_profit_bps: u128,
    now: u64,
) -> (r: Result<(LiquidationState, u128), ContractError>)
    requires
        cfg.inv(),
    ensures
        r == spec_evaluate_liquidation(
            *cfg,
            *p,
            is_long,
            cumulative,
            delta_price,
            min_profit_bps,
            now,
        ),
{
    if p.size == 0 {
        return Err(ContractError::InvalidAmount);
    }
    let (has_profit, delta) = match pnl::get_delta(
        p.size,
        p.average_price,
        is_long,
        delta_price,
        min_profit_bps,
        cfg.min_profit_time,
        p.last_increased_time,
        now,
    ) {
        Ok(v) => v,
        Err(e) => {
            return Err(e);
        },
    };
    let fees = match crate::fees::get_margin_fees(
        p.size,
        p.size,
        cumulative,
        p.entry_funding_rate,
        cfg,
    ) {
        Ok(v) => v,
        Err(e) => {
            return Err(e);
        },
    };
    if !has_profit && p.collateral < delta {
        return Ok((LiquidationState::Insolvent, fees));
    }
    let remaining: u128 = if has_profit {
        p.collateral
    } else {
        p.collateral - delta
    };
    if remaining < fees {
        return Ok((LiquidationState::Insolvent, fees));
    }
    let fee_floor = match fees.checked_add(cfg.liquidation_fee_usd) {
        Some(v) => v,
        None => {
            return Err(ContractError::ArithmeticFailure);
        },
    };
    if remaining < fee_floor {
        return Ok((LiquidationState::Insolvent, fees));
    }
    let lhs = match remaining.checked_mul(cfg.max_leverage) {
        Some(v) => v,
        None => {
            return Err(ContractError::ArithmeticFailure);
        },
    };
    let rhs = match p.size.checked_mul(crate::BASIS_POINTS_DIVISOR) {
        Some(v) => v,
        None => {
            return Err(ContractError::ArithmeticFailure);
        },
    };
    if lhs < rhs {
        return Ok((LiquidationState::MaxLeverageExceeded, fees));
    }
    Ok((LiquidationState::NotLiquidatable, fees))
}

/// Everything liquidation evaluation computes, as one mathematical
/// function: the verdict and the outstanding margin fee (USD).
pub open spec fn spec_evaluate_liquidation(
    cfg: VaultConfig,
    p: Position,
    is_long: bool,
    cumulative: u128,
    delta_price: u128,
    min_profit_bps: u128,
    now: u64,
) -> Result<(LiquidationState, u128), ContractError> {
    if p.size == 0 {
        Err(ContractError::InvalidAmount)
    } else if p.average_price == 0 {
        Err(ContractError::InvalidAmount)
    } else if !pnl::delta_fits(p.size as int, p.average_price as int, delta_price as int, is_long) {
        Err(ContractError::ArithmeticFailure)
    } else if !crate::fees::margin_fee_fits(
        p.size as int,
        p.size as int,
        cumulative as int,
        p.entry_funding_rate as int,
        cfg.margin_fee_basis_points as int,
    ) {
        Err(ContractError::ArithmeticFailure)
    } else {
        let has_profit = pnl::spec_has_profit(is_long, p.average_price as int, delta_price as int);
        let delta = pnl::spec_delta(
            p.size as int,
            p.average_price as int,
            delta_price as int,
            is_long,
            now as int,
            p.last_increased_time as int,
            cfg.min_profit_time as int,
            min_profit_bps as int,
        );
        let fees = crate::fees::spec_margin_fee(
            p.size as int,
            p.size as int,
            cumulative as int,
            p.entry_funding_rate as int,
            cfg.margin_fee_basis_points as int,
        );
        spec_evaluate_verdict(cfg, p, has_profit, delta, fees)
    }
}

} // verus!
