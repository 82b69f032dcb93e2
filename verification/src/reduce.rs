//! The collateral-reduction core of a position decrease: margin fee
//! collection, PnL realization against the pool, the explicit collateral
//! withdrawal, and the full-close flush.
//!
//! This is a pure computation: it takes the collateral asset's ledger
//! state and the position and returns their successors together with the
//! USD owed to the trader, before and after fees. The caller commits the
//! results only when the whole surrounding operation succeeds.

use vstd::prelude::*;

use crate::asset::AssetState;
use crate::config::VaultConfig;
use crate::error::ContractError;
use crate::pnl;
use crate::position::Position;
use crate::pricing::PricePair;

verus! {

/// What reducing collateral produced: the next ledger state of the
/// collateral asset, the next position, and the USD owed to the trader.
#[derive(Clone, Copy, Debug, PartialEq, Eq, Structural)]
pub struct ReduceOutcome {
    pub st: AssetState,
    pub pos: Position,
    pub usd_out: u128,
    pub usd_out_after_fee: u128,
    pub fee_usd: u128,
    pub has_profit: bool,
    pub adjusted_delta: u128,
}

/// Everything `reduce_collateral` computes, as one mathematical function.
/// `delta_price` is the index price side unfavorable to the trader.
pub open spec fn spec_reduce_collateral(
    cfg: VaultConfig,
    collateral_asset: u64,
    st: AssetState,
    p: Position,
    collateral_delta: u128,
    size_delta: u128,
    is_long: bool,
    custody_balance: u128,
    collateral_price: PricePair,
    delta_price: u128,
    min_profit_bps: u128,
    now: u64,
) -> Result<ReduceOutcome, ContractError> {
    if !crate::fees::margin_fee_fits(
        size_delta as int,
        p.size as int,
        st.cumulative_funding_rate as int,
        p.entry_funding_rate as int,
        cfg.margin_fee_basis_points as int,
    ) {
        Err(ContractError::ArithmeticFailure)
    } else {
        let fee_usd = crate::fees::spec_margin_fee(
            size_delta as int,
            p.size as int,
            st.cumulative_funding_rate as int,
            p.entry_funding_rate as int,
            cfg.margin_fee_basis_points as int,
        );
        if fee_usd * crate::math::pow10(st.decimals as nat) > u128::MAX {
            Err(ContractError::ArithmeticFailure)
        } else {
            let fee_tokens = crate::pricing::spec_usd_to_token(
                fee_usd,
                collateral_price.max as int,
                st.decimals as nat,
            );
            if st.fee_reserve + fee_tokens > u128::MAX {
                Err(ContractError::ArithmeticFailure)
            } else {
                let st_a = AssetState { fee_reserve: (st.fee_reserve + fee_tokens) as u128, ..st };
                if p.average_price == 0 {
                    Err(ContractError::InvalidAmount)
                } else if !pnl::delta_fits(
                    p.size as int,
                    p.average_price as int,
                    delta_price as int,
                    is_long,
                ) {
                    Err(ContractError::ArithmeticFailure)
                } else {
                    let has_profit = pnl::spec_has_profit(
                        is_long,
                        p.average_price as int,
                        delta_price as int,
                    );
                    let delta = pnl::spec_delta(
                        p.size as int,
                        p.average_price as int,
                        delta_price as int,
                        is_long,
                        now as int,
                        p.last_increased_time as int,
                        cfg.min_profit_time as int,
                        min_profit_bps as int,
                    );
                    if size_delta * delta > u128::MAX {
                        Err(ContractError::ArithmeticFailure)
                    } else {
                        let adjusted = size_delta * delta / p.size as int;
                        spec_reduce_collateral_settle(
                            collateral_asset,
                            st_a,
                            p,
                            collateral_delta,
                            size_delta,
                            is_long,
                            custody_balance,
                            collateral_price,
                            fee_usd as u128,
                            fee_tokens as u128,
                            has_profit,
                            adjusted as u128,
                        )
                    }
                }
            }
        }
    }
}

/// The settlement tail: realize the adjusted delta, apply the explicit
/// withdrawal, flush on full close, and net the fee out of the proceeds.
pub open spec fn spec_reduce_collateral_settle(
    collateral_asset: u64,
    st_a: AssetState,
    p: Position,
    collateral_delta: u128,
    size_delta: u128,
    is_long: bool,
    custody_balance: u128,
    collateral_price: PricePair,
    fee_usd: u128,
    fee_tokens: u128,
    has_profit: bool,
    adjusted: u128,
) -> Result<ReduceOutcome, ContractError> {
    let profit_case = has_profit && adjusted > 0;
    let loss_case = !has_profit && adjusted > 0;
    if adjusted > i128::MAX as u128 {
        Err(ContractError::ArithmeticFailure)
    } else if profit_case && p.realised_pnl + adjusted > i128::MAX {
        Err(ContractError::ArithmeticFailure)
    } else if loss_case && p.realised_pnl - adjusted < i128::MIN {
        Err(ContractError::ArithmeticFailure)
    } else if loss_case && p.collateral < adjusted {
        Err(ContractError::InvalidAmount)
    } else {
        let realised2: i128 = if profit_case {
            (p.realised_pnl + adjusted) as i128
        } else if loss_case {
            (p.realised_pnl - adjusted) as i128
        } else {
            p.realised_pnl
        };
        let col1: u128 = if loss_case {
            (p.collateral - adjusted) as u128
        } else {
            p.collateral
        };
        let usd_out1: u128 = if profit_case {
            adjusted
        } else {
            0
        };
        if is_long && adjusted > 0 && adjusted * crate::math::pow10(st_a.decimals as nat)
            > u128::MAX {
            Err(ContractError::ArithmeticFailure)
        } else {
            let adjusted_tokens = crate::pricing::spec_usd_to_token(
                adjusted as int,
                collateral_price.max as int,
                st_a.decimals as nat,
            );
            let pool_result: Result<AssetState, ContractError> = if is_long && profit_case {
                if adjusted_tokens > st_a.pool_amount {
                    Err(ContractError::ArithmeticFailure)
                } else if st_a.pool_amount - adjusted_tokens < st_a.reserved_amount {
                    Err((ContractError::InsufficientReserves { asset: collateral_asset }))
                } else {
                    Ok(
                        AssetState {
                            pool_amount: (st_a.pool_amount - adjusted_tokens) as u128,
                            ..st_a
                        },
                    )
                }
            } else if is_long && loss_case {
                if st_a.pool_amount + adjusted_tokens > u128::MAX {
                    Err(ContractError::ArithmeticFailure)
                } else if custody_balance < st_a.pool_amount + adjusted_tokens {
                    Err((ContractError::BalanceMismatch { asset: collateral_asset }))
                } else {
                    Ok(
                        AssetState {
                            pool_amount: (st_a.pool_amount + adjusted_tokens) as u128,
                            ..st_a
                        },
                    )
                }
            } else {
                Ok(st_a)
            };
            if pool_result is Err {
                Err(pool_result->Err_0)
            } else {
                let st_b = pool_result->Ok_0;
                if usd_out1 + collateral_delta > u128::MAX {
                    Err(ContractError::ArithmeticFailure)
                } else if collateral_delta > 0 && col1 < collateral_delta {
                    Err(ContractError::InvalidAmount)
                } else {
                    let usd_out2 = usd_out1 + collateral_delta;
                    let col2: u128 = if collateral_delta > 0 {
                        (col1 - collateral_delta) as u128
                    } else {
                        col1
                    };
                    let full_close = p.size == size_delta;
                    if full_close && usd_out2 + col2 > u128::MAX {
                        Err(ContractError::ArithmeticFailure)
                    } else {
                        let usd_out3: u128 = if full_close {
                            (usd_out2 + col2) as u128
                        } else {
                            usd_out2 as u128
                        };
                        let col3: u128 = if full_close {
                            0
                        } else {
                            col2
                        };
                        if usd_out3 > fee_usd {
                            Ok(
                                (ReduceOutcome {
                                    st: st_b,
                                    pos: Position { collateral: col3, realised_pnl: realised2, ..p },
                                    usd_out: usd_out3,
                                    usd_out_after_fee: (usd_out3 - fee_usd) as u128,
                                    fee_usd,
                                    has_profit,
                                    adjusted_delta: adjusted,
                                }),
                            )
                        } else if col3 < fee_usd {
                            Err(ContractError::InvalidAmount)
                        } else if is_long && fee_tokens > st_b.pool_amount {
                            Err(ContractError::ArithmeticFailure)
                        } else if is_long && st_b.pool_amount - fee_tokens
                            < st_b.reserved_amount {
                            Err((ContractError::InsufficientReserves { asset: collateral_asset }))
                        } else {
                            let st_c = if is_long {
                                AssetState {
                                    pool_amount: (st_b.pool_amount - fee_tokens) as u128,
                                    ..st_b
                                }
                            } else {
                                st_b
                            };
                            Ok(
                                (ReduceOutcome {
                                    st: st_c,
                                    pos: Position {
                                        collateral: (col3 - fee_usd) as u128,
                                        realised_pnl: realised2,
                                        ..p
                                    },
                                    usd_out: usd_out3,
                                    usd_out_after_fee: usd_out3,
                                    fee_usd,
                                    has_profit,
                                    adjusted_delta: adjusted,
                                }),
                            )
                        }
                    }
                }
            }
        }
    }
}

/// Executable settlement tail; see `spec_reduce_collateral_settle`.
#[verifier::rlimit(100)]
#[verifier::spinoff_prover]
fn reduce_collateral_settle(
    collateral_asset: u64,
    st_a: AssetState,
    p: Position,
    collateral_delta: u128,
    size_delta: u128,
    is_long: bool,
    custody_balance: u128,
    collateral_price: PricePair,
    fee_usd: u128,
    fee_tokens: u128,
    has_profit: bool,
    adjusted: u128,
) -> (r: Result<ReduceOutcome, ContractError>)
    requires
        st_a.inv(),
        collateral_price.valid(),
        fee_usd * crate::math::pow10(st_a.decimals as nat) <= u128::MAX,
        fee_tokens == crate::pricing::spec_usd_to_token(
            fee_usd as int,
            collateral_price.max as int,
            st_a.decimals as nat,
        ),
    ensures
        r == spec_reduce_collateral_settle(
            collateral_asset,
            st_a,
            p,
            collateral_delta,
            size_delta,
            is_long,
            custody_balance,
            collateral_price,
            fee_usd,
            fee_tokens,
            has_profit,
            adjusted,
        ),
        r matches Ok(out) ==> out.st.reserved_amount == st_a.reserved_amount
            && out.st.reserved_amount <= out.st.pool_amount && out.st.decimals == st_a.decimals
            && out.st.max_usdg_amount == st_a.max_usdg_amount && out.st.usdg_amount
            == st_a.usdg_amount && out.pos.size == p.size && out.pos.collateral <= p.collateral,
{
    let profit_case = has_profit && adjusted > 0;
    let loss_case = !has_profit && adjusted > 0;
    if adjusted > i128::MAX as u128 {
        return Err(ContractError::ArithmeticFailure);
    }
    let adjusted_signed: i128 = adjusted as i128;
    let realised2: i128 = if profit_case {
        match p.realised_pnl.checked_add(adjusted_signed) {
            Some(v) => v,
            None => {
                return Err(ContractError::ArithmeticFailure);
            },
        }
    } else if loss_case {
        match p.realised_pnl.checked_sub(adjusted_signed) {
            Some(v) => v,
            None => {
                return Err(ContractError::ArithmeticFailure);
            },
        }
    } else {
        p.realised_pnl
    };
    if loss_case && p.collateral < adjusted {
        return Err(ContractError::InvalidAmount);
    }
    let col1: u128 = if loss_case {
        p.collateral - adjusted
    } else {
        p.collateral
    };
    let usd_out1: u128 = if profit_case {
        adjusted
    } else {
        0
    };
    let st_b: AssetState = if is_long && adjusted > 0 {
        let adjusted_tokens = match crate::pricing::usd_to_token_min(
            adjusted,
            collateral_price,
            st_a.decimals,
        ) {
            Ok(v) => v,
            Err(e) => {
                return Err(e);
            },
        };
        if profit_case {
            match st_a.decrease_pool(collateral_asset, adjusted_tokens) {
                Ok(v) => v,
                Err(e) => {
                    return Err(e);
                },
            }
        } else {
            match st_a.increase_pool(collateral_asset, adjusted_tokens, custody_balance) {
                Ok(v) => v,
                Err(e) => {
                    return Err(e);
                },
            }
        }
    } else {
        st_a
    };
    let usd_out2 = match usd_out1.checked_add(collateral_delta) {
        Some(v) => v,
        None => {
            return Err(ContractError::ArithmeticFailure);
        },
    };
    if collateral_delta > 0 && col1 < collateral_delta {
        return Err(ContractError::InvalidAmount);
    }
    let col2: u128 = if collateral_delta > 0 {
        col1 - collateral_delta
    } else {
        col1
    };
    let full_close = p.size == size_delta;
    let usd_out3: u128 = if full_close {
        match usd_out2.checked_add(col2) {
            Some(v) => v,
            None => {
                return Err(ContractError::ArithmeticFailure);
            },
        }
    } else {
        usd_out2
    };
    let col3: u128 = if full_close {
        0
    } else {
        col2
    };
    if usd_out3 > fee_usd {
        return Ok(
            ReduceOutcome {
                st: st_b,
                pos: Position { collateral: col3, realised_pnl: realised2, ..p },
                usd_out: usd_out3,
                usd_out_after_fee: usd_out3 - fee_usd,
                fee_usd,
                has_profit,
                adjusted_delta: adjusted,
            },
        );
    }
    if col3 < fee_usd {
        return Err(ContractError::InvalidAmount);
    }
    let st_c: AssetState = if is_long {
        match st_b.decrease_pool(collateral_asset, fee_tokens) {
            Ok(v) => v,
            Err(e) => {
                return Err(e);
            },
        }
    } else {
        st_b
    };
    Ok(
        ReduceOutcome {
            st: st_c,
            pos: Position { collateral: col3 - fee_usd, realised_pnl: realised2, ..p },
            usd_out: usd_out3,
            usd_out_after_fee: usd_out3,
            fee_usd,
            has_profit,
            adjusted_delta: adjusted,
        },
    )
}

/// Reduce a position's collateral as part of a decrease: collect the
/// margin fee, realize the proportional PnL, apply the requested
/// withdrawal, and flush the remainder on a full close.
#[verifier::rlimit(100)]
#[verifier::spinoff_prover]
pub fn reduce_collateral(
    cfg: &VaultConfig,
    collateral_asset: u64,
    st: AssetState,
    p: Position,
    collateral_delta: u128,
    size_delta: u128,
    is_long: bool,
    custody_balance: u128,
    collateral_price: PricePair,
    delta_price: u128,
    min_profit_bps: u128,
    now: u64,
) -> (r: Result<ReduceOutcome, ContractError>)
    requires
        cfg.inv(),
        st.inv(),
        p.size > 0,
        size_delta <= p.size,
        collateral_delta <= p.collateral,
        collateral_price.valid(),
    ensures
        r == spec_reduce_collateral(
            *cfg,
            collateral_asset,
            st,
            p,
            collateral_delta,
            size_delta,
            is_long,
            custody_balance,
            collateral_price,
            delta_price,
            min_profit_bps,
            now,
        ),
        r matches Ok(out) ==> out.st.reserved_amount == st.reserved_amount
            && out.st.reserved_amount <= out.st.pool_amount && out.st.decimals == st.decimals
            && out.st.max_usdg_amount == st.max_usdg_amount && out.st.usdg_amount
            == st.usdg_amount && out.pos.size == p.size && out.pos.collateral <= p.collateral,
{
    let fee_usd = match crate::fees::get_margin_fees(
        size_delta,
        p.size,
        st.cumulative_funding_rate,
        p.entry_funding_rate,
        cfg,
    ) {
        Ok(v) => v,
        Err(e) => {
            return Err(e);
        },
    };
    let fee_tokens = match crate::pricing::usd_to_token_min(fee_usd, collateral_price, st.decimals) {
        Ok(v) => v,
        Err(e) => {
            return Err(e);
        },
    };
    let st_a = match st.increase_fee_reserve(fee_tokens) {
        Ok(v) => v,
        Err(e) => {
            return Err(e);
        },
    };
    let (has_profit, delta) = match pnl::get_delta(
        p.size,
        p.average_price,
        is_long,
        delta_price,
        min_profit_bps,
        cfg.min_profit_time,
        p.last_increased_time,
        now,
    ) {
        Ok(v) => v,
        Err(e) => {
            return Err(e);
        },
    };
    let adjusted = match crate::math::mul_div(size_delta, delta, p.size) {
        Ok(v) => v,
        Err(e) => {
            return Err(e);
        },
    };
    reduce_collateral_settle(
        collateral_asset,
        st_a,
        p,
        collateral_delta,
        size_delta,
        is_long,
        custody_balance,
        collateral_price,
        fee_usd,
        fee_tokens,
        has_profit,
        adjusted,
    )
}

} // verus!
