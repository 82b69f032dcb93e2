//! Per-asset registry entry and pool ledger.
//!
//! One `AssetState` holds everything the vault records about a whitelisted
//! asset: its static configuration, the mutable pool counters, the funding
//! index, and the aggregate short exposure against it. The mutators are
//! pure: they return the next state, and the caller commits it only once
//! the whole surrounding operation has succeeded.

use vstd::prelude::*;

use crate::error::ContractError;

verus! {

#[derive(Clone, Copy, Debug, PartialEq, Eq, Structural)]
pub struct AssetState {
    // Static registry configuration.
    pub decimals: u32,
    pub token_weight: u128,
    pub min_profit_basis_points: u128,
    pub max_usdg_amount: u128,
    pub is_stable: bool,
    pub is_shortable: bool,
    // Pool ledger counters.
    pub pool_amount: u128,
    pub reserved_amount: u128,
    pub buffer_amount: u128,
    pub guaranteed_usd: u128,
    pub usdg_amount: u128,
    pub fee_reserve: u128,
    // Funding engine. The flag records the transition out of the
    // never-accrued state, which a zero timestamp alone cannot encode
    // (a vault may start accruing at epoch second zero).
    pub cumulative_funding_rate: u128,
    pub last_funding_time: u64,
    pub funding_accruing: bool,
    // Aggregate short exposure with a blended average entry price.
    pub global_short_size: u128,
    pub global_short_average_price: u128,
    pub max_global_short_size: u128,
}

impl AssetState {
    /// Ledger invariant of a single asset: the pool always covers what is
    /// reserved for open positions, issuance respects a nonzero cap, and the
    /// decimal count stays in the range the fixed-point arithmetic supports.
    pub open spec fn inv(self) -> bool {
        &&& self.reserved_amount <= self.pool_amount
        &&& self.max_usdg_amount != 0 ==> self.usdg_amount <= self.max_usdg_amount
        &&& self.decimals <= crate::MAX_TOKEN_DECIMALS
    }

    /// A freshly whitelisted asset: configuration as given, all counters zero.
    pub open spec fn spec_fresh(
        decimals: u32,
        token_weight: u128,
        min_profit_basis_points: u128,
        max_usdg_amount: u128,
        is_stable: bool,
        is_shortable: bool,
    ) -> AssetState {
        AssetState {
            decimals,
            token_weight,
            min_profit_basis_points,
            max_usdg_amount,
            is_stable,
            is_shortable,
            pool_amount: 0,
            reserved_amount: 0,
            buffer_amount: 0,
            guaranteed_usd: 0,
            usdg_amount: 0,
            fee_reserve: 0,
            cumulative_funding_rate: 0,
            last_funding_time: 0,
            funding_accruing: false,
            global_short_size: 0,
            global_short_average_price: 0,
            max_global_short_size: 0,
        }
    }

    pub fn fresh(
        decimals: u32,
        token_weight: u128,
        min_profit_basis_points: u128,
        max_usdg_amount: u128,
        is_stable: bool,
        is_shortable: bool,
    ) -> (r: AssetState)
        requires
            decimals <= crate::MAX_TOKEN_DECIMALS,
        ensures
            r == AssetState::spec_fresh(
                decimals,
                token_weight,
                min_profit_basis_points,
                max_usdg_amount,
                is_stable,
                is_shortable,
            ),
            r.inv(),
    {
        AssetState {
            decimals,
            token_weight,
            min_profit_basis_points,
            max_usdg_amount,
            is_stable,
            is_shortable,
            pool_amount: 0,
            reserved_amount: 0,
            buffer_amount: 0,
            guaranteed_usd: 0,
            usdg_amount: 0,
            fee_reserve: 0,
            cumulative_funding_rate: 0,
            last_funding_time: 0,
            funding_accruing: false,
            global_short_size: 0,
            global_short_average_price: 0,
            max_global_short_size: 0,
        }
    }

    /// Credit the pool. The custody-reported balance must cover the new pool
    /// amount: the pool is never credited for funds that were not deposited.
    pub fn increase_pool(self, asset: u64, amount: u128, custody_balance: u128) -> (r: Result<
        AssetState,
        ContractError,
    >)
        ensures
            self.pool_amount + amount > u128::MAX ==> r == Err::<AssetState, ContractError>(
                ContractError::ArithmeticFailure,
            ),
            self.pool_amount + amount <= u128::MAX && custody_balance < self.pool_amount + amount
                ==> r == Err::<AssetState, ContractError>(
                (ContractError::BalanceMismatch { asset }),
            ),
            self.pool_amount + amount <= u128::MAX && custody_balance >= self.pool_amount + amount
                ==> r == Ok::<AssetState, ContractError>(
                (AssetState { pool_amount: (self.pool_amount + amount) as u128, ..self }),
            ),
    {
        match self.pool_amount.checked_add(amount) {
            Some(next) => {
                if custody_balance < next {
                    Err(ContractError::BalanceMismatch { asset })
                } else {
                    Ok(AssetState { pool_amount: next, ..self })
                }
            },
            None => Err(ContractError::ArithmeticFailure),
        }
    }

    /// Debit the pool; fails if the result would dip below the reserves.
    pub fn decrease_pool(self, asset: u64, amount: u128) -> (r: Result<AssetState, ContractError>)
        ensures
            amount > self.pool_amount ==> r == Err::<AssetState, ContractError>(
                ContractError::ArithmeticFailure,
            ),
            amount <= self.pool_amount && self.pool_amount - amount < self.reserved_amount ==> r
                == Err::<AssetState, ContractError>(
                (ContractError::InsufficientReserves { asset }),
            ),
            amount <= self.pool_amount && self.pool_amount - amount >= self.reserved_amount ==> r
                == Ok::<AssetState, ContractError>(
                (AssetState { pool_amount: (self.pool_amount - amount) as u128, ..self }),
            ),
    {
        match self.pool_amount.checked_sub(amount) {
            Some(next) => {
                if next < self.reserved_amount {
                    Err(ContractError::InsufficientReserves { asset })
                } else {
                    Ok(AssetState { pool_amount: next, ..self })
                }
            },
            None => Err(ContractError::ArithmeticFailure),
        }
    }

    /// Earmark more of the pool for open positions; the reserve can never
    /// exceed the pool itself.
    pub fn increase_reserved(self, asset: u64, amount: u128) -> (r: Result<
        AssetState,
        ContractError,
    >)
        ensures
            self.reserved_amount + amount > u128::MAX ==> r == Err::<AssetState, ContractError>(
                ContractError::ArithmeticFailure,
            ),
            self.reserved_amount + amount <= u128::MAX && self.reserved_amount + amount
                > self.pool_amount ==> r == Err::<AssetState, ContractError>(
                (ContractError::InsufficientReserves { asset }),
            ),
            self.reserved_amount + amount <= u128::MAX && self.reserved_amount + amount
                <= self.pool_amount ==> r == Ok::<AssetState, ContractError>(
                (AssetState { reserved_amount: (self.reserved_amount + amount) as u128, ..self }),
            ),
    {
        match self.reserved_amount.checked_add(amount) {
            Some(next) => {
                if next > self.pool_amount {
                    Err(ContractError::InsufficientReserves { asset })
                } else {
                    Ok(AssetState { reserved_amount: next, ..self })
                }
            },
            None => Err(ContractError::ArithmeticFailure),
        }
    }

    /// Release part of the reserve. Going below zero is a hard failure,
    /// never a silent clamp.
    pub fn decrease_reserved(self, amount: u128) -> (r: Result<AssetState, ContractError>)
        ensures
            amount > self.reserved_amount ==> r == Err::<AssetState, ContractError>(
                ContractError::ArithmeticFailure,
            ),
            amount <= self.reserved_amount ==> r == Ok::<AssetState, ContractError>(
                (AssetState { reserved_amount: (self.reserved_amount - amount) as u128, ..self }),
            ),
    {
        match self.reserved_amount.checked_sub(amount) {
            Some(next) => Ok(AssetState { reserved_amount: next, ..self }),
            None => Err(ContractError::ArithmeticFailure),
        }
    }

    /// Raise the USD amount the pool owes long positions beyond their
    /// posted collateral.
    pub fn increase_guaranteed(self, amount: u128) -> (r: Result<AssetState, ContractError>)
        ensures
            self.guaranteed_usd + amount > u128::MAX ==> r == Err::<AssetState, ContractError>(
                ContractError::ArithmeticFailure,
            ),
            self.guaranteed_usd + amount <= u128::MAX ==> r == Ok::<AssetState, ContractError>(
                (AssetState { guaranteed_usd: (self.guaranteed_usd + amount) as u128, ..self }),
            ),
    {
        match self.guaranteed_usd.checked_add(amount) {
            Some(next) => Ok(AssetState { guaranteed_usd: next, ..self }),
            None => Err(ContractError::ArithmeticFailure),
        }
    }

    /// Lower the guaranteed-USD obligation.
    pub fn decrease_guaranteed(self, amount: u128) -> (r: Result<AssetState, ContractError>)
        ensures
            amount > self.guaranteed_usd ==> r == Err::<AssetState, ContractError>(
                ContractError::ArithmeticFailure,
            ),
            amount <= self.guaranteed_usd ==> r == Ok::<AssetState, ContractError>(
                (AssetState { guaranteed_usd: (self.guaranteed_usd - amount) as u128, ..self }),
            ),
    {
        match self.guaranteed_usd.checked_sub(amount) {
            Some(next) => Ok(AssetState { guaranteed_usd: next, ..self }),
            None => Err(ContractError::ArithmeticFailure),
        }
    }

    /// Record newly minted synthetic stable backed by this asset, enforcing
    /// the issuance cap when one is configured.
    pub fn increase_usdg(self, amount: u128) -> (r: Result<AssetState, ContractError>)
        ensures
            self.usdg_amount + amount > u128::MAX ==> r == Err::<AssetState, ContractError>(
                ContractError::ArithmeticFailure,
            ),
            self.usdg_amount + amount <= u128::MAX && self.max_usdg_amount != 0 && self.usdg_amount
                + amount > self.max_usdg_amount ==> r == Err::<AssetState, ContractError>(
                ContractError::InvalidAmount,
            ),
            self.usdg_amount + amount <= u128::MAX && (self.max_usdg_amount == 0
                || self.usdg_amount + amount <= self.max_usdg_amount) ==> r == Ok::<
                AssetState,
                ContractError,
            >((AssetState { usdg_amount: (self.usdg_amount + amount) as u128, ..self })),
    {
        match self.usdg_amount.checked_add(amount) {
            Some(next) => {
                if self.max_usdg_amount != 0 && next > self.max_usdg_amount {
                    Err(ContractError::InvalidAmount)
                } else {
                    Ok(AssetState { usdg_amount: next, ..self })
                }
            },
            None => Err(ContractError::ArithmeticFailure),
        }
    }

    /// Record burned synthetic stable. Decreasing below zero floors at zero:
    /// the issuance counter tolerates rounding drift by design.
    pub open spec fn spec_decrease_usdg(self, amount: u128) -> AssetState {
        if amount > self.usdg_amount {
            AssetState { usdg_amount: 0, ..self }
        } else {
            AssetState { usdg_amount: (self.usdg_amount - amount) as u128, ..self }
        }
    }

    pub fn decrease_usdg(self, amount: u128) -> (r: AssetState)
        ensures
            r == self.spec_decrease_usdg(amount),
    {
        if amount > self.usdg_amount {
            AssetState { usdg_amount: 0, ..self }
        } else {
            AssetState { usdg_amount: self.usdg_amount - amount, ..self }
        }
    }

    /// Add collected fees (asset units) to the fee reserve.
    pub fn increase_fee_reserve(self, amount: u128) -> (r: Result<AssetState, ContractError>)
        ensures
            self.fee_reserve + amount > u128::MAX ==> r == Err::<AssetState, ContractError>(
                ContractError::ArithmeticFailure,
            ),
            self.fee_reserve + amount <= u128::MAX ==> r == Ok::<AssetState, ContractError>(
                (AssetState { fee_reserve: (self.fee_reserve + amount) as u128, ..self }),
            ),
    {
        match self.fee_reserve.checked_add(amount) {
            Some(next) => Ok(AssetState { fee_reserve: next, ..self }),
            None => Err(ContractError::ArithmeticFailure),
        }
    }

    /// Grow the aggregate short size against this index asset.
    pub fn increase_global_short(self, amount: u128) -> (r: Result<AssetState, ContractError>)
        ensures
            self.global_short_size + amount > u128::MAX ==> r == Err::<AssetState, ContractError>(
                ContractError::ArithmeticFailure,
            ),
            self.global_short_size + amount <= u128::MAX ==> r == Ok::<AssetState, ContractError>(
                (AssetState {
                    global_short_size: (self.global_short_size + amount) as u128,
                    ..self
                }),
            ),
    {
        match self.global_short_size.checked_add(amount) {
            Some(next) => Ok(AssetState { global_short_size: next, ..self }),
            None => Err(ContractError::ArithmeticFailure),
        }
    }

    /// Shrink the aggregate short size, flooring at zero.
    pub open spec fn spec_decrease_global_short(self, amount: u128) -> AssetState {
        if amount > self.global_short_size {
            AssetState { global_short_size: 0, ..self }
        } else {
            AssetState { global_short_size: (self.global_short_size - amount) as u128, ..self }
        }
    }

    pub fn decrease_global_short(self, amount: u128) -> (r: AssetState)
        ensures
            r == self.spec_decrease_global_short(amount),
    {
        if amount > self.global_short_size {
            AssetState { global_short_size: 0, ..self }
        } else {
            AssetState { global_short_size: self.global_short_size - amount, ..self }
        }
    }
}

} // verus!
