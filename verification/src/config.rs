//! Aggregate vault configuration.
//!
//! Mutated only by the authority through the admin entry points; every
//! other engine consults it read-only.

use vstd::prelude::*;

verus! {

#[derive(Clone, Copy, Debug, PartialEq, Eq, Structural)]
pub struct VaultConfig {
    // Feature toggles.
    pub is_swap_enabled: bool,
    pub is_leverage_enabled: bool,
    pub in_manager_mode: bool,
    pub in_private_liquidation_mode: bool,
    pub has_dynamic_fees: bool,
    // Collaborator identities.
    pub authority: u64,
    pub router: u64,
    pub price_feed: u64,
    pub custody: u64,
    pub usdg_asset: u64,
    // Risk and fee schedule.
    pub max_leverage: u128,
    pub liquidation_fee_usd: u128,
    pub tax_basis_points: u128,
    pub stable_tax_basis_points: u128,
    pub mint_burn_fee_basis_points: u128,
    pub swap_fee_basis_points: u128,
    pub stable_swap_fee_basis_points: u128,
    pub margin_fee_basis_points: u128,
    pub min_profit_time: u64,
    // Funding engine parameters.
    pub funding_interval: u64,
    pub funding_rate_factor: u128,
    pub stable_funding_rate_factor: u128,
    // Miscellaneous limits.
    pub max_gas_price: u128,
}

impl VaultConfig {
    /// Bounds every admin entry point preserves; the arithmetic of the fee
    /// and funding engines relies on them.
    pub open spec fn inv(self) -> bool {
        &&& self.funding_interval >= crate::MIN_FUNDING_RATE_INTERVAL
        &&& self.tax_basis_points <= crate::MAX_FEE_BASIS_POINTS
        &&& self.stable_tax_basis_points <= crate::MAX_FEE_BASIS_POINTS
        &&& self.mint_burn_fee_basis_points <= crate::MAX_FEE_BASIS_POINTS
        &&& self.swap_fee_basis_points <= crate::MAX_FEE_BASIS_POINTS
        &&& self.stable_swap_fee_basis_points <= crate::MAX_FEE_BASIS_POINTS
        &&& self.margin_fee_basis_points <= crate::MAX_FEE_BASIS_POINTS
        &&& self.liquidation_fee_usd <= crate::MAX_LIQUIDATION_FEE_USD
        &&& self.funding_rate_factor <= crate::MAX_FUNDING_RATE_FACTOR
        &&& self.stable_funding_rate_factor <= crate::MAX_FUNDING_RATE_FACTOR
        &&& self.max_leverage >= crate::MIN_LEVERAGE
    }

    /// The configuration an initialized vault starts from.
    pub open spec fn spec_starting(
        authority: u64,
        router: u64,
        price_feed: u64,
        custody: u64,
        usdg_asset: u64,
        liquidation_fee_usd: u128,
        funding_rate_factor: u128,
        stable_funding_rate_factor: u128,
    ) -> VaultConfig {
        VaultConfig {
            is_swap_enabled: true,
            is_leverage_enabled: true,
            in_manager_mode: false,
            in_private_liquidation_mode: false,
            has_dynamic_fees: false,
            authority,
            router,
            price_feed,
            custody,
            usdg_asset,
            max_leverage: 500000,
            liquidation_fee_usd,
            tax_basis_points: 50,
            stable_tax_basis_points: 20,
            mint_burn_fee_basis_points: 30,
            swap_fee_basis_points: 30,
            stable_swap_fee_basis_points: 4,
            margin_fee_basis_points: 10,
            min_profit_time: 0,
            funding_interval: 28800,
            funding_rate_factor,
            stable_funding_rate_factor,
            max_gas_price: 0,
        }
    }

    pub fn starting(
        authority: u64,
        router: u64,
        price_feed: u64,
        custody: u64,
        usdg_asset: u64,
        liquidation_fee_usd: u128,
        funding_rate_factor: u128,
        stable_funding_rate_factor: u128,
    ) -> (r: VaultConfig)
        requires
            liquidation_fee_usd <= crate::MAX_LIQUIDATION_FEE_USD,
            funding_rate_factor <= crate::MAX_FUNDING_RATE_FACTOR,
            stable_funding_rate_factor <= crate::MAX_FUNDING_RATE_FACTOR,
        ensures
            r == VaultConfig::spec_starting(
                authority,
                router,
                price_feed,
                custody,
                usdg_asset,
                liquidation_fee_usd,
                funding_rate_factor,
                stable_funding_rate_factor,
            ),
            r.inv(),
    {
        VaultConfig {
            is_swap_enabled: true,
            is_leverage_enabled: true,
            in_manager_mode: false,
            in_private_liquidation_mode: false,
            has_dynamic_fees: false,
            authority,
            router,
            price_feed,
            custody,
            usdg_asset,
            max_leverage: 500000,
            liquidation_fee_usd,
            tax_basis_points: 50,
            stable_tax_basis_points: 20,
            mint_burn_fee_basis_points: 30,
            swap_fee_basis_points: 30,
            stable_swap_fee_basis_points: 4,
            margin_fee_basis_points: 10,
            min_profit_time: 0,
            funding_interval: 28800,
            funding_rate_factor,
            stable_funding_rate_factor,
            max_gas_price: 0,
        }
    }
}

} // verus!
