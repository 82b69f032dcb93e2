//! The vault: configuration, per-asset ledgers, positions, and the role
//! rosters, with every operation of the engine as a method.
//!
//! Every mutating operation is atomic: it validates and computes first and
//! commits only at the end, so on any error the state is exactly what it
//! was before the call.

use vstd::prelude::*;

use crate::asset::AssetState;
use crate::assets::AssetTable;
use crate::config::VaultConfig;
use crate::error::ContractError;
use crate::pnl;
use crate::position::{Position, PositionKey};
use crate::pricing::PricePair;
use crate::positions::PositionTable;
use crate::roster::Roster;

verus! {

/// The abstract state of a vault.
pub ghost struct VaultView {
    pub config: VaultConfig,
    pub assets: Map<u64, AssetState>,
    pub positions: Map<PositionKey, Position>,
    pub managers: Set<u64>,
    pub liquidators: Set<u64>,
    pub usdg_supply: u128,
    pub total_token_weights: u128,
    pub whitelisted_count: u64,
}

impl VaultView {
    /// The ledger invariant: a valid configuration, every whitelisted
    /// asset's pool covering its reserves and respecting its issuance cap,
    /// and every position either zeroed or collateralized within its size
    /// with a positive entry price.
    pub open spec fn inv(self) -> bool {
        &&& self.config.inv()
        &&& forall|a: u64| #[trigger]
            self.assets.contains_key(a) ==> self.assets[a].inv()
        &&& forall|k: PositionKey| #[trigger]
            self.positions.contains_key(k) ==> self.positions[k].inv()
    }

    /// The stored position under `key`, or the zeroed position if none was
    /// ever created.
    pub open spec fn position_or_empty(self, key: PositionKey) -> Position {
        if self.positions.contains_key(key) {
            self.positions[key]
        } else {
            Position::spec_empty()
        }
    }

    /// Nothing but the per-asset ledgers and the stable supply changed.
    pub open spec fn same_except_assets(self, post: VaultView) -> bool {
        &&& post.config == self.config
        &&& post.positions == self.positions
        &&& post.managers == self.managers
        &&& post.liquidators == self.liquidators
        &&& post.total_token_weights == self.total_token_weights
        &&& post.whitelisted_count == self.whitelisted_count
    }

    /// Nothing but the per-asset ledgers, the positions and the stable
    /// supply changed.
    pub open spec fn same_except_trading(self, post: VaultView) -> bool {
        &&& post.config == self.config
        &&& post.managers == self.managers
        &&& post.liquidators == self.liquidators
        &&& post.total_token_weights == self.total_token_weights
        &&& post.whitelisted_count == self.whitelisted_count
    }
}

#[derive(Debug)]
pub struct Vault {
    config: VaultConfig,
    assets: AssetTable,
    positions: PositionTable,
    managers: Roster,
    liquidators: Roster,
    usdg_supply: u128,
    total_token_weights: u128,
    whitelisted_count: u64,
}

impl View for Vault {
    type V = VaultView;

    closed spec fn view(&self) -> VaultView {
        VaultView {
            config: self.config,
            assets: self.assets@,
            positions: self.positions@,
            managers: self.managers@,
            liquidators: self.liquidators@,
            usdg_supply: self.usdg_supply,
            total_token_weights: self.total_token_weights,
            whitelisted_count: self.whitelisted_count,
        }
    }
}

/// A well-formed vault's abstract state satisfies the ledger invariant.
pub proof fn lemma_wf_implies_inv(v: &Vault)
    requires
        v.wf(),
    ensures
        v@.inv(),
{
}

/// The ledger invariant only reads the configuration, the asset map and
/// the position map; it survives any change that keeps those maps' entries
/// individually sound.
proof fn lemma_inv_config_change(pre: VaultView, post: VaultView)
    requires
        pre.inv(),
        post.config.inv(),
        post.assets == pre.assets,
        post.positions == pre.positions,
    ensures
        post.inv(),
{
    assert forall|a: u64| #[trigger] post.assets.contains_key(a) implies post.assets[a].inv() by {
        assert(pre.assets.contains_key(a));
    }
    assert forall|k: PositionKey| #[trigger]
        post.positions.contains_key(k) implies post.positions[k].inv() by {
        assert(pre.positions.contains_key(k));
    }
}

proof fn lemma_inv_asset_insert(pre: VaultView, post: VaultView, id: u64, st: AssetState)
    requires
        pre.inv(),
        post.config.inv(),
        post.assets == pre.assets.insert(id, st),
        st.inv(),
        post.positions == pre.positions,
    ensures
        post.inv(),
{
    assert forall|a: u64| #[trigger] post.assets.contains_key(a) implies post.assets[a].inv() by {
        if a != id {
            assert(pre.assets.contains_key(a));
        }
    }
    assert forall|k: PositionKey| #[trigger]
        post.positions.contains_key(k) implies post.positions[k].inv() by {
        assert(pre.positions.contains_key(k));
    }
}

proof fn lemma_inv_asset_remove(pre: VaultView, post: VaultView, id: u64)
    requires
        pre.inv(),
        post.config.inv(),
        post.assets == pre.assets.remove(id),
        post.positions == pre.positions,
    ensures
        post.inv(),
{
    assert forall|a: u64| #[trigger] post.assets.contains_key(a) implies post.assets[a].inv() by {
        assert(pre.assets.contains_key(a));
    }
    assert forall|k: PositionKey| #[trigger]
        post.positions.contains_key(k) implies post.positions[k].inv() by {
        assert(pre.positions.contains_key(k));
    }
}

proof fn lemma_inv_asset2_insert(
    pre: VaultView,
    post: VaultView,
    id1: u64,
    st1: AssetState,
    id2: u64,
    st2: AssetState,
)
    requires
        pre.inv(),
        post.config.inv(),
        post.assets == pre.assets.insert(id1, st1).insert(id2, st2),
        st1.inv(),
        st2.inv(),
        post.positions == pre.positions,
    ensures
        post.inv(),
{
    assert forall|a: u64| #[trigger] post.assets.contains_key(a) implies post.assets[a].inv() by {
        if a != id1 && a != id2 {
            assert(pre.assets.contains_key(a));
        }
    }
    assert forall|k: PositionKey| #[trigger]
        post.positions.contains_key(k) implies post.positions[k].inv() by {
        assert(pre.positions.contains_key(k));
    }
}

proof fn lemma_inv_trade_update1(
    pre: VaultView,
    post: VaultView,
    id: u64,
    st: AssetState,
    key: PositionKey,
    p: Position,
)
    requires
        pre.inv(),
        post.config.inv(),
        post.assets == pre.assets.insert(id, st),
        st.inv(),
        post.positions == pre.positions.insert(key, p),
        p.inv(),
    ensures
        post.inv(),
{
    assert forall|a: u64| #[trigger] post.assets.contains_key(a) implies post.assets[a].inv() by {
        if a != id {
            assert(pre.assets.contains_key(a));
        }
    }
    assert forall|k: PositionKey| #[trigger]
        post.positions.contains_key(k) implies post.positions[k].inv() by {
        if k != key {
            assert(pre.positions.contains_key(k));
        }
    }
}

proof fn lemma_inv_trade_update(
    pre: VaultView,
    post: VaultView,
    id1: u64,
    st1: AssetState,
    id2: u64,
    st2: AssetState,
    key: PositionKey,
    p: Position,
)
    requires
        pre.inv(),
        post.config.inv(),
        post.assets == pre.assets.insert(id1, st1).insert(id2, st2),
        st1.inv(),
        st2.inv(),
        post.positions == pre.positions.insert(key, p),
        p.inv(),
    ensures
        post.inv(),
{
    assert forall|a: u64| #[trigger] post.assets.contains_key(a) implies post.assets[a].inv() by {
        if a != id1 && a != id2 {
            assert(pre.assets.contains_key(a));
        }
    }
    assert forall|k: PositionKey| #[trigger]
        post.positions.contains_key(k) implies post.positions[k].inv() by {
        if k != key {
            assert(pre.positions.contains_key(k));
        }
    }
}

impl Vault {
    /// Well-formedness: the stores are structurally sound and the abstract
    /// state satisfies the ledger invariant.
    pub closed spec fn wf(&self) -> bool {
        &&& self.assets.wf()
        &&& self.positions.wf()
        &&& self.managers.wf()
        &&& self.liquidators.wf()
        &&& self@.inv()
    }

    /// Initialize an empty vault. The caller becomes the authority; the
    /// numeric parameters are validated against their configured caps.
    pub fn new(
        authority: u64,
        router: u64,
        price_feed: u64,
        custody: u64,
        usdg_asset: u64,
        liquidation_fee_usd: u128,
        funding_rate_factor: u128,
        stable_funding_rate_factor: u128,
    ) -> (r: Result<Vault, ContractError>)
        ensures
            liquidation_fee_usd > crate::MAX_LIQUIDATION_FEE_USD || funding_rate_factor
                > crate::MAX_FUNDING_RATE_FACTOR || stable_funding_rate_factor
                > crate::MAX_FUNDING_RATE_FACTOR ==> r == Err::<Vault, ContractError>(
                ContractError::InvalidAmount,
            ),
            liquidation_fee_usd <= crate::MAX_LIQUIDATION_FEE_USD && funding_rate_factor
                <= crate::MAX_FUNDING_RATE_FACTOR && stable_funding_rate_factor
                <= crate::MAX_FUNDING_RATE_FACTOR ==> (r matches Ok(v) && v.wf() && v@
                == (VaultView {
                config: VaultConfig::spec_starting(
                    authority,
                    router,
                    price_feed,
                    custody,
                    usdg_asset,
                    liquidation_fee_usd,
                    funding_rate_factor,
                    stable_funding_rate_factor,
                ),
                assets: Map::<u64, AssetState>::empty(),
                positions: Map::<PositionKey, Position>::empty(),
                managers: Set::<u64>::empty(),
                liquidators: Set::<u64>::empty(),
                usdg_supply: 0,
                total_token_weights: 0,
                whitelisted_count: 0,
            })),
    {
        if liquidation_fee_usd > crate::MAX_LIQUIDATION_FEE_USD || funding_rate_factor
            > crate::MAX_FUNDING_RATE_FACTOR || stable_funding_rate_factor
            > crate::MAX_FUNDING_RATE_FACTOR {
            return Err(ContractError::InvalidAmount);
        }
        let config = VaultConfig::starting(
            authority,
            router,
            price_feed,
            custody,
            usdg_asset,
            liquidation_fee_usd,
            funding_rate_factor,
            stable_funding_rate_factor,
        );
        Ok(
            Vault {
                config,
                assets: AssetTable::new(),
                positions: PositionTable::new(),
                managers: Roster::new(),
                liquidators: Roster::new(),
                usdg_supply: 0,
                total_token_weights: 0,
                whitelisted_count: 0,
            },
        )
    }

    /// The current configuration.
    pub fn get_config(&self) -> (r: VaultConfig)
        ensures
            r == self@.config,
    {
        self.config
    }

    /// Total synthetic stable issued across all assets.
    pub fn get_usdg_supply(&self) -> (r: u128)
        ensures
            r == self@.usdg_supply,
    {
        self.usdg_supply
    }

    /// Recorded sum of weights across whitelisted assets.
    pub fn get_total_token_weights(&self) -> (r: u128)
        ensures
            r == self@.total_token_weights,
    {
        self.total_token_weights
    }

    pub fn get_whitelisted_token_count(&self) -> (r: u64)
        ensures
            r == self@.whitelisted_count,
    {
        self.whitelisted_count
    }

    pub fn query_manager(&self, account: u64) -> (r: bool)
        ensures
            r == self@.managers.contains(account),
    {
        self.managers.contains(account)
    }

    pub fn query_liquidator(&self, account: u64) -> (r: bool)
        ensures
            r == self@.liquidators.contains(account),
    {
        self.liquidators.contains(account)
    }

    pub fn check_whitelisted_token(&self, asset: u64) -> (r: bool)
        requires
            self.wf(),
        ensures
            r == self@.assets.contains_key(asset),
    {
        self.assets.contains(asset)
    }

    /// The full per-asset state, if the asset is whitelisted.
    pub fn get_token(&self, asset: u64) -> (r: Option<AssetState>)
        requires
            self.wf(),
        ensures
            match r {
                Some(st) => self@.assets.contains_key(asset) && st == self@.assets[asset],
                None => !self@.assets.contains_key(asset),
            },
    {
        self.assets.get(asset)
    }

    /// Every whitelisted asset id, each exactly once.
    pub fn all_whitelisted_tokens(&self) -> (r: Vec<u64>)
        requires
            self.wf(),
        ensures
            forall|a: u64| r@.contains(a) <==> self@.assets.contains_key(a),
            r@.no_duplicates(),
    {
        self.assets.ids()
    }

    /// The position stored under the given key; a never-opened position
    /// reads as all zeroes.
    pub fn get_position(&self, account: u64, collateral_asset: u64, index_asset: u64, is_long: bool) -> (r:
        Position)
        requires
            self.wf(),
        ensures
            r == self@.position_or_empty(
                PositionKey { account, collateral_asset, index_asset, is_long },
            ),
            r.inv(),
    {
        let key = PositionKey { account, collateral_asset, index_asset, is_long };
        match self.positions.get(&key) {
            Some(p) => {
                proof {
                    assert(self@.positions.contains_key(key));
                }
                p
            },
            None => Position::empty(),
        }
    }

    /// Leverage of a position in basis points: notional over collateral.
    pub fn get_position_leverage(
        &self,
        account: u64,
        collateral_asset: u64,
        index_asset: u64,
        is_long: bool,
    ) -> (r: Result<u128, ContractError>)
        requires
            self.wf(),
        ensures
            ({
                let p = self@.position_or_empty(
                    PositionKey { account, collateral_asset, index_asset, is_long },
                );
                if p.collateral == 0 {
                    r == Err::<u128, ContractError>(ContractError::InvalidAmount)
                } else if p.size * crate::BASIS_POINTS_DIVISOR <= u128::MAX {
                    r == Ok::<u128, ContractError>(
                        (p.size * crate::BASIS_POINTS_DIVISOR / p.collateral as int) as u128,
                    )
                } else {
                    r == Err::<u128, ContractError>(ContractError::ArithmeticFailure)
                }
            }),
    {
        let p = self.get_position(account, collateral_asset, index_asset, is_long);
        if p.collateral == 0 {
            return Err(ContractError::InvalidAmount);
        }
        crate::math::mul_div(p.size, crate::BASIS_POINTS_DIVISOR, p.collateral)
    }

    /// Pool utilisation of an asset: reserved over pool, scaled by the
    /// funding-rate precision. Zero for an empty pool.
    pub fn get_utilisation(&self, asset: u64) -> (r: Result<u128, ContractError>)
        requires
            self.wf(),
        ensures
            !self@.assets.contains_key(asset) ==> r == Err::<u128, ContractError>(
                (ContractError::InvalidAsset { asset }),
            ),
            self@.assets.contains_key(asset) ==> {
                let st = self@.assets[asset];
                if st.pool_amount == 0 {
                    r == Ok::<u128, ContractError>(0u128)
                } else if st.reserved_amount * crate::FUNDING_RATE_PRECISION <= u128::MAX {
                    r == Ok::<u128, ContractError>(
                        (st.reserved_amount * crate::FUNDING_RATE_PRECISION
                            / st.pool_amount as int) as u128,
                    )
                } else {
                    r == Err::<u128, ContractError>(ContractError::ArithmeticFailure)
                }
            },
    {
        let st = match self.assets.get(asset) {
            Some(st) => st,
            None => {
                return Err(ContractError::InvalidAsset { asset });
            },
        };
        if st.pool_amount == 0 {
            return Ok(0);
        }
        crate::math::mul_div(st.reserved_amount, crate::FUNDING_RATE_PRECISION, st.pool_amount)
    }
}

impl VaultView {
    /// The state after replacing the configuration only.
    pub open spec fn with_config(self, cfg: VaultConfig) -> VaultView {
        VaultView { config: cfg, ..self }
    }
}

impl Vault {
    /// Toggle manager-only mode for mint/redeem entry points.
    pub fn set_in_manager_mode(&mut self, caller: u64, enabled: bool) -> (r: Result<
        (),
        ContractError,
    >)
        requires
            old(self).wf(),
        ensures
            final(self).wf(),
            caller != old(self)@.config.authority ==> r == Err::<(), ContractError>(
                ContractError::Unauthorized,
            ) && final(self)@ == old(self)@,
            caller == old(self)@.config.authority ==> r == Ok::<(), ContractError>(()) && final(self)@ == old(self)@.with_config(
                (VaultConfig { in_manager_mode: enabled, ..old(self)@.config }),
            ),
    {
        if caller != self.config.authority {
            return Err(ContractError::Unauthorized);
        }
        self.config.in_manager_mode = enabled;
        proof {
            lemma_inv_config_change(old(self)@, self@);
        }
        Ok(())
    }

    /// Toggle the private-liquidation gate.
    pub fn set_in_private_liquidation_mode(&mut self, caller: u64, enabled: bool) -> (r: Result<
        (),
        ContractError,
    >)
        requires
            old(self).wf(),
        ensures
            final(self).wf(),
            caller != old(self)@.config.authority ==> r == Err::<(), ContractError>(
                ContractError::Unauthorized,
            ) && final(self)@ == old(self)@,
            caller == old(self)@.config.authority ==> r == Ok::<(), ContractError>(()) && final(self)@ == old(self)@.with_config(
                (VaultConfig { in_private_liquidation_mode: enabled, ..old(self)@.config }),
            ),
    {
        if caller != self.config.authority {
            return Err(ContractError::Unauthorized);
        }
        self.config.in_private_liquidation_mode = enabled;
        proof {
            lemma_inv_config_change(old(self)@, self@);
        }
        Ok(())
    }

    pub fn set_is_swap_enabled(&mut self, caller: u64, enabled: bool) -> (r: Result<
        (),
        ContractError,
    >)
        requires
            old(self).wf(),
        ensures
            final(self).wf(),
            caller != old(self)@.config.authority ==> r == Err::<(), ContractError>(
                ContractError::Unauthorized,
            ) && final(self)@ == old(self)@,
            caller == old(self)@.config.authority ==> r == Ok::<(), ContractError>(()) && final(self)@ == old(self)@.with_config(
                (VaultConfig { is_swap_enabled: enabled, ..old(self)@.config }),
            ),
    {
        if caller != self.config.authority {
            return Err(ContractError::Unauthorized);
        }
        self.config.is_swap_enabled = enabled;
        proof {
            lemma_inv_config_change(old(self)@, self@);
        }
        Ok(())
    }

    pub fn set_is_leverage_enabled(&mut self, caller: u64, enabled: bool) -> (r: Result<
        (),
        ContractError,
    >)
        requires
            old(self).wf(),
        ensures
            final(self).wf(),
            caller != old(self)@.config.authority ==> r == Err::<(), ContractError>(
                ContractError::Unauthorized,
            ) && final(self)@ == old(self)@,
            caller == old(self)@.config.authority ==> r == Ok::<(), ContractError>(()) && final(self)@ == old(self)@.with_config(
                (VaultConfig { is_leverage_enabled: enabled, ..old(self)@.config }),
            ),
    {
        if caller != self.config.authority {
            return Err(ContractError::Unauthorized);
        }
        self.config.is_leverage_enabled = enabled;
        proof {
            lemma_inv_config_change(old(self)@, self@);
        }
        Ok(())
    }

    pub fn set_max_gas_price(&mut self, caller: u64, max_gas_price: u128) -> (r: Result<
        (),
        ContractError,
    >)
        requires
            old(self).wf(),
        ensures
            final(self).wf(),
            caller != old(self)@.config.authority ==> r == Err::<(), ContractError>(
                ContractError::Unauthorized,
            ) && final(self)@ == old(self)@,
            caller == old(self)@.config.authority ==> r == Ok::<(), ContractError>(()) && final(self)@ == old(self)@.with_config(
                (VaultConfig { max_gas_price, ..old(self)@.config }),
            ),
    {
        if caller != self.config.authority {
            return Err(ContractError::Unauthorized);
        }
        self.config.max_gas_price = max_gas_price;
        proof {
            lemma_inv_config_change(old(self)@, self@);
        }
        Ok(())
    }

    /// Hand the authority role to another identity.
    pub fn set_gov(&mut self, caller: u64, authority: u64) -> (r: Result<(), ContractError>)
        requires
            old(self).wf(),
        ensures
            final(self).wf(),
            caller != old(self)@.config.authority ==> r == Err::<(), ContractError>(
                ContractError::Unauthorized,
            ) && final(self)@ == old(self)@,
            caller == old(self)@.config.authority ==> r == Ok::<(), ContractError>(()) && final(self)@ == old(self)@.with_config((VaultConfig { authority, ..old(self)@.config })),
    {
        if caller != self.config.authority {
            return Err(ContractError::Unauthorized);
        }
        self.config.authority = authority;
        proof {
            lemma_inv_config_change(old(self)@, self@);
        }
        Ok(())
    }

    pub fn set_price_feed(&mut self, caller: u64, price_feed: u64) -> (r: Result<
        (),
        ContractError,
    >)
        requires
            old(self).wf(),
        ensures
            final(self).wf(),
            caller != old(self)@.config.authority ==> r == Err::<(), ContractError>(
                ContractError::Unauthorized,
            ) && final(self)@ == old(self)@,
            caller == old(self)@.config.authority ==> r == Ok::<(), ContractError>(()) && final(self)@ == old(self)@.with_config((VaultConfig { price_feed, ..old(self)@.config })),
    {
        if caller != self.config.authority {
            return Err(ContractError::Unauthorized);
        }
        self.config.price_feed = price_feed;
        proof {
            lemma_inv_config_change(old(self)@, self@);
        }
        Ok(())
    }

    /// Set the leverage ceiling (basis points); at least 1x.
    pub fn set_max_leverage(&mut self, caller: u64, max_leverage: u128) -> (r: Result<
        (),
        ContractError,
    >)
        requires
            old(self).wf(),
        ensures
            final(self).wf(),
            caller != old(self)@.config.authority ==> r == Err::<(), ContractError>(
                ContractError::Unauthorized,
            ) && final(self)@ == old(self)@,
            caller == old(self)@.config.authority && max_leverage < crate::MIN_LEVERAGE ==> r
                == Err::<(), ContractError>(ContractError::InvalidAmount) && final(self)@ == old(self)@,
            caller == old(self)@.config.authority && max_leverage >= crate::MIN_LEVERAGE ==> r
                == Ok::<(), ContractError>(()) && final(self)@ == old(self)@.with_config(
                (VaultConfig { max_leverage, ..old(self)@.config }),
            ),
    {
        if caller != self.config.authority {
            return Err(ContractError::Unauthorized);
        }
        if max_leverage < crate::MIN_LEVERAGE {
            return Err(ContractError::InvalidAmount);
        }
        self.config.max_leverage = max_leverage;
        proof {
            lemma_inv_config_change(old(self)@, self@);
        }
        Ok(())
    }

    /// Grant or revoke the manager role.
    pub fn set_manager(&mut self, caller: u64, account: u64, active: bool) -> (r: Result<
        (),
        ContractError,
    >)
        requires
            old(self).wf(),
        ensures
            final(self).wf(),
            caller != old(self)@.config.authority ==> r == Err::<(), ContractError>(
                ContractError::Unauthorized,
            ) && final(self)@ == old(self)@,
            caller == old(self)@.config.authority ==> r == Ok::<(), ContractError>(()) && final(self)@ == (VaultView {
                managers: if active {
                    old(self)@.managers.insert(account)
                } else {
                    old(self)@.managers.remove(account)
                },
                ..old(self)@
            }),
    {
        if caller != self.config.authority {
            return Err(ContractError::Unauthorized);
        }
        self.managers.set(account, active);
        proof {
            lemma_inv_config_change(old(self)@, self@);
        }
        Ok(())
    }

    /// Grant or revoke the liquidator role.
    pub fn set_liquidator(&mut self, caller: u64, account: u64, active: bool) -> (r: Result<
        (),
        ContractError,
    >)
        requires
            old(self).wf(),
        ensures
            final(self).wf(),
            caller != old(self)@.config.authority ==> r == Err::<(), ContractError>(
                ContractError::Unauthorized,
            ) && final(self)@ == old(self)@,
            caller == old(self)@.config.authority ==> r == Ok::<(), ContractError>(()) && final(self)@ == (VaultView {
                liquidators: if active {
                    old(self)@.liquidators.insert(account)
                } else {
                    old(self)@.liquidators.remove(account)
                },
                ..old(self)@
            }),
    {
        if caller != self.config.authority {
            return Err(ContractError::Unauthorized);
        }
        self.liquidators.set(account, active);
        proof {
            lemma_inv_config_change(old(self)@, self@);
        }
        Ok(())
    }

    /// Set the soft minimum the pool of `asset` should keep for swaps.
    pub fn set_buffer_amount(&mut self, caller: u64, asset: u64, amount: u128) -> (r: Result<
        (),
        ContractError,
    >)
        requires
            old(self).wf(),
        ensures
            final(self).wf(),
            caller != old(self)@.config.authority ==> r == Err::<(), ContractError>(
                ContractError::Unauthorized,
            ) && final(self)@ == old(self)@,
            caller == old(self)@.config.authority && !old(self)@.assets.contains_key(asset) ==> r
                == Err::<(), ContractError>((ContractError::InvalidAsset { asset })) && final(self)@ == old(self)@,
            caller == old(self)@.config.authority && old(self)@.assets.contains_key(asset) ==> r
                == Ok::<(), ContractError>(()) && final(self)@ == (VaultView {
                assets: old(self)@.assets.insert(
                    asset,
                    (AssetState { buffer_amount: amount, ..old(self)@.assets[asset] }),
                ),
                ..old(self)@
            }),
    {
        if caller != self.config.authority {
            return Err(ContractError::Unauthorized);
        }
        let st = match self.assets.get(asset) {
            Some(st) => st,
            None => {
                return Err(ContractError::InvalidAsset { asset });
            },
        };
        self.assets.set(asset, AssetState { buffer_amount: amount, ..st });
        proof {
            lemma_inv_asset_insert(
                old(self)@,
                self@,
                asset,
                AssetState { buffer_amount: amount, ..st },
            );
        }
        Ok(())
    }

    /// Cap the aggregate short notional against `asset`.
    pub fn set_max_global_short_size(&mut self, caller: u64, asset: u64, amount: u128) -> (r:
        Result<(), ContractError>)
        requires
            old(self).wf(),
        ensures
            final(self).wf(),
            caller != old(self)@.config.authority ==> r == Err::<(), ContractError>(
                ContractError::Unauthorized,
            ) && final(self)@ == old(self)@,
            caller == old(self)@.config.authority && !old(self)@.assets.contains_key(asset) ==> r
                == Err::<(), ContractError>((ContractError::InvalidAsset { asset })) && final(self)@ == old(self)@,
            caller == old(self)@.config.authority && old(self)@.assets.contains_key(asset) ==> r
                == Ok::<(), ContractError>(()) && final(self)@ == (VaultView {
                assets: old(self)@.assets.insert(
                    asset,
                    (AssetState { max_global_short_size: amount, ..old(self)@.assets[asset] }),
                ),
                ..old(self)@
            }),
    {
        if caller != self.config.authority {
            return Err(ContractError::Unauthorized);
        }
        let st = match self.assets.get(asset) {
            Some(st) => st,
            None => {
                return Err(ContractError::InvalidAsset { asset });
            },
        };
        self.assets.set(asset, AssetState { max_global_short_size: amount, ..st });
        proof {
            lemma_inv_asset_insert(
                old(self)@,
                self@,
                asset,
                AssetState { max_global_short_size: amount, ..st },
            );
        }
        Ok(())
    }

    /// Replace the whole fee schedule; every entry is capped.
    pub fn set_fees(
        &mut self,
        caller: u64,
        tax_basis_points: u128,
        stable_tax_basis_points: u128,
        mint_burn_fee_basis_points: u128,
        swap_fee_basis_points: u128,
        stable_swap_fee_basis_points: u128,
        margin_fee_basis_points: u128,
        liquidation_fee_usd: u128,
        min_profit_time: u64,
        has_dynamic_fees: bool,
    ) -> (r: Result<(), ContractError>)
        requires
            old(self).wf(),
        ensures
            final(self).wf(),
            caller != old(self)@.config.authority ==> r == Err::<(), ContractError>(
                ContractError::Unauthorized,
            ) && final(self)@ == old(self)@,
            caller == old(self)@.config.authority && (tax_basis_points
                > crate::MAX_FEE_BASIS_POINTS || stable_tax_basis_points
                > crate::MAX_FEE_BASIS_POINTS || mint_burn_fee_basis_points
                > crate::MAX_FEE_BASIS_POINTS || swap_fee_basis_points
                > crate::MAX_FEE_BASIS_POINTS || stable_swap_fee_basis_points
                > crate::MAX_FEE_BASIS_POINTS || margin_fee_basis_points
                > crate::MAX_FEE_BASIS_POINTS || liquidation_fee_usd
                > crate::MAX_LIQUIDATION_FEE_USD) ==> r == Err::<(), ContractError>(
                ContractError::InvalidAmount,
            ) && final(self)@ == old(self)@,
            caller == old(self)@.config.authority && tax_basis_points
                <= crate::MAX_FEE_BASIS_POINTS && stable_tax_basis_points
                <= crate::MAX_FEE_BASIS_POINTS && mint_burn_fee_basis_points
                <= crate::MAX_FEE_BASIS_POINTS && swap_fee_basis_points
                <= crate::MAX_FEE_BASIS_POINTS && stable_swap_fee_basis_points
                <= crate::MAX_FEE_BASIS_POINTS && margin_fee_basis_points
                <= crate::MAX_FEE_BASIS_POINTS && liquidation_fee_usd
                <= crate::MAX_LIQUIDATION_FEE_USD ==> r == Ok::<(), ContractError>(()) && final(self)@ == old(self)@.with_config(
                (VaultConfig {
                    tax_basis_points,
                    stable_tax_basis_points,
                    mint_burn_fee_basis_points,
                    swap_fee_basis_points,
                    stable_swap_fee_basis_points,
                    margin_fee_basis_points,
                    liquidation_fee_usd,
                    min_profit_time,
                    has_dynamic_fees,
                    ..old(self)@.config
                }),
            ),
    {
        if caller != self.config.authority {
            return Err(ContractError::Unauthorized);
        }
        if tax_basis_points > crate::MAX_FEE_BASIS_POINTS || stable_tax_basis_points
            > crate::MAX_FEE_BASIS_POINTS || mint_burn_fee_basis_points
            > crate::MAX_FEE_BASIS_POINTS || swap_fee_basis_points > crate::MAX_FEE_BASIS_POINTS
            || stable_swap_fee_basis_points > crate::MAX_FEE_BASIS_POINTS
            || margin_fee_basis_points > crate::MAX_FEE_BASIS_POINTS || liquidation_fee_usd
            > crate::MAX_LIQUIDATION_FEE_USD {
            return Err(ContractError::InvalidAmount);
        }
        self.config.tax_basis_points = tax_basis_points;
        self.config.stable_tax_basis_points = stable_tax_basis_points;
        self.config.mint_burn_fee_basis_points = mint_burn_fee_basis_points;
        self.config.swap_fee_basis_points = swap_fee_basis_points;
        self.config.stable_swap_fee_basis_points = stable_swap_fee_basis_points;
        self.config.margin_fee_basis_points = margin_fee_basis_points;
        self.config.liquidation_fee_usd = liquidation_fee_usd;
        self.config.min_profit_time = min_profit_time;
        self.config.has_dynamic_fees = has_dynamic_fees;
        proof {
            lemma_inv_config_change(old(self)@, self@);
        }
        Ok(())
    }

    /// Replace the funding parameters; interval and factors are bounded.
    pub fn set_funding_rate(
        &mut self,
        caller: u64,
        funding_interval: u64,
        funding_rate_factor: u128,
        stable_funding_rate_factor: u128,
    ) -> (r: Result<(), ContractError>)
        requires
            old(self).wf(),
        ensures
            final(self).wf(),
            caller != old(self)@.config.authority ==> r == Err::<(), ContractError>(
                ContractError::Unauthorized,
            ) && final(self)@ == old(self)@,
            caller == old(self)@.config.authority && (funding_interval
                < crate::MIN_FUNDING_RATE_INTERVAL || funding_rate_factor
                > crate::MAX_FUNDING_RATE_FACTOR || stable_funding_rate_factor
                > crate::MAX_FUNDING_RATE_FACTOR) ==> r == Err::<(), ContractError>(
                ContractError::InvalidAmount,
            ) && final(self)@ == old(self)@,
            caller == old(self)@.config.authority && funding_interval
                >= crate::MIN_FUNDING_RATE_INTERVAL && funding_rate_factor
                <= crate::MAX_FUNDING_RATE_FACTOR && stable_funding_rate_factor
                <= crate::MAX_FUNDING_RATE_FACTOR ==> r == Ok::<(), ContractError>(()) && final(self)@ == old(self)@.with_config(
                (VaultConfig {
                    funding_interval,
                    funding_rate_factor,
                    stable_funding_rate_factor,
                    ..old(self)@.config
                }),
            ),
    {
        if caller != self.config.authority {
            return Err(ContractError::Unauthorized);
        }
        if funding_interval < crate::MIN_FUNDING_RATE_INTERVAL || funding_rate_factor
            > crate::MAX_FUNDING_RATE_FACTOR || stable_funding_rate_factor
            > crate::MAX_FUNDING_RATE_FACTOR {
            return Err(ContractError::InvalidAmount);
        }
        self.config.funding_interval = funding_interval;
        self.config.funding_rate_factor = funding_rate_factor;
        self.config.stable_funding_rate_factor = stable_funding_rate_factor;
        proof {
            lemma_inv_config_change(old(self)@, self@);
        }
        Ok(())
    }
}

impl Vault {
    /// Whitelist an asset or replace its static configuration. Pool
    /// counters of an already whitelisted asset are preserved; the recorded
    /// weight total and the whitelisted count are kept consistent.
    pub fn set_token_config(
        &mut self,
        caller: u64,
        asset: u64,
        decimals: u32,
        token_weight: u128,
        min_profit_basis_points: u128,
        max_usdg_amount: u128,
        is_stable: bool,
        is_shortable: bool,
    ) -> (r: Result<(), ContractError>)
        requires
            old(self).wf(),
        ensures
            final(self).wf(),
            r is Err ==> final(self)@ == old(self)@,
            ({
                let pre = old(self)@;
                let post = final(self)@;
                if caller != pre.config.authority {
                    r == Err::<(), ContractError>(ContractError::Unauthorized)
                } else if decimals > crate::MAX_TOKEN_DECIMALS {
                    r == Err::<(), ContractError>(ContractError::InvalidAmount)
                } else if pre.assets.contains_key(asset) {
                    let st = pre.assets[asset];
                    let st2 = (AssetState {
                        decimals,
                        token_weight,
                        min_profit_basis_points,
                        max_usdg_amount,
                        is_stable,
                        is_shortable,
                        ..st
                    });
                    if max_usdg_amount != 0 && st.usdg_amount > max_usdg_amount {
                        r == Err::<(), ContractError>(ContractError::InvalidAmount)
                    } else if pre.total_token_weights < st.token_weight
                        || pre.total_token_weights - st.token_weight + token_weight > u128::MAX {
                        r == Err::<(), ContractError>(ContractError::ArithmeticFailure)
                    } else {
                        r == Ok::<(), ContractError>(()) && post == (VaultView {
                            assets: pre.assets.insert(asset, st2),
                            total_token_weights: (pre.total_token_weights - st.token_weight
                                + token_weight) as u128,
                            ..pre
                        })
                    }
                } else {
                    if pre.whitelisted_count + 1 > u64::MAX || pre.total_token_weights
                        + token_weight > u128::MAX {
                        r == Err::<(), ContractError>(ContractError::ArithmeticFailure)
                    } else {
                        r == Ok::<(), ContractError>(()) && post == (VaultView {
                            assets: pre.assets.insert(
                                asset,
                                AssetState::spec_fresh(
                                    decimals,
                                    token_weight,
                                    min_profit_basis_points,
                                    max_usdg_amount,
                                    is_stable,
                                    is_shortable,
                                ),
                            ),
                            total_token_weights: (pre.total_token_weights + token_weight) as u128,
                            whitelisted_count: (pre.whitelisted_count + 1) as u64,
                            ..pre
                        })
                    }
                }
            }),
    {
        if caller != self.config.authority {
            return Err(ContractError::Unauthorized);
        }
        if decimals > crate::MAX_TOKEN_DECIMALS {
            return Err(ContractError::InvalidAmount);
        }
        match self.assets.get(asset) {
            Some(st) => {
                if max_usdg_amount != 0 && st.usdg_amount > max_usdg_amount {
                    return Err(ContractError::InvalidAmount);
                }
                let reduced = match self.total_token_weights.checked_sub(st.token_weight) {
                    Some(v) => v,
                    None => {
                        return Err(ContractError::ArithmeticFailure);
                    },
                };
                let new_total = match reduced.checked_add(token_weight) {
                    Some(v) => v,
                    None => {
                        return Err(ContractError::ArithmeticFailure);
                    },
                };
                let st2 = AssetState {
                    decimals,
                    token_weight,
                    min_profit_basis_points,
                    max_usdg_amount,
                    is_stable,
                    is_shortable,
                    ..st
                };
                self.assets.set(asset, st2);
                self.total_token_weights = new_total;
                proof {
                    lemma_inv_asset_insert(old(self)@, self@, asset, st2);
                }
                Ok(())
            },
            None => {
                let new_count = match self.whitelisted_count.checked_add(1) {
                    Some(v) => v,
                    None => {
                        return Err(ContractError::ArithmeticFailure);
                    },
                };
                let new_total = match self.total_token_weights.checked_add(token_weight) {
                    Some(v) => v,
                    None => {
                        return Err(ContractError::ArithmeticFailure);
                    },
                };
                let st2 = AssetState::fresh(
                    decimals,
                    token_weight,
                    min_profit_basis_points,
                    max_usdg_amount,
                    is_stable,
                    is_shortable,
                );
                self.assets.set(asset, st2);
                self.total_token_weights = new_total;
                self.whitelisted_count = new_count;
                proof {
                    lemma_inv_asset_insert(old(self)@, self@, asset, st2);
                }
                Ok(())
            },
        }
    }

    /// Remove an asset from the registry, giving back its weight share.
    pub fn clear_token_config(&mut self, caller: u64, asset: u64) -> (r: Result<
        (),
        ContractError,
    >)
        requires
            old(self).wf(),
        ensures
            final(self).wf(),
            r is Err ==> final(self)@ == old(self)@,
            ({
                let pre = old(self)@;
                let post = final(self)@;
                if caller != pre.config.authority {
                    r == Err::<(), ContractError>(ContractError::Unauthorized)
                } else if !pre.assets.contains_key(asset) {
                    r == Err::<(), ContractError>((ContractError::InvalidAsset { asset }))
                } else if pre.whitelisted_count == 0 || pre.total_token_weights
                    < pre.assets[asset].token_weight {
                    r == Err::<(), ContractError>(ContractError::ArithmeticFailure)
                } else {
                    r == Ok::<(), ContractError>(()) && post == (VaultView {
                        assets: pre.assets.remove(asset),
                        total_token_weights: (pre.total_token_weights
                            - pre.assets[asset].token_weight) as u128,
                        whitelisted_count: (pre.whitelisted_count - 1) as u64,
                        ..pre
                    })
                }
            }),
    {
        if caller != self.config.authority {
            return Err(ContractError::Unauthorized);
        }
        let st = match self.assets.get(asset) {
            Some(st) => st,
            None => {
                return Err(ContractError::InvalidAsset { asset });
            },
        };
        let new_count = match self.whitelisted_count.checked_sub(1) {
            Some(v) => v,
            None => {
                return Err(ContractError::ArithmeticFailure);
            },
        };
        let new_total = match self.total_token_weights.checked_sub(st.token_weight) {
            Some(v) => v,
            None => {
                return Err(ContractError::ArithmeticFailure);
            },
        };
        self.assets.remove(asset);
        self.total_token_weights = new_total;
        self.whitelisted_count = new_count;
        proof {
            lemma_inv_asset_remove(old(self)@, self@, asset);
        }
        Ok(())
    }
}

impl Vault {
    /// Accrue funding for one asset at the supplied time. A call before
    /// the interval has elapsed reports `NotDue` and changes nothing.
    pub fn update_cumulative_funding_rate(&mut self, asset: u64, now: u64) -> (r: Result<
        crate::funding::FundingOutcome,
        ContractError,
    >)
        requires
            old(self).wf(),
        ensures
            final(self).wf(),
            r is Err ==> final(self)@ == old(self)@,
            old(self)@.same_except_assets(final(self)@),
            final(self)@.usdg_supply == old(self)@.usdg_supply,
            !old(self)@.assets.contains_key(asset) ==> r == Err::<
                crate::funding::FundingOutcome,
                ContractError,
            >((ContractError::InvalidAsset { asset })),
            old(self)@.assets.contains_key(asset) ==> ({
                let st = old(self)@.assets[asset];
                let cfg = old(self)@.config;
                if crate::funding::funding_fits(cfg, st, now) {
                    let st2 = crate::funding::funding_step(cfg, st, now);
                    &&& r matches Ok(outcome) && outcome == (if !st.funding_accruing {
                        crate::funding::FundingOutcome::Initialized
                    } else if !crate::funding::funding_due(cfg, st, now) {
                        crate::funding::FundingOutcome::NotDue
                    } else {
                        (crate::funding::FundingOutcome::Accrued {
                            funding_rate: crate::funding::spec_next_funding_rate(
                                cfg,
                                st,
                                now,
                            ) as u128,
                        })
                    })
                    &&& final(self)@.assets == old(self)@.assets.insert(asset, st2)
                    &&& st2.cumulative_funding_rate >= st.cumulative_funding_rate
                } else {
                    r == Err::<crate::funding::FundingOutcome, ContractError>(
                        ContractError::ArithmeticFailure,
                    )
                }
            }),
    {
        let st = match self.assets.get(asset) {
            Some(st) => st,
            None => {
                return Err(ContractError::InvalidAsset { asset });
            },
        };
        let (st2, outcome) = match crate::funding::accrue_funding(&self.config, st, now) {
            Ok(v) => v,
            Err(e) => {
                return Err(e);
            },
        };
        self.assets.set(asset, st2);
        proof {
            crate::funding::lemma_funding_monotonic(old(self)@.config, st, now);
            assert(old(self)@.assets.contains_key(asset));
            assert(st.inv());
            assert(st2.inv());
            lemma_inv_asset_insert(old(self)@, self@, asset, st2);
        }
        Ok(outcome)
    }

    /// Deposit `amount` asset units directly into the pool, with the
    /// custody-reported balance confirming the funds actually arrived.
    pub fn direct_pool_deposit(
        &mut self,
        asset: u64,
        amount: u128,
        custody_balance: u128,
        now: u64,
    ) -> (r: Result<(), ContractError>)
        requires
            old(self).wf(),
        ensures
            final(self).wf(),
            r is Err ==> final(self)@ == old(self)@,
            old(self)@.same_except_assets(final(self)@),
            final(self)@.usdg_supply == old(self)@.usdg_supply,
            ({
                let pre = old(self)@;
                let cfg = pre.config;
                if !pre.assets.contains_key(asset) {
                    r == Err::<(), ContractError>((ContractError::InvalidAsset { asset }))
                } else if amount == 0 {
                    r == Err::<(), ContractError>(ContractError::InvalidAmount)
                } else {
                    let st = pre.assets[asset];
                    if !crate::funding::funding_fits(cfg, st, now) {
                        r == Err::<(), ContractError>(ContractError::ArithmeticFailure)
                    } else {
                        let st1 = crate::funding::funding_step(cfg, st, now);
                        if st1.pool_amount + amount > u128::MAX {
                            r == Err::<(), ContractError>(ContractError::ArithmeticFailure)
                        } else if custody_balance < st1.pool_amount + amount {
                            r == Err::<(), ContractError>(
                                (ContractError::BalanceMismatch { asset }),
                            )
                        } else {
                            r == Ok::<(), ContractError>(()) && final(self)@.assets
                                == pre.assets.insert(
                                asset,
                                (AssetState {
                                    pool_amount: (st1.pool_amount + amount) as u128,
                                    ..st1
                                }),
                            )
                        }
                    }
                }
            }),
    {
        let st = match self.assets.get(asset) {
            Some(st) => st,
            None => {
                return Err(ContractError::InvalidAsset { asset });
            },
        };
        if amount == 0 {
            return Err(ContractError::InvalidAmount);
        }
        let (st1, _outcome) = match crate::funding::accrue_funding(&self.config, st, now) {
            Ok(v) => v,
            Err(e) => {
                return Err(e);
            },
        };
        let st2 = match st1.increase_pool(asset, amount, custody_balance) {
            Ok(v) => v,
            Err(e) => {
                return Err(e);
            },
        };
        self.assets.set(asset, st2);
        proof {
            assert(old(self)@.assets.contains_key(asset));
            assert(st.inv());
            assert(st2.inv());
            lemma_inv_asset_insert(old(self)@, self@, asset, st2);
        }
        Ok(())
    }

    /// Drain the collected fees of one asset; returns the asset units the
    /// shell must pay out to the receiver.
    pub fn withdraw_fees(&mut self, caller: u64, asset: u64) -> (r: Result<u128, ContractError>)
        requires
            old(self).wf(),
        ensures
            final(self).wf(),
            r is Err ==> final(self)@ == old(self)@,
            old(self)@.same_except_assets(final(self)@),
            final(self)@.usdg_supply == old(self)@.usdg_supply,
            ({
                let pre = old(self)@;
                if caller != pre.config.authority {
                    r == Err::<u128, ContractError>(ContractError::Unauthorized)
                } else if !pre.assets.contains_key(asset) {
                    r == Err::<u128, ContractError>((ContractError::InvalidAsset { asset }))
                } else if pre.assets[asset].fee_reserve == 0 {
                    r == Err::<u128, ContractError>(ContractError::InvalidAmount)
                } else {
                    r == Ok::<u128, ContractError>(pre.assets[asset].fee_reserve) && final(self)@.assets == pre.assets.insert(
                        asset,
                        (AssetState { fee_reserve: 0, ..pre.assets[asset] }),
                    )
                }
            }),
    {
        if caller != self.config.authority {
            return Err(ContractError::Unauthorized);
        }
        let st = match self.assets.get(asset) {
            Some(st) => st,
            None => {
                return Err(ContractError::InvalidAsset { asset });
            },
        };
        if st.fee_reserve == 0 {
            return Err(ContractError::InvalidAmount);
        }
        let amount = st.fee_reserve;
        let st2 = AssetState { fee_reserve: 0, ..st };
        self.assets.set(asset, st2);
        proof {
            assert(old(self)@.assets.contains_key(asset));
            assert(st.inv());
            assert(st2.inv());
            lemma_inv_asset_insert(old(self)@, self@, asset, st2);
        }
        Ok(amount)
    }

    /// Overwrite the recorded synthetic issuance backed by `asset`,
    /// keeping the aggregate supply counter in step (flooring at zero, as
    /// the per-asset counter does).
    pub fn set_usdg_amount(&mut self, caller: u64, asset: u64, amount: u128) -> (r: Result<
        (),
        ContractError,
    >)
        requires
            old(self).wf(),
        ensures
            final(self).wf(),
            r is Err ==> final(self)@ == old(self)@,
            old(self)@.same_except_assets(final(self)@),
            ({
                let pre = old(self)@;
                if caller != pre.config.authority {
                    r == Err::<(), ContractError>(ContractError::Unauthorized)
                } else if !pre.assets.contains_key(asset) {
                    r == Err::<(), ContractError>((ContractError::InvalidAsset { asset }))
                } else {
                    let st = pre.assets[asset];
                    if amount > st.usdg_amount {
                        if st.max_usdg_amount != 0 && amount > st.max_usdg_amount {
                            r == Err::<(), ContractError>(ContractError::InvalidAmount)
                        } else if pre.usdg_supply + (amount - st.usdg_amount) > u128::MAX {
                            r == Err::<(), ContractError>(ContractError::ArithmeticFailure)
                        } else {
                            r == Ok::<(), ContractError>(()) && final(self)@.assets
                                == pre.assets.insert(
                                asset,
                                (AssetState { usdg_amount: amount, ..st }),
                            ) && final(self)@.usdg_supply == pre.usdg_supply + (amount
                                - st.usdg_amount)
                        }
                    } else {
                        r == Ok::<(), ContractError>(()) && final(self)@.assets
                            == pre.assets.insert(asset, (AssetState { usdg_amount: amount, ..st }))
                            && final(self)@.usdg_supply == (if pre.usdg_supply < st.usdg_amount
                            - amount {
                            0
                        } else {
                            pre.usdg_supply - (st.usdg_amount - amount)
                        })
                    }
                }
            }),
    {
        if caller != self.config.authority {
            return Err(ContractError::Unauthorized);
        }
        let st = match self.assets.get(asset) {
            Some(st) => st,
            None => {
                return Err(ContractError::InvalidAsset { asset });
            },
        };
        let new_supply: u128 = if amount > st.usdg_amount {
            if st.max_usdg_amount != 0 && amount > st.max_usdg_amount {
                return Err(ContractError::InvalidAmount);
            }
            match self.usdg_supply.checked_add(amount - st.usdg_amount) {
                Some(v) => v,
                None => {
                    return Err(ContractError::ArithmeticFailure);
                },
            }
        } else {
            let shrink = st.usdg_amount - amount;
            if self.usdg_supply < shrink {
                0
            } else {
                self.usdg_supply - shrink
            }
        };
        let st2 = AssetState { usdg_amount: amount, ..st };
        self.assets.set(asset, st2);
        self.usdg_supply = new_supply;
        proof {
            assert(st2.inv());
            lemma_inv_asset_insert(old(self)@, self@, asset, st2);
        }
        Ok(())
    }
}

/// Everything `buy_usdg` does, as one mathematical function: either the
/// post-state and the minted amount, or the exact error, in the order the
/// executable checks them.
pub open spec fn spec_buy_usdg(
    pre: VaultView,
    caller: u64,
    asset: u64,
    token_amount: u128,
    custody_balance: u128,
    now: u64,
    price: PricePair,
) -> Result<(VaultView, u128), ContractError> {
    let cfg = pre.config;
    if cfg.in_manager_mode && !pre.managers.contains(caller) {
        Err(ContractError::Unauthorized)
    } else if !pre.assets.contains_key(asset) {
        Err(ContractError::InvalidAsset { asset })
    } else if !price.valid() {
        Err(ContractError::InvalidAmount)
    } else if token_amount == 0 {
        Err(ContractError::InvalidAmount)
    } else {
        let st = pre.assets[asset];
        if !crate::funding::funding_fits(cfg, st, now) {
            Err(ContractError::ArithmeticFailure)
        } else {
            let st1 = crate::funding::funding_step(cfg, st, now);
            if token_amount * price.min > u128::MAX {
                Err(ContractError::ArithmeticFailure)
            } else {
                let usdg_value0 = token_amount * price.min / (crate::PRICE_PRECISION as int);
                if usdg_value0 * crate::math::pow10(crate::USDG_DECIMALS as nat) > u128::MAX {
                    Err(ContractError::ArithmeticFailure)
                } else {
                    let usdg_value = crate::pricing::spec_adjust_decimals(
                        usdg_value0,
                        st.decimals as nat,
                        crate::USDG_DECIMALS as nat,
                    );
                    if usdg_value == 0 {
                        Err(ContractError::InvalidAmount)
                    } else if !crate::fees::buy_usdg_fee_fits(
                        cfg,
                        st1,
                        usdg_value,
                        pre.usdg_supply as int,
                        pre.total_token_weights as int,
                    ) {
                        Err(ContractError::ArithmeticFailure)
                    } else {
                        let fee_bps = crate::fees::spec_buy_usdg_fee_bps(
                            cfg,
                            st1,
                            usdg_value,
                            pre.usdg_supply as int,
                            pre.total_token_weights as int,
                        );
                        if token_amount * (10000 - fee_bps) > u128::MAX {
                            Err(ContractError::ArithmeticFailure)
                        } else {
                            let after_fee = token_amount * (10000 - fee_bps) / 10000;
                            let fee_amount = token_amount - after_fee;
                            if after_fee * price.min > u128::MAX {
                                Err(ContractError::ArithmeticFailure)
                            } else {
                                let mint0 = after_fee * price.min / (crate::PRICE_PRECISION as int);
                                if mint0 * crate::math::pow10(crate::USDG_DECIMALS as nat)
                                    > u128::MAX {
                                    Err(ContractError::ArithmeticFailure)
                                } else {
                                    let mint_amount = crate::pricing::spec_adjust_decimals(
                                        mint0,
                                        st.decimals as nat,
                                        crate::USDG_DECIMALS as nat,
                                    );
                                    if st1.usdg_amount + mint_amount > u128::MAX {
                                        Err(ContractError::ArithmeticFailure)
                                    } else if st1.max_usdg_amount != 0 && st1.usdg_amount
                                        + mint_amount > st1.max_usdg_amount {
                                        Err(ContractError::InvalidAmount)
                                    } else if pre.usdg_supply + mint_amount > u128::MAX {
                                        Err(ContractError::ArithmeticFailure)
                                    } else if st1.fee_reserve + fee_amount > u128::MAX {
                                        Err(ContractError::ArithmeticFailure)
                                    } else if st1.pool_amount + after_fee > u128::MAX {
                                        Err(ContractError::ArithmeticFailure)
                                    } else if custody_balance < st1.pool_amount + after_fee {
                                        Err(ContractError::BalanceMismatch { asset })
                                    } else {
                                        let st2 = AssetState {
                                            usdg_amount: (st1.usdg_amount + mint_amount) as u128,
                                            fee_reserve: (st1.fee_reserve + fee_amount) as u128,
                                            pool_amount: (st1.pool_amount + after_fee) as u128,
                                            ..st1
                                        };
                                        Ok(
                                            (
                                                VaultView {
                                                    assets: pre.assets.insert(asset, st2),
                                                    usdg_supply: (pre.usdg_supply
                                                        + mint_amount) as u128,
                                                    ..pre
                                                },
                                                mint_amount as u128,
                                            ),
                                        )
                                    }
                                }
                            }
                        }
                    }
                }
            }
        }
    }
}

impl Vault {
    /// Mint synthetic stable against `token_amount` units of `asset`,
    /// deposited with the custody collaborator (whose reported balance is
    /// checked before the pool is credited). Returns the minted amount.
    pub fn buy_usdg(
        &mut self,
        caller: u64,
        asset: u64,
        token_amount: u128,
        custody_balance: u128,
        now: u64,
        price: PricePair,
    ) -> (r: Result<u128, ContractError>)
        requires
            old(self).wf(),
        ensures
            final(self).wf(),
            old(self)@.same_except_assets(final(self)@),
            ({
                let m = spec_buy_usdg(
                    old(self)@,
                    caller,
                    asset,
                    token_amount,
                    custody_balance,
                    now,
                    price,
                );
                match m {
                    Ok((post, mint_amount)) => r == Ok::<u128, ContractError>(mint_amount)
                        && final(self)@ == post,
                    Err(e) => r == Err::<u128, ContractError>(e) && final(self)@ == old(self)@,
                }
            }),
    {
        if self.config.in_manager_mode && !self.managers.contains(caller) {
            return Err(ContractError::Unauthorized);
        }
        let st = match self.assets.get(asset) {
            Some(st) => st,
            None => {
                return Err(ContractError::InvalidAsset { asset });
            },
        };
        if !price.check() {
            return Err(ContractError::InvalidAmount);
        }
        if token_amount == 0 {
            return Err(ContractError::InvalidAmount);
        }
        let (st1, _outcome) = match crate::funding::accrue_funding(&self.config, st, now) {
            Ok(v) => v,
            Err(e) => {
                return Err(e);
            },
        };
        let usdg_value0 = match crate::math::mul_div(
            token_amount,
            price.min,
            crate::PRICE_PRECISION,
        ) {
            Ok(v) => v,
            Err(e) => {
                return Err(e);
            },
        };
        let usdg_value = match crate::pricing::adjust_for_decimals(
            usdg_value0,
            st.decimals,
            crate::USDG_DECIMALS,
        ) {
            Ok(v) => v,
            Err(e) => {
                return Err(e);
            },
        };
        if usdg_value == 0 {
            return Err(ContractError::InvalidAmount);
        }
        let fee_bps = match crate::fees::get_buy_usdg_fee_basis_points(
            &self.config,
            &st1,
            usdg_value,
            self.usdg_supply,
            self.total_token_weights,
        ) {
            Ok(v) => v,
            Err(e) => {
                return Err(e);
            },
        };
        proof {
            crate::fees::lemma_fee_basis_points_clamped(
                self.config.has_dynamic_fees,
                st1.usdg_amount as int,
                usdg_value as int,
                true,
                st1.token_weight as int,
                self.usdg_supply as int,
                self.total_token_weights as int,
                self.config.mint_burn_fee_basis_points as int,
                self.config.tax_basis_points as int,
            );
            crate::math::lemma_mul_div_le(token_amount as int, (10000 - fee_bps) as int, 10000);
        }
        let after_fee = match crate::math::mul_div(token_amount, 10000 - fee_bps, 10000) {
            Ok(v) => v,
            Err(e) => {
                return Err(e);
            },
        };
        let fee_amount = token_amount - after_fee;
        let mint0 = match crate::math::mul_div(after_fee, price.min, crate::PRICE_PRECISION) {
            Ok(v) => v,
            Err(e) => {
                return Err(e);
            },
        };
        let mint_amount = match crate::pricing::adjust_for_decimals(
            mint0,
            st.decimals,
            crate::USDG_DECIMALS,
        ) {
            Ok(v) => v,
            Err(e) => {
                return Err(e);
            },
        };
        let st2 = match st1.increase_usdg(mint_amount) {
            Ok(v) => v,
            Err(e) => {
                return Err(e);
            },
        };
        let new_supply = match self.usdg_supply.checked_add(mint_amount) {
            Some(v) => v,
            None => {
                return Err(ContractError::ArithmeticFailure);
            },
        };
        let st3 = match st2.increase_fee_reserve(fee_amount) {
            Ok(v) => v,
            Err(e) => {
                return Err(e);
            },
        };
        let st4 = match st3.increase_pool(asset, after_fee, custody_balance) {
            Ok(v) => v,
            Err(e) => {
                return Err(e);
            },
        };
        self.assets.set(asset, st4);
        self.usdg_supply = new_supply;
        proof {
            assert(old(self)@.assets.contains_key(asset));
            assert(st.inv());
            assert(st4.inv());
            lemma_inv_asset_insert(old(self)@, self@, asset, st4);
        }
        Ok(mint_amount)
    }
}

/// Everything `sell_usdg` does, as one mathematical function.
pub open spec fn spec_sell_usdg(
    pre: VaultView,
    caller: u64,
    asset: u64,
    usdg_amount: u128,
    now: u64,
    price: PricePair,
) -> Result<(VaultView, u128), ContractError> {
    let cfg = pre.config;
    if cfg.in_manager_mode && !pre.managers.contains(caller) {
        Err(ContractError::Unauthorized)
    } else if !pre.assets.contains_key(asset) {
        Err(ContractError::InvalidAsset { asset })
    } else if !price.valid() {
        Err(ContractError::InvalidAmount)
    } else if usdg_amount == 0 {
        Err(ContractError::InvalidAmount)
    } else {
        let st = pre.assets[asset];
        if !crate::funding::funding_fits(cfg, st, now) {
            Err(ContractError::ArithmeticFailure)
        } else {
            let st1 = crate::funding::funding_step(cfg, st, now);
            if usdg_amount * crate::PRICE_PRECISION > u128::MAX {
                Err(ContractError::ArithmeticFailure)
            } else {
                let raw = usdg_amount * crate::PRICE_PRECISION / price.max as int;
                if raw * crate::math::pow10(st.decimals as nat) > u128::MAX {
                    Err(ContractError::ArithmeticFailure)
                } else {
                    let redemption = crate::pricing::spec_redemption_amount(
                        usdg_amount as int,
                        price.max as int,
                        st.decimals as nat,
                    );
                    if redemption == 0 {
                        Err(ContractError::InvalidAmount)
                    } else {
                        let st2 = st1.spec_decrease_usdg(usdg_amount);
                        let supply2: u128 = if pre.usdg_supply < usdg_amount {
                            0
                        } else {
                            (pre.usdg_supply - usdg_amount) as u128
                        };
                        if redemption > st2.pool_amount {
                            Err(ContractError::ArithmeticFailure)
                        } else if st2.pool_amount - redemption < st2.reserved_amount {
                            Err(ContractError::InsufficientReserves { asset })
                        } else {
                            let st3 = AssetState {
                                pool_amount: (st2.pool_amount - redemption) as u128,
                                ..st2
                            };
                            if !crate::fees::sell_usdg_fee_fits(
                                cfg,
                                st1,
                                usdg_amount as int,
                                pre.usdg_supply as int,
                                pre.total_token_weights as int,
                            ) {
                                Err(ContractError::ArithmeticFailure)
                            } else {
                                let fee_bps = crate::fees::spec_sell_usdg_fee_bps(
                                    cfg,
                                    st1,
                                    usdg_amount as int,
                                    pre.usdg_supply as int,
                                    pre.total_token_weights as int,
                                );
                                if redemption * (10000 - fee_bps) > u128::MAX {
                                    Err(ContractError::ArithmeticFailure)
                                } else {
                                    let after_fee = redemption * (10000 - fee_bps) / 10000;
                                    let fee_amount = redemption - after_fee;
                                    if after_fee == 0 {
                                        Err(ContractError::InvalidAmount)
                                    } else if st3.fee_reserve + fee_amount > u128::MAX {
                                        Err(ContractError::ArithmeticFailure)
                                    } else {
                                        let st4 = AssetState {
                                            fee_reserve: (st3.fee_reserve + fee_amount) as u128,
                                            ..st3
                                        };
                                        Ok(
                                            (
                                                VaultView {
                                                    assets: pre.assets.insert(asset, st4),
                                                    usdg_supply: supply2,
                                                    ..pre
                                                },
                                                after_fee as u128,
                                            ),
                                        )
                                    }
                                }
                            }
                        }
                    }
                }
            }
        }
    }
}

impl Vault {
    /// Redeem `usdg_amount` of synthetic stable for `asset` units. Returns
    /// the post-fee asset units the shell must pay out to the receiver.
    pub fn sell_usdg(
        &mut self,
        caller: u64,
        asset: u64,
        usdg_amount: u128,
        now: u64,
        price: PricePair,
    ) -> (r: Result<u128, ContractError>)
        requires
            old(self).wf(),
        ensures
            final(self).wf(),
            old(self)@.same_except_assets(final(self)@),
            ({
                let m = spec_sell_usdg(old(self)@, caller, asset, usdg_amount, now, price);
                match m {
                    Ok((post, payout)) => r == Ok::<u128, ContractError>(payout) && final(self)@
                        == post,
                    Err(e) => r == Err::<u128, ContractError>(e) && final(self)@ == old(self)@,
                }
            }),
    {
        if self.config.in_manager_mode && !self.managers.contains(caller) {
            return Err(ContractError::Unauthorized);
        }
        let st = match self.assets.get(asset) {
            Some(st) => st,
            None => {
                return Err(ContractError::InvalidAsset { asset });
            },
        };
        if !price.check() {
            return Err(ContractError::InvalidAmount);
        }
        if usdg_amount == 0 {
            return Err(ContractError::InvalidAmount);
        }
        let (st1, _outcome) = match crate::funding::accrue_funding(&self.config, st, now) {
            Ok(v) => v,
            Err(e) => {
                return Err(e);
            },
        };
        let redemption = match crate::pricing::get_redemption_amount(
            usdg_amount,
            price,
            st.decimals,
        ) {
            Ok(v) => v,
            Err(e) => {
                return Err(e);
            },
        };
        if redemption == 0 {
            return Err(ContractError::InvalidAmount);
        }
        let st2 = st1.decrease_usdg(usdg_amount);
        let new_supply: u128 = if self.usdg_supply < usdg_amount {
            0
        } else {
            self.usdg_supply - usdg_amount
        };
        let st3 = match st2.decrease_pool(asset, redemption) {
            Ok(v) => v,
            Err(e) => {
                return Err(e);
            },
        };
        let fee_bps = match crate::fees::get_sell_usdg_fee_basis_points(
            &self.config,
            &st1,
            usdg_amount,
            self.usdg_supply,
            self.total_token_weights,
        ) {
            Ok(v) => v,
            Err(e) => {
                return Err(e);
            },
        };
        proof {
            crate::fees::lemma_fee_basis_points_clamped(
                self.config.has_dynamic_fees,
                st1.usdg_amount as int,
                usdg_amount as int,
                false,
                st1.token_weight as int,
                self.usdg_supply as int,
                self.total_token_weights as int,
                self.config.mint_burn_fee_basis_points as int,
                self.config.tax_basis_points as int,
            );
            crate::math::lemma_mul_div_le(redemption as int, (10000 - fee_bps) as int, 10000);
        }
        let after_fee = match crate::math::mul_div(redemption, 10000 - fee_bps, 10000) {
            Ok(v) => v,
            Err(e) => {
                return Err(e);
            },
        };
        let fee_amount = redemption - after_fee;
        if after_fee == 0 {
            return Err(ContractError::InvalidAmount);
        }
        let st4 = match st3.increase_fee_reserve(fee_amount) {
            Ok(v) => v,
            Err(e) => {
                return Err(e);
            },
        };
        self.assets.set(asset, st4);
        self.usdg_supply = new_supply;
        proof {
            assert(old(self)@.assets.contains_key(asset));
            assert(st.inv());
            assert(st4.inv());
            lemma_inv_asset_insert(old(self)@, self@, asset, st4);
        }
        Ok(after_fee)
    }
}

/// Everything `swap` does, as one mathematical function.
pub open spec fn spec_swap(
    pre: VaultView,
    token_in: u64,
    token_out: u64,
    amount_in: u128,
    custody_balance_in: u128,
    now: u64,
    price_in: PricePair,
    price_out: PricePair,
) -> Result<(VaultView, u128), ContractError> {
    let cfg = pre.config;
    if !cfg.is_swap_enabled {
        Err(ContractError::DisabledFeature)
    } else if !pre.assets.contains_key(token_in) {
        Err(ContractError::InvalidAsset { asset: token_in })
    } else if !pre.assets.contains_key(token_out) {
        Err(ContractError::InvalidAsset { asset: token_out })
    } else if token_in == token_out {
        Err(ContractError::InvalidAsset { asset: token_out })
    } else if !price_in.valid() || !price_out.valid() {
        Err(ContractError::InvalidAmount)
    } else if amount_in == 0 {
        Err(ContractError::InvalidAmount)
    } else {
        let st_in = pre.assets[token_in];
        let st_out = pre.assets[token_out];
        if !crate::funding::funding_fits(cfg, st_in, now) {
            Err(ContractError::ArithmeticFailure)
        } else if !crate::funding::funding_fits(cfg, st_out, now) {
            Err(ContractError::ArithmeticFailure)
        } else {
            let st_in1 = crate::funding::funding_step(cfg, st_in, now);
            let st_out1 = crate::funding::funding_step(cfg, st_out, now);
            if amount_in * price_in.min > u128::MAX {
                Err(ContractError::ArithmeticFailure)
            } else {
                let amount_out0 = amount_in * price_in.min / price_out.max as int;
                if amount_out0 * crate::math::pow10(st_out.decimals as nat) > u128::MAX {
                    Err(ContractError::ArithmeticFailure)
                } else {
                    let amount_out = crate::pricing::spec_adjust_decimals(
                        amount_out0,
                        st_in.decimals as nat,
                        st_out.decimals as nat,
                    );
                    let usdg_amount0 = amount_in * price_in.min / (crate::PRICE_PRECISION as int);
                    if usdg_amount0 * crate::math::pow10(crate::USDG_DECIMALS as nat)
                        > u128::MAX {
                        Err(ContractError::ArithmeticFailure)
                    } else {
                        let usdg_amount = crate::pricing::spec_adjust_decimals(
                            usdg_amount0,
                            st_in.decimals as nat,
                            crate::USDG_DECIMALS as nat,
                        );
                        if !crate::fees::swap_fee_fits(
                            cfg,
                            st_in1,
                            st_out1,
                            usdg_amount,
                            pre.usdg_supply as int,
                            pre.total_token_weights as int,
                        ) {
                            Err(ContractError::ArithmeticFailure)
                        } else {
                            let fee_bps = crate::fees::spec_swap_fee_bps(
                                cfg,
                                st_in1,
                                st_out1,
                                usdg_amount,
                                pre.usdg_supply as int,
                                pre.total_token_weights as int,
                            );
                            if amount_out * (10000 - fee_bps) > u128::MAX {
                                Err(ContractError::ArithmeticFailure)
                            } else {
                                let after_fee = amount_out * (10000 - fee_bps) / 10000;
                                let fee_amount = amount_out - after_fee;
                                if st_in1.usdg_amount + usdg_amount > u128::MAX {
                                    Err(ContractError::ArithmeticFailure)
                                } else if st_in1.max_usdg_amount != 0 && st_in1.usdg_amount
                                    + usdg_amount > st_in1.max_usdg_amount {
                                    Err(ContractError::InvalidAmount)
                                } else {
                                    let st_in2 = AssetState {
                                        usdg_amount: (st_in1.usdg_amount + usdg_amount) as u128,
                                        ..st_in1
                                    };
                                    let st_out2 = st_out1.spec_decrease_usdg(usdg_amount as u128);
                                    if st_in2.pool_amount + amount_in > u128::MAX {
                                        Err(ContractError::ArithmeticFailure)
                                    } else if custody_balance_in < st_in2.pool_amount + amount_in {
                                        Err(ContractError::BalanceMismatch { asset: token_in })
                                    } else {
                                        let st_in3 = AssetState {
                                            pool_amount: (st_in2.pool_amount + amount_in) as u128,
                                            ..st_in2
                                        };
                                        if amount_out > st_out2.pool_amount {
                                            Err(ContractError::ArithmeticFailure)
                                        } else if st_out2.pool_amount - amount_out
                                            < st_out2.reserved_amount {
                                            Err(
                                                (ContractError::InsufficientReserves {
                                                    asset: token_out,
                                                }),
                                            )
                                        } else {
                                            let st_out3 = AssetState {
                                                pool_amount: (st_out2.pool_amount
                                                    - amount_out) as u128,
                                                ..st_out2
                                            };
                                            if st_out3.fee_reserve + fee_amount > u128::MAX {
                                                Err(ContractError::ArithmeticFailure)
                                            } else {
                                                let st_out4 = AssetState {
                                                    fee_reserve: (st_out3.fee_reserve
                                                        + fee_amount) as u128,
                                                    ..st_out3
                                                };
                                                if st_out4.pool_amount < st_out4.buffer_amount {
                                                    Err(
                                                        (ContractError::InsufficientReserves {
                                                            asset: token_out,
                                                        }),
                                                    )
                                                } else {
                                                    Ok(
                                                        (
                                                            VaultView {
                                                                assets: pre.assets.insert(
                                                                    token_in,
                                                                    st_in3,
                                                                ).insert(token_out, st_out4),
                                                                ..pre
                                                            },
                                                            after_fee as u128,
                                                        ),
                                                    )
                                                }
                                            }
                                        }
                                    }
                                }
                            }
                        }
                    }
                }
            }
        }
    }
}

impl Vault {
    /// Swap `amount_in` of one whitelisted asset for another. Both legs
    /// are valued at the side unfavorable to the trader, the swap fee is
    /// charged on the outbound leg, and the outbound pool may not dip
    /// below its configured buffer. Returns the post-fee output amount the
    /// shell must pay out.
    pub fn swap(
        &mut self,
        token_in: u64,
        token_out: u64,
        amount_in: u128,
        custody_balance_in: u128,
        now: u64,
        price_in: PricePair,
        price_out: PricePair,
    ) -> (r: Result<u128, ContractError>)
        requires
            old(self).wf(),
        ensures
            final(self).wf(),
            old(self)@.same_except_assets(final(self)@),
            final(self)@.usdg_supply == old(self)@.usdg_supply,
            ({
                let m = spec_swap(
                    old(self)@,
                    token_in,
                    token_out,
                    amount_in,
                    custody_balance_in,
                    now,
                    price_in,
                    price_out,
                );
                match m {
                    Ok((post, payout)) => r == Ok::<u128, ContractError>(payout) && final(self)@
                        == post,
                    Err(e) => r == Err::<u128, ContractError>(e) && final(self)@ == old(self)@,
                }
            }),
    {
        if !self.config.is_swap_enabled {
            return Err(ContractError::DisabledFeature);
        }
        let st_in = match self.assets.get(token_in) {
            Some(st) => st,
            None => {
                return Err(ContractError::InvalidAsset { asset: token_in });
            },
        };
        let st_out = match self.assets.get(token_out) {
            Some(st) => st,
            None => {
                return Err(ContractError::InvalidAsset { asset: token_out });
            },
        };
        if token_in == token_out {
            return Err(ContractError::InvalidAsset { asset: token_out });
        }
        if !price_in.check() || !price_out.check() {
            return Err(ContractError::InvalidAmount);
        }
        if amount_in == 0 {
            return Err(ContractError::InvalidAmount);
        }
        let (st_in1, _o1) = match crate::funding::accrue_funding(&self.config, st_in, now) {
            Ok(v) => v,
            Err(e) => {
                return Err(e);
            },
        };
        let (st_out1, _o2) = match crate::funding::accrue_funding(&self.config, st_out, now) {
            Ok(v) => v,
            Err(e) => {
                return Err(e);
            },
        };
        let amount_out0 = match crate::math::mul_div(amount_in, price_in.min, price_out.max) {
            Ok(v) => v,
            Err(e) => {
                return Err(e);
            },
        };
        let amount_out = match crate::pricing::adjust_for_decimals(
            amount_out0,
            st_in.decimals,
            st_out.decimals,
        ) {
            Ok(v) => v,
            Err(e) => {
                return Err(e);
            },
        };
        let usdg_amount0 = match crate::math::mul_div(
            amount_in,
            price_in.min,
            crate::PRICE_PRECISION,
        ) {
            Ok(v) => v,
            Err(e) => {
                return Err(e);
            },
        };
        let usdg_amount = match crate::pricing::adjust_for_decimals(
            usdg_amount0,
            st_in.decimals,
            crate::USDG_DECIMALS,
        ) {
            Ok(v) => v,
            Err(e) => {
                return Err(e);
            },
        };
        let fee_bps = match crate::fees::get_swap_fee_basis_points(
            &self.config,
            &st_in1,
            &st_out1,
            usdg_amount,
            self.usdg_supply,
            self.total_token_weights,
        ) {
            Ok(v) => v,
            Err(e) => {
                return Err(e);
            },
        };
        proof {
            crate::fees::lemma_fee_basis_points_clamped(
                self.config.has_dynamic_fees,
                st_in1.usdg_amount as int,
                usdg_amount as int,
                true,
                st_in1.token_weight as int,
                self.usdg_supply as int,
                self.total_token_weights as int,
                crate::fees::spec_swap_base_bps(self.config, st_in1, st_out1),
                crate::fees::spec_swap_tax_bps(self.config, st_in1, st_out1),
            );
            crate::fees::lemma_fee_basis_points_clamped(
                self.config.has_dynamic_fees,
                st_out1.usdg_amount as int,
                usdg_amount as int,
                false,
                st_out1.token_weight as int,
                self.usdg_supply as int,
                self.total_token_weights as int,
                crate::fees::spec_swap_base_bps(self.config, st_in1, st_out1),
                crate::fees::spec_swap_tax_bps(self.config, st_in1, st_out1),
            );
            crate::math::lemma_mul_div_le(amount_out as int, (10000 - fee_bps) as int, 10000);
        }
        let after_fee = match crate::math::mul_div(amount_out, 10000 - fee_bps, 10000) {
            Ok(v) => v,
            Err(e) => {
                return Err(e);
            },
        };
        let fee_amount = amount_out - after_fee;
        let st_in2 = match st_in1.increase_usdg(usdg_amount) {
            Ok(v) => v,
            Err(e) => {
                return Err(e);
            },
        };
        let st_out2 = st_out1.decrease_usdg(usdg_amount);
        let st_in3 = match st_in2.increase_pool(token_in, amount_in, custody_balance_in) {
            Ok(v) => v,
            Err(e) => {
                return Err(e);
            },
        };
        let st_out3 = match st_out2.decrease_pool(token_out, amount_out) {
            Ok(v) => v,
            Err(e) => {
                return Err(e);
            },
        };
        let st_out4 = match st_out3.increase_fee_reserve(fee_amount) {
            Ok(v) => v,
            Err(e) => {
                return Err(e);
            },
        };
        if st_out4.pool_amount < st_out4.buffer_amount {
            return Err(ContractError::InsufficientReserves { asset: token_out });
        }
        self.assets.set(token_in, st_in3);
        self.assets.set(token_out, st_out4);
        proof {
            assert(old(self)@.assets.contains_key(token_in));
            assert(old(self)@.assets.contains_key(token_out));
            assert(st_in.inv());
            assert(st_out.inv());
            assert(st_in3.inv());
            assert(st_out4.inv());
            lemma_inv_asset2_insert(old(self)@, self@, token_in, st_in3, token_out, st_out4);
        }
        Ok(after_fee)
    }
}

/// Everything `increase_position` does, as one mathematical function:
/// either the post-state, the mark price paid and the margin fee charged,
/// or the exact error, in the order the executable checks them.
pub open spec fn spec_increase_position(
    pre: VaultView,
    account: u64,
    collateral_asset: u64,
    index_asset: u64,
    size_delta: u128,
    is_long: bool,
    collateral_delta_tokens: u128,
    custody_balance: u128,
    now: u64,
    collateral_price: PricePair,
    index_price: PricePair,
) -> Result<(VaultView, u128, u128), ContractError> {
    let cfg = pre.config;
    if !cfg.is_leverage_enabled {
        Err(ContractError::DisabledFeature)
    } else if is_long && collateral_asset != index_asset {
        Err(ContractError::InvalidAsset { asset: collateral_asset })
    } else if !pre.assets.contains_key(collateral_asset) {
        Err(ContractError::InvalidAsset { asset: collateral_asset })
    } else if pre.assets[collateral_asset].is_stable {
        Err(ContractError::InvalidAsset { asset: collateral_asset })
    } else if !is_long && !pre.assets.contains_key(index_asset) {
        Err(ContractError::InvalidAsset { asset: index_asset })
    } else if !is_long && !pre.assets[index_asset].is_shortable {
        Err(ContractError::InvalidAsset { asset: index_asset })
    } else if !is_long && pre.assets[index_asset].is_stable {
        Err(ContractError::InvalidAsset { asset: index_asset })
    } else if !collateral_price.valid() || !index_price.valid() {
        Err(ContractError::InvalidAmount)
    } else {
        let same = collateral_asset == index_asset;
        let st_c = pre.assets[collateral_asset];
        let st_i = pre.assets[index_asset];
        if !crate::funding::funding_fits(cfg, st_c, now) {
            Err(ContractError::ArithmeticFailure)
        } else if !same && !crate::funding::funding_fits(cfg, st_i, now) {
            Err(ContractError::ArithmeticFailure)
        } else {
            let st_c1 = crate::funding::funding_step(cfg, st_c, now);
            let st_i1 = if same {
                st_c1
            } else {
                crate::funding::funding_step(cfg, st_i, now)
            };
            let mark: u128 = if is_long {
                index_price.max
            } else {
                index_price.min
            };
            let delta_price: u128 = if is_long {
                index_price.min
            } else {
                index_price.max
            };
            let key = PositionKey { account, collateral_asset, index_asset, is_long };
            let p = pre.position_or_empty(key);
            let avg_result: Result<u128, ContractError> = if p.size == 0 {
                Ok(mark)
            } else if size_delta > 0 {
                if p.average_price == 0 {
                    Err(ContractError::InvalidAmount)
                } else if !pnl::next_avg_price_fits(
                    p.size as int,
                    p.average_price as int,
                    delta_price as int,
                    mark as int,
                    is_long,
                    size_delta as int,
                    now as int,
                    p.last_increased_time as int,
                    cfg.min_profit_time as int,
                    st_i.min_profit_basis_points as int,
                ) {
                    Err(ContractError::ArithmeticFailure)
                } else {
                    let a = pnl::spec_next_average_price(
                        p.size as int,
                        p.average_price as int,
                        delta_price as int,
                        mark as int,
                        is_long,
                        size_delta as int,
                        now as int,
                        p.last_increased_time as int,
                        cfg.min_profit_time as int,
                        st_i.min_profit_basis_points as int,
                    );
                    if a == 0 {
                        Err(ContractError::InvalidAmount)
                    } else {
                        Ok(a as u128)
                    }
                }
            } else {
                Ok(p.average_price)
            };
            if avg_result is Err {
                Err(avg_result->Err_0)
            } else {
                let avg = avg_result->Ok_0;
                if !crate::fees::margin_fee_fits(
                    size_delta as int,
                    p.size as int,
                    st_c1.cumulative_funding_rate as int,
                    p.entry_funding_rate as int,
                    cfg.margin_fee_basis_points as int,
                ) {
                    Err(ContractError::ArithmeticFailure)
                } else {
                    let fee_usd = crate::fees::spec_margin_fee(
                        size_delta as int,
                        p.size as int,
                        st_c1.cumulative_funding_rate as int,
                        p.entry_funding_rate as int,
                        cfg.margin_fee_basis_points as int,
                    );
                    if collateral_delta_tokens * collateral_price.min > u128::MAX {
                        Err(ContractError::ArithmeticFailure)
                    } else {
                        let collateral_delta_usd = crate::pricing::spec_token_to_usd(
                            collateral_delta_tokens as int,
                            collateral_price.min as int,
                            st_c.decimals as nat,
                        );
                        if p.collateral + collateral_delta_usd > u128::MAX {
                            Err(ContractError::ArithmeticFailure)
                        } else if p.collateral + collateral_delta_usd < fee_usd {
                            Err(ContractError::InvalidAmount)
                        } else {
                            let collateral2 = p.collateral + collateral_delta_usd - fee_usd;
                            if p.size + size_delta > u128::MAX {
                                Err(ContractError::ArithmeticFailure)
                            } else if p.size + size_delta == 0 {
                                Err(ContractError::InvalidAmount)
                            } else if collateral2 > p.size + size_delta {
                                Err(ContractError::InvalidAmount)
                            } else {
                                let size2 = p.size + size_delta;
                                if size_delta * crate::math::pow10(st_c.decimals as nat)
                                    > u128::MAX {
                                    Err(ContractError::ArithmeticFailure)
                                } else {
                                    let reserve_delta = crate::pricing::spec_usd_to_token(
                                        size_delta as int,
                                        collateral_price.min as int,
                                        st_c.decimals as nat,
                                    );
                                    if p.reserve_amount + reserve_delta > u128::MAX {
                                        Err(ContractError::ArithmeticFailure)
                                    } else {
                                        let reserve2 = p.reserve_amount + reserve_delta;
                                        if fee_usd * crate::math::pow10(st_c.decimals as nat)
                                            > u128::MAX {
                                            Err(ContractError::ArithmeticFailure)
                                        } else {
                                            let fee_tokens = crate::pricing::spec_usd_to_token(
                                                fee_usd,
                                                collateral_price.max as int,
                                                st_c.decimals as nat,
                                            );
                                            let pos2 = Position {
                                                size: size2 as u128,
                                                collateral: collateral2 as u128,
                                                average_price: avg,
                                                entry_funding_rate:
                                                    st_c1.cumulative_funding_rate,
                                                reserve_amount: reserve2 as u128,
                                                realised_pnl: p.realised_pnl,
                                                last_increased_time: now,
                                            };
                                            spec_increase_position_ledger(
                                                pre,
                                                collateral_asset,
                                                index_asset,
                                                size_delta,
                                                is_long,
                                                collateral_delta_tokens,
                                                custody_balance,
                                                st_c1,
                                                st_i1,
                                                mark,
                                                key,
                                                pos2,
                                                fee_usd as u128,
                                                fee_tokens as u128,
                                                collateral_delta_usd as u128,
                                                reserve_delta as u128,
                                            )
                                        }
                                    }
                                }
                            }
                        }
                    }
                }
            }
        }
    }
}

/// The pool-ledger tail of an `increase_position`: reserve earmarking,
/// guaranteed-USD and pool bookkeeping for longs, fee collection, and the
/// aggregate-short update for shorts. Returns the new collateral-asset
/// state and, for a short against a different index asset, that asset's
/// new state too.
pub open spec fn spec_increase_ledger(
    collateral_asset: u64,
    index_asset: u64,
    size_delta: u128,
    is_long: bool,
    collateral_delta_tokens: u128,
    custody_balance: u128,
    st_c1: AssetState,
    st_i1: AssetState,
    mark: u128,
    fee_usd: u128,
    fee_tokens: u128,
    collateral_delta_usd: u128,
    reserve_delta: u128,
) -> Result<(AssetState, Option<AssetState>), ContractError> {
    let same = collateral_asset == index_asset;
    if st_c1.reserved_amount + reserve_delta > u128::MAX {
        Err(ContractError::ArithmeticFailure)
    } else if st_c1.reserved_amount + reserve_delta > st_c1.pool_amount {
        Err((ContractError::InsufficientReserves { asset: collateral_asset }))
    } else {
        let st_c2 = AssetState {
            reserved_amount: (st_c1.reserved_amount + reserve_delta) as u128,
            ..st_c1
        };
        if is_long {
            if size_delta + fee_usd > u128::MAX {
                Err(ContractError::ArithmeticFailure)
            } else if st_c2.guaranteed_usd + size_delta + fee_usd > u128::MAX {
                Err(ContractError::ArithmeticFailure)
            } else if st_c2.guaranteed_usd + size_delta + fee_usd < collateral_delta_usd {
                Err(ContractError::ArithmeticFailure)
            } else {
                let st_c3 = AssetState {
                    guaranteed_usd: (st_c2.guaranteed_usd + size_delta + fee_usd
                        - collateral_delta_usd) as u128,
                    ..st_c2
                };
                if st_c3.fee_reserve + fee_tokens > u128::MAX {
                    Err(ContractError::ArithmeticFailure)
                } else {
                    let st_c4 = AssetState {
                        fee_reserve: (st_c3.fee_reserve + fee_tokens) as u128,
                        ..st_c3
                    };
                    if st_c4.pool_amount + collateral_delta_tokens > u128::MAX {
                        Err(ContractError::ArithmeticFailure)
                    } else if custody_balance < st_c4.pool_amount + collateral_delta_tokens {
                        Err((ContractError::BalanceMismatch { asset: collateral_asset }))
                    } else {
                        let st_c5 = AssetState {
                            pool_amount: (st_c4.pool_amount + collateral_delta_tokens) as u128,
                            ..st_c4
                        };
                        if fee_tokens > st_c5.pool_amount {
                            Err(ContractError::ArithmeticFailure)
                        } else if st_c5.pool_amount - fee_tokens < st_c5.reserved_amount {
                            Err((ContractError::InsufficientReserves { asset: collateral_asset }))
                        } else {
                            let st_c6 = AssetState {
                                pool_amount: (st_c5.pool_amount - fee_tokens) as u128,
                                ..st_c5
                            };
                            Ok((st_c6, None))
                        }
                    }
                }
            }
        } else {
            if st_c2.fee_reserve + fee_tokens > u128::MAX {
                Err(ContractError::ArithmeticFailure)
            } else {
                let st_c3 = AssetState {
                    fee_reserve: (st_c2.fee_reserve + fee_tokens) as u128,
                    ..st_c2
                };
                let base_i = if same {
                    st_c3
                } else {
                    st_i1
                };
                let avg_short_result: Result<u128, ContractError> = if base_i.global_short_size
                    == 0 {
                    Ok(mark)
                } else if base_i.global_short_average_price == 0 {
                    Err(ContractError::InvalidAmount)
                } else if !pnl::next_global_short_avg_fits(
                    base_i.global_short_size as int,
                    base_i.global_short_average_price as int,
                    mark as int,
                    size_delta as int,
                ) {
                    Err(ContractError::ArithmeticFailure)
                } else {
                    Ok(
                        pnl::spec_next_global_short_average_price(
                            base_i.global_short_size as int,
                            base_i.global_short_average_price as int,
                            mark as int,
                            size_delta as int,
                        ) as u128,
                    )
                };
                if avg_short_result is Err {
                    Err(avg_short_result->Err_0)
                } else {
                    let avg_short = avg_short_result->Ok_0;
                    if base_i.global_short_size + size_delta > u128::MAX {
                        Err(ContractError::ArithmeticFailure)
                    } else {
                        let st_i2 = AssetState {
                            global_short_size: (base_i.global_short_size + size_delta) as u128,
                            global_short_average_price: avg_short,
                            ..base_i
                        };
                        if same {
                            Ok((st_i2, None))
                        } else {
                            Ok((st_c3, Some(st_i2)))
                        }
                    }
                }
            }
        }
    }
}

/// The ledger tail lifted to the whole vault state.
pub open spec fn spec_increase_position_ledger(
    pre: VaultView,
    collateral_asset: u64,
    index_asset: u64,
    size_delta: u128,
    is_long: bool,
    collateral_delta_tokens: u128,
    custody_balance: u128,
    st_c1: AssetState,
    st_i1: AssetState,
    mark: u128,
    key: PositionKey,
    pos2: Position,
    fee_usd: u128,
    fee_tokens: u128,
    collateral_delta_usd: u128,
    reserve_delta: u128,
) -> Result<(VaultView, u128, u128), ContractError> {
    match spec_increase_ledger(
        collateral_asset,
        index_asset,
        size_delta,
        is_long,
        collateral_delta_tokens,
        custody_balance,
        st_c1,
        st_i1,
        mark,
        fee_usd,
        fee_tokens,
        collateral_delta_usd,
        reserve_delta,
    ) {
        Ok((st_c_new, st_i_new)) => Ok(
            (
                VaultView {
                    assets: if st_i_new is Some {
                        pre.assets.insert(collateral_asset, st_c_new).insert(
                            index_asset,
                            st_i_new->0,
                        )
                    } else {
                        pre.assets.insert(collateral_asset, st_c_new)
                    },
                    positions: pre.positions.insert(key, pos2),
                    ..pre
                },
                mark,
                fee_usd,
            ),
        ),
        Err(e) => Err(e),
    }
}

/// Executable ledger tail; see `spec_increase_ledger`.
#[verifier::rlimit(60)]
fn increase_ledger(
    collateral_asset: u64,
    index_asset: u64,
    size_delta: u128,
    is_long: bool,
    collateral_delta_tokens: u128,
    custody_balance: u128,
    st_c1: AssetState,
    st_i1: AssetState,
    mark: u128,
    fee_usd: u128,
    fee_tokens: u128,
    collateral_delta_usd: u128,
    reserve_delta: u128,
) -> (r: Result<(AssetState, Option<AssetState>), ContractError>)
    ensures
        r == spec_increase_ledger(
            collateral_asset,
            index_asset,
            size_delta,
            is_long,
            collateral_delta_tokens,
            custody_balance,
            st_c1,
            st_i1,
            mark,
            fee_usd,
            fee_tokens,
            collateral_delta_usd,
            reserve_delta,
        ),
        r matches Ok((st_c_new, st_i_new)) ==> (st_c1.inv() && st_i1.inv() ==> st_c_new.inv()
            && (st_i_new matches Some(sti) ==> sti.inv())),
{
    let same = collateral_asset == index_asset;
    let st_c2 = match st_c1.increase_reserved(collateral_asset, reserve_delta) {
        Ok(v) => v,
        Err(e) => {
            return Err(e);
        },
    };
    if is_long {
        let size_plus_fee = match size_delta.checked_add(fee_usd) {
            Some(v) => v,
            None => {
                return Err(ContractError::ArithmeticFailure);
            },
        };
        let guaranteed1 = match st_c2.guaranteed_usd.checked_add(size_plus_fee) {
            Some(v) => v,
            None => {
                return Err(ContractError::ArithmeticFailure);
            },
        };
        let guaranteed2 = match guaranteed1.checked_sub(collateral_delta_usd) {
            Some(v) => v,
            None => {
                return Err(ContractError::ArithmeticFailure);
            },
        };
        let st_c3 = AssetState { guaranteed_usd: guaranteed2, ..st_c2 };
        let st_c4 = match st_c3.increase_fee_reserve(fee_tokens) {
            Ok(v) => v,
            Err(e) => {
                return Err(e);
            },
        };
        let st_c5 = match st_c4.increase_pool(
            collateral_asset,
            collateral_delta_tokens,
            custody_balance,
        ) {
            Ok(v) => v,
            Err(e) => {
                return Err(e);
            },
        };
        let st_c6 = match st_c5.decrease_pool(collateral_asset, fee_tokens) {
            Ok(v) => v,
            Err(e) => {
                return Err(e);
            },
        };
        Ok((st_c6, None))
    } else {
        let st_c3 = match st_c2.increase_fee_reserve(fee_tokens) {
            Ok(v) => v,
            Err(e) => {
                return Err(e);
            },
        };
        let base_i = if same {
            st_c3
        } else {
            st_i1
        };
        let avg_short: u128 = if base_i.global_short_size == 0 {
            mark
        } else {
            match pnl::get_next_global_short_average_price(
                base_i.global_short_size,
                base_i.global_short_average_price,
                mark,
                size_delta,
            ) {
                Ok(v) => v,
                Err(e) => {
                    return Err(e);
                },
            }
        };
        let global2 = match base_i.global_short_size.checked_add(size_delta) {
            Some(v) => v,
            None => {
                return Err(ContractError::ArithmeticFailure);
            },
        };
        let st_i2 = AssetState {
            global_short_size: global2,
            global_short_average_price: avg_short,
            ..base_i
        };
        if same {
            Ok((st_i2, None))
        } else {
            Ok((st_c3, Some(st_i2)))
        }
    }
}

impl Vault {
    /// Open or grow a leveraged position. `collateral_delta_tokens` is the
    /// amount the trader deposited with custody (whose reported balance is
    /// checked before any pool credit). Returns the mark price paid and
    /// the margin fee charged (USD).
    #[verifier::rlimit(100)]
    #[verifier::spinoff_prover]
    pub fn increase_position(
        &mut self,
        account: u64,
        collateral_asset: u64,
        index_asset: u64,
        size_delta: u128,
        is_long: bool,
        collateral_delta_tokens: u128,
        custody_balance: u128,
        now: u64,
        collateral_price: PricePair,
        index_price: PricePair,
    ) -> (r: Result<(u128, u128), ContractError>)
        requires
            old(self).wf(),
        ensures
            final(self).wf(),
            old(self)@.same_except_trading(final(self)@),
            final(self)@.usdg_supply == old(self)@.usdg_supply,
            ({
                let m = spec_increase_position(
                    old(self)@,
                    account,
                    collateral_asset,
                    index_asset,
                    size_delta,
                    is_long,
                    collateral_delta_tokens,
                    custody_balance,
                    now,
                    collateral_price,
                    index_price,
                );
                match m {
                    Ok((post, mark, fee_usd)) => r == Ok::<(u128, u128), ContractError>(
                        (mark, fee_usd),
                    ) && final(self)@ == post,
                    Err(e) => r == Err::<(u128, u128), ContractError>(e) && final(self)@ == old(
                        self,
                    )@,
                }
            }),
    {
        if !self.config.is_leverage_enabled {
            return Err(ContractError::DisabledFeature);
        }
        if is_long && collateral_asset != index_asset {
            return Err(ContractError::InvalidAsset { asset: collateral_asset });
        }
        let st_c = match self.assets.get(collateral_asset) {
            Some(st) => st,
            None => {
                return Err(ContractError::InvalidAsset { asset: collateral_asset });
            },
        };
        if st_c.is_stable {
            return Err(ContractError::InvalidAsset { asset: collateral_asset });
        }
        if !is_long {
            let st_i_chk = match self.assets.get(index_asset) {
                Some(st) => st,
                None => {
                    return Err(ContractError::InvalidAsset { asset: index_asset });
                },
            };
            if !st_i_chk.is_shortable {
                return Err(ContractError::InvalidAsset { asset: index_asset });
            }
            if st_i_chk.is_stable {
                return Err(ContractError::InvalidAsset { asset: index_asset });
            }
        }
        if !collateral_price.check() || !index_price.check() {
            return Err(ContractError::InvalidAmount);
        }
        let same = collateral_asset == index_asset;
        let st_i = if same {
            st_c
        } else {
            match self.assets.get(index_asset) {
                Some(st) => st,
                None => {
                    return Err(ContractError::InvalidAsset { asset: index_asset });
                },
            }
        };
        let (st_c1, _oc) = match crate::funding::accrue_funding(&self.config, st_c, now) {
            Ok(v) => v,
            Err(e) => {
                return Err(e);
            },
        };
        let st_i1 = if same {
            st_c1
        } else {
            match crate::funding::accrue_funding(&self.config, st_i, now) {
                Ok(v) => v.0,
                Err(e) => {
                    return Err(e);
                },
            }
        };
        let mark: u128 = if is_long {
            index_price.max
        } else {
            index_price.min
        };
        let delta_price: u128 = if is_long {
            index_price.min
        } else {
            index_price.max
        };
        let key = PositionKey { account, collateral_asset, index_asset, is_long };
        let p = match self.positions.get(&key) {
            Some(p) => p,
            None => Position::empty(),
        };
        proof {
            if self@.positions.contains_key(key) {
                assert(p.inv());
            }
        }
        let avg: u128 = if p.size == 0 {
            mark
        } else if size_delta > 0 {
            let a = match pnl::get_next_average_price(
                p.size,
                p.average_price,
                is_long,
                delta_price,
                mark,
                size_delta,
                st_i.min_profit_basis_points,
                self.config.min_profit_time,
                p.last_increased_time,
                now,
            ) {
                Ok(v) => v,
                Err(e) => {
                    return Err(e);
                },
            };
            if a == 0 {
                return Err(ContractError::InvalidAmount);
            }
            a
        } else {
            p.average_price
        };
        let fee_usd = match crate::fees::get_margin_fees(
            size_delta,
            p.size,
            st_c1.cumulative_funding_rate,
            p.entry_funding_rate,
            &self.config,
        ) {
            Ok(v) => v,
            Err(e) => {
                return Err(e);
            },
        };
        let collateral_delta_usd = match crate::pricing::token_to_usd_min(
            collateral_delta_tokens,
            collateral_price,
            st_c.decimals,
        ) {
            Ok(v) => v,
            Err(e) => {
                return Err(e);
            },
        };
        let collateral_plus = match p.collateral.checked_add(collateral_delta_usd) {
            Some(v) => v,
            None => {
                return Err(ContractError::ArithmeticFailure);
            },
        };
        if collateral_plus < fee_usd {
            return Err(ContractError::InvalidAmount);
        }
        let collateral2 = collateral_plus - fee_usd;
        let size2 = match p.size.checked_add(size_delta) {
            Some(v) => v,
            None => {
                return Err(ContractError::ArithmeticFailure);
            },
        };
        if size2 == 0 {
            return Err(ContractError::InvalidAmount);
        }
        if collateral2 > size2 {
            return Err(ContractError::InvalidAmount);
        }
        let reserve_delta = match crate::pricing::usd_to_token_max(
            size_delta,
            collateral_price,
            st_c.decimals,
        ) {
            Ok(v) => v,
            Err(e) => {
                return Err(e);
            },
        };
        let reserve2 = match p.reserve_amount.checked_add(reserve_delta) {
            Some(v) => v,
            None => {
                return Err(ContractError::ArithmeticFailure);
            },
        };
        let fee_tokens = match crate::pricing::usd_to_token_min(
            fee_usd,
            collateral_price,
            st_c.decimals,
        ) {
            Ok(v) => v,
            Err(e) => {
                return Err(e);
            },
        };
        let pos2 = Position {
            size: size2,
            collateral: collateral2,
            average_price: avg,
            entry_funding_rate: st_c1.cumulative_funding_rate,
            reserve_amount: reserve2,
            realised_pnl: p.realised_pnl,
            last_increased_time: now,
        };
        let (st_c_new, st_i_new) = match increase_ledger(
            collateral_asset,
            index_asset,
            size_delta,
            is_long,
            collateral_delta_tokens,
            custody_balance,
            st_c1,
            st_i1,
            mark,
            fee_usd,
            fee_tokens,
            collateral_delta_usd,
            reserve_delta,
        ) {
            Ok(v) => v,
            Err(e) => {
                return Err(e);
            },
        };
        proof {
            assert(old(self)@.assets.contains_key(collateral_asset));
            assert(st_c.inv());
            if !same {
                assert(old(self)@.assets.contains_key(index_asset));
                assert(st_i.inv());
            }
            assert(pos2.inv());
        }
        match st_i_new {
            Some(st_i2) => {
                self.assets.set(collateral_asset, st_c_new);
                self.assets.set(index_asset, st_i2);
                self.positions.set(key, pos2);
                proof {
                    lemma_inv_trade_update(
                        old(self)@,
                        self@,
                        collateral_asset,
                        st_c_new,
                        index_asset,
                        st_i2,
                        key,
                        pos2,
                    );
                }
            },
            None => {
                self.assets.set(collateral_asset, st_c_new);
                self.positions.set(key, pos2);
                proof {
                    lemma_inv_trade_update1(
                        old(self)@,
                        self@,
                        collateral_asset,
                        st_c_new,
                        key,
                        pos2,
                    );
                }
            },
        }
        Ok((mark, fee_usd))
    }
}

/// What a position decrease produced: the price it was marked at, the
/// margin fee charged, the USD owed to the trader before and after that
/// fee, and the asset units the shell must pay out.
#[derive(Clone, Copy, Debug, PartialEq, Eq, Structural)]
pub struct DecreaseOutcome {
    pub mark: u128,
    pub fee_usd: u128,
    pub usd_out: u128,
    pub usd_out_after_fee: u128,
    pub payout_tokens: u128,
    pub realised_pnl: i128,
}

/// The close-out tail of a decrease: position update, guaranteed-USD
/// bookkeeping for longs, the aggregate-short update, and the payout
/// debit. Returns the final collateral-asset state, the final index-asset
/// state where it is a distinct asset, the final position, and the payout
/// in asset units.
pub open spec fn spec_decrease_finish(
    collateral_asset: u64,
    size_delta: u128,
    is_long: bool,
    same: bool,
    p: Position,
    out: crate::reduce::ReduceOutcome,
    st_i1: AssetState,
    collateral_price: PricePair,
) -> Result<(AssetState, Option<AssetState>, Position, u128), ContractError> {
    let st_c3 = out.st;
    let full_close = size_delta == p.size;
    let pos_guard_result: Result<(Position, AssetState), ContractError> = if full_close {
        if is_long && st_c3.guaranteed_usd + p.collateral > u128::MAX {
            Err(ContractError::ArithmeticFailure)
        } else if is_long && st_c3.guaranteed_usd + p.collateral < p.size {
            Err(ContractError::ArithmeticFailure)
        } else {
            Ok(
                (
                    Position::spec_empty(),
                    if is_long {
                        AssetState {
                            guaranteed_usd: (st_c3.guaranteed_usd + p.collateral
                                - p.size) as u128,
                            ..st_c3
                        }
                    } else {
                        st_c3
                    },
                ),
            )
        }
    } else {
        let new_size = (p.size - size_delta) as u128;
        if out.pos.collateral > new_size {
            Err(ContractError::InvalidAmount)
        } else if is_long && st_c3.guaranteed_usd + (p.collateral - out.pos.collateral)
            > u128::MAX {
            Err(ContractError::ArithmeticFailure)
        } else if is_long && st_c3.guaranteed_usd + (p.collateral - out.pos.collateral)
            < size_delta {
            Err(ContractError::ArithmeticFailure)
        } else {
            Ok(
                (
                    (Position {
                        size: new_size,
                        collateral: out.pos.collateral,
                        average_price: p.average_price,
                        entry_funding_rate: st_c3.cumulative_funding_rate,
                        reserve_amount: out.pos.reserve_amount,
                        realised_pnl: out.pos.realised_pnl,
                        last_increased_time: p.last_increased_time,
                    }),
                    if is_long {
                        AssetState {
                            guaranteed_usd: (st_c3.guaranteed_usd + (p.collateral
                                - out.pos.collateral) - size_delta) as u128,
                            ..st_c3
                        }
                    } else {
                        st_c3
                    },
                ),
            )
        }
    };
    if pos_guard_result is Err {
        Err(pos_guard_result->Err_0)
    } else {
        let pos_final = pos_guard_result->Ok_0.0;
        let st_c4 = pos_guard_result->Ok_0.1;
        let base_i = if same {
            st_c4
        } else {
            st_i1
        };
        let st_i2 = if !is_long {
            base_i.spec_decrease_global_short(size_delta)
        } else {
            base_i
        };
        let working = if same {
            st_i2
        } else {
            st_c4
        };
        if out.usd_out > 0 {
            if out.usd_out * crate::math::pow10(working.decimals as nat) > u128::MAX {
                Err(ContractError::ArithmeticFailure)
            } else {
                let usd_out_tokens = crate::pricing::spec_usd_to_token(
                    out.usd_out as int,
                    collateral_price.max as int,
                    working.decimals as nat,
                );
                let pool_result: Result<AssetState, ContractError> = if is_long {
                    if usd_out_tokens > working.pool_amount {
                        Err(ContractError::ArithmeticFailure)
                    } else if working.pool_amount - usd_out_tokens < working.reserved_amount {
                        Err((ContractError::InsufficientReserves { asset: collateral_asset }))
                    } else {
                        Ok(
                            AssetState {
                                pool_amount: (working.pool_amount - usd_out_tokens) as u128,
                                ..working
                            },
                        )
                    }
                } else {
                    Ok(working)
                };
                if pool_result is Err {
                    Err(pool_result->Err_0)
                } else {
                    let st_c5 = pool_result->Ok_0;
                    if out.usd_out_after_fee * crate::math::pow10(working.decimals as nat)
                        > u128::MAX {
                        Err(ContractError::ArithmeticFailure)
                    } else {
                        let payout = crate::pricing::spec_usd_to_token(
                            out.usd_out_after_fee as int,
                            collateral_price.max as int,
                            working.decimals as nat,
                        );
                        if same {
                            Ok((st_c5, None, pos_final, payout as u128))
                        } else {
                            Ok((st_c5, Some(st_i2), pos_final, payout as u128))
                        }
                    }
                }
            }
        } else {
            if same {
                Ok((st_i2, None, pos_final, 0))
            } else {
                Ok((st_c4, Some(st_i2), pos_final, 0))
            }
        }
    }
}

/// Everything `decrease_position` does, as one mathematical function.
pub open spec fn spec_decrease_position(
    pre: VaultView,
    account: u64,
    collateral_asset: u64,
    index_asset: u64,
    collateral_delta: u128,
    size_delta: u128,
    is_long: bool,
    custody_balance: u128,
    now: u64,
    collateral_price: PricePair,
    index_price: PricePair,
) -> Result<(VaultView, DecreaseOutcome), ContractError> {
    let cfg = pre.config;
    let same = collateral_asset == index_asset;
    if !pre.assets.contains_key(collateral_asset) {
        Err(ContractError::InvalidAsset { asset: collateral_asset })
    } else if !pre.assets.contains_key(index_asset) {
        Err(ContractError::InvalidAsset { asset: index_asset })
    } else if !collateral_price.valid() || !index_price.valid() {
        Err(ContractError::InvalidAmount)
    } else {
        let key = PositionKey { account, collateral_asset, index_asset, is_long };
        let p = pre.position_or_empty(key);
        if p.size == 0 {
            Err(ContractError::InvalidAmount)
        } else if size_delta > p.size {
            Err(ContractError::InvalidAmount)
        } else if collateral_delta > p.collateral {
            Err(ContractError::InvalidAmount)
        } else {
            let st_c = pre.assets[collateral_asset];
            let st_i = pre.assets[index_asset];
            if !crate::funding::funding_fits(cfg, st_c, now) {
                Err(ContractError::ArithmeticFailure)
            } else if !same && !crate::funding::funding_fits(cfg, st_i, now) {
                Err(ContractError::ArithmeticFailure)
            } else {
                let st_c1 = crate::funding::funding_step(cfg, st_c, now);
                let st_i1 = if same {
                    st_c1
                } else {
                    crate::funding::funding_step(cfg, st_i, now)
                };
                if p.reserve_amount * size_delta > u128::MAX {
                    Err(ContractError::ArithmeticFailure)
                } else {
                    let reserve_delta = p.reserve_amount * size_delta / p.size as int;
                    let p_r = Position {
                        reserve_amount: (p.reserve_amount - reserve_delta) as u128,
                        ..p
                    };
                    if reserve_delta > st_c1.reserved_amount {
                        Err(ContractError::ArithmeticFailure)
                    } else {
                        let st_c2 = AssetState {
                            reserved_amount: (st_c1.reserved_amount - reserve_delta) as u128,
                            ..st_c1
                        };
                        let delta_price: u128 = if is_long {
                            index_price.min
                        } else {
                            index_price.max
                        };
                        let rc = crate::reduce::spec_reduce_collateral(
                            cfg,
                            collateral_asset,
                            st_c2,
                            p_r,
                            collateral_delta,
                            size_delta,
                            is_long,
                            custody_balance,
                            collateral_price,
                            delta_price,
                            st_i.min_profit_basis_points,
                            now,
                        );
                        if rc is Err {
                            Err(rc->Err_0)
                        } else {
                            let out = rc->Ok_0;
                            let fin = spec_decrease_finish(
                                collateral_asset,
                                size_delta,
                                is_long,
                                same,
                                p_r,
                                out,
                                st_i1,
                                collateral_price,
                            );
                            if fin is Err {
                                Err(fin->Err_0)
                            } else {
                                let (st_c_new, st_i_new, pos_final, payout) = fin->Ok_0;
                                Ok(
                                    (
                                        VaultView {
                                            assets: if st_i_new is Some {
                                                pre.assets.insert(
                                                    collateral_asset,
                                                    st_c_new,
                                                ).insert(index_asset, st_i_new->0)
                                            } else {
                                                pre.assets.insert(collateral_asset, st_c_new)
                                            },
                                            positions: pre.positions.insert(key, pos_final),
                                            ..pre
                                        },
                                        (DecreaseOutcome {
                                            mark: delta_price,
                                            fee_usd: out.fee_usd,
                                            usd_out: out.usd_out,
                                            usd_out_after_fee: out.usd_out_after_fee,
                                            payout_tokens: payout,
                                            realised_pnl: pos_final.realised_pnl,
                                        }),
                                    ),
                                )
                            }
                        }
                    }
                }
            }
        }
    }
}

/// Executable close-out tail; see `spec_decrease_finish`.
#[verifier::rlimit(100)]
#[verifier::spinoff_prover]
fn decrease_finish(
    collateral_asset: u64,
    size_delta: u128,
    is_long: bool,
    same: bool,
    p: Position,
    out: crate::reduce::ReduceOutcome,
    st_i1: AssetState,
    collateral_price: PricePair,
) -> (r: Result<(AssetState, Option<AssetState>, Position, u128), ContractError>)
    requires
        collateral_price.valid(),
        out.st.decimals <= crate::MAX_TOKEN_DECIMALS,
        st_i1.decimals == out.st.decimals || !same,
        st_i1.inv(),
        p.size > 0,
        size_delta <= p.size,
        out.pos.collateral <= p.collateral,
    ensures
        r == spec_decrease_finish(
            collateral_asset,
            size_delta,
            is_long,
            same,
            p,
            out,
            st_i1,
            collateral_price,
        ),
        r matches Ok((st_c_new, st_i_new, pos_final, _payout)) ==> ((out.st.reserved_amount
            <= out.st.pool_amount && out.pos.collateral <= u128::MAX && p.average_price > 0
            && out.st.inv()) ==> st_c_new.inv() && (st_i_new matches Some(sti) ==> sti.inv())
            && pos_final.inv()),
{
    let st_c3 = out.st;
    let full_close = size_delta == p.size;
    let (pos_final, st_c4): (Position, AssetState) = if full_close {
        let st_c4: AssetState = if is_long {
            let g1 = match st_c3.guaranteed_usd.checked_add(p.collateral) {
                Some(v) => v,
                None => {
                    return Err(ContractError::ArithmeticFailure);
                },
            };
            let g2 = match g1.checked_sub(p.size) {
                Some(v) => v,
                None => {
                    return Err(ContractError::ArithmeticFailure);
                },
            };
            AssetState { guaranteed_usd: g2, ..st_c3 }
        } else {
            st_c3
        };
        (Position::empty(), st_c4)
    } else {
        let new_size = p.size - size_delta;
        if out.pos.collateral > new_size {
            return Err(ContractError::InvalidAmount);
        }
        let st_c4: AssetState = if is_long {
            let g1 = match st_c3.guaranteed_usd.checked_add(p.collateral - out.pos.collateral) {
                Some(v) => v,
                None => {
                    return Err(ContractError::ArithmeticFailure);
                },
            };
            let g2 = match g1.checked_sub(size_delta) {
                Some(v) => v,
                None => {
                    return Err(ContractError::ArithmeticFailure);
                },
            };
            AssetState { guaranteed_usd: g2, ..st_c3 }
        } else {
            st_c3
        };
        (
            Position {
                size: new_size,
                collateral: out.pos.collateral,
                average_price: p.average_price,
                entry_funding_rate: st_c3.cumulative_funding_rate,
                reserve_amount: out.pos.reserve_amount,
                realised_pnl: out.pos.realised_pnl,
                last_increased_time: p.last_increased_time,
            },
            st_c4,
        )
    };
    let base_i = if same {
        st_c4
    } else {
        st_i1
    };
    let st_i2 = if !is_long {
        base_i.decrease_global_short(size_delta)
    } else {
        base_i
    };
    let working = if same {
        st_i2
    } else {
        st_c4
    };
    if out.usd_out > 0 {
        let usd_out_tokens = match crate::pricing::usd_to_token_min(
            out.usd_out,
            collateral_price,
            working.decimals,
        ) {
            Ok(v) => v,
            Err(e) => {
                return Err(e);
            },
        };
        let st_c5: AssetState = if is_long {
            match working.decrease_pool(collateral_asset, usd_out_tokens) {
                Ok(v) => v,
                Err(e) => {
                    return Err(e);
                },
            }
        } else {
            working
        };
        let payout = match crate::pricing::usd_to_token_min(
            out.usd_out_after_fee,
            collateral_price,
            working.decimals,
        ) {
            Ok(v) => v,
            Err(e) => {
                return Err(e);
            },
        };
        if same {
            Ok((st_c5, None, pos_final, payout))
        } else {
            Ok((st_c5, Some(st_i2), pos_final, payout))
        }
    } else {
        if same {
            Ok((st_i2, None, pos_final, 0))
        } else {
            Ok((st_c4, Some(st_i2), pos_final, 0))
        }
    }
}

impl Vault {
    /// Compute a position decrease without committing it: validations,
    /// funding accrual, proportional reserve release, collateral
    /// reduction, and the close-out tail.
    #[verifier::rlimit(100)]
    #[verifier::spinoff_prover]
    fn decrease_core(
        &self,
        account: u64,
        collateral_asset: u64,
        index_asset: u64,
        collateral_delta: u128,
        size_delta: u128,
        is_long: bool,
        custody_balance: u128,
        now: u64,
        collateral_price: PricePair,
        index_price: PricePair,
    ) -> (r: Result<(AssetState, Option<AssetState>, Position, DecreaseOutcome), ContractError>)
        requires
            self.wf(),
        ensures
            ({
                let m = spec_decrease_position(
                    self@,
                    account,
                    collateral_asset,
                    index_asset,
                    collateral_delta,
                    size_delta,
                    is_long,
                    custody_balance,
                    now,
                    collateral_price,
                    index_price,
                );
                let key = PositionKey { account, collateral_asset, index_asset, is_long };
                match m {
                    Ok((post, outcome)) => r matches Ok((st_c_new, st_i_new, pos_final, oc))
                        && oc == outcome && post.assets == (if st_i_new is Some {
                        self@.assets.insert(collateral_asset, st_c_new).insert(
                            index_asset,
                            st_i_new->0,
                        )
                    } else {
                        self@.assets.insert(collateral_asset, st_c_new)
                    }) && post.positions == self@.positions.insert(key, pos_final)
                        && post.config == self@.config && post.managers == self@.managers
                        && post.liquidators == self@.liquidators && post.usdg_supply
                        == self@.usdg_supply && post.total_token_weights
                        == self@.total_token_weights && post.whitelisted_count
                        == self@.whitelisted_count && st_c_new.inv() && pos_final.inv() && (
                    st_i_new matches Some(sti) ==> sti.inv()),
                    Err(e) => r == Err::<
                        (AssetState, Option<AssetState>, Position, DecreaseOutcome),
                        ContractError,
                    >(e),
                }
            }),
    {
        let st_c = match self.assets.get(collateral_asset) {
            Some(st) => st,
            None => {
                return Err(ContractError::InvalidAsset { asset: collateral_asset });
            },
        };
        let st_i = match self.assets.get(index_asset) {
            Some(st) => st,
            None => {
                return Err(ContractError::InvalidAsset { asset: index_asset });
            },
        };
        if !collateral_price.check() || !index_price.check() {
            return Err(ContractError::InvalidAmount);
        }
        let same = collateral_asset == index_asset;
        let key = PositionKey { account, collateral_asset, index_asset, is_long };
        let p = match self.positions.get(&key) {
            Some(p) => p,
            None => Position::empty(),
        };
        proof {
            if self@.positions.contains_key(key) {
                assert(p.inv());
            }
            assert(st_c.inv());
            if !same {
                assert(st_i.inv());
            }
        }
        if p.size == 0 {
            return Err(ContractError::InvalidAmount);
        }
        if size_delta > p.size {
            return Err(ContractError::InvalidAmount);
        }
        if collateral_delta > p.collateral {
            return Err(ContractError::InvalidAmount);
        }
        let (st_c1, _oc) = match crate::funding::accrue_funding(&self.config, st_c, now) {
            Ok(v) => v,
            Err(e) => {
                return Err(e);
            },
        };
        let st_i1 = if same {
            st_c1
        } else {
            match crate::funding::accrue_funding(&self.config, st_i, now) {
                Ok(v) => v.0,
                Err(e) => {
                    return Err(e);
                },
            }
        };
        let reserve_delta = match crate::math::mul_div(p.reserve_amount, size_delta, p.size) {
            Ok(v) => v,
            Err(e) => {
                return Err(e);
            },
        };
        proof {
            crate::math::lemma_mul_div_le(
                p.reserve_amount as int,
                size_delta as int,
                p.size as int,
            );
        }
        let p_r = Position { reserve_amount: p.reserve_amount - reserve_delta, ..p };
        let st_c2 = match st_c1.decrease_reserved(reserve_delta) {
            Ok(v) => v,
            Err(e) => {
                return Err(e);
            },
        };
        let delta_price: u128 = if is_long {
            index_price.min
        } else {
            index_price.max
        };
        let out = match crate::reduce::reduce_collateral(
            &self.config,
            collateral_asset,
            st_c2,
            p_r,
            collateral_delta,
            size_delta,
            is_long,
            custody_balance,
            collateral_price,
            delta_price,
            st_i.min_profit_basis_points,
            now,
        ) {
            Ok(v) => v,
            Err(e) => {
                return Err(e);
            },
        };
        let (st_c_new, st_i_new, pos_final, payout) = match decrease_finish(
            collateral_asset,
            size_delta,
            is_long,
            same,
            p_r,
            out,
            st_i1,
            collateral_price,
        ) {
            Ok(v) => v,
            Err(e) => {
                return Err(e);
            },
        };
        Ok(
            (
                st_c_new,
                st_i_new,
                pos_final,
                DecreaseOutcome {
                    mark: delta_price,
                    fee_usd: out.fee_usd,
                    usd_out: out.usd_out,
                    usd_out_after_fee: out.usd_out_after_fee,
                    payout_tokens: payout,
                    realised_pnl: pos_final.realised_pnl,
                },
            ),
        )
    }

    /// Shrink or close a position, realizing its proportional PnL and
    /// paying out withdrawn collateral and profit. A decrease to exactly
    /// zero size flushes all remaining collateral and zeroes the position.
    /// Returns what the shell must pay out and the amounts realized.
    pub fn decrease_position(
        &mut self,
        account: u64,
        collateral_asset: u64,
        index_asset: u64,
        collateral_delta: u128,
        size_delta: u128,
        is_long: bool,
        custody_balance: u128,
        now: u64,
        collateral_price: PricePair,
        index_price: PricePair,
    ) -> (r: Result<DecreaseOutcome, ContractError>)
        requires
            old(self).wf(),
        ensures
            final(self).wf(),
            old(self)@.same_except_trading(final(self)@),
            final(self)@.usdg_supply == old(self)@.usdg_supply,
            ({
                let m = spec_decrease_position(
                    old(self)@,
                    account,
                    collateral_asset,
                    index_asset,
                    collateral_delta,
                    size_delta,
                    is_long,
                    custody_balance,
                    now,
                    collateral_price,
                    index_price,
                );
                match m {
                    Ok((post, outcome)) => r == Ok::<DecreaseOutcome, ContractError>(outcome)
                        && final(self)@ == post,
                    Err(e) => r == Err::<DecreaseOutcome, ContractError>(e) && final(self)@
                        == old(self)@,
                }
            }),
    {
        let key = PositionKey { account, collateral_asset, index_asset, is_long };
        let (st_c_new, st_i_new, pos_final, outcome) = match self.decrease_core(
            account,
            collateral_asset,
            index_asset,
            collateral_delta,
            size_delta,
            is_long,
            custody_balance,
            now,
            collateral_price,
            index_price,
        ) {
            Ok(v) => v,
            Err(e) => {
                return Err(e);
            },
        };
        match st_i_new {
            Some(st_i2) => {
                self.assets.set(collateral_asset, st_c_new);
                self.assets.set(index_asset, st_i2);
                self.positions.set(key, pos_final);
                proof {
                    lemma_inv_trade_update(
                        old(self)@,
                        self@,
                        collateral_asset,
                        st_c_new,
                        index_asset,
                        st_i2,
                        key,
                        pos_final,
                    );
                }
            },
            None => {
                self.assets.set(collateral_asset, st_c_new);
                self.positions.set(key, pos_final);
                proof {
                    lemma_inv_trade_update1(
                        old(self)@,
                        self@,
                        collateral_asset,
                        st_c_new,
                        key,
                        pos_final,
                    );
                }
            },
        }
        Ok(outcome)
    }
}
/// What a liquidation produced.
#[derive(Clone, Copy, Debug, PartialEq, Eq, Structural)]
pub enum LiquidationOutcome {
    /// The position exceeded the leverage ceiling while still solvent: it
    /// was fully closed through the ordinary decrease path, with no
    /// liquidation fee and no seizure.
    ClosedViaDecrease { outcome: DecreaseOutcome },
    /// Maintenance-margin breach: fees realized, reserve released, the
    /// remaining collateral kept by the pool, and the fixed liquidation
    /// fee (in asset units) owed to the liquidator by the shell.
    Seized { margin_fee_usd: u128, mark: u128, liquidation_fee_tokens: u128 },
}

/// The seizure tail of a liquidation, as one mathematical function:
/// the next collateral-asset state, the next index-asset state where it
/// is distinct, and the liquidation fee in asset units.
pub open spec fn spec_liquidate_seize(
    collateral_asset: u64,
    same: bool,
    is_long: bool,
    st_c1: AssetState,
    st_i1: AssetState,
    p: Position,
    fees: u128,
    custody_balance: u128,
    collateral_price: PricePair,
    liquidation_fee_usd: u128,
) -> Result<(AssetState, Option<AssetState>, u128), ContractError> {
    if fees * crate::math::pow10(st_c1.decimals as nat) > u128::MAX {
        Err(ContractError::ArithmeticFailure)
    } else {
        let fee_tokens = crate::pricing::spec_usd_to_token(
            fees as int,
            collateral_price.max as int,
            st_c1.decimals as nat,
        );
        if st_c1.fee_reserve + fee_tokens > u128::MAX {
            Err(ContractError::ArithmeticFailure)
        } else {
            let st_c2 = AssetState {
                fee_reserve: (st_c1.fee_reserve + fee_tokens) as u128,
                ..st_c1
            };
            if p.reserve_amount > st_c2.reserved_amount {
                Err(ContractError::ArithmeticFailure)
            } else {
                let st_c3 = AssetState {
                    reserved_amount: (st_c2.reserved_amount - p.reserve_amount) as u128,
                    ..st_c2
                };
                let pool_step: Result<AssetState, ContractError> = if is_long {
                    if st_c3.guaranteed_usd + p.collateral < p.size {
                        Err(ContractError::ArithmeticFailure)
                    } else if st_c3.guaranteed_usd + p.collateral - p.size > u128::MAX {
                        Err(ContractError::ArithmeticFailure)
                    } else {
                        let st_c4 = AssetState {
                            guaranteed_usd: (st_c3.guaranteed_usd + p.collateral
                                - p.size) as u128,
                            ..st_c3
                        };
                        if fee_tokens > st_c4.pool_amount {
                            Err(ContractError::ArithmeticFailure)
                        } else if st_c4.pool_amount - fee_tokens < st_c4.reserved_amount {
                            Err((ContractError::InsufficientReserves { asset: collateral_asset }))
                        } else {
                            Ok(
                                AssetState {
                                    pool_amount: (st_c4.pool_amount - fee_tokens) as u128,
                                    ..st_c4
                                },
                            )
                        }
                    }
                } else {
                    if fees < p.collateral {
                        if (p.collateral - fees) * crate::math::pow10(st_c3.decimals as nat)
                            > u128::MAX {
                            Err(ContractError::ArithmeticFailure)
                        } else {
                            let rem_tokens = crate::pricing::spec_usd_to_token(
                                p.collateral - fees,
                                collateral_price.max as int,
                                st_c3.decimals as nat,
                            );
                            if st_c3.pool_amount + rem_tokens > u128::MAX {
                                Err(ContractError::ArithmeticFailure)
                            } else if custody_balance < st_c3.pool_amount + rem_tokens {
                                Err((ContractError::BalanceMismatch { asset: collateral_asset }))
                            } else {
                                Ok(
                                    AssetState {
                                        pool_amount: (st_c3.pool_amount + rem_tokens) as u128,
                                        ..st_c3
                                    },
                                )
                            }
                        }
                    } else {
                        Ok(st_c3)
                    }
                };
                if pool_step is Err {
                    Err(pool_step->Err_0)
                } else {
                    let st_c5 = pool_step->Ok_0;
                    let st_short = if same {
                        if is_long {
                            st_c5
                        } else {
                            st_c5.spec_decrease_global_short(p.size)
                        }
                    } else {
                        st_c5
                    };
                    let st_i2 = if same {
                        st_short
                    } else if is_long {
                        st_i1
                    } else {
                        st_i1.spec_decrease_global_short(p.size)
                    };
                    let working = if same {
                        st_short
                    } else {
                        st_c5
                    };
                    if liquidation_fee_usd * crate::math::pow10(working.decimals as nat)
                        > u128::MAX {
                        Err(ContractError::ArithmeticFailure)
                    } else {
                        let liq_tokens = crate::pricing::spec_usd_to_token(
                            liquidation_fee_usd as int,
                            collateral_price.max as int,
                            working.decimals as nat,
                        );
                        if liq_tokens > working.pool_amount {
                            Err(ContractError::ArithmeticFailure)
                        } else if working.pool_amount - liq_tokens < working.reserved_amount {
                            Err((ContractError::InsufficientReserves { asset: collateral_asset }))
                        } else {
                            let st_final = AssetState {
                                pool_amount: (working.pool_amount - liq_tokens) as u128,
                                ..working
                            };
                            if same {
                                Ok((st_final, None, liq_tokens as u128))
                            } else {
                                Ok((st_final, Some(st_i2), liq_tokens as u128))
                            }
                        }
                    }
                }
            }
        }
    }
}

/// Executable seizure tail; see `spec_liquidate_seize`.
#[verifier::rlimit(100)]
#[verifier::spinoff_prover]
fn liquidate_seize(
    collateral_asset: u64,
    same: bool,
    is_long: bool,
    st_c1: AssetState,
    st_i1: AssetState,
    p: Position,
    fees: u128,
    custody_balance: u128,
    collateral_price: PricePair,
    liquidation_fee_usd: u128,
) -> (r: Result<(AssetState, Option<AssetState>, u128), ContractError>)
    requires
        st_c1.inv(),
        st_i1.inv(),
        collateral_price.valid(),
        p.collateral <= p.size,
    ensures
        r == spec_liquidate_seize(
            collateral_asset,
            same,
            is_long,
            st_c1,
            st_i1,
            p,
            fees,
            custody_balance,
            collateral_price,
            liquidation_fee_usd,
        ),
        r matches Ok((st_c_new, st_i_new, _liq)) ==> st_c_new.inv() && (st_i_new matches Some(sti)
            ==> sti.inv()),
{
    let fee_tokens = match crate::pricing::usd_to_token_min(fees, collateral_price, st_c1.decimals) {
        Ok(v) => v,
        Err(e) => {
            return Err(e);
        },
    };
    let st_c2 = match st_c1.increase_fee_reserve(fee_tokens) {
        Ok(v) => v,
        Err(e) => {
            return Err(e);
        },
    };
    let st_c3 = match st_c2.decrease_reserved(p.reserve_amount) {
        Ok(v) => v,
        Err(e) => {
            return Err(e);
        },
    };
    let st_c5: AssetState = if is_long {
        let shortfall = match p.size.checked_sub(p.collateral) {
            Some(v) => v,
            None => {
                return Err(ContractError::ArithmeticFailure);
            },
        };
        let st_c4 = match st_c3.decrease_guaranteed(shortfall) {
            Ok(v) => v,
            Err(e) => {
                return Err(e);
            },
        };
        match st_c4.decrease_pool(collateral_asset, fee_tokens) {
            Ok(v) => v,
            Err(e) => {
                return Err(e);
            },
        }
    } else {
        if fees < p.collateral {
            let rem_tokens = match crate::pricing::usd_to_token_min(
                p.collateral - fees,
                collateral_price,
                st_c3.decimals,
            ) {
                Ok(v) => v,
                Err(e) => {
                    return Err(e);
                },
            };
            match st_c3.increase_pool(collateral_asset, rem_tokens, custody_balance) {
                Ok(v) => v,
                Err(e) => {
                    return Err(e);
                },
            }
        } else {
            st_c3
        }
    };
    let st_short: AssetState = if same {
        if is_long {
            st_c5
        } else {
            st_c5.decrease_global_short(p.size)
        }
    } else {
        st_c5
    };
    let st_i2: AssetState = if same {
        st_short
    } else if is_long {
        st_i1
    } else {
        st_i1.decrease_global_short(p.size)
    };
    let working: AssetState = if same {
        st_short
    } else {
        st_c5
    };
    let liq_tokens = match crate::pricing::usd_to_token_min(
        liquidation_fee_usd,
        collateral_price,
        working.decimals,
    ) {
        Ok(v) => v,
        Err(e) => {
            return Err(e);
        },
    };
    let st_final = match working.decrease_pool(collateral_asset, liq_tokens) {
        Ok(v) => v,
        Err(e) => {
            return Err(e);
        },
    };
    if same {
        Ok((st_final, None, liq_tokens))
    } else {
        Ok((st_final, Some(st_i2), liq_tokens))
    }
}

/// Everything `liquidate_position` does, as one mathematical function.
pub open spec fn spec_liquidate_position(
    pre: VaultView,
    caller: u64,
    account: u64,
    collateral_asset: u64,
    index_asset: u64,
    is_long: bool,
    custody_balance: u128,
    now: u64,
    collateral_price: PricePair,
    index_price: PricePair,
) -> Result<(VaultView, LiquidationOutcome), ContractError> {
    let cfg = pre.config;
    let same = collateral_asset == index_asset;
    if cfg.in_private_liquidation_mode && !pre.liquidators.contains(caller) {
        Err(ContractError::Unauthorized)
    } else if !pre.assets.contains_key(collateral_asset) {
        Err(ContractError::InvalidAsset { asset: collateral_asset })
    } else if !pre.assets.contains_key(index_asset) {
        Err(ContractError::InvalidAsset { asset: index_asset })
    } else if !collateral_price.valid() || !index_price.valid() {
        Err(ContractError::InvalidAmount)
    } else {
        let key = PositionKey { account, collateral_asset, index_asset, is_long };
        let p = pre.position_or_empty(key);
        if p.size == 0 {
            Err(ContractError::InvalidAmount)
        } else {
            let st_c = pre.assets[collateral_asset];
            let st_i = pre.assets[index_asset];
            if !crate::funding::funding_fits(cfg, st_c, now) {
                Err(ContractError::ArithmeticFailure)
            } else if !same && !crate::funding::funding_fits(cfg, st_i, now) {
                Err(ContractError::ArithmeticFailure)
            } else {
                let st_c1 = crate::funding::funding_step(cfg, st_c, now);
                let st_i1 = if same {
                    st_c1
                } else {
                    crate::funding::funding_step(cfg, st_i, now)
                };
                let mark: u128 = if is_long {
                    index_price.min
                } else {
                    index_price.max
                };
                let ev = crate::liquidation::spec_evaluate_liquidation(
                    cfg,
                    p,
                    is_long,
                    st_c1.cumulative_funding_rate,
                    mark,
                    st_i.min_profit_basis_points,
                    now,
                );
                if ev is Err {
                    Err(ev->Err_0)
                } else {
                    let (state, fees) = ev->Ok_0;
                    if state == crate::liquidation::LiquidationState::NotLiquidatable {
                        Err(ContractError::InvalidAmount)
                    } else if state == crate::liquidation::LiquidationState::MaxLeverageExceeded {
                        match spec_decrease_position(
                            pre,
                            account,
                            collateral_asset,
                            index_asset,
                            0,
                            p.size,
                            is_long,
                            custody_balance,
                            now,
                            collateral_price,
                            index_price,
                        ) {
                            Ok((post, outcome)) => Ok(
                                (post, (LiquidationOutcome::ClosedViaDecrease { outcome })),
                            ),
                            Err(e) => Err(e),
                        }
                    } else {
                        match spec_liquidate_seize(
                            collateral_asset,
                            same,
                            is_long,
                            st_c1,
                            st_i1,
                            p,
                            fees,
                            custody_balance,
                            collateral_price,
                            cfg.liquidation_fee_usd,
                        ) {
                            Ok((st_c_new, st_i_new, liq_tokens)) => Ok(
                                (
                                    VaultView {
                                        assets: if st_i_new is Some {
                                            pre.assets.insert(
                                                collateral_asset,
                                                st_c_new,
                                            ).insert(index_asset, st_i_new->0)
                                        } else {
                                            pre.assets.insert(collateral_asset, st_c_new)
                                        },
                                        positions: pre.positions.insert(
                                            key,
                                            Position::spec_empty(),
                                        ),
                                        ..pre
                                    },
                                    (LiquidationOutcome::Seized {
                                        margin_fee_usd: fees,
                                        mark,
                                        liquidation_fee_tokens: liq_tokens,
                                    }),
                                ),
                            ),
                            Err(e) => Err(e),
                        }
                    }
                }
            }
        }
    }
}

impl Vault {
    /// Forcibly close an undercollateralized position. A position that
    /// merely exceeds the leverage ceiling is closed through the ordinary
    /// decrease path with the remainder refunded to its owner; an
    /// insolvent one has its fees realized, its reserve released, its
    /// remaining collateral kept by the pool, and the fixed liquidation
    /// fee paid out to the liquidator by the shell.
    #[verifier::rlimit(100)]
    #[verifier::spinoff_prover]
    pub fn liquidate_position(
        &mut self,
        caller: u64,
        account: u64,
        collateral_asset: u64,
        index_asset: u64,
        is_long: bool,
        custody_balance: u128,
        now: u64,
        collateral_price: PricePair,
        index_price: PricePair,
    ) -> (r: Result<LiquidationOutcome, ContractError>)
        requires
            old(self).wf(),
        ensures
            final(self).wf(),
            old(self)@.same_except_trading(final(self)@),
            final(self)@.usdg_supply == old(self)@.usdg_supply,
            ({
                let m = spec_liquidate_position(
                    old(self)@,
                    caller,
                    account,
                    collateral_asset,
                    index_asset,
                    is_long,
                    custody_balance,
                    now,
                    collateral_price,
                    index_price,
                );
                match m {
                    Ok((post, outcome)) => r == Ok::<LiquidationOutcome, ContractError>(outcome)
                        && final(self)@ == post,
                    Err(e) => r == Err::<LiquidationOutcome, ContractError>(e) && final(self)@
                        == old(self)@,
                }
            }),
    {
        if self.config.in_private_liquidation_mode && !self.liquidators.contains(caller) {
            return Err(ContractError::Unauthorized);
        }
        let st_c = match self.assets.get(collateral_asset) {
            Some(st) => st,
            None => {
                return Err(ContractError::InvalidAsset { asset: collateral_asset });
            },
        };
        let st_i = match self.assets.get(index_asset) {
            Some(st) => st,
            None => {
                return Err(ContractError::InvalidAsset { asset: index_asset });
            },
        };
        if !collateral_price.check() || !index_price.check() {
            return Err(ContractError::InvalidAmount);
        }
        let same = collateral_asset == index_asset;
        let key = PositionKey { account, collateral_asset, index_asset, is_long };
        let p = match self.positions.get(&key) {
            Some(p) => p,
            None => Position::empty(),
        };
        proof {
            if self@.positions.contains_key(key) {
                assert(p.inv());
            }
            assert(st_c.inv());
            if !same {
                assert(st_i.inv());
            }
        }
        if p.size == 0 {
            return Err(ContractError::InvalidAmount);
        }
        let (st_c1, _oc) = match crate::funding::accrue_funding(&self.config, st_c, now) {
            Ok(v) => v,
            Err(e) => {
                return Err(e);
            },
        };
        let st_i1 = if same {
            st_c1
        } else {
            match crate::funding::accrue_funding(&self.config, st_i, now) {
                Ok(v) => v.0,
                Err(e) => {
                    return Err(e);
                },
            }
        };
        let mark: u128 = if is_long {
            index_price.min
        } else {
            index_price.max
        };
        let (state, fees) = match crate::liquidation::evaluate_liquidation(
            &self.config,
            &p,
            is_long,
            st_c1.cumulative_funding_rate,
            mark,
            st_i.min_profit_basis_points,
            now,
        ) {
            Ok(v) => v,
            Err(e) => {
                return Err(e);
            },
        };
        match state {
            crate::liquidation::LiquidationState::NotLiquidatable => Err(
                ContractError::InvalidAmount,
            ),
            crate::liquidation::LiquidationState::MaxLeverageExceeded => {
                match self.decrease_position(
                    account,
                    collateral_asset,
                    index_asset,
                    0,
                    p.size,
                    is_long,
                    custody_balance,
                    now,
                    collateral_price,
                    index_price,
                ) {
                    Ok(outcome) => Ok(LiquidationOutcome::ClosedViaDecrease { outcome }),
                    Err(e) => Err(e),
                }
            },
            crate::liquidation::LiquidationState::Insolvent => {
                let (st_c_new, st_i_new, liq_tokens) = match liquidate_seize(
                    collateral_asset,
                    same,
                    is_long,
                    st_c1,
                    st_i1,
                    p,
                    fees,
                    custody_balance,
                    collateral_price,
                    self.config.liquidation_fee_usd,
                ) {
                    Ok(v) => v,
                    Err(e) => {
                        return Err(e);
                    },
                };
                let pos_final = Position::empty();
                match st_i_new {
                    Some(st_i2) => {
                        self.assets.set(collateral_asset, st_c_new);
                        self.assets.set(index_asset, st_i2);
                        self.positions.set(key, pos_final);
                        proof {
                            lemma_inv_trade_update(
                                old(self)@,
                                self@,
                                collateral_asset,
                                st_c_new,
                                index_asset,
                                st_i2,
                                key,
                                pos_final,
                            );
                        }
                    },
                    None => {
                        self.assets.set(collateral_asset, st_c_new);
                        self.positions.set(key, pos_final);
                        proof {
                            lemma_inv_trade_update1(
                                old(self)@,
                                self@,
                                collateral_asset,
                                st_c_new,
                                key,
                                pos_final,
                            );
                        }
                    },
                }
                Ok(
                    LiquidationOutcome::Seized {
                        margin_fee_usd: fees,
                        mark,
                        liquidation_fee_tokens: liq_tokens,
                    },
                )
            },
        }
    }
}

/// Asset units the pool of `st` could redeem against: the whole pool for
/// a stable asset, otherwise the guaranteed-USD cover (valued at the max
/// price) plus the pool net of reserves.
pub open spec fn spec_redemption_collateral(st: AssetState, price: PricePair) -> int {
    if st.is_stable {
        st.pool_amount as int
    } else {
        crate::pricing::spec_usd_to_token(
            st.guaranteed_usd as int,
            price.max as int,
            st.decimals as nat,
        ) + st.pool_amount - st.reserved_amount
    }
}

impl Vault {
    /// The cumulative funding index a new position on this collateral
    /// asset would record as its entry snapshot.
    pub fn get_entry_funding_rate(&self, collateral_asset: u64) -> (r: Result<
        u128,
        ContractError,
    >)
        requires
            self.wf(),
        ensures
            !self@.assets.contains_key(collateral_asset) ==> r == Err::<u128, ContractError>(
                (ContractError::InvalidAsset { asset: collateral_asset }),
            ),
            self@.assets.contains_key(collateral_asset) ==> r == Ok::<u128, ContractError>(
                self@.assets[collateral_asset].cumulative_funding_rate,
            ),
    {
        match self.assets.get(collateral_asset) {
            Some(st) => Ok(st.cumulative_funding_rate),
            None => Err(ContractError::InvalidAsset { asset: collateral_asset }),
        }
    }

    /// Asset units the pool could redeem against: the whole pool for a
    /// stable asset, otherwise the guaranteed-USD cover plus the pool net
    /// of reserves.
    pub fn get_redemption_collateral(&self, asset: u64, price: PricePair) -> (r: Result<
        u128,
        ContractError,
    >)
        requires
            self.wf(),
        ensures
            !self@.assets.contains_key(asset) ==> r == Err::<u128, ContractError>(
                (ContractError::InvalidAsset { asset }),
            ),
            self@.assets.contains_key(asset) && !price.valid() ==> r == Err::<
                u128,
                ContractError,
            >(ContractError::InvalidAmount),
            self@.assets.contains_key(asset) && price.valid() ==> ({
                let st = self@.assets[asset];
                if st.is_stable {
                    r == Ok::<u128, ContractError>(st.pool_amount)
                } else if st.guaranteed_usd * crate::math::pow10(st.decimals as nat)
                    > u128::MAX {
                    r == Err::<u128, ContractError>(ContractError::ArithmeticFailure)
                } else {
                    let cover = crate::pricing::spec_usd_to_token(
                        st.guaranteed_usd as int,
                        price.max as int,
                        st.decimals as nat,
                    );
                    if cover + st.pool_amount > u128::MAX {
                        r == Err::<u128, ContractError>(ContractError::ArithmeticFailure)
                    } else if cover + st.pool_amount < st.reserved_amount {
                        r == Err::<u128, ContractError>(ContractError::ArithmeticFailure)
                    } else {
                        r == Ok::<u128, ContractError>(
                            (cover + st.pool_amount - st.reserved_amount) as u128,
                        )
                    }
                }
            }),
    {
        let st = match self.assets.get(asset) {
            Some(st) => st,
            None => {
                return Err(ContractError::InvalidAsset { asset });
            },
        };
        if !price.check() {
            return Err(ContractError::InvalidAmount);
        }
        if st.is_stable {
            return Ok(st.pool_amount);
        }
        proof {
            assert(st.inv());
        }
        let cover = match crate::pricing::usd_to_token_min(st.guaranteed_usd, price, st.decimals) {
            Ok(v) => v,
            Err(e) => {
                return Err(e);
            },
        };
        let total = match cover.checked_add(st.pool_amount) {
            Some(v) => v,
            None => {
                return Err(ContractError::ArithmeticFailure);
            },
        };
        match total.checked_sub(st.reserved_amount) {
            Some(v) => Ok(v),
            None => Err(ContractError::ArithmeticFailure),
        }
    }

    /// USD value of the redemption collateral, at the min price.
    pub fn get_redemption_collateral_usd(&self, asset: u64, price: PricePair) -> (r: Result<
        u128,
        ContractError,
    >)
        requires
            self.wf(),
        ensures
            !self@.assets.contains_key(asset) ==> r == Err::<u128, ContractError>(
                (ContractError::InvalidAsset { asset }),
            ),
            self@.assets.contains_key(asset) && !price.valid() ==> r == Err::<
                u128,
                ContractError,
            >(ContractError::InvalidAmount),
            self@.assets.contains_key(asset) && price.valid() ==> ({
                let st = self@.assets[asset];
                let cover = crate::pricing::spec_usd_to_token(
                    st.guaranteed_usd as int,
                    price.max as int,
                    st.decimals as nat,
                );
                let collateral = spec_redemption_collateral(st, price);
                if !st.is_stable && st.guaranteed_usd * crate::math::pow10(st.decimals as nat)
                    > u128::MAX {
                    r == Err::<u128, ContractError>(ContractError::ArithmeticFailure)
                } else if !st.is_stable && cover + st.pool_amount > u128::MAX {
                    r == Err::<u128, ContractError>(ContractError::ArithmeticFailure)
                } else if !st.is_stable && cover + st.pool_amount < st.reserved_amount {
                    r == Err::<u128, ContractError>(ContractError::ArithmeticFailure)
                } else if collateral * price.min > u128::MAX {
                    r == Err::<u128, ContractError>(ContractError::ArithmeticFailure)
                } else {
                    r == Ok::<u128, ContractError>(
                        crate::pricing::spec_token_to_usd(
                            collateral,
                            price.min as int,
                            st.decimals as nat,
                        ) as u128,
                    )
                }
            }),
    {
        let collateral = match self.get_redemption_collateral(asset, price) {
            Ok(v) => v,
            Err(e) => {
                return Err(e);
            },
        };
        let st = match self.assets.get(asset) {
            Some(st) => st,
            None => {
                return Err(ContractError::InvalidAsset { asset });
            },
        };
        proof {
            assert(st.inv());
        }
        crate::pricing::token_to_usd_min(collateral, price, st.decimals)
    }
}

} // verus!
