//! Cross-cutting laws of the engine, stated and proved over the same
//! spec functions the operations' contracts use.

use vstd::prelude::*;

use crate::math::pow10;
use crate::position::PositionKey;
use crate::pricing::PricePair;
use crate::vault::VaultView;

verus! {

/// Law: in every well-formed state, each whitelisted asset's pool covers
/// what is reserved for open positions.
pub proof fn lemma_pool_covers_reserves(v: VaultView, asset: u64)
    requires
        v.inv(),
        v.assets.contains_key(asset),
    ensures
        v.assets[asset].pool_amount >= v.assets[asset].reserved_amount,
{
}

/// Law: in every well-formed state, a position whose size is zero holds
/// no collateral.
pub proof fn lemma_closed_position_has_no_collateral(v: VaultView, key: PositionKey)
    requires
        v.inv(),
        v.positions.contains_key(key),
        v.positions[key].size == 0,
    ensures
        v.positions[key].collateral == 0,
{
}

/// Law: a successful decrease of a position's entire size leaves the
/// stored position fully zeroed — in particular with zero collateral.
pub proof fn lemma_full_close_zeroes_position(
    pre: VaultView,
    account: u64,
    collateral_asset: u64,
    index_asset: u64,
    collateral_delta: u128,
    is_long: bool,
    custody_balance: u128,
    now: u64,
    collateral_price: PricePair,
    index_price: PricePair,
)
    requires
        ({
            let key = PositionKey { account, collateral_asset, index_asset, is_long };
            crate::vault::spec_decrease_position(
                pre,
                account,
                collateral_asset,
                index_asset,
                collateral_delta,
                pre.position_or_empty(key).size,
                is_long,
                custody_balance,
                now,
                collateral_price,
                index_price,
            ) is Ok
        }),
    ensures
        ({
            let key = PositionKey { account, collateral_asset, index_asset, is_long };
            let post = crate::vault::spec_decrease_position(
                pre,
                account,
                collateral_asset,
                index_asset,
                collateral_delta,
                pre.position_or_empty(key).size,
                is_long,
                custody_balance,
                now,
                collateral_price,
                index_price,
            )->Ok_0.0;
            &&& post.position_or_empty(key).size == 0
            &&& post.position_or_empty(key).collateral == 0
        }),
{
}

/// Synthetic stable minted for depositing `amount` asset units at the
/// given fee and min price (the mint sequence of the bridge engine).
pub open spec fn spec_mint_amount(amount: int, fee_bps: int, min_price: int, decimals: nat) -> int {
    let after = amount * (10000 - fee_bps) / 10000;
    crate::pricing::spec_adjust_decimals(
        after * min_price / (crate::PRICE_PRECISION as int),
        decimals,
        crate::USDG_DECIMALS as nat,
    )
}

/// Asset units paid out for redeeming `usdg` of synthetic stable at the
/// given fee and max price.
pub open spec fn spec_redeem_output(usdg: int, fee_bps: int, max_price: int, decimals: nat) -> int {
    let redemption = crate::pricing::spec_redemption_amount(usdg, max_price, decimals);
    redemption * (10000 - fee_bps) / 10000
}

/// Law: minting synthetic stable against an asset and immediately
/// redeeming the whole minted amount back never yields more than was
/// deposited, for any non-negative fees and any valid quote.
pub proof fn lemma_mint_redeem_round_trip(
    amount: int,
    fee_in_bps: int,
    fee_out_bps: int,
    price: PricePair,
    decimals: nat,
)
    requires
        amount >= 0,
        0 <= fee_in_bps <= 10000,
        0 <= fee_out_bps <= 10000,
        price.valid(),
    ensures
        0 <= spec_redeem_output(
            spec_mint_amount(amount, fee_in_bps, price.min as int, decimals),
            fee_out_bps,
            price.max as int,
            decimals,
        ) <= amount,
{
    let mn = price.min as int;
    let mx = price.max as int;
    let pp = crate::PRICE_PRECISION as int;
    let d = pow10(decimals) as int;
    let u = pow10(crate::USDG_DECIMALS as nat) as int;
    crate::math::lemma_pow10_pos(decimals);
    crate::math::lemma_pow10_pos(crate::USDG_DECIMALS as nat);
    let b = amount * (10000 - fee_in_bps) / 10000;
    crate::math::lemma_mul_div_le(amount, 10000 - fee_in_bps, 10000);
    let m0 = b * mn / pp;
    let m = m0 * u / d;
    let r0 = m * pp / mx;
    let r = r0 * d / u;
    let out = r * (10000 - fee_out_bps) / 10000;
    vstd::arithmetic::mul::lemma_mul_nonnegative(b, mn);
    crate::math::lemma_div_bounds(b * mn, pp);
    vstd::arithmetic::mul::lemma_mul_nonnegative(m0, u);
    crate::math::lemma_div_bounds(m0 * u, d);
    vstd::arithmetic::mul::lemma_mul_nonnegative(m, pp);
    crate::math::lemma_div_bounds(m * pp, mx);
    vstd::arithmetic::mul::lemma_mul_nonnegative(r0, d);
    crate::math::lemma_div_bounds(r0 * d, u);
    assert(r * u * mx <= r0 * d * mx) by (nonlinear_arith)
        requires
            r * u <= r0 * d,
            mx > 0,
    ;
    assert(r0 * d * mx == r0 * mx * d) by (nonlinear_arith);
    assert(r0 * mx * d <= m * pp * d) by (nonlinear_arith)
        requires
            r0 * mx <= m * pp,
            d > 0,
    ;
    assert(m * pp * d == m * d * pp) by (nonlinear_arith);
    assert(m * d * pp <= m0 * u * pp) by (nonlinear_arith)
        requires
            m * d <= m0 * u,
            pp > 0,
    ;
    assert(m0 * u * pp == m0 * pp * u) by (nonlinear_arith);
    assert(m0 * pp * u <= b * mn * u) by (nonlinear_arith)
        requires
            m0 * pp <= b * mn,
            u > 0,
    ;
    assert(b * mn * u <= b * mx * u) by (nonlinear_arith)
        requires
            mn <= mx,
            b >= 0,
            u > 0,
    ;
    assert(r * u * mx == r * (u * mx)) by (nonlinear_arith);
    assert(b * mx * u == b * (u * mx)) by (nonlinear_arith);
    assert(r * (u * mx) <= b * (u * mx));
    assert(u * mx > 0) by (nonlinear_arith)
        requires
            u > 0,
            mx > 0,
    ;
    assert(r <= b) by (nonlinear_arith)
        requires
            r * (u * mx) <= b * (u * mx),
            u * mx > 0,
    ;
    crate::math::lemma_div_bounds(r0 * d, u);
    crate::math::lemma_mul_div_le(r, 10000 - fee_out_bps, 10000);
    assert(out <= r);
    assert(r <= b <= amount);
}

/// The stable-decimal USD value of a deposit is non-negative.
proof fn proof_usdg_value_nonneg(token_amount: u128, price: PricePair, decimals: nat)
    requires
        price.valid(),
    ensures
        crate::pricing::spec_adjust_decimals(
            token_amount * price.min / (crate::PRICE_PRECISION as int),
            decimals,
            crate::USDG_DECIMALS as nat,
        ) >= 0,
{
    crate::math::lemma_pow10_pos(decimals);
    crate::math::lemma_pow10_pos(crate::USDG_DECIMALS as nat);
    vstd::arithmetic::mul::lemma_mul_nonnegative(token_amount as int, price.min as int);
    crate::math::lemma_div_bounds(token_amount * price.min, crate::PRICE_PRECISION as int);
    let v0 = token_amount * price.min / (crate::PRICE_PRECISION as int);
    vstd::arithmetic::mul::lemma_mul_nonnegative(v0, pow10(crate::USDG_DECIMALS as nat) as int);
    crate::math::lemma_div_bounds(
        v0 * pow10(crate::USDG_DECIMALS as nat),
        pow10(decimals) as int,
    );
}

/// Law: the mint/redeem round trip at the operation level. If minting
/// synthetic stable against an asset succeeds, and immediately redeeming
/// the whole minted amount from the resulting state succeeds too, the
/// redeemed asset units never exceed what was deposited.
#[verifier::rlimit(100)]
#[verifier::spinoff_prover]
pub proof fn lemma_buy_then_sell_round_trip(
    pre: VaultView,
    caller: u64,
    asset: u64,
    token_amount: u128,
    custody_balance: u128,
    now: u64,
    price: PricePair,
)
    requires
        pre.inv(),
        crate::vault::spec_buy_usdg(
            pre,
            caller,
            asset,
            token_amount,
            custody_balance,
            now,
            price,
        ) is Ok,
        crate::vault::spec_sell_usdg(
            crate::vault::spec_buy_usdg(
                pre,
                caller,
                asset,
                token_amount,
                custody_balance,
                now,
                price,
            )->Ok_0.0,
            caller,
            asset,
            crate::vault::spec_buy_usdg(
                pre,
                caller,
                asset,
                token_amount,
                custody_balance,
                now,
                price,
            )->Ok_0.1,
            now,
            price,
        ) is Ok,
    ensures
        crate::vault::spec_sell_usdg(
            crate::vault::spec_buy_usdg(
                pre,
                caller,
                asset,
                token_amount,
                custody_balance,
                now,
                price,
            )->Ok_0.0,
            caller,
            asset,
            crate::vault::spec_buy_usdg(
                pre,
                caller,
                asset,
                token_amount,
                custody_balance,
                now,
                price,
            )->Ok_0.1,
            now,
            price,
        )->Ok_0.1 <= token_amount,
{
    let cfg = pre.config;
    let st = pre.assets[asset];
    let st1 = crate::funding::funding_step(cfg, st, now);
    let buy = crate::vault::spec_buy_usdg(pre, caller, asset, token_amount, custody_balance, now, price);
    let mid = buy->Ok_0.0;
    let mint = buy->Ok_0.1;
    let usdg_value = crate::pricing::spec_adjust_decimals(
        token_amount * price.min / (crate::PRICE_PRECISION as int),
        st.decimals as nat,
        crate::USDG_DECIMALS as nat,
    );
    proof_usdg_value_nonneg(token_amount, price, st.decimals as nat);
    let f1 = crate::fees::spec_buy_usdg_fee_bps(
        cfg,
        st1,
        usdg_value,
        pre.usdg_supply as int,
        pre.total_token_weights as int,
    );
    crate::fees::lemma_fee_basis_points_clamped(
        cfg.has_dynamic_fees,
        st1.usdg_amount as int,
        usdg_value,
        true,
        st1.token_weight as int,
        pre.usdg_supply as int,
        pre.total_token_weights as int,
        cfg.mint_burn_fee_basis_points as int,
        cfg.tax_basis_points as int,
    );
    let mn = price.min as int;
    let pp = crate::PRICE_PRECISION as int;
    let d = pow10(st.decimals as nat) as int;
    let u = pow10(crate::USDG_DECIMALS as nat) as int;
    crate::math::lemma_pow10_pos(st.decimals as nat);
    crate::math::lemma_pow10_pos(crate::USDG_DECIMALS as nat);
    let after = token_amount * (10000 - f1) / 10000;
    crate::math::lemma_mul_div_le(token_amount as int, 10000 - f1, 10000);
    let mint0 = after * mn / pp;
    vstd::arithmetic::mul::lemma_mul_nonnegative(after, mn);
    crate::math::lemma_div_bounds(after * mn, pp);
    vstd::arithmetic::mul::lemma_mul_nonnegative(mint0, u);
    crate::math::lemma_div_bounds(mint0 * u, d);
    vstd::arithmetic::div_mod::lemma_div_nonincreasing(mint0 * u, d);
    assert(mint == spec_mint_amount(token_amount as int, f1, price.min as int, st.decimals as nat));
    let st_mid = mid.assets[asset];
    assert(st_mid.decimals == st.decimals);
    let st_mid1 = crate::funding::funding_step(mid.config, st_mid, now);
    let f2 = crate::fees::spec_sell_usdg_fee_bps(
        mid.config,
        st_mid1,
        mint as int,
        mid.usdg_supply as int,
        mid.total_token_weights as int,
    );
    crate::fees::lemma_fee_basis_points_clamped(
        mid.config.has_dynamic_fees,
        st_mid1.usdg_amount as int,
        mint as int,
        false,
        st_mid1.token_weight as int,
        mid.usdg_supply as int,
        mid.total_token_weights as int,
        mid.config.mint_burn_fee_basis_points as int,
        mid.config.tax_basis_points as int,
    );
    let sell = crate::vault::spec_sell_usdg(mid, caller, asset, mint, now, price);
    let mx = price.max as int;
    let raw = mint * pp / mx;
    vstd::arithmetic::mul::lemma_mul_nonnegative(mint as int, pp);
    crate::math::lemma_div_bounds(mint * pp, mx);
    let redemption = raw * d / u;
    vstd::arithmetic::mul::lemma_mul_nonnegative(raw, d);
    crate::math::lemma_div_bounds(raw * d, u);
    vstd::arithmetic::div_mod::lemma_div_nonincreasing(raw * d, u);
    crate::math::lemma_mul_div_le(redemption, 10000 - f2, 10000);
    assert(sell->Ok_0.1 == spec_redeem_output(mint as int, f2, price.max as int, st.decimals as nat));
    lemma_mint_redeem_round_trip(token_amount as int, f1, f2, price, st.decimals as nat);
}

/// Law: with any positive fee on either leg, the mint/redeem round trip
/// strictly loses value for every positive deposit.
pub proof fn lemma_mint_redeem_strict_loss(
    amount: int,
    fee_in_bps: int,
    fee_out_bps: int,
    price: PricePair,
    decimals: nat,
)
    requires
        amount >= 1,
        0 <= fee_in_bps <= 10000,
        0 <= fee_out_bps <= 10000,
        fee_in_bps + fee_out_bps >= 1,
        price.valid(),
    ensures
        spec_redeem_output(
            spec_mint_amount(amount, fee_in_bps, price.min as int, decimals),
            fee_out_bps,
            price.max as int,
            decimals,
        ) < amount,
{
    lemma_mint_redeem_round_trip(amount, fee_in_bps, fee_out_bps, price, decimals);
    let mn = price.min as int;
    let mx = price.max as int;
    let pp = crate::PRICE_PRECISION as int;
    let d = pow10(decimals) as int;
    let u = pow10(crate::USDG_DECIMALS as nat) as int;
    crate::math::lemma_pow10_pos(decimals);
    crate::math::lemma_pow10_pos(crate::USDG_DECIMALS as nat);
    let b = amount * (10000 - fee_in_bps) / 10000;
    let m0 = b * mn / pp;
    let m = m0 * u / d;
    let r0 = m * pp / mx;
    let r = r0 * d / u;
    let out = r * (10000 - fee_out_bps) / 10000;
    crate::math::lemma_mul_div_le(amount, 10000 - fee_in_bps, 10000);
    vstd::arithmetic::mul::lemma_mul_nonnegative(b, mn);
    crate::math::lemma_div_bounds(b * mn, pp);
    vstd::arithmetic::mul::lemma_mul_nonnegative(m0, u);
    crate::math::lemma_div_bounds(m0 * u, d);
    vstd::arithmetic::mul::lemma_mul_nonnegative(m, pp);
    crate::math::lemma_div_bounds(m * pp, mx);
    vstd::arithmetic::mul::lemma_mul_nonnegative(r0, d);
    crate::math::lemma_div_bounds(r0 * d, u);
    assert(r * u * mx <= b * (u * mx)) by (nonlinear_arith)
        requires
            r * u <= r0 * d,
            r0 * mx <= m * pp,
            m * d <= m0 * u,
            m0 * pp <= b * mn,
            mn <= mx,
            b >= 0,
            r0 >= 0,
            m >= 0,
            m0 >= 0,
            d > 0,
            u > 0,
            mx > 0,
            pp > 0,
    ;
    assert(r * u * mx == r * (u * mx)) by (nonlinear_arith);
    assert(u * mx > 0) by (nonlinear_arith)
        requires
            u > 0,
            mx > 0,
    ;
    assert(r <= b) by (nonlinear_arith)
        requires
            r * (u * mx) <= b * (u * mx),
            u * mx > 0,
    ;
    crate::math::lemma_mul_div_le(r, 10000 - fee_out_bps, 10000);
    if fee_in_bps >= 1 {
        // The inbound fee already loses at least a rounding unit:
        // b * 10000 <= amount * (10000 - fee) < amount * 10000.
        vstd::arithmetic::mul::lemma_mul_nonnegative(amount, 10000 - fee_in_bps);
        crate::math::lemma_div_bounds(amount * (10000 - fee_in_bps), 10000);
        assert(amount * (10000 - fee_in_bps) <= amount * 10000 - amount) by (nonlinear_arith)
            requires
                fee_in_bps >= 1,
                amount >= 1,
        ;
        assert(b * 10000 < amount * 10000);
        assert(b < amount) by (nonlinear_arith)
            requires
                b * 10000 < amount * 10000,
        ;
        // The round trip never gains over the post-fee deposit.
        assert(out <= r <= b < amount);
    } else {
        // fee_out_bps >= 1: either nothing comes back at all, or the
        // outbound fee strips at least a rounding unit from it.
        if r == 0 {
            vstd::arithmetic::mul::lemma_mul_nonnegative(r, 10000 - fee_out_bps);
            crate::math::lemma_div_bounds(r * (10000 - fee_out_bps), 10000);
            assert(out <= 0 < amount);
        } else {
            vstd::arithmetic::mul::lemma_mul_nonnegative(r, 10000 - fee_out_bps);
            crate::math::lemma_div_bounds(r * (10000 - fee_out_bps), 10000);
            assert(r * (10000 - fee_out_bps) <= r * 10000 - r) by (nonlinear_arith)
                requires
                    fee_out_bps >= 1,
                    r >= 1,
            ;
            assert(out * 10000 < r * 10000);
            assert(out < r) by (nonlinear_arith)
                requires
                    out * 10000 < r * 10000,
            ;
            assert(out < r && r <= amount);
        }
    }
}

} // verus!
