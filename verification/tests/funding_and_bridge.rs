//! Funding accrual gating, mint/redeem round trips, swaps, and the
//! failure taxonomy.

use vault::{
    CallContext, ContractError, FundingOutcome, Notification, PricePair, Vault, VaultOp,
};

const AUTHORITY: u64 = 1;
const MANAGER: u64 = 5;
const ASSET_A: u64 = 11;
const ASSET_B: u64 = 12;

fn flat(p: u128) -> PricePair {
    PricePair { min: p, max: p }
}

const PRICE_PRECISION: u128 = 1_000_000_000_000_000_000_000_000_000_000;

/// A vault with two whitelisted assets (decimals 6) and liquidity in
/// asset A's pool.
fn setup() -> Vault {
    let mut v = Vault::new(AUTHORITY, 2, 3, 4, 99, 0, 600, 600).unwrap();
    v.set_token_config(AUTHORITY, ASSET_A, 6, 1000, 0, 0, false, false).unwrap();
    v.set_token_config(AUTHORITY, ASSET_B, 6, 2000, 0, 0, false, true).unwrap();
    v.direct_pool_deposit(ASSET_A, 1_000_000, 1_000_000, 0).unwrap();
    v
}

#[test]
fn funding_accrual_gating_scenario() {
    // fundingInterval = 3600 s, on an asset no operation has touched.
    // The first call at t=0 starts accrual with lastFundingTime = 0 and
    // no rate change; a second call at t=1800 is the no-op outcome; a
    // third at t=3601 computes intervals = 1 and applies one interval's
    // rate, snapping the accrual time to the boundary.
    let mut v = setup();
    v.set_funding_rate(AUTHORITY, 3600, 600, 600).unwrap();

    let outcome = v.update_cumulative_funding_rate(ASSET_B, 0).unwrap();
    assert_eq!(outcome, FundingOutcome::Initialized);
    let st = v.get_token(ASSET_B).unwrap();
    assert_eq!(st.last_funding_time, 0);
    assert_eq!(st.cumulative_funding_rate, 0);

    let outcome = v.update_cumulative_funding_rate(ASSET_B, 1800).unwrap();
    assert_eq!(outcome, FundingOutcome::NotDue);
    let st = v.get_token(ASSET_B).unwrap();
    assert_eq!(st.last_funding_time, 0);
    assert_eq!(st.cumulative_funding_rate, 0);

    let outcome = v.update_cumulative_funding_rate(ASSET_B, 3601).unwrap();
    assert_eq!(outcome, FundingOutcome::Accrued { funding_rate: 0 });
    assert_eq!(v.get_token(ASSET_B).unwrap().last_funding_time, 3600);

    // The same third call on a funded asset applies a nonzero rate:
    // intervals = 1; rate = 600 * reserved / pool.
    v.set_fees(AUTHORITY, 50, 20, 30, 30, 4, 0, 0, 0, false).unwrap();
    let price = flat(1_000_000);
    v.increase_position(7, ASSET_A, ASSET_A, 100_000, true, 20_000, 1_020_000, 0, price, price)
        .unwrap();
    let outcome = v.update_cumulative_funding_rate(ASSET_A, 3601).unwrap();
    // rate = 600 * 100_000 / 1_020_000 = 58.
    assert_eq!(outcome, FundingOutcome::Accrued { funding_rate: 58 });
    let st = v.get_token(ASSET_A).unwrap();
    assert_eq!(st.cumulative_funding_rate, 58);
    assert_eq!(st.last_funding_time, 3600);
}

#[test]
fn funding_index_is_monotone_across_calls() {
    let mut v = setup();
    v.set_funding_rate(AUTHORITY, 3600, 600, 600).unwrap();
    v.set_fees(AUTHORITY, 50, 20, 30, 30, 4, 0, 0, 0, false).unwrap();
    let price = flat(1_000_000);
    v.increase_position(7, ASSET_A, ASSET_A, 100_000, true, 20_000, 1_020_000, 0, price, price)
        .unwrap();
    let times: [u64; 6] = [0, 100, 3600, 3800, 7300, 7300];
    let mut last_cum: u128 = 0;
    for now in times {
        v.update_cumulative_funding_rate(ASSET_A, now).unwrap();
        let st = v.get_token(ASSET_A).unwrap();
        assert!(st.cumulative_funding_rate >= last_cum);
        last_cum = st.cumulative_funding_rate;
    }
}

#[test]
fn funding_is_idempotent_within_an_interval() {
    let mut v = setup();
    v.set_funding_rate(AUTHORITY, 3600, 600, 600).unwrap();
    // The deposit in `setup` started accrual at t = 0; the call at
    // t = 5000 accrues one interval. A second call 10 s later, inside
    // the same window, must leave the index and timestamp unchanged.
    v.update_cumulative_funding_rate(ASSET_A, 5000).unwrap();
    let first = v.get_token(ASSET_A).unwrap();
    let outcome = v.update_cumulative_funding_rate(ASSET_A, 5010).unwrap();
    assert_eq!(outcome, FundingOutcome::NotDue);
    let second = v.get_token(ASSET_A).unwrap();
    assert_eq!(first.cumulative_funding_rate, second.cumulative_funding_rate);
    assert_eq!(first.last_funding_time, second.last_funding_time);
}

#[test]
fn get_next_funding_rate_is_zero_before_due() {
    let mut v = setup();
    v.set_funding_rate(AUTHORITY, 3600, 600, 600).unwrap();
    v.set_fees(AUTHORITY, 50, 20, 30, 30, 4, 0, 0, 0, false).unwrap();
    // The deposited asset started accruing at t = 0; an untouched asset
    // has not.
    assert!(v.get_token(ASSET_A).unwrap().funding_accruing);
    let st = v.get_token(ASSET_B).unwrap();
    assert_eq!(st.cumulative_funding_rate, 0);
    assert!(!st.funding_accruing);
    // Pending-rate projection: zero inside the interval, the accrual
    // formula once it has elapsed.
    let price = flat(1_000_000);
    v.increase_position(7, ASSET_A, ASSET_A, 100_000, true, 20_000, 1_020_000, 0, price, price)
        .unwrap();
    let cfg = v.get_config();
    let st = v.get_token(ASSET_A).unwrap();
    assert_eq!(vault::funding::get_next_funding_rate(&cfg, st, 1800).unwrap(), 0);
    assert_eq!(vault::funding::get_next_funding_rate(&cfg, st, 3600).unwrap(), 58);
}

#[test]
fn mint_redeem_round_trip_never_gains() {
    // Mint against 1_000_000 units at the price-precision quote (30 bps
    // mint/burn fee), then immediately redeem the whole minted amount:
    // the output must not exceed the deposit.
    let mut v = setup();
    let price = flat(PRICE_PRECISION);
    let minted = v.buy_usdg(MANAGER, ASSET_A, 1_000_000, 2_000_000, 0, price).unwrap();
    // afterFee = 1_000_000 * 9970 / 10000 = 997_000; at this quote the
    // minted stable equals the post-fee deposit.
    assert_eq!(minted, 997_000);
    let payout = v.sell_usdg(MANAGER, ASSET_A, minted, 0, price).unwrap();
    // The burn fee applies on the way out: 997_000 * 9970 / 10000.
    assert_eq!(payout, 994_009);
    assert!(payout <= 1_000_000);
}

#[test]
fn mint_respects_the_issuance_cap() {
    let mut v = setup();
    // Cap asset A's backed issuance below what the mint would record.
    v.set_token_config(AUTHORITY, ASSET_A, 6, 1000, 0, 500_000, false, false).unwrap();
    let price = flat(PRICE_PRECISION);
    let err = v.buy_usdg(MANAGER, ASSET_A, 1_000_000, 2_000_000, 0, price).unwrap_err();
    assert_eq!(err, ContractError::InvalidAmount);
}

#[test]
fn manager_mode_gates_minting() {
    let mut v = setup();
    v.set_in_manager_mode(AUTHORITY, true).unwrap();
    let price = flat(PRICE_PRECISION);
    let err = v.buy_usdg(MANAGER, ASSET_A, 1_000_000, 2_000_000, 0, price).unwrap_err();
    assert_eq!(err, ContractError::Unauthorized);
    v.set_manager(AUTHORITY, MANAGER, true).unwrap();
    assert!(v.query_manager(MANAGER));
    v.buy_usdg(MANAGER, ASSET_A, 1_000_000, 2_000_000, 0, price).unwrap();
}

#[test]
fn swap_charges_fee_on_the_outbound_leg() {
    let mut v = setup();
    v.direct_pool_deposit(ASSET_B, 1_000_000, 1_000_000, 0).unwrap();
    // Both legs quoted 1:1 at the precision price; 30 bps swap fee.
    let price = flat(PRICE_PRECISION);
    let out = v.swap(ASSET_A, ASSET_B, 100_000, 1_100_000, 0, price, price).unwrap();
    assert_eq!(out, 99_700);
    let a = v.get_token(ASSET_A).unwrap();
    let b = v.get_token(ASSET_B).unwrap();
    assert_eq!(a.pool_amount, 1_100_000);
    assert_eq!(b.pool_amount, 900_000);
    assert_eq!(b.fee_reserve, 300);
    assert!(a.pool_amount >= a.reserved_amount);
    assert!(b.pool_amount >= b.reserved_amount);
}

#[test]
fn swap_requires_distinct_whitelisted_assets() {
    let mut v = setup();
    let price = flat(PRICE_PRECISION);
    let err = v.swap(ASSET_A, ASSET_A, 100_000, 1_100_000, 0, price, price).unwrap_err();
    assert_eq!(err, ContractError::InvalidAsset { asset: ASSET_A });
    let err = v.swap(ASSET_A, 999, 100_000, 1_100_000, 0, price, price).unwrap_err();
    assert_eq!(err, ContractError::InvalidAsset { asset: 999 });
}

#[test]
fn swap_disabled_is_a_feature_error() {
    let mut v = setup();
    v.set_is_swap_enabled(AUTHORITY, false).unwrap();
    let price = flat(PRICE_PRECISION);
    let err = v.swap(ASSET_A, ASSET_B, 100_000, 1_100_000, 0, price, price).unwrap_err();
    assert_eq!(err, ContractError::DisabledFeature);
}

#[test]
fn swap_respects_the_outbound_buffer() {
    let mut v = setup();
    v.direct_pool_deposit(ASSET_B, 1_000_000, 1_000_000, 0).unwrap();
    v.set_buffer_amount(AUTHORITY, ASSET_B, 950_000).unwrap();
    let price = flat(PRICE_PRECISION);
    let err = v.swap(ASSET_A, ASSET_B, 100_000, 1_100_000, 0, price, price).unwrap_err();
    assert_eq!(err, ContractError::InsufficientReserves { asset: ASSET_B });
}

#[test]
fn deposit_needs_custody_confirmation() {
    let mut v = setup();
    // Custody reports less than the pool would record: nothing commits.
    let err = v.direct_pool_deposit(ASSET_A, 500_000, 1_400_000, 0).unwrap_err();
    assert_eq!(err, ContractError::BalanceMismatch { asset: ASSET_A });
    assert_eq!(v.get_token(ASSET_A).unwrap().pool_amount, 1_000_000);
}

#[test]
fn overflowing_arithmetic_fails_loudly() {
    let mut v = setup();
    let price = PricePair { min: 2, max: 3 };
    let err = v.buy_usdg(MANAGER, ASSET_A, u128::MAX, u128::MAX, 0, price).unwrap_err();
    assert_eq!(err, ContractError::ArithmeticFailure);
}

#[test]
fn zero_amounts_are_rejected() {
    let mut v = setup();
    let price = flat(PRICE_PRECISION);
    assert_eq!(
        v.buy_usdg(MANAGER, ASSET_A, 0, 2_000_000, 0, price).unwrap_err(),
        ContractError::InvalidAmount
    );
    assert_eq!(
        v.sell_usdg(MANAGER, ASSET_A, 0, 0, price).unwrap_err(),
        ContractError::InvalidAmount
    );
    assert_eq!(
        v.direct_pool_deposit(ASSET_A, 0, 2_000_000, 0).unwrap_err(),
        ContractError::InvalidAmount
    );
}

#[test]
fn withdraw_fees_drains_the_reserve() {
    let mut v = setup();
    let price = flat(PRICE_PRECISION);
    v.buy_usdg(MANAGER, ASSET_A, 1_000_000, 2_000_000, 0, price).unwrap();
    let st = v.get_token(ASSET_A).unwrap();
    assert_eq!(st.fee_reserve, 3_000);
    assert_eq!(v.withdraw_fees(AUTHORITY, ASSET_A).unwrap(), 3_000);
    assert_eq!(v.get_token(ASSET_A).unwrap().fee_reserve, 0);
    // Draining an empty reserve is rejected.
    assert_eq!(v.withdraw_fees(AUTHORITY, ASSET_A).unwrap_err(), ContractError::InvalidAmount);
}

#[test]
fn dispatch_routes_operations() {
    let mut v = setup();
    let ctx = CallContext {
        caller: MANAGER,
        now: 0,
        price_a: flat(PRICE_PRECISION),
        price_b: flat(PRICE_PRECISION),
        custody_balance: 2_000_000,
    };
    let notes = vault::msg::execute(
        &mut v,
        VaultOp::BuyUsdg { asset: ASSET_A, token_amount: 1_000_000 },
        ctx,
    )
    .unwrap();
    assert_eq!(notes.len(), 1);
    match notes[0] {
        Notification::BuyUsdg { account, asset, token_amount, mint_amount } => {
            assert_eq!(account, MANAGER);
            assert_eq!(asset, ASSET_A);
            assert_eq!(token_amount, 1_000_000);
            assert_eq!(mint_amount, 997_000);
        },
        _ => panic!("unexpected notification"),
    }
    // A failing operation reports its error through the dispatcher too.
    let err = vault::msg::execute(
        &mut v,
        VaultOp::SetGov { authority: 8 },
        ctx,
    )
    .unwrap_err();
    assert_eq!(err, ContractError::Unauthorized);
}

#[test]
fn dispatch_decrease_pays_out_tokens() {
    let mut v = setup();
    v.set_fees(AUTHORITY, 50, 20, 30, 30, 4, 10, 0, 0, false).unwrap();
    let price = flat(1_000_000);
    v.increase_position(7, ASSET_A, ASSET_A, 100_000, true, 20_000, 1_020_000, 0, price, price)
        .unwrap();
    let ctx = CallContext {
        caller: 7,
        now: 0,
        price_a: price,
        price_b: price,
        custody_balance: 2_000_000,
    };
    let notes = vault::msg::execute(
        &mut v,
        VaultOp::DecreasePosition {
            account: 7,
            collateral_asset: ASSET_A,
            index_asset: ASSET_A,
            collateral_delta: 0,
            size_delta: 100_000,
            is_long: true,
        },
        ctx,
    )
    .unwrap();
    assert_eq!(notes.len(), 1);
    match notes[0] {
        Notification::DecreasePosition { usd_out_after_fee, payout_tokens, .. } => {
            // Open fee 100 came off the deposit; the close fee of 100
            // comes off the flushed 19_900, and the payout converts the
            // after-fee USD at the max price.
            assert_eq!(usd_out_after_fee, 19_800);
            assert_eq!(payout_tokens, 19_800);
        },
        _ => panic!("unexpected notification"),
    }
}
