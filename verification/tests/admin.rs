//! Registry and configuration administration: authority gating, weight
//! bookkeeping, parameter caps, and read-only projections.

use vault::{ContractError, PricePair, QueryBankMsg, Vault};

const AUTHORITY: u64 = 1;

#[test]
fn initialization_validates_caps() {
    assert!(Vault::new(AUTHORITY, 2, 3, 4, 99, 0, 600, 600).is_ok());
    // The fixed liquidation fee and the funding factors are capped.
    assert_eq!(
        Vault::new(AUTHORITY, 2, 3, 4, 99, 101, 600, 600).unwrap_err(),
        ContractError::InvalidAmount
    );
    assert_eq!(
        Vault::new(AUTHORITY, 2, 3, 4, 99, 0, 10_001, 600).unwrap_err(),
        ContractError::InvalidAmount
    );
}

#[test]
fn starting_configuration_matches_defaults() {
    let v = Vault::new(AUTHORITY, 2, 3, 4, 99, 7, 600, 500).unwrap();
    let cfg = v.get_config();
    assert!(cfg.is_swap_enabled);
    assert!(cfg.is_leverage_enabled);
    assert!(!cfg.in_manager_mode);
    assert!(!cfg.in_private_liquidation_mode);
    assert_eq!(cfg.authority, AUTHORITY);
    assert_eq!(cfg.max_leverage, 500_000);
    assert_eq!(cfg.tax_basis_points, 50);
    assert_eq!(cfg.stable_tax_basis_points, 20);
    assert_eq!(cfg.mint_burn_fee_basis_points, 30);
    assert_eq!(cfg.swap_fee_basis_points, 30);
    assert_eq!(cfg.stable_swap_fee_basis_points, 4);
    assert_eq!(cfg.margin_fee_basis_points, 10);
    assert_eq!(cfg.funding_interval, 28_800);
    assert_eq!(cfg.liquidation_fee_usd, 7);
    assert_eq!(cfg.funding_rate_factor, 600);
    assert_eq!(cfg.stable_funding_rate_factor, 500);
}

#[test]
fn only_the_authority_configures() {
    let mut v = Vault::new(AUTHORITY, 2, 3, 4, 99, 0, 600, 600).unwrap();
    assert_eq!(
        v.set_fees(42, 50, 20, 30, 30, 4, 10, 0, 0, false).unwrap_err(),
        ContractError::Unauthorized
    );
    assert_eq!(
        v.set_token_config(42, 11, 6, 1000, 0, 0, false, false).unwrap_err(),
        ContractError::Unauthorized
    );
    assert_eq!(v.set_gov(42, 42).unwrap_err(), ContractError::Unauthorized);
    // Handing over the authority moves the permission with it.
    v.set_gov(AUTHORITY, 42).unwrap();
    assert_eq!(v.get_config().authority, 42);
    v.set_fees(42, 50, 20, 30, 30, 4, 10, 0, 0, false).unwrap();
    assert_eq!(
        v.set_fees(AUTHORITY, 50, 20, 30, 30, 4, 10, 0, 0, false).unwrap_err(),
        ContractError::Unauthorized
    );
}

#[test]
fn fee_schedule_entries_are_capped() {
    let mut v = Vault::new(AUTHORITY, 2, 3, 4, 99, 0, 600, 600).unwrap();
    assert_eq!(
        v.set_fees(AUTHORITY, 501, 20, 30, 30, 4, 10, 0, 0, false).unwrap_err(),
        ContractError::InvalidAmount
    );
    assert_eq!(
        v.set_fees(AUTHORITY, 50, 20, 30, 30, 4, 10, 101, 0, false).unwrap_err(),
        ContractError::InvalidAmount
    );
    assert_eq!(
        v.set_funding_rate(AUTHORITY, 3599, 600, 600).unwrap_err(),
        ContractError::InvalidAmount
    );
    assert_eq!(
        v.set_max_leverage(AUTHORITY, 9_999).unwrap_err(),
        ContractError::InvalidAmount
    );
}

#[test]
fn token_registry_keeps_weight_totals() {
    let mut v = Vault::new(AUTHORITY, 2, 3, 4, 99, 0, 600, 600).unwrap();
    v.set_token_config(AUTHORITY, 11, 6, 1000, 0, 0, false, false).unwrap();
    v.set_token_config(AUTHORITY, 12, 8, 2000, 0, 0, true, false).unwrap();
    assert_eq!(v.get_whitelisted_token_count(), 2);
    assert_eq!(v.get_total_token_weights(), 3000);
    // Reconfiguring replaces the old weight rather than adding to it.
    v.set_token_config(AUTHORITY, 11, 6, 1500, 0, 0, false, false).unwrap();
    assert_eq!(v.get_whitelisted_token_count(), 2);
    assert_eq!(v.get_total_token_weights(), 3500);
    let mut ids = v.all_whitelisted_tokens();
    ids.sort();
    assert_eq!(ids, vec![11, 12]);
    // Clearing gives the weight share back.
    v.clear_token_config(AUTHORITY, 11).unwrap();
    assert_eq!(v.get_whitelisted_token_count(), 1);
    assert_eq!(v.get_total_token_weights(), 2000);
    assert!(!v.check_whitelisted_token(11));
    assert_eq!(
        v.clear_token_config(AUTHORITY, 11).unwrap_err(),
        ContractError::InvalidAsset { asset: 11 }
    );
}

#[test]
fn token_decimals_are_bounded() {
    let mut v = Vault::new(AUTHORITY, 2, 3, 4, 99, 0, 600, 600).unwrap();
    assert_eq!(
        v.set_token_config(AUTHORITY, 11, 19, 1000, 0, 0, false, false).unwrap_err(),
        ContractError::InvalidAmount
    );
}

#[test]
fn set_usdg_amount_overwrites_with_cap() {
    let mut v = Vault::new(AUTHORITY, 2, 3, 4, 99, 0, 600, 600).unwrap();
    v.set_token_config(AUTHORITY, 11, 6, 1000, 0, 900, false, false).unwrap();
    v.set_usdg_amount(AUTHORITY, 11, 800).unwrap();
    assert_eq!(v.get_token(11).unwrap().usdg_amount, 800);
    assert_eq!(v.get_usdg_supply(), 800);
    v.set_usdg_amount(AUTHORITY, 11, 300).unwrap();
    assert_eq!(v.get_token(11).unwrap().usdg_amount, 300);
    assert_eq!(v.get_usdg_supply(), 300);
    assert_eq!(
        v.set_usdg_amount(AUTHORITY, 11, 901).unwrap_err(),
        ContractError::InvalidAmount
    );
}

#[test]
fn position_projections() {
    let mut v = Vault::new(AUTHORITY, 2, 3, 4, 99, 0, 600, 600).unwrap();
    v.set_fees(AUTHORITY, 50, 20, 30, 30, 4, 0, 0, 0, false).unwrap();
    v.set_token_config(AUTHORITY, 11, 6, 1000, 0, 0, false, false).unwrap();
    v.direct_pool_deposit(11, 1_000_000, 1_000_000, 0).unwrap();
    // A never-opened position reads as all zeroes, and has no leverage.
    let p = v.get_position(7, 11, 11, true);
    assert_eq!(p.size, 0);
    assert_eq!(p.collateral, 0);
    assert_eq!(
        v.get_position_leverage(7, 11, 11, true).unwrap_err(),
        ContractError::InvalidAmount
    );
    let price = PricePair { min: 1_000_000, max: 1_000_000 };
    v.increase_position(7, 11, 11, 100_000, true, 20_000, 1_020_000, 0, price, price).unwrap();
    // 100_000 of notional over 20_000 collateral: 5x, in basis points.
    assert_eq!(v.get_position_leverage(7, 11, 11, true).unwrap(), 50_000);
    // reserved * 1_000_000 / pool.
    assert_eq!(v.get_utilisation(11).unwrap(), 100_000u128 * 1_000_000 / 1_020_000);
    assert_eq!(v.get_entry_funding_rate(11).unwrap(), 0);
}

#[test]
fn bank_query_messages_round_trip_their_fields() {
    let q = QueryBankMsg::GetMaxWager { asset: String::from("uusd") };
    match q {
        QueryBankMsg::GetMaxWager { asset } => assert_eq!(asset, "uusd"),
        QueryBankMsg::IsAssetWhitelisted { .. } => panic!("wrong variant"),
    }
    let q = QueryBankMsg::IsAssetWhitelisted { asset: String::from("uatom") };
    assert_eq!(q, QueryBankMsg::IsAssetWhitelisted { asset: String::from("uatom") });
}
