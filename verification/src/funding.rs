//! Funding-rate engine.
//!
//! Each asset carries a cumulative funding index and the timestamp of its
//! last accrual. `funding_step` is the mathematical transition; the
//! executable accrual matches it exactly or fails with `ArithmeticFailure`
//! and changes nothing.

use vstd::prelude::*;

use crate::asset::AssetState;
use crate::config::VaultConfig;
use crate::error::ContractError;

verus! {

/// What a funding accrual did. A call before the interval has elapsed is a
/// no-op outcome, never an error.
#[derive(Clone, Copy, Debug, PartialEq, Eq, Structural)]
pub enum FundingOutcome {
    /// First accrual ever: the asset moved out of the never-accrued state.
    Initialized,
    /// The funding interval has not elapsed since the last accrual.
    NotDue,
    /// The index grew by the returned rate.
    Accrued { funding_rate: u128 },
}

/// The configured rate factor that applies to this asset.
pub open spec fn spec_rate_factor(cfg: VaultConfig, st: AssetState) -> int {
    if st.is_stable {
        cfg.stable_funding_rate_factor as int
    } else {
        cfg.funding_rate_factor as int
    }
}

/// Whether a call at `now` performs an actual accrual.
pub open spec fn funding_due(cfg: VaultConfig, st: AssetState, now: u64) -> bool {
    st.funding_accruing && now >= st.last_funding_time + cfg.funding_interval
}

/// Whole funding intervals elapsed since the last accrual.
pub open spec fn spec_intervals(cfg: VaultConfig, st: AssetState, now: u64) -> int {
    (now - st.last_funding_time) as int / (cfg.funding_interval as int)
}

/// The rate added to the cumulative index by a due accrual.
pub open spec fn spec_next_funding_rate(cfg: VaultConfig, st: AssetState, now: u64) -> int {
    if st.pool_amount == 0 {
        0
    } else {
        spec_rate_factor(cfg, st) * st.reserved_amount * spec_intervals(cfg, st, now)
            / st.pool_amount as int
    }
}

/// The accrual timestamp recorded by a due accrual: `now` snapped down to
/// an interval boundary.
pub open spec fn spec_snapped_time(cfg: VaultConfig, now: u64) -> int {
    now as int / (cfg.funding_interval as int) * (cfg.funding_interval as int)
}

/// The funding transition: first call starts accrual at the supplied time
/// with no rate change; a call inside the interval changes nothing; a due
/// call adds the rate and snaps the timestamp to an interval boundary.
pub open spec fn funding_step(cfg: VaultConfig, st: AssetState, now: u64) -> AssetState {
    if !st.funding_accruing {
        AssetState { funding_accruing: true, last_funding_time: now, ..st }
    } else if now < st.last_funding_time + cfg.funding_interval {
        st
    } else {
        AssetState {
            cumulative_funding_rate: (st.cumulative_funding_rate + spec_next_funding_rate(
                cfg,
                st,
                now,
            )) as u128,
            last_funding_time: spec_snapped_time(cfg, now) as u64,
            ..st
        }
    }
}

/// The rate computation stays inside the fixed-point range.
pub open spec fn rate_product_fits(cfg: VaultConfig, st: AssetState, now: u64) -> bool {
    st.pool_amount == 0 || {
        let f = spec_rate_factor(cfg, st);
        let i = spec_intervals(cfg, st, now);
        &&& f * st.reserved_amount <= u128::MAX
        &&& f * st.reserved_amount * i <= u128::MAX
    }
}

/// The executable accrual succeeds exactly when these fixed-point bounds
/// hold (they can only fail on a due accrual).
pub open spec fn funding_fits(cfg: VaultConfig, st: AssetState, now: u64) -> bool {
    funding_due(cfg, st, now) ==> {
        &&& rate_product_fits(cfg, st, now)
        &&& st.cumulative_funding_rate + spec_next_funding_rate(cfg, st, now) <= u128::MAX
    }
}

/// Accrue funding for one asset at externally supplied time `now`.
pub fn accrue_funding(cfg: &VaultConfig, st: AssetState, now: u64) -> (r: Result<
    (AssetState, FundingOutcome),
    ContractError,
>)
    requires
        cfg.inv(),
    ensures
        r is Ok <==> funding_fits(*cfg, st, now),
        r is Err ==> r == Err::<(AssetState, FundingOutcome), ContractError>(
            ContractError::ArithmeticFailure,
        ),
        r matches Ok((st2, outcome)) ==> {
            &&& st2 == funding_step(*cfg, st, now)
            &&& outcome == (if !st.funding_accruing {
                FundingOutcome::Initialized
            } else if !funding_due(*cfg, st, now) {
                FundingOutcome::NotDue
            } else {
                (FundingOutcome::Accrued {
                    funding_rate: spec_next_funding_rate(*cfg, st, now) as u128,
                })
            })
        },
{
    if !st.funding_accruing {
        return Ok(
            (
                AssetState { funding_accruing: true, last_funding_time: now, ..st },
                FundingOutcome::Initialized,
            ),
        );
    }
    if now < st.last_funding_time || now - st.last_funding_time < cfg.funding_interval {
        return Ok((st, FundingOutcome::NotDue));
    }
    let intervals: u128 = ((now - st.last_funding_time) / cfg.funding_interval) as u128;
    proof {
        vstd::arithmetic::div_mod::lemma_fundamental_div_mod(
            now as int,
            cfg.funding_interval as int,
        );
        vstd::arithmetic::div_mod::lemma_remainder_lower(now as int, cfg.funding_interval as int);
        vstd::arithmetic::mul::lemma_mul_is_commutative(
            cfg.funding_interval as int,
            now as int / cfg.funding_interval as int,
        );
    }
    let snapped: u64 = now / cfg.funding_interval * cfg.funding_interval;
    let rate: u128 = if st.pool_amount == 0 {
        0u128
    } else {
        let factor: u128 = if st.is_stable {
            cfg.stable_funding_rate_factor
        } else {
            cfg.funding_rate_factor
        };
        let p1 = match factor.checked_mul(st.reserved_amount) {
            Some(v) => v,
            None => {
                return Err(ContractError::ArithmeticFailure);
            },
        };
        let p2 = match p1.checked_mul(intervals) {
            Some(v) => v,
            None => {
                return Err(ContractError::ArithmeticFailure);
            },
        };
        p2 / st.pool_amount
    };
    let cumulative = match st.cumulative_funding_rate.checked_add(rate) {
        Some(v) => v,
        None => {
            return Err(ContractError::ArithmeticFailure);
        },
    };
    Ok(
        (
            AssetState {
                cumulative_funding_rate: cumulative,
                last_funding_time: snapped,
                ..st
            },
            FundingOutcome::Accrued { funding_rate: rate },
        ),
    )
}

/// The funding rate the next due accrual would add right now; zero while
/// the interval has not elapsed or the pool is empty.
pub fn get_next_funding_rate(cfg: &VaultConfig, st: AssetState, now: u64) -> (r: Result<
    u128,
    ContractError,
>)
    requires
        cfg.inv(),
    ensures
        !funding_due(*cfg, st, now) ==> r == Ok::<u128, ContractError>(0u128),
        funding_due(*cfg, st, now) && rate_product_fits(*cfg, st, now) ==> r == Ok::<
            u128,
            ContractError,
        >(spec_next_funding_rate(*cfg, st, now) as u128),
        funding_due(*cfg, st, now) && !rate_product_fits(*cfg, st, now) ==> r == Err::<
            u128,
            ContractError,
        >(ContractError::ArithmeticFailure),
{
    if !st.funding_accruing || now < st.last_funding_time || now - st.last_funding_time
        < cfg.funding_interval {
        return Ok(0);
    }
    let intervals: u128 = ((now - st.last_funding_time) / cfg.funding_interval) as u128;
    if st.pool_amount == 0 {
        return Ok(0);
    }
    let factor: u128 = if st.is_stable {
        cfg.stable_funding_rate_factor
    } else {
        cfg.funding_rate_factor
    };
    let p1 = match factor.checked_mul(st.reserved_amount) {
        Some(v) => v,
        None => {
            return Err(ContractError::ArithmeticFailure);
        },
    };
    let p2 = match p1.checked_mul(intervals) {
        Some(v) => v,
        None => {
            return Err(ContractError::ArithmeticFailure);
        },
    };
    Ok(p2 / st.pool_amount)
}

/// Law: one funding step never decreases the cumulative index, and never
/// moves the accrual timestamp backwards past the supplied time.
pub proof fn lemma_funding_monotonic(cfg: VaultConfig, st: AssetState, now: u64)
    requires
        cfg.inv(),
        funding_fits(cfg, st, now),
    ensures
        funding_step(cfg, st, now).cumulative_funding_rate >= st.cumulative_funding_rate,
        st.funding_accruing && now >= st.last_funding_time ==> funding_step(
            cfg,
            st,
            now,
        ).last_funding_time >= st.last_funding_time,
{
    if funding_due(cfg, st, now) {
        if st.pool_amount != 0 {
            let f = spec_rate_factor(cfg, st);
            let i = spec_intervals(cfg, st, now);
            vstd::arithmetic::div_mod::lemma_div_pos_is_pos(
                (now - st.last_funding_time) as int,
                cfg.funding_interval as int,
            );
            vstd::arithmetic::mul::lemma_mul_nonnegative(f, st.reserved_amount as int);
            vstd::arithmetic::mul::lemma_mul_nonnegative(f * st.reserved_amount, i);
            vstd::arithmetic::div_mod::lemma_div_pos_is_pos(
                f * st.reserved_amount * i,
                st.pool_amount as int,
            );
        }
        lemma_snapped_time_bounds(cfg, st, now);
    }
}

/// The snapped accrual time lies between the previous accrual time and
/// `now` whenever an accrual is due.
proof fn lemma_snapped_time_bounds(cfg: VaultConfig, st: AssetState, now: u64)
    requires
        cfg.inv(),
        st.funding_accruing,
        now >= st.last_funding_time + cfg.funding_interval,
    ensures
        st.last_funding_time <= spec_snapped_time(cfg, now) <= now,
{
    let i = cfg.funding_interval as int;
    vstd::arithmetic::div_mod::lemma_fundamental_div_mod(now as int, i);
    vstd::arithmetic::div_mod::lemma_remainder_lower(now as int, i);
    vstd::arithmetic::div_mod::lemma_remainder_upper(now as int, i);
    vstd::arithmetic::mul::lemma_mul_is_commutative(i, now as int / i);
}

/// Law: a call inside the funding interval is a strict no-op.
pub proof fn lemma_funding_noop_when_not_due(cfg: VaultConfig, st: AssetState, now: u64)
    requires
        st.funding_accruing,
        now < st.last_funding_time + cfg.funding_interval,
    ensures
        funding_step(cfg, st, now) == st,
{
}

/// Law: after an effective accrual step (an initialization or a due
/// accrual), a second call in the same funding-interval window changes
/// nothing: the index and the accrual timestamp stay as the first call
/// left them.
pub proof fn lemma_funding_idempotent_within_interval(
    cfg: VaultConfig,
    st: AssetState,
    now1: u64,
    now2: u64,
)
    requires
        cfg.inv(),
        !st.funding_accruing || now1 >= st.last_funding_time + cfg.funding_interval,
        now1 <= now2,
        now1 as int / (cfg.funding_interval as int) == now2 as int / (cfg.funding_interval as int),
    ensures
        funding_step(cfg, funding_step(cfg, st, now1), now2) == funding_step(cfg, st, now1),
{
    let i = cfg.funding_interval as int;
    let st1 = funding_step(cfg, st, now1);
    vstd::arithmetic::div_mod::lemma_fundamental_div_mod(now1 as int, i);
    vstd::arithmetic::div_mod::lemma_remainder_lower(now1 as int, i);
    vstd::arithmetic::div_mod::lemma_remainder_upper(now1 as int, i);
    vstd::arithmetic::div_mod::lemma_fundamental_div_mod(now2 as int, i);
    vstd::arithmetic::div_mod::lemma_remainder_lower(now2 as int, i);
    vstd::arithmetic::div_mod::lemma_remainder_upper(now2 as int, i);
    vstd::arithmetic::mul::lemma_mul_is_commutative(i, now1 as int / i);
    vstd::arithmetic::mul::lemma_mul_is_commutative(i, now2 as int / i);
    if !st.funding_accruing {
        assert(st1.last_funding_time == now1);
        assert(now2 - now1 < i);
    } else {
        assert(st1.last_funding_time == spec_snapped_time(cfg, now1));
        assert(now2 < spec_snapped_time(cfg, now1) + i);
    }
    assert(funding_step(cfg, st1, now2) == st1);
}

/// The cumulative index an asset reaches after a whole sequence of accrual
/// calls at the given times.
pub open spec fn funding_steps(cfg: VaultConfig, st: AssetState, times: Seq<u64>) -> AssetState
    decreases times.len(),
{
    if times.len() == 0 {
        st
    } else {
        funding_steps(cfg, funding_step(cfg, st, times[0]), times.drop_first())
    }
}

/// Every accrual along the sequence stays within the fixed-point range.
pub open spec fn funding_steps_fit(cfg: VaultConfig, st: AssetState, times: Seq<u64>) -> bool
    decreases times.len(),
{
    if times.len() == 0 {
        true
    } else {
        funding_fits(cfg, st, times[0]) && funding_steps_fit(
            cfg,
            funding_step(cfg, st, times[0]),
            times.drop_first(),
        )
    }
}

/// Law: across any sequence of accrual calls, the cumulative funding index
/// never decreases.
pub proof fn lemma_funding_monotonic_over_sequence(
    cfg: VaultConfig,
    st: AssetState,
    times: Seq<u64>,
)
    requires
        cfg.inv(),
        funding_steps_fit(cfg, st, times),
    ensures
        funding_steps(cfg, st, times).cumulative_funding_rate >= st.cumulative_funding_rate,
    decreases times.len(),
{
    if times.len() > 0 {
        lemma_funding_monotonic(cfg, st, times[0]);
        lemma_funding_monotonic_over_sequence(
            cfg,
            funding_step(cfg, st, times[0]),
            times.drop_first(),
        );
    }
}

} // verus!
