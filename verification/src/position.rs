//! A leveraged directional position and its composite key.

use vstd::prelude::*;

verus! {

/// Positions are keyed by who opened them, what collateralizes them, what
/// they track, and their direction — a typed key, not a byte concatenation.
#[derive(Clone, Copy, Debug, PartialEq, Eq, Structural)]
pub struct PositionKey {
    pub account: u64,
    pub collateral_asset: u64,
    pub index_asset: u64,
    pub is_long: bool,
}

#[derive(Clone, Copy, Debug, PartialEq, Eq, Structural)]
pub struct Position {
    /// USD notional of the exposure.
    pub size: u128,
    /// USD value backing it.
    pub collateral: u128,
    /// Blended entry price.
    pub average_price: u128,
    /// Snapshot of the collateral asset's cumulative funding index at the
    /// last touch.
    pub entry_funding_rate: u128,
    /// Asset units reserved in the pool against this position.
    pub reserve_amount: u128,
    /// Realized profit and loss over the position's lifetime.
    pub realised_pnl: i128,
    /// Timestamp of the last size increase (anti-wick lockout reference).
    pub last_increased_time: u64,
}

impl Position {
    /// A closed position is fully zeroed; an open one is collateralized at
    /// no more than 1x and carries its entry price.
    pub open spec fn inv(self) -> bool {
        &&& self.size == 0 ==> self.collateral == 0
        &&& self.collateral <= self.size
        &&& self.size > 0 ==> self.average_price > 0
    }

    /// The state of a position that was never opened, or was fully closed.
    pub fn empty() -> (r: Position)
        ensures
            r == (Position {
                size: 0,
                collateral: 0,
                average_price: 0,
                entry_funding_rate: 0,
                reserve_amount: 0,
                realised_pnl: 0,
                last_increased_time: 0,
            }),
            r.inv(),
    {
        Position {
            size: 0,
            collateral: 0,
            average_price: 0,
            entry_funding_rate: 0,
            reserve_amount: 0,
            realised_pnl: 0,
            last_increased_time: 0,
        }
    }

    pub open spec fn spec_empty() -> Position {
        Position {
            size: 0,
            collateral: 0,
            average_price: 0,
            entry_funding_rate: 0,
            reserve_amount: 0,
            realised_pnl: 0,
            last_increased_time: 0,
        }
    }
}

/// Build the composite key for a position lookup.
pub fn get_position_key(account: u64, collateral_asset: u64, index_asset: u64, is_long: bool) -> (r:
    PositionKey)
    ensures
        r == (PositionKey { account, collateral_asset, index_asset, is_long }),
{
    PositionKey { account, collateral_asset, index_asset, is_long }
}

} // verus!
