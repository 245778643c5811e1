use vstd::prelude::*;

verus! {

/// The ceilings that deposits and withdrawals are held to, and how old the
/// oracle's data may grow before rebalancing stops.
#[derive(Clone, Copy, Debug, PartialEq, Eq, Structural)]
pub struct Caps {
    /// Most shares one user may hold after a deposit.
    pub max_deposit_per_user: i128,
    /// Most assets the pool may hold after a deposit.
    pub max_total_assets: i128,
    /// Most assets one withdrawal may pay out.
    pub max_withdraw_per_tx: i128,
    /// Most seconds since the last oracle update at which rebalancing is allowed.
    pub max_staleness: u64,
}

/// The staleness bound that a new vault starts with, in seconds.
pub const DEFAULT_MAX_STALENESS: u64 = 3600;

impl Caps {
    /// No deposit or withdrawal ceiling, and the default staleness bound.
    pub open spec fn spec_unbounded() -> Caps {
        Caps {
            max_deposit_per_user: i128::MAX,
            max_total_assets: i128::MAX,
            max_withdraw_per_tx: i128::MAX,
            max_staleness: DEFAULT_MAX_STALENESS,
        }
    }

    pub fn unbounded() -> (r: Caps)
        ensures
            r == Caps::spec_unbounded(),
    {
        Caps {
            max_deposit_per_user: i128::MAX,
            max_total_assets: i128::MAX,
            max_withdraw_per_tx: i128::MAX,
            max_staleness: DEFAULT_MAX_STALENESS,
        }
    }
}

/// Which deposit ceiling a deposit would break.
#[derive(Clone, Copy, Debug, PartialEq, Eq, Structural)]
pub enum CapBreach {
    PerUser,
    Global,
}

/// The deposit ceiling broken by a deposit that leaves the user with
/// `new_user_balance` shares and the pool with `new_total_assets`; the
/// per-user ceiling is checked first.
pub open spec fn deposit_breach(caps: Caps, new_user_balance: int, new_total_assets: int) -> Option<CapBreach> {
    if new_user_balance > caps.max_deposit_per_user {
        Some(CapBreach::PerUser)
    } else if new_total_assets > caps.max_total_assets {
        Some(CapBreach::Global)
    } else {
        None
    }
}

/// Checks a deposit's outcome against the deposit ceilings.
pub fn check_deposit_caps(caps: &Caps, new_user_balance: i128, new_total_assets: i128) -> (r: Option<CapBreach>)
    ensures
        r == deposit_breach(*caps, new_user_balance as int, new_total_assets as int),
{
    if new_user_balance > caps.max_deposit_per_user {
        Some(CapBreach::PerUser)
    } else if new_total_assets > caps.max_total_assets {
        Some(CapBreach::Global)
    } else {
        None
    }
}

} // verus!
