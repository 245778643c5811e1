//! The vault's state as a mathematical value, and what each operation does
//! to it: the result or refusal, and the state after.

use vstd::prelude::*;
use crate::caps::{deposit_breach, CapBreach, Caps, DEFAULT_MAX_STALENESS};
use crate::governance::{ActionType, OutcomeView, ProposalView};
use crate::oracle::{is_stale, timestamp_accepted};
use crate::shares::{assets_for, assets_overflow, shares_for, shares_overflow};
use crate::strategy::{running_sums_fit, sum_of, Allocation};
use crate::types::{Address, Error};

verus! {

/// The roles and the fee that a vault is set up with.
#[derive(Clone, Copy, Debug, PartialEq, Eq, Structural)]
pub struct VaultConfig {
    pub admin: Address,
    pub asset: Address,
    pub oracle: Address,
    pub treasury: Address,
    /// Fee in basis points of an amount.
    pub fee_bps: u32,
}

/// The whole state of a vault as a mathematical value.
pub struct VaultView {
    /// Roles and fee; `None` until the vault is initialized.
    pub config: Option<VaultConfig>,
    pub total_assets: int,
    pub total_shares: int,
    /// Shares per user; a user without an entry holds none.
    pub balances: Map<Address, int>,
    /// Registered strategies, in the order they were added.
    pub strategies: Seq<Address>,
    pub caps: Caps,
    /// Timestamp of the oracle's last accepted update; zero before the first.
    pub last_update: u64,
    /// The oracle's latest targets; `None` before its first update.
    pub allocations: Option<Seq<Allocation>>,
    pub guardians: Seq<Address>,
    pub threshold: u32,
    /// Proposal `id` sits at index `id - 1`.
    pub proposals: Seq<ProposalView>,
    pub paused: bool,
}

impl VaultView {
    /// The state of a vault that has not been initialized.
    pub open spec fn empty() -> VaultView {
        VaultView {
            config: None,
            total_assets: 0,
            total_shares: 0,
            balances: Map::empty(),
            strategies: Seq::empty(),
            caps: Caps::spec_unbounded(),
            last_update: 0,
            allocations: None,
            guardians: Seq::empty(),
            threshold: 1,
            proposals: Seq::empty(),
            paused: false,
        }
    }

    /// Shares held by `user`.
    pub open spec fn balance_of(self, user: Address) -> int {
        if self.balances.contains_key(user) {
            self.balances[user]
        } else {
            0
        }
    }

    /// The fee in basis points; zero before initialization.
    pub open spec fn fee_bps(self) -> u32 {
        match self.config {
            Some(c) => c.fee_bps,
            None => 0,
        }
    }

    /// Totals and balances are never negative, strategies are registered at
    /// most once, and proposals are numbered from one in order.
    pub open spec fn wf(self) -> bool {
        &&& 0 <= self.total_assets <= i128::MAX
        &&& 0 <= self.total_shares <= i128::MAX
        &&& forall|a: Address|
            #[trigger] self.balances.contains_key(a) ==> 0 <= self.balances[a] <= i128::MAX
        &&& self.strategies.no_duplicates()
        &&& forall|i: int| 0 <= i < self.proposals.len() ==> #[trigger] self.proposals[i].id == i + 1
    }

    /// The shares that a deposit of `amount` by `from` mints and the state
    /// after it, or why the deposit is refused.
    pub open spec fn deposit_spec(self, from: Address, amount: int) -> Result<(int, VaultView), Error> {
        let ta = self.total_assets;
        let ts = self.total_shares;
        let minted = shares_for(ta, ts, amount);
        let new_balance = self.balance_of(from) + minted;
        if self.paused {
            Err(Error::ContractPaused)
        } else if amount <= 0 {
            Err(Error::NegativeAmount)
        } else if self.config is None {
            Err(Error::NotInitialized)
        } else if shares_overflow(ta, ts, amount) || new_balance > i128::MAX || ta + amount
            > i128::MAX || ts + minted > i128::MAX {
            Err(Error::ArithmeticOverflow)
        } else if deposit_breach(self.caps, new_balance, ta + amount) is Some {
            Err(Error::DepositCapExceeded)
        } else {
            Ok(
                (
                    minted,
                    VaultView {
                        balances: self.balances.insert(from, new_balance),
                        total_assets: ta + amount,
                        total_shares: ts + minted,
                        ..self
                    },
                ),
            )
        }
    }

    /// The ceiling that a deposit refused with `DepositCapExceeded` breaks.
    pub open spec fn deposit_breach_spec(self, from: Address, amount: int) -> Option<CapBreach> {
        if self.deposit_spec(from, amount) == Err::<(int, VaultView), Error>(
            Error::DepositCapExceeded,
        ) {
            deposit_breach(
                self.caps,
                self.balance_of(from) + shares_for(self.total_assets, self.total_shares, amount),
                self.total_assets + amount,
            )
        } else {
            None
        }
    }

    /// The assets that redeeming `shares` of `from` pays out and the state
    /// after it, or why the withdrawal is refused.
    pub open spec fn withdraw_spec(self, from: Address, shares: int) -> Result<(int, VaultView), Error> {
        let ta = self.total_assets;
        let ts = self.total_shares;
        let assets = assets_for(ta, ts, shares);
        if self.paused {
            Err(Error::ContractPaused)
        } else if shares <= 0 {
            Err(Error::NegativeAmount)
        } else if self.config is None {
            Err(Error::NotInitialized)
        } else if shares > self.balance_of(from) || shares > ts {
            Err(Error::InsufficientShares)
        } else if assets_overflow(ta, ts, shares) {
            Err(Error::ArithmeticOverflow)
        } else if assets > self.caps.max_withdraw_per_tx {
            Err(Error::WithdrawalCapExceeded)
        } else {
            Ok(
                (
                    assets,
                    VaultView {
                        balances: self.balances.insert(from, self.balance_of(from) - shares),
                        total_assets: ta - assets,
                        total_shares: ts - shares,
                        ..self
                    },
                ),
            )
        }
    }

    /// Why `caller` may not act as the admin, if it may not.
    pub open spec fn admin_error(self, caller: Address) -> Option<Error> {
        match self.config {
            None => Some(Error::NotInitialized),
            Some(c) => if c.admin == caller {
                None
            } else {
                Some(Error::Unauthorized)
            },
        }
    }

    /// The registry with `strategy` appended, or why it cannot be.
    pub open spec fn add_strategy_spec(self, caller: Address, strategy: Address) -> Result<VaultView, Error> {
        if self.admin_error(caller) is Some {
            Err(self.admin_error(caller).unwrap())
        } else if self.strategies.contains(strategy) {
            Err(Error::AlreadyInitialized)
        } else {
            Ok(VaultView { strategies: self.strategies.push(strategy), ..self })
        }
    }

    /// The targets that a rebalance at `now` works towards, or why it may
    /// not run: the oracle's data must be fresh and present.
    pub open spec fn rebalance_targets(self, now: u64) -> Result<Seq<Allocation>, Error> {
        if is_stale(now, self.last_update, self.caps.max_staleness) {
            Err(Error::StaleOracleData)
        } else {
            match self.allocations {
                Some(a) => Ok(a),
                None => Err(Error::NotInitialized),
            }
        }
    }

    /// The targets of a rebalance that `caller` asks for at `now`; the admin
    /// and the oracle may each ask.
    pub open spec fn rebalance_spec(self, caller: Address, now: u64) -> Result<Seq<Allocation>, Error> {
        match self.config {
            None => Err(Error::NotInitialized),
            Some(c) => if caller != c.admin && caller != c.oracle {
                Err(Error::Unauthorized)
            } else {
                self.rebalance_targets(now)
            },
        }
    }

    /// The yield that a harvest records, given the registered strategies'
    /// balances in registry order, and the state after it.
    pub open spec fn harvest_spec(self, caller: Address, balances: Seq<i128>) -> Result<(int, VaultView), Error> {
        let total = sum_of(balances);
        if self.admin_error(caller) is Some {
            Err(self.admin_error(caller).unwrap())
        } else if self.strategies.len() == 0 {
            Err(Error::NoStrategies)
        } else if !running_sums_fit(balances) || (total > 0 && self.total_assets + total > i128::MAX) {
            Err(Error::ArithmeticOverflow)
        } else if total > 0 {
            Ok((total, VaultView { total_assets: self.total_assets + total, ..self }))
        } else {
            Ok((total, self))
        }
    }

    /// The state after the oracle publishes `allocations` stamped `timestamp`
    /// at `now`, or why the update is refused.
    pub open spec fn set_oracle_data_spec(
        self,
        caller: Address,
        allocations: Seq<Allocation>,
        timestamp: u64,
        now: u64,
    ) -> Result<VaultView, Error> {
        match self.config {
            None => Err(Error::NotInitialized),
            Some(c) => if caller != c.oracle {
                Err(Error::Unauthorized)
            } else if !timestamp_accepted(timestamp, now, self.last_update) {
                Err(Error::InvalidTimestamp)
            } else {
                Ok(VaultView { last_update: timestamp, allocations: Some(allocations), ..self })
            },
        }
    }

    /// What executing `action` at `now` yields and the state after it.
    pub open spec fn action_spec(self, action: ActionType, now: u64) -> Result<(OutcomeView, VaultView), Error> {
        match action {
            ActionType::SetPaused(b) => Ok((OutcomeView::PausedChanged(b), VaultView { paused: b, ..self })),
            ActionType::AddStrategy(s) => if self.strategies.contains(s) {
                Err(Error::AlreadyInitialized)
            } else {
                Ok((OutcomeView::StrategyAdded(s), VaultView { strategies: self.strategies.push(s), ..self }))
            },
            ActionType::Rebalance => match self.rebalance_targets(now) {
                Ok(a) => Ok((OutcomeView::Rebalance(a), self)),
                Err(e) => Err(e),
            },
        }
    }

    /// Why `caller` may not take part in governance, if it may not.
    pub open spec fn guardian_error(self, caller: Address) -> Option<Error> {
        if self.config is None {
            Some(Error::NotInitialized)
        } else if !self.guardians.contains(caller) {
            Some(Error::Unauthorized)
        } else {
            None
        }
    }

    /// The number, outcome and state after `caller` proposes `action` at
    /// `now`. The proposer's approval counts; with a threshold of one or
    /// less the action is executed at once.
    pub open spec fn propose_spec(self, caller: Address, action: ActionType, now: u64) -> Result<
        (u64, OutcomeView, VaultView),
        Error,
    > {
        let id = (self.proposals.len() + 1) as u64;
        let proposal = ProposalView {
            id,
            proposer: caller,
            action,
            approvals: seq![caller],
            executed: false,
        };
        if self.guardian_error(caller) is Some {
            Err(self.guardian_error(caller).unwrap())
        } else if self.proposals.len() + 1 > u64::MAX {
            Err(Error::ArithmeticOverflow)
        } else if self.threshold <= 1 {
            match self.action_spec(action, now) {
                Ok((outcome, next)) => Ok(
                    (
                        id,
                        outcome,
                        VaultView {
                            proposals: self.proposals.push(ProposalView { executed: true, ..proposal }),
                            ..next
                        },
                    ),
                ),
                Err(e) => Err(e),
            }
        } else {
            Ok((id, OutcomeView::Pending, VaultView { proposals: self.proposals.push(proposal), ..self }))
        }
    }

    /// The outcome and state after `caller` approves proposal `id` at `now`.
    /// Once the approvals reach the threshold the action is executed.
    pub open spec fn approve_spec(self, caller: Address, id: u64, now: u64) -> Result<(OutcomeView, VaultView), Error> {
        let p = self.proposals[id - 1];
        let approved = ProposalView { approvals: p.approvals.push(caller), ..p };
        if self.guardian_error(caller) is Some {
            Err(self.guardian_error(caller).unwrap())
        } else if !(1 <= id <= self.proposals.len()) {
            Err(Error::ProposalNotFound)
        } else if p.executed {
            Err(Error::ProposalExecuted)
        } else if p.approvals.contains(caller) {
            Err(Error::AlreadyApproved)
        } else if approved.approvals.len() >= self.threshold {
            match self.action_spec(p.action, now) {
                Ok((outcome, next)) => Ok(
                    (
                        outcome,
                        VaultView {
                            proposals: self.proposals.update(id - 1, ProposalView { executed: true, ..approved }),
                            ..next
                        },
                    ),
                ),
                Err(e) => Err(e),
            }
        } else {
            Ok((OutcomeView::Pending, VaultView { proposals: self.proposals.update(id - 1, approved), ..self }))
        }
    }

    /// The state after initialization, or why initialization is refused.
    pub open spec fn init_spec(
        self,
        config: VaultConfig,
        guardians: Seq<Address>,
        threshold: u32,
    ) -> Result<VaultView, Error> {
        if self.config is Some {
            Err(Error::AlreadyInitialized)
        } else {
            Ok(
                VaultView {
                    config: Some(config),
                    total_assets: 0,
                    total_shares: 0,
                    strategies: Seq::empty(),
                    caps: Caps { max_staleness: DEFAULT_MAX_STALENESS, ..self.caps },
                    guardians,
                    threshold,
                    ..self
                },
            )
        }
    }
}

} // verus!
