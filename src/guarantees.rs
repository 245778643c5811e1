//! Laws that hold of every vault state, stated over the operations' own
//! specifications.

use vstd::prelude::*;
use crate::governance::{ActionType, OutcomeView, ProposalView};
use crate::oracle::is_stale;
use crate::strategy::Allocation;
use crate::types::{Address, Error};
use crate::model::VaultView;

verus! {

/// A paused vault refuses every deposit and every withdrawal with
/// `ContractPaused`; a refused operation leaves the vault unchanged.
pub proof fn lemma_pause_blocks_deposit_and_withdraw(v: VaultView, user: Address, amount: int)
    requires
        v.paused,
    ensures
        v.deposit_spec(user, amount) == Err::<(int, VaultView), Error>(Error::ContractPaused),
        v.withdraw_spec(user, amount) == Err::<(int, VaultView), Error>(Error::ContractPaused),
{
}

/// A deposit that goes through leaves the depositor within the per-user
/// ceiling and the pool within the global one, and mints exactly the shares
/// it credits.
pub proof fn lemma_deposit_respects_caps(v: VaultView, user: Address, amount: int)
    requires
        v.deposit_spec(user, amount) is Ok,
    ensures
        ({
            let (minted, next) = v.deposit_spec(user, amount).unwrap();
            &&& next.balance_of(user) <= v.caps.max_deposit_per_user
            &&& next.total_assets <= v.caps.max_total_assets
            &&& next.balance_of(user) == v.balance_of(user) + minted
            &&& next.total_shares == v.total_shares + minted
        }),
{
}

/// The oracle cannot publish data stamped in the future or stamped no later
/// than its last update: such an update is refused with `InvalidTimestamp`.
pub proof fn lemma_oracle_timestamps_strictly_increase(
    v: VaultView,
    caller: Address,
    allocations: Seq<Allocation>,
    timestamp: u64,
    now: u64,
)
    requires
        v.config is Some,
        caller == v.config.unwrap().oracle,
        timestamp > now || timestamp <= v.last_update,
    ensures
        v.set_oracle_data_spec(caller, allocations, timestamp, now) == Err::<VaultView, Error>(
            Error::InvalidTimestamp,
        ),
{
}

/// Once more than the staleness bound has passed since the oracle's last
/// update, every rebalance is refused with `StaleOracleData`, whether the
/// admin, the oracle or governance asks; no targets are handed out.
pub proof fn lemma_stale_oracle_blocks_rebalance(v: VaultView, caller: Address, now: u64)
    requires
        v.config is Some,
        caller == v.config.unwrap().admin || caller == v.config.unwrap().oracle,
        is_stale(now, v.last_update, v.caps.max_staleness),
    ensures
        v.rebalance_spec(caller, now) == Err::<Seq<Allocation>, Error>(Error::StaleOracleData),
        v.action_spec(ActionType::Rebalance, now) == Err::<(OutcomeView, VaultView), Error>(
            Error::StaleOracleData,
        ),
{
}

/// A strategy is registered at most once: adding it again, directly or by
/// governance, is refused, and the registry keeps the one entry.
pub proof fn lemma_strategy_added_once(v: VaultView, caller: Address, strategy: Address)
    requires
        v.add_strategy_spec(caller, strategy) is Ok,
    ensures
        ({
            let next = v.add_strategy_spec(caller, strategy).unwrap();
            &&& next.strategies.len() == v.strategies.len() + 1
            &&& next.add_strategy_spec(caller, strategy) == Err::<VaultView, Error>(
                Error::AlreadyInitialized,
            )
            &&& next.action_spec(ActionType::AddStrategy(strategy), 0) == Err::<
                (OutcomeView, VaultView),
                Error,
            >(Error::AlreadyInitialized)
        }),
{
    let next = v.add_strategy_spec(caller, strategy).unwrap();
    assert(next.strategies[next.strategies.len() - 1] == strategy);
    assert(next.strategies.contains(strategy));
}

/// A guardian's approval counts once: a guardian who already approved a
/// pending proposal is refused with `AlreadyApproved`.
pub proof fn lemma_approval_counts_once(v: VaultView, caller: Address, id: u64, now: u64)
    requires
        v.config is Some,
        v.guardians.contains(caller),
        1 <= id <= v.proposals.len(),
        !v.proposals[id - 1].executed,
        v.proposals[id - 1].approvals.contains(caller),
    ensures
        v.approve_spec(caller, id, now) == Err::<(OutcomeView, VaultView), Error>(Error::AlreadyApproved),
{
}

/// An executed proposal is final: every further approval is refused with
/// `ProposalExecuted`.
pub proof fn lemma_executed_proposal_is_final(v: VaultView, caller: Address, id: u64, now: u64)
    requires
        v.config is Some,
        v.guardians.contains(caller),
        1 <= id <= v.proposals.len(),
        v.proposals[id - 1].executed,
    ensures
        v.approve_spec(caller, id, now) == Err::<(OutcomeView, VaultView), Error>(Error::ProposalExecuted),
{
}

/// The approval that brings a pending proposal to its threshold executes
/// it: the proposal is marked executed with the new approval recorded, and
/// a pause toggle takes effect in the same step.
pub proof fn lemma_threshold_approval_executes(v: VaultView, caller: Address, id: u64, now: u64)
    requires
        v.config is Some,
        v.guardians.contains(caller),
        1 <= id <= v.proposals.len(),
        !v.proposals[id - 1].executed,
        !v.proposals[id - 1].approvals.contains(caller),
        v.proposals[id - 1].approvals.len() + 1 >= v.threshold,
        v.proposals[id - 1].action is SetPaused,
    ensures
        ({
            let p = v.proposals[id - 1];
            let (outcome, next) = v.approve_spec(caller, id, now).unwrap();
            &&& v.approve_spec(caller, id, now) is Ok
            &&& next.proposals[id - 1] == (ProposalView {
                approvals: p.approvals.push(caller),
                executed: true,
                ..p
            })
            &&& next.paused == p.action->SetPaused_0
            &&& outcome == OutcomeView::PausedChanged(p.action->SetPaused_0)
        }),
{
}

} // verus!
