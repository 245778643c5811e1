use vstd::prelude::*;
use crate::strategy::Allocation;
use crate::types::{copy_addresses, Address};

verus! {

/// An action that the guardians decide on together.
#[derive(Clone, Copy, Debug, PartialEq, Eq, Structural)]
pub enum ActionType {
    SetPaused(bool),
    AddStrategy(Address),
    Rebalance,
}

/// A proposed action and the guardians who have approved it so far.
#[derive(Clone, Debug, PartialEq, Eq)]
pub struct Proposal {
    pub id: u64,
    pub proposer: Address,
    pub action: ActionType,
    pub approvals: Vec<Address>,
    pub executed: bool,
}

/// A proposal as a mathematical value.
pub struct ProposalView {
    pub id: u64,
    pub proposer: Address,
    pub action: ActionType,
    pub approvals: Seq<Address>,
    pub executed: bool,
}

impl View for Proposal {
    type V = ProposalView;

    open spec fn view(&self) -> ProposalView {
        ProposalView {
            id: self.id,
            proposer: self.proposer,
            action: self.action,
            approvals: self.approvals@,
            executed: self.executed,
        }
    }
}

impl Proposal {
    /// A copy of this proposal, field for field.
    pub fn copy(&self) -> (r: Proposal)
        ensures
            r@ == self@,
    {
        Proposal {
            id: self.id,
            proposer: self.proposer,
            action: self.action,
            approvals: copy_addresses(&self.approvals),
            executed: self.executed,
        }
    }
}

/// What came of a governance step, for the host to carry out or announce.
#[derive(Clone, Debug, PartialEq, Eq)]
pub enum Outcome {
    /// The proposal still lacks approvals; nothing was executed.
    Pending,
    /// The pause flag now holds this value.
    PausedChanged(bool),
    /// This strategy was registered.
    StrategyAdded(Address),
    /// The strategies must now be brought to these targets.
    Rebalance(Vec<Allocation>),
}

/// An outcome as a mathematical value.
pub enum OutcomeView {
    Pending,
    PausedChanged(bool),
    StrategyAdded(Address),
    Rebalance(Seq<Allocation>),
}

impl View for Outcome {
    type V = OutcomeView;

    open spec fn view(&self) -> OutcomeView {
        match self {
            Outcome::Pending => OutcomeView::Pending,
            Outcome::PausedChanged(b) => OutcomeView::PausedChanged(*b),
            Outcome::StrategyAdded(s) => OutcomeView::StrategyAdded(*s),
            Outcome::Rebalance(v) => OutcomeView::Rebalance(v@),
        }
    }
}

} // verus!
