use vstd::prelude::*;
use std::collections::HashMap;
use crate::caps::{check_deposit_caps, CapBreach, Caps, DEFAULT_MAX_STALENESS};
use crate::governance::{ActionType, Outcome, OutcomeView, Proposal};
use crate::model::{VaultConfig, VaultView};
use crate::oracle::{check_oracle_timestamp, oracle_is_fresh};
use crate::shares::{
    after_fee_result, amount_after_fee, assets_from_shares, lemma_redemption_within_pool,
    shares_for, shares_from_assets, to_assets_result, to_shares_result,
};
use crate::strategy::{total_of_balances, Allocation};
use crate::types::{contains_address, copy_addresses, Address, Error};

verus! {

broadcast use vstd::std_specs::hash::group_hash_axioms;

/// A vault: the pooled totals, every user's shares, the strategy registry,
/// the caps, the oracle's latest targets and the governance record.
#[derive(Clone, Debug)]
pub struct Vault {
    config: Option<VaultConfig>,
    total_assets: i128,
    total_shares: i128,
    balances: HashMap<u64, i128>,
    strategies: Vec<Address>,
    caps: Caps,
    last_update: u64,
    allocations: Option<Vec<Allocation>>,
    guardians: Vec<Address>,
    threshold: u32,
    proposals: Vec<Proposal>,
    paused: bool,
}

impl View for Vault {
    type V = VaultView;

    closed spec fn view(&self) -> VaultView {
        VaultView {
            config: self.config,
            total_assets: self.total_assets as int,
            total_shares: self.total_shares as int,
            balances: Map::new(
                |a: Address| self.balances@.contains_key(a.0),
                |a: Address| self.balances@[a.0] as int,
            ),
            strategies: self.strategies@,
            caps: self.caps,
            last_update: self.last_update,
            allocations: match self.allocations {
                Some(v) => Some(v@),
                None => None,
            },
            guardians: self.guardians@,
            threshold: self.threshold,
            proposals: self.proposals@.map_values(|p: Proposal| p@),
            paused: self.paused,
        }
    }
}

/// The vault's state apart from user balances, laid out for a host to store
/// between calls. Balances are stored per user and loaded on demand.
#[derive(Clone, Debug)]
pub struct VaultRecord {
    pub config: Option<VaultConfig>,
    pub total_assets: i128,
    pub total_shares: i128,
    pub strategies: Vec<Address>,
    pub caps: Caps,
    pub last_update: u64,
    pub allocations: Option<Vec<Allocation>>,
    pub guardians: Vec<Address>,
    pub threshold: u32,
    pub proposals: Vec<Proposal>,
    pub paused: bool,
}

impl VaultRecord {
    /// The vault that this record describes, with no balances loaded.
    pub open spec fn spec_vault(self) -> VaultView {
        VaultView {
            config: self.config,
            total_assets: self.total_assets as int,
            total_shares: self.total_shares as int,
            balances: Map::empty(),
            strategies: self.strategies@,
            caps: self.caps,
            last_update: self.last_update,
            allocations: match self.allocations {
                Some(v) => Some(v@),
                None => None,
            },
            guardians: self.guardians@,
            threshold: self.threshold,
            proposals: self.proposals@.map_values(|p: Proposal| p@),
            paused: self.paused,
        }
    }
}

/// Whether no address occurs twice in `list`.
fn has_no_duplicates(list: &Vec<Address>) -> (r: bool)
    ensures
        r == list@.no_duplicates(),
{
    let mut i: usize = 0;
    while i < list.len()
        invariant
            i <= list.len(),
            forall|a: int, b: int| 0 <= a < b < i ==> list@[a] != list@[b],
        decreases list.len() - i,
    {
        let mut j: usize = 0;
        while j < i
            invariant
                j <= i < list.len(),
                forall|k: int| 0 <= k < j ==> list@[k] != list@[i as int],
            decreases i - j,
        {
            if list[j] == list[i] {
                return false;
            }
            j += 1;
        }
        i += 1;
    }
    true
}

spec fn numbered_in_order_spec(list: Seq<Proposal>) -> bool {
    forall|i: int| 0 <= i < list.len() ==> #[trigger] list[i].id == i + 1
}

/// Whether proposal `i` of `list` is numbered `i + 1` throughout.
fn numbered_in_order(list: &Vec<Proposal>) -> (r: bool)
    ensures
        r == numbered_in_order_spec(list@),
{
    let mut i: usize = 0;
    while i < list.len()
        invariant
            i <= list.len(),
            forall|k: int| 0 <= k < i ==> #[trigger] list@[k].id == k + 1,
        decreases list.len() - i,
    {
        if list[i].id != i as u64 + 1 {
            return false;
        }
        i += 1;
    }
    true
}

/// A copy of `list`, proposal for proposal.
fn copy_proposals(list: &Vec<Proposal>) -> (r: Vec<Proposal>)
    ensures
        r@.map_values(|p: Proposal| p@) == list@.map_values(|p: Proposal| p@),
{
    let mut out: Vec<Proposal> = Vec::new();
    let mut i: usize = 0;
    while i < list.len()
        invariant
            i <= list.len(),
            out.len() == i,
            forall|k: int| 0 <= k < i ==> #[trigger] out@[k]@ == list@[k]@,
        decreases list.len() - i,
    {
        out.push(list[i].copy());
        i += 1;
    }
    assert(out@.map_values(|p: Proposal| p@) =~= list@.map_values(|p: Proposal| p@));
    out
}

/// A copy of `list`, element for element.
fn copy_allocations(list: &Vec<Allocation>) -> (r: Vec<Allocation>)
    ensures
        r@ == list@,
{
    let mut out: Vec<Allocation> = Vec::new();
    let mut i: usize = 0;
    while i < list.len()
        invariant
            i <= list.len(),
            out@ == list@.take(i as int),
        decreases list.len() - i,
    {
        out.push(list[i]);
        i += 1;
        assert(out@ =~= list@.take(i as int));
    }
    assert(list@.take(list.len() as int) =~= list@);
    out
}

impl Vault {
    pub open spec fn wf(&self) -> bool {
        self@.wf()
    }

    /// A vault that awaits initialization.
    pub fn new() -> (r: Vault)
        ensures
            r@ == VaultView::empty(),
            r.wf(),
    {
        let r = Vault {
            config: None,
            total_assets: 0,
            total_shares: 0,
            balances: HashMap::new(),
            strategies: Vec::new(),
            caps: Caps::unbounded(),
            last_update: 0,
            allocations: None,
            guardians: Vec::new(),
            threshold: 1,
            proposals: Vec::new(),
            paused: false,
        };
        assert(r@.balances =~= Map::empty());
        assert(r@.proposals =~= Seq::empty());
        r
    }

    /// The state to store, apart from user balances.
    pub fn to_record(&self) -> (r: VaultRecord)
        ensures
            r.spec_vault() == (VaultView { balances: Map::empty(), ..self@ }),
    {
        VaultRecord {
            config: self.config,
            total_assets: self.total_assets,
            total_shares: self.total_shares,
            strategies: copy_addresses(&self.strategies),
            caps: self.caps,
            last_update: self.last_update,
            allocations: match &self.allocations {
                Some(v) => Some(copy_allocations(v)),
                None => None,
            },
            guardians: copy_addresses(&self.guardians),
            threshold: self.threshold,
            proposals: copy_proposals(&self.proposals),
            paused: self.paused,
        }
    }

    /// The vault that a stored record describes, with no balances loaded;
    /// `None` for a record that no vault could have produced.
    pub fn from_record(record: VaultRecord) -> (r: Option<Vault>)
        ensures
            match r {
                Some(v) => v@ == record.spec_vault() && v.wf(),
                None => !record.spec_vault().wf(),
            },
    {
        if record.total_assets < 0 || record.total_shares < 0 || !has_no_duplicates(&record.strategies)
            || !numbered_in_order(&record.proposals) {
            proof {
                let rv = record.spec_vault();
                if !numbered_in_order_spec(record.proposals@) {
                    let i = choose|i: int|
                        0 <= i < record.proposals.len() && !(#[trigger] record.proposals@[i].id == i + 1);
                    assert(rv.proposals[i].id == record.proposals@[i].id);
                }
            }
            return None;
        }
        let v = Vault {
            config: record.config,
            total_assets: record.total_assets,
            total_shares: record.total_shares,
            balances: HashMap::new(),
            strategies: record.strategies,
            caps: record.caps,
            last_update: record.last_update,
            allocations: record.allocations,
            guardians: record.guardians,
            threshold: record.threshold,
            proposals: record.proposals,
            paused: record.paused,
        };
        assert(v@.balances =~= Map::empty());
        Some(v)
    }

    /// Stores the roles, the fee and the guardians; resets the totals and
    /// the registry. Refused once the vault is initialized.
    pub fn init(
        &mut self,
        admin: Address,
        asset: Address,
        oracle: Address,
        treasury: Address,
        fee_percentage: u32,
        guardians: Vec<Address>,
        threshold: u32,
    ) -> (r: Result<(), Error>)
        requires
            old(self).wf(),
        ensures
            final(self).wf(),
            match old(self)@.init_spec(
                VaultConfig { admin, asset, oracle, treasury, fee_bps: fee_percentage },
                guardians@,
                threshold,
            ) {
                Ok(next) => r == Ok::<(), Error>(()) && final(self)@ == next,
                Err(e) => r == Err::<(), Error>(e) && final(self)@ == old(self)@,
            },
    {
        if self.config.is_some() {
            return Err(Error::AlreadyInitialized);
        }
        self.config = Some(VaultConfig { admin, asset, oracle, treasury, fee_bps: fee_percentage });
        self.guardians = guardians;
        self.threshold = threshold;
        self.strategies = Vec::new();
        self.total_assets = 0;
        self.total_shares = 0;
        self.caps.max_staleness = DEFAULT_MAX_STALENESS;
        proof {
            let ghost c = VaultConfig { admin, asset, oracle, treasury, fee_bps: fee_percentage };
            assert(self@.strategies =~= Seq::<Address>::empty());
            assert(self@ == old(self)@.init_spec(c, guardians@, threshold).unwrap());
        }
        Ok(())
    }

    // ── Reading the state ────────────────────────────────────────────

    pub fn has_admin(&self) -> (r: bool)
        ensures
            r == self@.config is Some,
    {
        self.config.is_some()
    }

    pub fn read_admin(&self) -> (r: Result<Address, Error>)
        ensures
            r == (match self@.config {
                Some(c) => Ok(c.admin),
                None => Err(Error::NotInitialized),
            }),
    {
        match &self.config {
            Some(c) => Ok(c.admin),
            None => Err(Error::NotInitialized),
        }
    }

    pub fn get_oracle(&self) -> (r: Result<Address, Error>)
        ensures
            r == (match self@.config {
                Some(c) => Ok(c.oracle),
                None => Err(Error::NotInitialized),
            }),
    {
        match &self.config {
            Some(c) => Ok(c.oracle),
            None => Err(Error::NotInitialized),
        }
    }

    pub fn get_asset(&self) -> (r: Result<Address, Error>)
        ensures
            r == (match self@.config {
                Some(c) => Ok(c.asset),
                None => Err(Error::NotInitialized),
            }),
    {
        match &self.config {
            Some(c) => Ok(c.asset),
            None => Err(Error::NotInitialized),
        }
    }

    pub fn treasury(&self) -> (r: Result<Address, Error>)
        ensures
            r == (match self@.config {
                Some(c) => Ok(c.treasury),
                None => Err(Error::NotInitialized),
            }),
    {
        match &self.config {
            Some(c) => Ok(c.treasury),
            None => Err(Error::NotInitialized),
        }
    }

    pub fn fee_percentage(&self) -> (r: u32)
        ensures
            r == self@.fee_bps(),
    {
        match &self.config {
            Some(c) => c.fee_bps,
            None => 0,
        }
    }

    pub fn total_assets(&self) -> (r: i128)
        ensures
            r == self@.total_assets,
    {
        self.total_assets
    }

    pub fn total_shares(&self) -> (r: i128)
        ensures
            r == self@.total_shares,
    {
        self.total_shares
    }

    /// Shares held by `user`; zero for a user who never deposited.
    pub fn balance(&self, user: Address) -> (r: i128)
        ensures
            r == self@.balance_of(user),
    {
        match self.balances.get(&user.0) {
            Some(b) => *b,
            None => 0,
        }
    }

    pub fn get_strategies(&self) -> (r: Vec<Address>)
        ensures
            r@ == self@.strategies,
    {
        copy_addresses(&self.strategies)
    }

    pub fn get_guardians(&self) -> (r: Vec<Address>)
        ensures
            r@ == self@.guardians,
    {
        copy_addresses(&self.guardians)
    }

    pub fn get_threshold(&self) -> (r: u32)
        ensures
            r == self@.threshold,
    {
        self.threshold
    }

    pub fn is_paused(&self) -> (r: bool)
        ensures
            r == self@.paused,
    {
        self.paused
    }

    pub fn caps(&self) -> (r: Caps)
        ensures
            r == self@.caps,
    {
        self.caps
    }

    pub fn max_staleness(&self) -> (r: u64)
        ensures
            r == self@.caps.max_staleness,
    {
        self.caps.max_staleness
    }

    pub fn oracle_last_update(&self) -> (r: u64)
        ensures
            r == self@.last_update,
    {
        self.last_update
    }

    /// The oracle's latest targets, if it has published any.
    pub fn target_allocations(&self) -> (r: Option<Vec<Allocation>>)
        ensures
            match r {
                Some(v) => self@.allocations == Some(v@),
                None => self@.allocations is None,
            },
    {
        match &self.allocations {
            Some(v) => Some(copy_allocations(v)),
            None => None,
        }
    }

    /// The proposal numbered `proposal_id`, if there is one.
    pub fn get_proposal(&self, proposal_id: u64) -> (r: Option<Proposal>)
        requires
            self.wf(),
        ensures
            match r {
                Some(p) => 1 <= proposal_id <= self@.proposals.len() && p@ == self@.proposals[proposal_id - 1],
                None => !(1 <= proposal_id <= self@.proposals.len()),
            },
    {
        if proposal_id == 0 || proposal_id > self.proposals.len() as u64 {
            return None;
        }
        let idx = (proposal_id - 1) as usize;
        Some(self.proposals[idx].copy())
    }

    // ── Share conversion ─────────────────────────────────────────────

    /// Shares that `amount` of the asset is worth now, rounded down.
    pub fn convert_to_shares(&self, amount: i128) -> (r: Result<i128, Error>)
        requires
            self.wf(),
        ensures
            r == to_shares_result(self@.total_assets, self@.total_shares, amount as int),
    {
        shares_from_assets(self.total_assets, self.total_shares, amount)
    }

    /// Assets that `shares` are worth now, rounded down.
    pub fn convert_to_assets(&self, shares: i128) -> (r: Result<i128, Error>)
        requires
            self.wf(),
        ensures
            r == to_assets_result(self@.total_assets, self@.total_shares, shares as int),
    {
        assets_from_shares(self.total_assets, self.total_shares, shares)
    }

    /// What remains of `amount` after the vault's fee.
    pub fn take_fees(&self, amount: i128) -> (r: Result<i128, Error>)
        ensures
            r == after_fee_result(amount as int, self@.fee_bps() as int),
    {
        amount_after_fee(amount, self.fee_percentage())
    }

    // ── Deposit and withdrawal ───────────────────────────────────────

    /// Works a deposit out without making it: the shares to mint and the
    /// user's new balance, or why it is refused and which ceiling it breaks.
    fn plan_deposit(&self, from: Address, amount: i128) -> (r: Result<
        (i128, i128),
        (Error, Option<CapBreach>),
    >)
        requires
            self.wf(),
        ensures
            match r {
                Ok((minted, new_balance)) => {
                    &&& self@.deposit_spec(from, amount as int) is Ok
                    &&& minted == shares_for(self@.total_assets, self@.total_shares, amount as int)
                    &&& new_balance == self@.balance_of(from) + minted
                },
                Err((e, breach)) => {
                    &&& self@.deposit_spec(from, amount as int) == Err::<(int, VaultView), Error>(e)
                    &&& breach == self@.deposit_breach_spec(from, amount as int)
                },
            },
    {
        if self.paused {
            return Err((Error::ContractPaused, None));
        }
        if amount <= 0 {
            return Err((Error::NegativeAmount, None));
        }
        if self.config.is_none() {
            return Err((Error::NotInitialized, None));
        }
        let minted = match shares_from_assets(self.total_assets, self.total_shares, amount) {
            Ok(m) => m,
            Err(e) => {
                return Err((e, None));
            },
        };
        let new_balance = match self.balance(from).checked_add(minted) {
            Some(b) => b,
            None => {
                return Err((Error::ArithmeticOverflow, None));
            },
        };
        let new_total_assets = match self.total_assets.checked_add(amount) {
            Some(t) => t,
            None => {
                return Err((Error::ArithmeticOverflow, None));
            },
        };
        if self.total_shares.checked_add(minted).is_none() {
            return Err((Error::ArithmeticOverflow, None));
        }
        match check_deposit_caps(&self.caps, new_balance, new_total_assets) {
            Some(breach) => Err((Error::DepositCapExceeded, Some(breach))),
            None => Ok((minted, new_balance)),
        }
    }

    /// Deposits `amount` of the asset for `from`, whose authorization the
    /// host has checked, and mints shares for it at the current rate. The
    /// host moves the asset from `from` to the vault once this succeeds.
    pub fn deposit(&mut self, from: Address, amount: i128) -> (r: Result<i128, Error>)
        requires
            old(self).wf(),
        ensures
            final(self).wf(),
            match old(self)@.deposit_spec(from, amount as int) {
                Ok((minted, next)) => r == Ok::<i128, Error>(minted as i128) && final(self)@ == next,
                Err(e) => r == Err::<i128, Error>(e) && final(self)@ == old(self)@,
            },
    {
        match self.plan_deposit(from, amount) {
            Err((e, _)) => Err(e),
            Ok((minted, new_balance)) => {
                self.store_balance(from, new_balance);
                self.total_shares = self.total_shares + minted;
                self.total_assets = self.total_assets + amount;
                Ok(minted)
            },
        }
    }

    /// The ceiling that a deposit of `amount` by `from` would break, when it
    /// would be refused with `DepositCapExceeded`.
    pub fn deposit_cap_breach(&self, from: Address, amount: i128) -> (r: Option<CapBreach>)
        requires
            self.wf(),
        ensures
            r == self@.deposit_breach_spec(from, amount as int),
    {
        match self.plan_deposit(from, amount) {
            Err((_, breach)) => breach,
            Ok(_) => None,
        }
    }

    /// Redeems `shares` of `from`, whose authorization the host has checked,
    /// for the asset at the current rate. The host moves the returned amount
    /// from the vault to `from` once this succeeds.
    pub fn withdraw(&mut self, from: Address, shares: i128) -> (r: Result<i128, Error>)
        requires
            old(self).wf(),
        ensures
            final(self).wf(),
            match old(self)@.withdraw_spec(from, shares as int) {
                Ok((assets, next)) => r == Ok::<i128, Error>(assets as i128) && final(self)@ == next,
                Err(e) => r == Err::<i128, Error>(e) && final(self)@ == old(self)@,
            },
    {
        if self.paused {
            return Err(Error::ContractPaused);
        }
        if shares <= 0 {
            return Err(Error::NegativeAmount);
        }
        if self.config.is_none() {
            return Err(Error::NotInitialized);
        }
        let current = self.balance(from);
        if shares > current || shares > self.total_shares {
            return Err(Error::InsufficientShares);
        }
        let assets = match assets_from_shares(self.total_assets, self.total_shares, shares) {
            Ok(a) => a,
            Err(e) => {
                return Err(e);
            },
        };
        if assets > self.caps.max_withdraw_per_tx {
            return Err(Error::WithdrawalCapExceeded);
        }
        proof {
            lemma_redemption_within_pool(self.total_assets as int, self.total_shares as int, shares as int);
        }
        self.total_shares = self.total_shares - shares;
        self.total_assets = self.total_assets - assets;
        self.store_balance(from, current - shares);
        Ok(assets)
    }

    // ── Strategies, oracle and rebalancing ───────────────────────────

    fn require_admin(&self, caller: Address) -> (r: Result<(), Error>)
        ensures
            match self@.admin_error(caller) {
                Some(e) => r == Err::<(), Error>(e),
                None => r == Ok::<(), Error>(()),
            },
    {
        match &self.config {
            None => Err(Error::NotInitialized),
            Some(c) => if c.admin == caller {
                Ok(())
            } else {
                Err(Error::Unauthorized)
            },
        }
    }

    /// Appends `strategy` to the registry unless it is there already.
    fn register_strategy(&mut self, strategy: Address) -> (r: Result<(), Error>)
        requires
            old(self).wf(),
        ensures
            final(self).wf(),
            old(self)@.strategies.contains(strategy) ==> r == Err::<(), Error>(Error::AlreadyInitialized)
                && final(self)@ == old(self)@,
            !old(self)@.strategies.contains(strategy) ==> r == Ok::<(), Error>(()) && final(self)@
                == (VaultView { strategies: old(self)@.strategies.push(strategy), ..old(self)@ }),
    {
        if contains_address(&self.strategies, strategy) {
            return Err(Error::AlreadyInitialized);
        }
        self.strategies.push(strategy);
        proof {
            assert(self@.strategies == old(self)@.strategies.push(strategy));
            assert forall|i: int, j: int|
                0 <= i < j < self@.strategies.len() implies self@.strategies[i] != self@.strategies[j] by {
                if j == self@.strategies.len() - 1 {
                    assert(old(self)@.strategies.contains(self@.strategies[i]));
                }
            }
        }
        Ok(())
    }

    /// Registers `strategy`; only the admin may.
    pub fn add_strategy(&mut self, caller: Address, strategy: Address) -> (r: Result<(), Error>)
        requires
            old(self).wf(),
        ensures
            final(self).wf(),
            match old(self)@.add_strategy_spec(caller, strategy) {
                Ok(next) => r == Ok::<(), Error>(()) && final(self)@ == next,
                Err(e) => r == Err::<(), Error>(e) && final(self)@ == old(self)@,
            },
    {
        match self.require_admin(caller) {
            Err(e) => Err(e),
            Ok(()) => self.register_strategy(strategy),
        }
    }

    /// The oracle's targets, if its data is fresh at `now` and present.
    fn fresh_targets(&self, now: u64) -> (r: Result<Vec<Allocation>, Error>)
        ensures
            match r {
                Ok(v) => self@.rebalance_targets(now) == Ok::<Seq<Allocation>, Error>(v@),
                Err(e) => self@.rebalance_targets(now) == Err::<Seq<Allocation>, Error>(e),
            },
    {
        if !oracle_is_fresh(now, self.last_update, self.caps.max_staleness) {
            return Err(Error::StaleOracleData);
        }
        match &self.allocations {
            Some(a) => Ok(copy_allocations(a)),
            None => Err(Error::NotInitialized),
        }
    }

    /// Opens a rebalance at `now` for `caller`, the admin or the oracle:
    /// the targets that each strategy is to be brought to, in order. Stale
    /// or missing oracle data refuses it, and then no strategy is touched.
    pub fn rebalance(&self, caller: Address, now: u64) -> (r: Result<Vec<Allocation>, Error>)
        ensures
            match r {
                Ok(v) => self@.rebalance_spec(caller, now) == Ok::<Seq<Allocation>, Error>(v@),
                Err(e) => self@.rebalance_spec(caller, now) == Err::<Seq<Allocation>, Error>(e),
            },
    {
        match &self.config {
            None => Err(Error::NotInitialized),
            Some(c) => if caller != c.admin && caller != c.oracle {
                Err(Error::Unauthorized)
            } else {
                self.fresh_targets(now)
            },
        }
    }

    /// Records the strategies' balances, given in registry order, as yield
    /// added to the pool's assets; only the admin may. Each strategy's whole
    /// reported balance counts, not only its growth since the last harvest,
    /// and a total that is not positive leaves the assets as they are.
    pub fn harvest(&mut self, caller: Address, balances: &Vec<i128>) -> (r: Result<i128, Error>)
        requires
            old(self).wf(),
            balances.len() == old(self)@.strategies.len(),
        ensures
            final(self).wf(),
            match old(self)@.harvest_spec(caller, balances@) {
                Ok((total, next)) => r == Ok::<i128, Error>(total as i128) && final(self)@ == next,
                Err(e) => r == Err::<i128, Error>(e) && final(self)@ == old(self)@,
            },
    {
        if let Err(e) = self.require_admin(caller) {
            return Err(e);
        }
        if self.strategies.len() == 0 {
            return Err(Error::NoStrategies);
        }
        let total = match total_of_balances(balances) {
            Ok(t) => t,
            Err(e) => {
                return Err(e);
            },
        };
        if total > 0 {
            match self.total_assets.checked_add(total) {
                Some(t) => {
                    self.total_assets = t;
                },
                None => {
                    return Err(Error::ArithmeticOverflow);
                },
            }
        }
        Ok(total)
    }

    /// Stores the oracle's new targets, stamped `timestamp`, at `now`.
    pub fn set_oracle_data(
        &mut self,
        caller: Address,
        allocations: Vec<Allocation>,
        timestamp: u64,
        now: u64,
    ) -> (r: Result<(), Error>)
        requires
            old(self).wf(),
        ensures
            final(self).wf(),
            match old(self)@.set_oracle_data_spec(caller, allocations@, timestamp, now) {
                Ok(next) => r == Ok::<(), Error>(()) && final(self)@ == next,
                Err(e) => r == Err::<(), Error>(e) && final(self)@ == old(self)@,
            },
    {
        match &self.config {
            None => {
                return Err(Error::NotInitialized);
            },
            Some(c) => if caller != c.oracle {
                return Err(Error::Unauthorized);
            },
        }
        if let Err(e) = check_oracle_timestamp(timestamp, now, self.last_update) {
            return Err(e);
        }
        self.last_update = timestamp;
        self.allocations = Some(allocations);
        Ok(())
    }

    // ── Caps and pause ───────────────────────────────────────────────

    /// Sets the per-user and the global deposit ceilings; only the admin may.
    pub fn set_deposit_cap(&mut self, caller: Address, per_user: i128, global: i128) -> (r: Result<(), Error>)
        requires
            old(self).wf(),
        ensures
            final(self).wf(),
            match old(self)@.admin_error(caller) {
                Some(e) => r == Err::<(), Error>(e) && final(self)@ == old(self)@,
                None => r == Ok::<(), Error>(()) && final(self)@ == (VaultView {
                    caps: Caps { max_deposit_per_user: per_user, max_total_assets: global, ..old(self)@.caps },
                    ..old(self)@
                }),
            },
    {
        if let Err(e) = self.require_admin(caller) {
            return Err(e);
        }
        self.caps.max_deposit_per_user = per_user;
        self.caps.max_total_assets = global;
        Ok(())
    }

    /// Sets the per-withdrawal ceiling; only the admin may.
    pub fn set_withdraw_cap(&mut self, caller: Address, per_tx: i128) -> (r: Result<(), Error>)
        requires
            old(self).wf(),
        ensures
            final(self).wf(),
            match old(self)@.admin_error(caller) {
                Some(e) => r == Err::<(), Error>(e) && final(self)@ == old(self)@,
                None => r == Ok::<(), Error>(()) && final(self)@ == (VaultView {
                    caps: Caps { max_withdraw_per_tx: per_tx, ..old(self)@.caps },
                    ..old(self)@
                }),
            },
    {
        if let Err(e) = self.require_admin(caller) {
            return Err(e);
        }
        self.caps.max_withdraw_per_tx = per_tx;
        Ok(())
    }

    /// Sets how old the oracle's data may be for a rebalance; only the admin may.
    pub fn set_max_staleness(&mut self, caller: Address, seconds: u64) -> (r: Result<(), Error>)
        requires
            old(self).wf(),
        ensures
            final(self).wf(),
            match old(self)@.admin_error(caller) {
                Some(e) => r == Err::<(), Error>(e) && final(self)@ == old(self)@,
                None => r == Ok::<(), Error>(()) && final(self)@ == (VaultView {
                    caps: Caps { max_staleness: seconds, ..old(self)@.caps },
                    ..old(self)@
                }),
            },
    {
        if let Err(e) = self.require_admin(caller) {
            return Err(e);
        }
        self.caps.max_staleness = seconds;
        Ok(())
    }

    /// Pausing outside governance is refused to everyone: the pause flag
    /// changes only through an executed proposal.
    pub fn set_paused(&self, _state: bool) -> (r: Result<(), Error>)
        ensures
            r == Err::<(), Error>(Error::Unauthorized),
    {
        Err(Error::Unauthorized)
    }

    // ── Governance ───────────────────────────────────────────────────

    /// Carries out an action that the guardians agreed on. Governance stands
    /// in for the admin's and the oracle's authorization here.
    fn execute_action(&mut self, action: ActionType, now: u64) -> (r: Result<Outcome, Error>)
        requires
            old(self).wf(),
        ensures
            final(self).wf(),
            match r {
                Ok(o) => old(self)@.action_spec(action, now) == Ok::<(OutcomeView, VaultView), Error>(
                    (o@, final(self)@),
                ),
                Err(e) => old(self)@.action_spec(action, now) == Err::<(OutcomeView, VaultView), Error>(e)
                    && final(self)@ == old(self)@,
            },
    {
        match action {
            ActionType::SetPaused(state) => {
                self.paused = state;
                Ok(Outcome::PausedChanged(state))
            },
            ActionType::AddStrategy(strategy) => match self.register_strategy(strategy) {
                Ok(()) => Ok(Outcome::StrategyAdded(strategy)),
                Err(e) => Err(e),
            },
            ActionType::Rebalance => match self.fresh_targets(now) {
                Ok(targets) => Ok(Outcome::Rebalance(targets)),
                Err(e) => Err(e),
            },
        }
    }

    fn require_guardian(&self, caller: Address) -> (r: Result<(), Error>)
        ensures
            match self@.guardian_error(caller) {
                Some(e) => r == Err::<(), Error>(e),
                None => r == Ok::<(), Error>(()),
            },
    {
        if self.config.is_none() {
            return Err(Error::NotInitialized);
        }
        if !contains_address(&self.guardians, caller) {
            return Err(Error::Unauthorized);
        }
        Ok(())
    }

    /// Proposes `action` on behalf of the guardian `caller` at `now` and
    /// returns the new proposal's number with what came of it.
    pub fn propose_action(&mut self, caller: Address, action: ActionType, now: u64) -> (r: Result<
        (u64, Outcome),
        Error,
    >)
        requires
            old(self).wf(),
        ensures
            final(self).wf(),
            match r {
                Ok((id, o)) => old(self)@.propose_spec(caller, action, now) == Ok::<
                    (u64, OutcomeView, VaultView),
                    Error,
                >((id, o@, final(self)@)),
                Err(e) => old(self)@.propose_spec(caller, action, now) == Err::<
                    (u64, OutcomeView, VaultView),
                    Error,
                >(e) && final(self)@ == old(self)@,
            },
    {
        if let Err(e) = self.require_guardian(caller) {
            return Err(e);
        }
        let count = self.proposals.len();
        if count as u64 == u64::MAX {
            return Err(Error::ArithmeticOverflow);
        }
        let id = count as u64 + 1;
        let mut approvals: Vec<Address> = Vec::new();
        approvals.push(caller);
        let ghost before = self@;
        let mut proposal = Proposal { id, proposer: caller, action, approvals, executed: false };
        let outcome = if self.threshold <= 1 {
            match self.execute_action(action, now) {
                Ok(o) => {
                    proposal.executed = true;
                    o
                },
                Err(e) => {
                    return Err(e);
                },
            }
        } else {
            Outcome::Pending
        };
        let ghost mid = self@;
        self.proposals.push(proposal);
        proof {
            assert(proposal@.approvals =~= seq![caller]);
            assert(self@.proposals =~= mid.proposals.push(proposal@));
            assert(mid.proposals == before.proposals);
            assert(self@ == (VaultView { proposals: before.proposals.push(proposal@), ..mid }));
        }
        Ok((id, outcome))
    }

    /// Records the approval of proposal `proposal_id` by the guardian
    /// `caller` at `now`, and executes the action once the approvals reach
    /// the threshold. A failing action refuses the approval as a whole.
    pub fn approve_action(&mut self, caller: Address, proposal_id: u64, now: u64) -> (r: Result<Outcome, Error>)
        requires
            old(self).wf(),
        ensures
            final(self).wf(),
            match r {
                Ok(o) => old(self)@.approve_spec(caller, proposal_id, now) == Ok::<
                    (OutcomeView, VaultView),
                    Error,
                >((o@, final(self)@)),
                Err(e) => old(self)@.approve_spec(caller, proposal_id, now) == Err::<
                    (OutcomeView, VaultView),
                    Error,
                >(e) && final(self)@ == old(self)@,
            },
    {
        if let Err(e) = self.require_guardian(caller) {
            return Err(e);
        }
        if proposal_id == 0 || proposal_id > self.proposals.len() as u64 {
            return Err(Error::ProposalNotFound);
        }
        let idx = (proposal_id - 1) as usize;
        if self.proposals[idx].executed {
            return Err(Error::ProposalExecuted);
        }
        if contains_address(&self.proposals[idx].approvals, caller) {
            return Err(Error::AlreadyApproved);
        }
        let mut proposal = self.proposals[idx].copy();
        proposal.approvals.push(caller);
        let ghost before = self@;
        let outcome = if proposal.approvals.len() >= self.threshold as usize {
            match self.execute_action(proposal.action, now) {
                Ok(o) => {
                    proposal.executed = true;
                    o
                },
                Err(e) => {
                    return Err(e);
                },
            }
        } else {
            Outcome::Pending
        };
        let ghost mid = self@;
        self.proposals[idx] = proposal;
        proof {
            assert(self@.proposals =~= mid.proposals.update(idx as int, proposal@));
            assert(mid.proposals == before.proposals);
            assert(self@ == (VaultView { proposals: before.proposals.update(idx as int, proposal@), ..mid }));
        }
        Ok(outcome)
    }

    // ── Direct adjustment ────────────────────────────────────────────
    // For a host that restores or seeds the ledger; no authorization.

    pub fn set_total_assets(&mut self, amount: i128) -> (r: Result<(), Error>)
        requires
            old(self).wf(),
        ensures
            final(self).wf(),
            amount < 0 ==> r == Err::<(), Error>(Error::NegativeAmount) && final(self)@ == old(self)@,
            amount >= 0 ==> r == Ok::<(), Error>(()) && final(self)@ == (VaultView {
                total_assets: amount as int,
                ..old(self)@
            }),
    {
        if amount < 0 {
            return Err(Error::NegativeAmount);
        }
        self.total_assets = amount;
        Ok(())
    }

    pub fn set_total_shares(&mut self, amount: i128) -> (r: Result<(), Error>)
        requires
            old(self).wf(),
        ensures
            final(self).wf(),
            amount < 0 ==> r == Err::<(), Error>(Error::NegativeAmount) && final(self)@ == old(self)@,
            amount >= 0 ==> r == Ok::<(), Error>(()) && final(self)@ == (VaultView {
                total_shares: amount as int,
                ..old(self)@
            }),
    {
        if amount < 0 {
            return Err(Error::NegativeAmount);
        }
        self.total_shares = amount;
        Ok(())
    }

    pub fn set_balance(&mut self, user: Address, amount: i128) -> (r: Result<(), Error>)
        requires
            old(self).wf(),
        ensures
            final(self).wf(),
            amount < 0 ==> r == Err::<(), Error>(Error::NegativeAmount) && final(self)@ == old(self)@,
            amount >= 0 ==> r == Ok::<(), Error>(()) && final(self)@ == (VaultView {
                balances: old(self)@.balances.insert(user, amount as int),
                ..old(self)@
            }),
    {
        if amount < 0 {
            return Err(Error::NegativeAmount);
        }
        self.store_balance(user, amount);
        Ok(())
    }

    fn store_balance(&mut self, user: Address, amount: i128)
        requires
            old(self).wf(),
            amount >= 0,
        ensures
            final(self).wf(),
            final(self)@ == (VaultView {
                balances: old(self)@.balances.insert(user, amount as int),
                ..old(self)@
            }),
    {
        self.balances.insert(user.0, amount);
        assert(self@.balances =~= old(self)@.balances.insert(user, amount as int));
    }
}

} // verus!
