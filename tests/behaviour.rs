use volatility_shield::caps::{check_deposit_caps, CapBreach, Caps};
use volatility_shield::governance::{ActionType, Outcome};
use volatility_shield::oracle::{check_oracle_timestamp, oracle_is_fresh};
use volatility_shield::shares::{amount_after_fee, assets_from_shares, shares_from_assets};
use volatility_shield::strategy::{
    calc_rebalance_delta, plan_rebalance, rebalance_move, total_of_balances, Allocation, Move,
};
use volatility_shield::types::{contains_address, Address, Error};
use volatility_shield::vault::Vault;

fn governed_vault(guardians: Vec<Address>, threshold: u32) -> Vault {
    let mut v = Vault::new();
    v.init(Address(1), Address(2), Address(3), Address(4), 0, guardians, threshold).unwrap();
    v
}

#[test]
fn round_trip_never_gains_value() {
    let shares = shares_from_assets(300, 1000, 100).unwrap();
    assert_eq!(shares, 333);
    let back = assets_from_shares(300, 1000, shares).unwrap();
    assert_eq!(back, 99);
    assert!(back <= 100);

    let shares = shares_from_assets(7, 3, 5).unwrap();
    assert_eq!(shares, 2);
    assert_eq!(assets_from_shares(7, 3, shares), Ok(4));
}

#[test]
fn empty_pool_converts_one_for_one() {
    assert_eq!(shares_from_assets(0, 0, 42), Ok(42));
    assert_eq!(assets_from_shares(0, 0, 42), Ok(42));
    assert_eq!(assets_from_shares(500, 0, 42), Ok(42));
    assert_eq!(shares_from_assets(0, 900, 42), Ok(42));
    assert_eq!(assets_from_shares(0, 900, 42), Ok(0));
}

#[test]
fn conversion_examples() {
    assert_eq!(assets_from_shares(10, 4, 3), Ok(7));
    assert_eq!(shares_from_assets(300, 1000, 100), Ok(333));
}

#[test]
fn negative_amounts_are_refused_by_both_conversions() {
    assert_eq!(shares_from_assets(10, 10, -5), Err(Error::NegativeAmount));
    assert_eq!(assets_from_shares(10, 10, -5), Err(Error::NegativeAmount));
}

#[test]
fn conversion_overflow_is_reported() {
    assert_eq!(shares_from_assets(1, 2, i128::MAX), Err(Error::ArithmeticOverflow));
    assert_eq!(assets_from_shares(2, 1, i128::MAX), Err(Error::ArithmeticOverflow));
}

#[test]
fn fee_is_rounded_down() {
    assert_eq!(amount_after_fee(999, 500), Ok(950));
    assert_eq!(amount_after_fee(1000, 0), Ok(1000));
    assert_eq!(amount_after_fee(-1, 500), Err(Error::NegativeAmount));
    assert_eq!(amount_after_fee(i128::MAX, 2), Err(Error::ArithmeticOverflow));
}

#[test]
fn deposit_over_user_cap_changes_nothing() {
    let mut v = governed_vault(vec![], 1);
    v.set_deposit_cap(Address(1), 500, i128::MAX).unwrap();
    let user = Address(30);
    assert_eq!(v.deposit(user, 600), Err(Error::DepositCapExceeded));
    assert_eq!(v.balance(user), 0);
    assert_eq!(v.total_assets(), 0);
    assert_eq!(v.total_shares(), 0);
    assert_eq!(v.deposit(user, 500), Ok(500));
}

#[test]
fn deposit_mints_at_the_current_rate() {
    let mut v = governed_vault(vec![], 1);
    let user = Address(30);
    v.set_total_assets(300).unwrap();
    v.set_total_shares(1000).unwrap();
    assert_eq!(v.deposit(user, 100), Ok(333));
    assert_eq!(v.balance(user), 333);
    assert_eq!(v.total_assets(), 400);
    assert_eq!(v.total_shares(), 1333);
}

#[test]
fn deposit_refusals() {
    let mut fresh = Vault::new();
    assert_eq!(fresh.deposit(Address(30), 10), Err(Error::NotInitialized));
    let mut v = governed_vault(vec![], 1);
    assert_eq!(v.deposit(Address(30), 0), Err(Error::NegativeAmount));
    assert_eq!(v.deposit(Address(30), -3), Err(Error::NegativeAmount));
    v.set_total_assets(1).unwrap();
    v.set_total_shares(2).unwrap();
    assert_eq!(v.deposit(Address(30), i128::MAX), Err(Error::ArithmeticOverflow));
    assert_eq!(v.deposit_cap_breach(Address(30), 5), None);
}

#[test]
fn withdraw_refusals() {
    let mut v = governed_vault(vec![], 1);
    let user = Address(30);
    v.set_total_assets(100).unwrap();
    v.set_total_shares(100).unwrap();
    v.set_balance(user, 10).unwrap();
    assert_eq!(v.withdraw(user, 0), Err(Error::NegativeAmount));
    assert_eq!(v.withdraw(user, 11), Err(Error::InsufficientShares));
    assert_eq!(v.withdraw(Address(31), 1), Err(Error::InsufficientShares));
    assert_eq!(v.withdraw(user, 10), Ok(10));
    assert_eq!(v.balance(user), 0);
    assert_eq!(v.total_shares(), 90);
    assert_eq!(v.total_assets(), 90);
}

#[test]
fn oracle_refuses_replayed_and_future_timestamps() {
    let mut v = governed_vault(vec![], 1);
    let targets = vec![Allocation { strategy: Address(20), target: 5 }];
    v.set_oracle_data(Address(3), targets.clone(), 50, 60).unwrap();
    assert_eq!(v.set_oracle_data(Address(3), vec![], 50, 60), Err(Error::InvalidTimestamp));
    assert_eq!(v.set_oracle_data(Address(3), vec![], 61, 60), Err(Error::InvalidTimestamp));
    assert_eq!(v.set_oracle_data(Address(3), vec![], 40, 60), Err(Error::InvalidTimestamp));
    assert_eq!(v.oracle_last_update(), 50);
    assert_eq!(v.target_allocations(), Some(targets));
    assert_eq!(v.set_oracle_data(Address(1), vec![], 55, 60), Err(Error::Unauthorized));
}

#[test]
fn stale_oracle_blocks_every_rebalance() {
    let mut v = governed_vault(vec![Address(1)], 1);
    v.set_max_staleness(Address(1), 100).unwrap();
    v.set_oracle_data(Address(3), vec![Allocation { strategy: Address(20), target: 5 }], 1000, 1000)
        .unwrap();
    assert!(v.rebalance(Address(1), 1100).is_ok());
    assert_eq!(v.rebalance(Address(1), 1101), Err(Error::StaleOracleData));
    assert_eq!(v.rebalance(Address(3), 1101), Err(Error::StaleOracleData));
    assert_eq!(
        v.propose_action(Address(1), ActionType::Rebalance, 1101),
        Err(Error::StaleOracleData)
    );
    assert_eq!(v.get_proposal(1), None);
}

#[test]
fn rebalance_refusals() {
    let fresh = Vault::new();
    assert_eq!(fresh.rebalance(Address(1), 0), Err(Error::NotInitialized));
    let v = governed_vault(vec![], 1);
    assert_eq!(v.rebalance(Address(9), 0), Err(Error::Unauthorized));
    assert_eq!(v.rebalance(Address(1), 0), Err(Error::NotInitialized));
}

#[test]
fn governance_pause_needs_two_of_three() {
    let (a, b, c) = (Address(101), Address(102), Address(103));
    let mut v = governed_vault(vec![a, b, c], 2);

    let (id, outcome) = v.propose_action(a, ActionType::SetPaused(true), 0).unwrap();
    assert_eq!(id, 1);
    assert_eq!(outcome, Outcome::Pending);
    let p = v.get_proposal(id).unwrap();
    assert_eq!(p.approvals, vec![a]);
    assert!(!p.executed);
    assert!(!v.is_paused());

    assert_eq!(v.approve_action(a, id, 0), Err(Error::AlreadyApproved));

    assert_eq!(v.approve_action(b, id, 0), Ok(Outcome::PausedChanged(true)));
    let p = v.get_proposal(id).unwrap();
    assert_eq!(p.approvals, vec![a, b]);
    assert!(p.executed);
    assert!(v.is_paused());

    assert_eq!(v.approve_action(a, id, 0), Err(Error::ProposalExecuted));
    assert_eq!(v.approve_action(c, id, 0), Err(Error::ProposalExecuted));
}

#[test]
fn governance_refusals() {
    let (a, b) = (Address(101), Address(102));
    let mut fresh = Vault::new();
    assert_eq!(fresh.propose_action(a, ActionType::Rebalance, 0), Err(Error::NotInitialized));
    let mut v = governed_vault(vec![a, b], 2);
    assert_eq!(v.propose_action(Address(9), ActionType::Rebalance, 0), Err(Error::Unauthorized));
    assert_eq!(v.approve_action(Address(9), 1, 0), Err(Error::Unauthorized));
    assert_eq!(v.approve_action(a, 1, 0), Err(Error::ProposalNotFound));
    assert_eq!(v.approve_action(a, 0, 0), Err(Error::ProposalNotFound));
    assert_eq!(v.get_guardians(), vec![a, b]);
    assert_eq!(v.get_threshold(), 2);
}

#[test]
fn governance_adds_strategy_once() {
    let (a, b) = (Address(101), Address(102));
    let mut v = governed_vault(vec![a, b], 2);
    let s = Address(20);
    let (first, _) = v.propose_action(a, ActionType::AddStrategy(s), 0).unwrap();
    let (second, _) = v.propose_action(a, ActionType::AddStrategy(s), 0).unwrap();
    assert_eq!(second, first + 1);
    assert_eq!(v.approve_action(b, first, 0), Ok(Outcome::StrategyAdded(s)));
    assert_eq!(v.get_strategies(), vec![s]);
    assert_eq!(v.approve_action(b, second, 0), Err(Error::AlreadyInitialized));
    assert!(!v.get_proposal(second).unwrap().executed);
    assert_eq!(v.get_strategies().len(), 1);
}

#[test]
fn governance_rebalance_hands_out_targets() {
    let a = Address(101);
    let mut v = governed_vault(vec![a], 1);
    let targets = vec![Allocation { strategy: Address(20), target: 70 }];
    v.set_oracle_data(Address(3), targets.clone(), 10, 10).unwrap();
    let (_, outcome) = v.propose_action(a, ActionType::Rebalance, 10).unwrap();
    assert_eq!(outcome, Outcome::Rebalance(targets));
}

#[test]
fn duplicate_strategy_is_refused() {
    let mut v = governed_vault(vec![], 1);
    let s = Address(20);
    v.add_strategy(Address(1), s).unwrap();
    assert_eq!(v.add_strategy(Address(1), s), Err(Error::AlreadyInitialized));
    assert_eq!(v.get_strategies().len(), 1);
    assert_eq!(v.add_strategy(Address(9), Address(21)), Err(Error::Unauthorized));
    assert_eq!(Vault::new().add_strategy(Address(1), s), Err(Error::NotInitialized));
}

#[test]
fn harvest_adds_strategy_balances() {
    let mut v = governed_vault(vec![], 1);
    assert_eq!(v.harvest(Address(1), &vec![]), Err(Error::NoStrategies));
    v.add_strategy(Address(1), Address(20)).unwrap();
    v.add_strategy(Address(1), Address(21)).unwrap();
    v.set_total_assets(1000).unwrap();
    assert_eq!(v.harvest(Address(9), &vec![1, 2]), Err(Error::Unauthorized));
    assert_eq!(v.harvest(Address(1), &vec![30, 20]), Ok(50));
    assert_eq!(v.total_assets(), 1050);
    assert_eq!(v.harvest(Address(1), &vec![0, 0]), Ok(0));
    assert_eq!(v.total_assets(), 1050);
    assert_eq!(v.harvest(Address(1), &vec![i128::MAX, 1]), Err(Error::ArithmeticOverflow));
    assert_eq!(v.total_assets(), 1050);
}

#[test]
fn rebalance_moves() {
    assert_eq!(rebalance_move(500, 0), Ok(Move::Fund(500)));
    assert_eq!(rebalance_move(200, 500), Ok(Move::Drain(300)));
    assert_eq!(rebalance_move(7, 7), Ok(Move::Hold));
    assert_eq!(rebalance_move(i128::MAX, -1), Err(Error::ArithmeticOverflow));
    assert_eq!(calc_rebalance_delta(500, 200), Ok(-300));
    assert_eq!(calc_rebalance_delta(-1, i128::MAX), Err(Error::ArithmeticOverflow));

    let targets = vec![
        Allocation { strategy: Address(20), target: 300 },
        Allocation { strategy: Address(21), target: 0 },
        Allocation { strategy: Address(22), target: 9 },
    ];
    let moves = plan_rebalance(&targets, &vec![100, 40, 9]).unwrap();
    assert_eq!(moves, vec![Move::Fund(200), Move::Drain(40), Move::Hold]);
    assert_eq!(plan_rebalance(&targets, &vec![0, i128::MIN, 0]), Err(Error::ArithmeticOverflow));
}

#[test]
fn running_totals() {
    assert_eq!(total_of_balances(&vec![]), Ok(0));
    assert_eq!(total_of_balances(&vec![4, 5, -2]), Ok(7));
    assert_eq!(total_of_balances(&vec![i128::MAX, 1, -5]), Err(Error::ArithmeticOverflow));
}

#[test]
fn caps_and_freshness_helpers() {
    let caps = Caps::unbounded();
    assert_eq!(caps.max_staleness, 3600);
    let tight = Caps { max_deposit_per_user: 10, max_total_assets: 100, ..caps };
    assert_eq!(check_deposit_caps(&tight, 11, 50), Some(CapBreach::PerUser));
    assert_eq!(check_deposit_caps(&tight, 10, 101), Some(CapBreach::Global));
    assert_eq!(check_deposit_caps(&tight, 10, 100), None);

    assert!(oracle_is_fresh(1100, 1000, 100));
    assert!(!oracle_is_fresh(1101, 1000, 100));
    assert!(oracle_is_fresh(u64::MAX, 10, u64::MAX));
    assert_eq!(check_oracle_timestamp(5, 5, 4), Ok(()));
    assert_eq!(check_oracle_timestamp(5, 5, 5), Err(Error::InvalidTimestamp));
    assert_eq!(check_oracle_timestamp(6, 5, 1), Err(Error::InvalidTimestamp));

    assert!(contains_address(&vec![Address(1), Address(2)], Address(2)));
    assert!(!contains_address(&vec![Address(1)], Address(2)));
}

#[test]
fn uninitialized_reads() {
    let v = Vault::new();
    assert!(!v.has_admin());
    assert_eq!(v.read_admin(), Err(Error::NotInitialized));
    assert_eq!(v.get_threshold(), 1);
    assert_eq!(v.fee_percentage(), 0);
    assert_eq!(v.max_staleness(), 3600);
    assert_eq!(v.target_allocations(), None);
    assert_eq!(v.take_fees(100), Ok(100));
}
