use vstd::prelude::*;
use crate::types::{Address, Error};

verus! {

/// The balance that the oracle wants a strategy to hold.
#[derive(Clone, Copy, Debug, PartialEq, Eq, Structural)]
pub struct Allocation {
    pub strategy: Address,
    pub target: i128,
}

/// What the vault does with one strategy to bring it to its target.
#[derive(Clone, Copy, Debug, PartialEq, Eq, Structural)]
pub enum Move {
    /// Already at its target.
    Hold,
    /// Send this much of the asset to the strategy, then call its deposit.
    Fund(i128),
    /// Call the strategy's withdraw with this much, then take it back.
    Drain(i128),
}

/// Whether a value fits in 128 signed bits.
pub open spec fn fits_i128(x: int) -> bool {
    i128::MIN <= x <= i128::MAX
}

/// The move that takes a strategy holding `current` to `target`.
pub open spec fn move_for(target: int, current: int) -> Move {
    if target > current {
        Move::Fund((target - current) as i128)
    } else if target < current {
        Move::Drain((current - target) as i128)
    } else {
        Move::Hold
    }
}

/// Whether the amount moved between `current` and `target` leaves 128 bits.
pub open spec fn move_overflows(target: int, current: int) -> bool {
    target - current > i128::MAX || current - target > i128::MAX
}

/// The change that takes `current` to `target`.
pub fn calc_rebalance_delta(current: i128, target: i128) -> (r: Result<i128, Error>)
    ensures
        r == (if fits_i128(target - current) {
            Ok((target - current) as i128)
        } else {
            Err(Error::ArithmeticOverflow)
        }),
{
    match target.checked_sub(current) {
        Some(d) => Ok(d),
        None => Err(Error::ArithmeticOverflow),
    }
}

/// The move that takes a strategy holding `current` to `target`.
pub fn rebalance_move(target: i128, current: i128) -> (r: Result<Move, Error>)
    ensures
        r == (if move_overflows(target as int, current as int) {
            Err(Error::ArithmeticOverflow)
        } else {
            Ok(move_for(target as int, current as int))
        }),
{
    if target > current {
        match target.checked_sub(current) {
            Some(d) => Ok(Move::Fund(d)),
            None => Err(Error::ArithmeticOverflow),
        }
    } else if target < current {
        match current.checked_sub(target) {
            Some(d) => Ok(Move::Drain(d)),
            None => Err(Error::ArithmeticOverflow),
        }
    } else {
        Ok(Move::Hold)
    }
}

/// Whether some strategy's move leaves 128 bits.
pub open spec fn plan_overflows(targets: Seq<Allocation>, balances: Seq<i128>) -> bool {
    exists|i: int|
        0 <= i < targets.len() && #[trigger] move_overflows(targets[i].target as int, balances[i] as int)
}

/// The moves that bring each strategy of `targets` from its balance in
/// `balances` (same order) to its target, in the order of `targets`.
pub fn plan_rebalance(targets: &Vec<Allocation>, balances: &Vec<i128>) -> (r: Result<Vec<Move>, Error>)
    requires
        targets.len() == balances.len(),
    ensures
        match r {
            Ok(moves) => {
                &&& !plan_overflows(targets@, balances@)
                &&& moves.len() == targets.len()
                &&& forall|i: int|
                    0 <= i < moves.len() ==> moves@[i] == move_for(
                        targets@[i].target as int,
                        balances@[i] as int,
                    )
            },
            Err(e) => plan_overflows(targets@, balances@) && e == Error::ArithmeticOverflow,
        },
{
    let mut moves: Vec<Move> = Vec::new();
    let mut i: usize = 0;
    while i < targets.len()
        invariant
            i <= targets.len(),
            targets.len() == balances.len(),
            moves.len() == i,
            forall|j: int|
                0 <= j < i ==> !move_overflows(targets@[j].target as int, balances@[j] as int),
            forall|j: int|
                0 <= j < i ==> moves@[j] == move_for(targets@[j].target as int, balances@[j] as int),
        decreases targets.len() - i,
    {
        match rebalance_move(targets[i].target, balances[i]) {
            Ok(m) => moves.push(m),
            Err(e) => {
                return Err(e);
            },
        }
        i += 1;
    }
    Ok(moves)
}

/// The sum of `s`.
pub open spec fn sum_of(s: Seq<i128>) -> int
    decreases s.len(),
{
    if s.len() == 0 {
        0
    } else {
        sum_of(s.drop_last()) + s.last()
    }
}

/// Whether every running sum of `s`, taken from the front, fits in 128 bits.
pub open spec fn running_sums_fit(s: Seq<i128>) -> bool {
    forall|k: int| 0 <= k <= s.len() ==> #[trigger] fits_i128(sum_of(s.take(k)))
}

/// The sum of the strategies' balances, added up in order with every step
/// checked for overflow.
pub fn total_of_balances(balances: &Vec<i128>) -> (r: Result<i128, Error>)
    ensures
        match r {
            Ok(t) => running_sums_fit(balances@) && t == sum_of(balances@),
            Err(e) => !running_sums_fit(balances@) && e == Error::ArithmeticOverflow,
        },
{
    let mut total: i128 = 0;
    let mut i: usize = 0;
    assert(balances@.take(0) =~= Seq::<i128>::empty());
    while i < balances.len()
        invariant
            i <= balances.len(),
            total == sum_of(balances@.take(i as int)),
            forall|k: int| 0 <= k <= i ==> #[trigger] fits_i128(sum_of(balances@.take(k))),
        decreases balances.len() - i,
    {
        assert(balances@.take(i + 1).drop_last() =~= balances@.take(i as int));
        match total.checked_add(balances[i]) {
            Some(t) => {
                total = t;
            },
            None => {
                assert(!fits_i128(sum_of(balances@.take(i + 1))));
                return Err(Error::ArithmeticOverflow);
            },
        }
        i += 1;
    }
    assert(balances@.take(balances.len() as int) =~= balances@);
    Ok(total)
}

} // verus!
