use vstd::prelude::*;

verus! {

/// An account or contract identity, as the host hands it to the vault.
#[derive(Clone, Copy, Debug, PartialEq, Eq, Structural, Hash)]
pub struct Address(pub u64);

/// Why an operation on the vault was refused. A refused operation leaves the
/// vault as it was.
#[derive(Clone, Copy, Debug, PartialEq, Eq, Structural)]
pub enum Error {
    NotInitialized,
    AlreadyInitialized,
    NegativeAmount,
    Unauthorized,
    NoStrategies,
    ContractPaused,
    DepositCapExceeded,
    WithdrawalCapExceeded,
    StaleOracleData,
    InvalidTimestamp,
    ProposalNotFound,
    AlreadyApproved,
    ProposalExecuted,
    InsufficientApprovals,
    /// The caller, or the pool as a whole, holds fewer shares than a
    /// withdrawal asks to redeem.
    InsufficientShares,
    /// A result does not fit in 128 bits.
    ArithmeticOverflow,
}

/// Whether `a` occurs in `list`.
pub fn contains_address(list: &Vec<Address>, a: Address) -> (r: bool)
    ensures
        r == list@.contains(a),
{
    let mut i: usize = 0;
    while i < list.len()
        invariant
            i <= list.len(),
            forall|j: int| 0 <= j < i ==> list@[j] != a,
        decreases list.len() - i,
    {
        if list[i] == a {
            return true;
        }
        i += 1;
    }
    false
}

/// A copy of `list`, element for element.
pub fn copy_addresses(list: &Vec<Address>) -> (r: Vec<Address>)
    ensures
        r@ == list@,
{
    let mut out: Vec<Address> = Vec::new();
    let mut i: usize = 0;
    while i < list.len()
        invariant
            i <= list.len(),
            out@ == list@.take(i as int),
        decreases list.len() - i,
    {
        out.push(list[i]);
        i += 1;
        assert(out@ =~= list@.take(i as int));
    }
    assert(list@.take(list.len() as int) =~= list@);
    out
}

} // verus!
