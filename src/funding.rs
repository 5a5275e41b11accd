use vstd::prelude::*;
use crate::error::{Confirmation, Error};

verus! {

/// Lamports kept on top of the rent-exempt minimum to pay the fee of the
/// increment transaction.
pub const TRANSACTION_FEE_RESERVE: u64 = 5000;

/// What the operator must hold: the rent-exempt minimum of the counter
/// account plus the fee reserve.
pub open spec fn balance_requirement(rent_minimum: u64) -> int {
    rent_minimum + TRANSACTION_FEE_RESERVE
}

/// Computes the balance requirement from the ledger's rent-exempt minimum
/// for a counter account; `None` when the sum does not fit in a `u64`.
pub fn get_balance_requirement(rent_minimum: u64) -> (r: Option<u64>)
    ensures
        r is Some <==> balance_requirement(rent_minimum) <= u64::MAX,
        r matches Some(v) ==> v == balance_requirement(rent_minimum),
{
    rent_minimum.checked_add(TRANSACTION_FEE_RESERVE)
}

/// What to do about the operator's balance.
#[derive(Clone, Copy, Debug, PartialEq, Eq, Structural)]
pub enum FundingPlan {
    /// The balance already meets the requirement.
    Funded,
    /// Request an airdrop of this many lamports and wait for it.
    Airdrop(u64),
}

/// Decides whether the operator needs an airdrop: exactly when the balance is
/// below the requirement, and then for exactly the shortfall.
pub fn ensure_funded(balance: u64, requirement: u64) -> (r: FundingPlan)
    ensures
        r is Airdrop <==> balance < requirement,
        r matches FundingPlan::Airdrop(n) ==> n == requirement - balance,
{
    if balance >= requirement {
        FundingPlan::Funded
    } else {
        FundingPlan::Airdrop(requirement - balance)
    }
}

/// What the outcome of an airdrop means: a refused or failed airdrop is a
/// funding error, distinct from an ordinary ledger failure.
pub open spec fn airdrop_result(c: Confirmation) -> Result<(), Error> {
    match c {
        Confirmation::Confirmed => Ok(()),
        Confirmation::Failed => Err(Error::FundingError),
        Confirmation::TimedOut => Err(Error::ConfirmationTimeout),
    }
}

/// Turns the outcome of an airdrop request and its confirmation into a
/// result.
pub fn airdrop_outcome(c: Confirmation) -> (r: Result<(), Error>)
    ensures
        r == airdrop_result(c),
{
    match c {
        Confirmation::Confirmed => Ok(()),
        Confirmation::Failed => Err(Error::FundingError),
        Confirmation::TimedOut => Err(Error::ConfirmationTimeout),
    }
}

} // verus!
