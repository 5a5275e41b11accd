use vstd::prelude::*;
use crate::address::{get_greeting_public_key, greeting_address, has_pda_marker, Address};
use crate::codec::ENCODED_SIZE;
use crate::error::{AddressError, Error};

verus! {

/// A "create account with seed" request for the counter account.
#[derive(Clone, Copy, Debug)]
pub struct CreateAccount {
    /// Pays for the new account and signs.
    pub payer: Address,
    /// The derived counter account address.
    pub address: Address,
    /// The key the address is derived from.
    pub base: Address,
    /// Lamports moved into the new account.
    pub lamports: u64,
    /// Size of the account's data.
    pub space: usize,
    /// The program that will own the account.
    pub owner: Address,
}

/// The counter account of a run, and the creation it needs, if any.
#[derive(Clone, Copy, Debug)]
pub struct Resolution {
    pub address: Address,
    pub create: Option<CreateAccount>,
}

/// The bytes of an account as the ledger reported them (`None`: absent).
pub open spec fn data_view(d: &Option<Vec<u8>>) -> Option<Seq<u8>> {
    match d {
        Some(v) => Some(v@),
        None => None,
    }
}

/// An account is created exactly when the ledger has no data for it.
pub open spec fn creates(existing: Option<Seq<u8>>) -> bool {
    existing is None
}

/// Derives the counter account and decides whether it must be created,
/// given the data the ledger holds at that address and the rent-exempt
/// minimum for a counter account. An existing account is used as it is.
pub fn resolve_or_create(
    operator: &Address,
    program: &Address,
    account_data: &Option<Vec<u8>>,
    rent_minimum: u64,
) -> (r: Result<Resolution, Error>)
    ensures
        r is Ok <==> !has_pda_marker(program.bytes@),
        r matches Err(e) ==> greeting_address(operator.bytes@, program.bytes@) matches Err(ae) && e
            == Error::Address(ae),
        r matches Ok(res) ==> {
            &&& greeting_address(operator.bytes@, program.bytes@) == Ok::<Seq<u8>, AddressError>(
                res.address.bytes@,
            )
            &&& (res.create is Some <==> creates(data_view(account_data)))
            &&& res.create matches Some(c) ==> {
                &&& c.payer.bytes@ == operator.bytes@
                &&& c.base.bytes@ == operator.bytes@
                &&& c.address.bytes@ == res.address.bytes@
                &&& c.owner.bytes@ == program.bytes@
                &&& c.lamports == rent_minimum
                &&& c.space == ENCODED_SIZE
            }
        },
{
    let address = get_greeting_public_key(operator, program)?;
    let create = match account_data {
        Some(_) => None,
        None => Some(
            CreateAccount {
                payer: *operator,
                address,
                base: *operator,
                lamports: rent_minimum,
                space: ENCODED_SIZE,
                owner: *program,
            },
        ),
    };
    Ok(Resolution { address, create })
}

/// The data a ledger, modelled as a map from address to data, holds at an
/// address.
pub open spec fn account_in(ledger: Map<Seq<u8>, Seq<u8>>, a: Seq<u8>) -> Option<Seq<u8>> {
    if ledger.contains_key(a) {
        Some(ledger[a])
    } else {
        None
    }
}

/// The ledger after one resolution at `a`, and the creation it may submit.
pub open spec fn after_resolution(ledger: Map<Seq<u8>, Seq<u8>>, a: Seq<u8>, space: nat) -> Map<
    Seq<u8>,
    Seq<u8>,
> {
    if creates(account_in(ledger, a)) {
        ledger.insert(a, Seq::new(space, |i: int| 0u8))
    } else {
        ledger
    }
}

/// How many creation requests one resolution submits.
pub open spec fn creations(existing: Option<Seq<u8>>) -> int {
    if creates(existing) {
        1
    } else {
        0
    }
}

/// Resolving twice in succession against the same ledger submits exactly one
/// creation when the account was absent and none when it existed; the second
/// resolution finds the account and writes nothing.
pub proof fn lemma_idempotent_creation(ledger: Map<Seq<u8>, Seq<u8>>, a: Seq<u8>, space: nat)
    ensures
        !creates(account_in(after_resolution(ledger, a, space), a)),
        after_resolution(after_resolution(ledger, a, space), a, space) == after_resolution(
            ledger,
            a,
            space,
        ),
        creations(account_in(ledger, a)) + creations(
            account_in(after_resolution(ledger, a, space), a),
        ) == if ledger.contains_key(a) {
            0int
        } else {
            1int
        },
{
}

} // verus!
