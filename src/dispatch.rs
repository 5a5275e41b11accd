use vstd::prelude::*;
use crate::account::data_view;
use crate::address::Address;
use crate::codec::{decode, le_bytes, le_value, lemma_round_trip, ENCODED_SIZE};
use crate::error::{confirm, confirmation_result, Confirmation, Error};

verus! {

/// The increment instruction: addressed to the program, with the counter
/// account as its only account and an empty payload.
#[derive(Debug)]
pub struct Instruction {
    pub program_id: Address,
    pub account: Address,
    pub data: Vec<u8>,
}

/// Builds the instruction that asks the program to increment the counter.
pub fn greeting_instruction(program: &Address, account: &Address) -> (r: Instruction)
    ensures
        r.program_id.bytes@ == program.bytes@,
        r.account.bytes@ == account.bytes@,
        r.data@.len() == 0,
{
    Instruction { program_id: *program, account: *account, data: Vec::new() }
}

/// The counter that account data read after a confirmed increment holds: an
/// absent or malformed account breaks the program's promise.
pub open spec fn count_result(data: Option<Seq<u8>>) -> Result<u32, Error> {
    match data {
        Some(d) => if d.len() == ENCODED_SIZE {
            Ok(le_value(d) as u32)
        } else {
            Err(Error::ProtocolViolation)
        },
        None => Err(Error::ProtocolViolation),
    }
}

/// Reads the counter out of the account data fetched after an increment.
pub fn read_count(account_data: &Option<Vec<u8>>) -> (r: Result<u32, Error>)
    ensures
        r == count_result(data_view(account_data)),
{
    match account_data {
        Some(d) => match decode(d.as_slice()) {
            Ok(v) => Ok(v),
            Err(_) => Err(Error::ProtocolViolation),
        },
        None => Err(Error::ProtocolViolation),
    }
}

/// Finishes an increment: given how the submitted instruction was confirmed
/// and the account data read afterwards, returns the new counter.
pub fn increment_and_count(sent: Confirmation, account_data: &Option<Vec<u8>>) -> (r: Result<
    u32,
    Error,
>)
    ensures
        r == match confirmation_result(sent) {
            Ok(_) => count_result(data_view(account_data)),
            Err(e) => Err(e),
        },
{
    confirm(sent)?;
    read_count(account_data)
}

/// The program's effect on the counter account: the counter goes up by one.
pub open spec fn program_increment(d: Seq<u8>) -> Seq<u8> {
    le_bytes((le_value(d) + 1) as u32)
}

/// The counter account after `k` increments of a freshly created account.
pub open spec fn after_increments(k: nat) -> Seq<u8>
    decreases k,
{
    if k == 0 {
        le_bytes(0)
    } else {
        program_increment(after_increments((k - 1) as nat))
    }
}

/// After each of `k` increments of a fresh account the count read back is
/// one more than the previous one: the counts are `1, 2, ..., k`.
pub proof fn lemma_monotonic_counter(k: nat)
    requires
        k <= u32::MAX,
    ensures
        count_result(Some(after_increments(k))) == Ok::<u32, Error>(k as u32),
        k >= 1 ==> le_value(after_increments(k)) == le_value(after_increments((k - 1) as nat)) + 1,
    decreases k,
{
    if k == 0 {
        lemma_round_trip(0);
    } else {
        lemma_monotonic_counter((k - 1) as nat);
        lemma_round_trip(k as u32);
    }
}

} // verus!
