use std::collections::HashMap;

use greeting_client::account::{resolve_or_create, CreateAccount};
use greeting_client::address::{get_greeting_public_key, get_greeting_seed, Address};
use greeting_client::codec::encode;
use greeting_client::dispatch::{greeting_instruction, increment_and_count, read_count};
use greeting_client::error::{confirm, AddressError, Confirmation, Error};
use greeting_client::funding::{
    airdrop_outcome, ensure_funded, get_balance_requirement, FundingPlan, TRANSACTION_FEE_RESERVE,
};
use solana_sdk::pubkey::Pubkey;

fn key(b: u8) -> Address {
    Address { bytes: [b; 32] }
}

/// A ledger held in memory: account data by address.
struct SimLedger {
    accounts: HashMap<[u8; 32], Vec<u8>>,
    creations: usize,
}

impl SimLedger {
    fn new() -> SimLedger {
        SimLedger { accounts: HashMap::new(), creations: 0 }
    }

    fn data(&self, a: &Address) -> Option<Vec<u8>> {
        self.accounts.get(&a.bytes).cloned()
    }

    fn create(&mut self, c: &CreateAccount) {
        self.creations += 1;
        self.accounts.insert(c.address.bytes, vec![0; c.space]);
    }

    /// What the program does on an increment instruction.
    fn increment(&mut self, a: &Address) {
        let data = self.accounts.get_mut(&a.bytes).unwrap();
        let n = u32::from_le_bytes([data[0], data[1], data[2], data[3]]);
        *data = encode(n + 1);
    }

    fn resolve(&mut self, operator: &Address, program: &Address, rent: u64) -> Address {
        let existing = self.data(&greeting_address(operator, program));
        let res = resolve_or_create(operator, program, &existing, rent).unwrap();
        if let Some(c) = &res.create {
            self.create(c);
        }
        res.address
    }

    fn send_increment(&mut self, operator: &Address, program: &Address, account: &Address) -> u32 {
        let _ = operator;
        let ix = greeting_instruction(program, account);
        assert!(ix.data.is_empty());
        self.increment(&ix.account);
        increment_and_count(Confirmation::Confirmed, &self.data(account)).unwrap()
    }
}

fn greeting_address(operator: &Address, program: &Address) -> Address {
    get_greeting_public_key(operator, program).unwrap()
}

#[test]
fn seed_is_hello() {
    assert_eq!(get_greeting_seed(), "hello");
}

#[test]
fn derivation_matches_ledger_rule() {
    let player = key(7);
    let program = key(9);
    let a = greeting_address(&player, &program);
    let expected = Pubkey::create_with_seed(
        &Pubkey::new_from_array(player.bytes),
        "hello",
        &Pubkey::new_from_array(program.bytes),
    )
    .unwrap();
    assert_eq!(a.bytes, expected.to_bytes());
    assert_ne!(a.bytes, player.bytes);
    assert_ne!(a.bytes, program.bytes);
}

#[test]
fn derivation_is_deterministic() {
    let a1 = greeting_address(&key(1), &key(2));
    let a2 = greeting_address(&key(1), &key(2));
    assert_eq!(a1.bytes, a2.bytes);
    let a3 = greeting_address(&key(2), &key(1));
    assert_ne!(a1.bytes, a3.bytes);
}

#[test]
fn derivation_refuses_marked_owner() {
    let mut owner = [0u8; 32];
    owner[11..].copy_from_slice(b"ProgramDerivedAddress");
    let r = get_greeting_public_key(&key(1), &Address { bytes: owner });
    assert_eq!(r.unwrap_err(), Error::Address(AddressError::IllegalOwner));
    let r = resolve_or_create(&key(1), &Address { bytes: owner }, &None, 10);
    assert_eq!(r.unwrap_err(), Error::Address(AddressError::IllegalOwner));
}

#[test]
fn creation_request_fields() {
    let op = key(3);
    let prog = key(4);
    let res = resolve_or_create(&op, &prog, &None, 1_000).unwrap();
    let c = res.create.unwrap();
    assert_eq!(c.payer.bytes, op.bytes);
    assert_eq!(c.base.bytes, op.bytes);
    assert_eq!(c.owner.bytes, prog.bytes);
    assert_eq!(c.address.bytes, res.address.bytes);
    assert_eq!(c.lamports, 1_000);
    assert_eq!(c.space, 4);
    let again = resolve_or_create(&op, &prog, &Some(vec![0, 0, 0, 0]), 1_000).unwrap();
    assert!(again.create.is_none());
    assert_eq!(again.address.bytes, res.address.bytes);
}

#[test]
fn idempotent_creation_on_sim_ledger() {
    let mut ledger = SimLedger::new();
    let a1 = ledger.resolve(&key(1), &key(2), 500);
    let a2 = ledger.resolve(&key(1), &key(2), 500);
    assert_eq!(a1.bytes, a2.bytes);
    assert_eq!(ledger.creations, 1);
    assert_eq!(ledger.data(&a1), Some(vec![0, 0, 0, 0]));
}

#[test]
fn funding_threshold() {
    assert_eq!(ensure_funded(0, 2_000_000), FundingPlan::Airdrop(2_000_000));
    assert_eq!(ensure_funded(1_500_000, 2_000_000), FundingPlan::Airdrop(500_000));
    assert_eq!(ensure_funded(1_999_999, 2_000_000), FundingPlan::Airdrop(1));
    assert_eq!(ensure_funded(2_000_000, 2_000_000), FundingPlan::Funded);
    assert_eq!(ensure_funded(u64::MAX, 2_000_000), FundingPlan::Funded);
    assert_eq!(ensure_funded(0, 0), FundingPlan::Funded);
}

#[test]
fn balance_requirement_adds_fee_reserve() {
    assert_eq!(get_balance_requirement(890_880), Some(890_880 + TRANSACTION_FEE_RESERVE));
    assert_eq!(get_balance_requirement(u64::MAX - TRANSACTION_FEE_RESERVE), Some(u64::MAX));
    assert_eq!(get_balance_requirement(u64::MAX), None);
}

#[test]
fn confirmation_outcomes() {
    assert_eq!(confirm(Confirmation::Confirmed), Ok(()));
    assert_eq!(confirm(Confirmation::Failed), Err(Error::NetworkError));
    assert_eq!(confirm(Confirmation::TimedOut), Err(Error::ConfirmationTimeout));
    assert_eq!(airdrop_outcome(Confirmation::Confirmed), Ok(()));
    assert_eq!(airdrop_outcome(Confirmation::Failed), Err(Error::FundingError));
    assert_eq!(airdrop_outcome(Confirmation::TimedOut), Err(Error::ConfirmationTimeout));
}

#[test]
fn increment_errors() {
    assert_eq!(increment_and_count(Confirmation::Confirmed, &None), Err(Error::ProtocolViolation));
    assert_eq!(
        increment_and_count(Confirmation::Confirmed, &Some(vec![1, 0])),
        Err(Error::ProtocolViolation)
    );
    assert_eq!(
        increment_and_count(Confirmation::Failed, &Some(vec![1, 0, 0, 0])),
        Err(Error::NetworkError)
    );
    assert_eq!(
        increment_and_count(Confirmation::TimedOut, &Some(vec![1, 0, 0, 0])),
        Err(Error::ConfirmationTimeout)
    );
    assert_eq!(read_count(&Some(vec![7, 0, 0, 0])), Ok(7));
}

#[test]
fn counter_counts_up_from_fresh_account() {
    let mut ledger = SimLedger::new();
    let (op, prog) = (key(5), key(6));
    let a = ledger.resolve(&op, &prog, 100);
    for expected in 1..=20u32 {
        assert_eq!(ledger.send_increment(&op, &prog, &a), expected);
    }
}

#[test]
fn fresh_operator_scenario() {
    let mut ledger = SimLedger::new();
    let (op, prog) = (key(10), key(11));
    let rent = 2_000_000 - TRANSACTION_FEE_RESERVE;
    let requirement = get_balance_requirement(rent).unwrap();
    assert_eq!(requirement, 2_000_000);
    assert_eq!(ensure_funded(0, requirement), FundingPlan::Airdrop(2_000_000));
    let res = resolve_or_create(&op, &prog, &None, rent).unwrap();
    let c = res.create.unwrap();
    assert_eq!(c.lamports, rent);
    ledger.create(&c);
    assert_eq!(ledger.send_increment(&op, &prog, &res.address), 1);
}

#[test]
fn existing_account_scenario() {
    let mut ledger = SimLedger::new();
    let (op, prog) = (key(12), key(13));
    let a = greeting_address(&op, &prog);
    ledger.accounts.insert(a.bytes, encode(41));
    let resolved = ledger.resolve(&op, &prog, 100);
    assert_eq!(resolved.bytes, a.bytes);
    assert_eq!(ledger.creations, 0);
    assert_eq!(ledger.send_increment(&op, &prog, &a), 42);
}

#[test]
fn error_messages() {
    assert_eq!(Error::ConfigReadError.message(), "configuration file could not be read");
    assert_eq!(Error::ConfirmationTimeout.message(), "confirmation timed out");
    assert_eq!(Error::ProtocolViolation.message(), "program did not populate the counter account");
    assert_eq!(
        Error::Address(AddressError::IllegalOwner).message(),
        "counter account address could not be derived"
    );
}
