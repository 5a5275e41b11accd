use vstd::prelude::*;
use vstd::pervasive::unreached;
use crate::account::{creates, data_view, resolve_or_create, CreateAccount};
use crate::address::{get_greeting_public_key, greeting_address, Address};
use crate::codec::ENCODED_SIZE;
use crate::dispatch::{count_result, greeting_instruction, read_count, Instruction};
use crate::error::{confirm, confirmation_result, Confirmation, Error};
use crate::funding::{
    airdrop_outcome, airdrop_result, balance_requirement, ensure_funded, get_balance_requirement,
    FundingPlan,
};

verus! {

/// Where a run of the client stands.
#[derive(Clone, Copy, Debug)]
pub enum Session {
    /// Nothing asked yet.
    Start,
    /// Waiting for the rent-exempt minimum of a counter account.
    AwaitRent,
    /// Waiting for the player's balance.
    AwaitBalance { rent: u64, requirement: u64 },
    /// Waiting for the airdrop to be confirmed.
    AwaitAirdrop { rent: u64 },
    /// Waiting for the counter account's data, to decide on creating it.
    AwaitAccount { rent: u64, address: Address },
    /// Waiting for the creation of the counter account to be confirmed.
    AwaitCreate { address: Address },
    /// Waiting for the increment to be confirmed.
    AwaitIncrement { address: Address },
    /// Waiting for the counter account's data after the increment.
    AwaitCount { address: Address },
    /// The run is over.
    Done,
}

/// What the ledger answered to the last request.
#[derive(Debug)]
pub enum Event {
    /// The run begins.
    Started,
    RentMinimum(u64),
    Balance(u64),
    AccountData(Option<Vec<u8>>),
    /// The outcome of a submitted transaction or airdrop.
    Settled(Confirmation),
    /// The request could not be carried out.
    NetworkFailure,
}

/// What to ask of the ledger next.
#[derive(Debug)]
pub enum Action {
    QueryRentMinimum(usize),
    QueryBalance(Address),
    RequestAirdrop(Address, u64),
    QueryAccount(Address),
    CreateAccount(CreateAccount),
    Send(Instruction),
    /// The run is over with this result.
    Finish(Result<u32, Error>),
}

/// Whether an event answers what a session waits for.
pub open spec fn answers(s: Session, e: &Event) -> bool {
    match e {
        Event::NetworkFailure => !(s is Done),
        Event::Started => s is Start,
        Event::RentMinimum(_) => s is AwaitRent,
        Event::Balance(_) => s is AwaitBalance,
        Event::AccountData(_) => s is AwaitAccount || s is AwaitCount,
        Event::Settled(_) => s is AwaitAirdrop || s is AwaitCreate || s is AwaitIncrement,
    }
}

/// Tells whether an event answers what a session waits for.
pub fn accepts(s: &Session, e: &Event) -> (r: bool)
    ensures
        r == answers(*s, e),
{
    match e {
        Event::NetworkFailure => !matches!(s, Session::Done),
        Event::Started => matches!(s, Session::Start),
        Event::RentMinimum(_) => matches!(s, Session::AwaitRent),
        Event::Balance(_) => matches!(s, Session::AwaitBalance { .. }),
        Event::AccountData(_) => matches!(s, Session::AwaitAccount { .. } | Session::AwaitCount { .. }),
        Event::Settled(_) => matches!(
            s,
            Session::AwaitAirdrop { .. } | Session::AwaitCreate { .. } | Session::AwaitIncrement { .. }
        ),
    }
}

/// The run ends with this result.
pub open spec fn finished(r: (Session, Action), res: Result<u32, Error>) -> bool {
    r.0 is Done && match r.1 {
        Action::Finish(x) => x == res,
        _ => false,
    }
}

/// Once the player is funded: the counter account is derived and its data
/// asked for, or the run ends if it cannot be derived.
pub open spec fn awaits_account(r: (Session, Action), rent: u64, player: Seq<u8>, program: Seq<u8>) -> bool {
    match greeting_address(player, program) {
        Ok(a) => match (r.0, r.1) {
            (Session::AwaitAccount { rent: rr, address }, Action::QueryAccount(q)) => rr == rent
                && address.bytes@ == a && q.bytes@ == a,
            _ => false,
        },
        Err(ae) => finished(r, Err(Error::Address(ae))),
    }
}

/// The increment instruction for the counter account is sent.
pub open spec fn sends_increment(r: (Session, Action), program: Seq<u8>, address: Seq<u8>) -> bool {
    match (r.0, r.1) {
        (Session::AwaitIncrement { address: a }, Action::Send(i)) => a.bytes@ == address
            && i.program_id.bytes@ == program && i.account.bytes@ == address && i.data@.len() == 0,
        _ => false,
    }
}

/// The counter account is created with the rent-exempt minimum, owned by
/// the program, paid for by the player.
pub open spec fn creates_account(
    r: (Session, Action),
    rent: u64,
    player: Seq<u8>,
    program: Seq<u8>,
    address: Seq<u8>,
) -> bool {
    match (r.0, r.1) {
        (Session::AwaitCreate { address: a }, Action::CreateAccount(c)) => a.bytes@ == address
            && c.address.bytes@ == address && c.payer.bytes@ == player && c.base.bytes@ == player
            && c.owner.bytes@ == program && c.lamports == rent && c.space == ENCODED_SIZE,
        _ => false,
    }
}

/// What one step does, for a session and an event that answers it.
pub open spec fn step_post(s: Session, player: Seq<u8>, program: Seq<u8>, e: &Event, r: (Session, Action)) -> bool {
    match e {
        Event::NetworkFailure => finished(r, Err(Error::NetworkError)),
        Event::Started => r.0 is AwaitRent && match r.1 {
            Action::QueryRentMinimum(n) => n == ENCODED_SIZE,
            _ => false,
        },
        Event::RentMinimum(rent) => if balance_requirement(*rent) <= u64::MAX {
            match (r.0, r.1) {
                (Session::AwaitBalance { rent: rr, requirement }, Action::QueryBalance(a)) => rr
                    == *rent && requirement == balance_requirement(*rent) && a.bytes@ == player,
                _ => false,
            }
        } else {
            finished(r, Err(Error::FundingError))
        },
        Event::Balance(b) => match s {
            Session::AwaitBalance { rent, requirement } => if *b < requirement {
                match (r.0, r.1) {
                    (Session::AwaitAirdrop { rent: rr }, Action::RequestAirdrop(a, n)) => rr == rent
                        && a.bytes@ == player && n == requirement - *b,
                    _ => false,
                }
            } else {
                awaits_account(r, rent, player, program)
            },
            _ => false,
        },
        Event::AccountData(d) => match s {
            Session::AwaitAccount { rent, .. } => match greeting_address(player, program) {
                Ok(a) => if creates(data_view(d)) {
                    creates_account(r, rent, player, program, a)
                } else {
                    sends_increment(r, program, a)
                },
                Err(ae) => finished(r, Err(Error::Address(ae))),
            },
            _ => finished(r, count_result(data_view(d))),
        },
        Event::Settled(c) => match s {
            Session::AwaitAirdrop { rent } => match airdrop_result(*c) {
                Ok(_) => awaits_account(r, rent, player, program),
                Err(err) => finished(r, Err(err)),
            },
            Session::AwaitCreate { address } => match confirmation_result(*c) {
                Ok(_) => sends_increment(r, program, address.bytes@),
                Err(err) => finished(r, Err(err)),
            },
            Session::AwaitIncrement { address } => match confirmation_result(*c) {
                Ok(_) => match (r.0, r.1) {
                    (Session::AwaitCount { address: a }, Action::QueryAccount(q)) => a.bytes@
                        == address.bytes@ && q.bytes@ == address.bytes@,
                    _ => false,
                },
                Err(err) => finished(r, Err(err)),
            },
            _ => false,
        },
    }
}

/// The step once the player is funded: derive the counter account and ask
/// for its data.
fn after_funding(player: &Address, program: &Address, rent: u64) -> (r: (Session, Action))
    ensures
        awaits_account(r, rent, player.bytes@, program.bytes@),
{
    match get_greeting_public_key(player, program) {
        Ok(address) => (Session::AwaitAccount { rent, address }, Action::QueryAccount(address)),
        Err(e) => (Session::Done, Action::Finish(Err(e))),
    }
}

/// The step that sends the increment for a counter account.
fn send_increment(program: &Address, address: Address) -> (r: (Session, Action))
    ensures
        sends_increment(r, program.bytes@, address.bytes@),
{
    (Session::AwaitIncrement { address }, Action::Send(greeting_instruction(program, &address)))
}

/// One step of a run: from where the session stands and what the ledger
/// answered, the next session and the next request. The run goes: rent
/// minimum, balance, airdrop when short, account data, creation when absent,
/// increment, account data again, finish.
pub fn step(s: Session, player: &Address, program: &Address, e: Event) -> (r: (Session, Action))
    requires
        answers(s, &e),
    ensures
        step_post(s, player.bytes@, program.bytes@, &e, r),
{
    match e {
        Event::NetworkFailure => (Session::Done, Action::Finish(Err(Error::NetworkError))),
        Event::Started => (Session::AwaitRent, Action::QueryRentMinimum(ENCODED_SIZE)),
        Event::RentMinimum(rent) => match get_balance_requirement(rent) {
            Some(requirement) => (
                Session::AwaitBalance { rent, requirement },
                Action::QueryBalance(*player),
            ),
            None => (Session::Done, Action::Finish(Err(Error::FundingError))),
        },
        Event::Balance(b) => {
            let (rent, requirement) = match s {
                Session::AwaitBalance { rent, requirement } => (rent, requirement),
                _ => unreached(),
            };
            match ensure_funded(b, requirement) {
                FundingPlan::Airdrop(n) => (
                    Session::AwaitAirdrop { rent },
                    Action::RequestAirdrop(*player, n),
                ),
                FundingPlan::Funded => after_funding(player, program, rent),
            }
        },
        Event::AccountData(d) => match s {
            Session::AwaitAccount { rent, address } => {
                match resolve_or_create(player, program, &d, rent) {
                    Ok(res) => match res.create {
                        Some(c) => (Session::AwaitCreate { address: res.address }, Action::CreateAccount(c)),
                        None => send_increment(program, res.address),
                    },
                    Err(err) => (Session::Done, Action::Finish(Err(err))),
                }
            },
            _ => (Session::Done, Action::Finish(read_count(&d))),
        },
        Event::Settled(c) => match s {
            Session::AwaitAirdrop { rent } => match airdrop_outcome(c) {
                Ok(()) => after_funding(player, program, rent),
                Err(err) => (Session::Done, Action::Finish(Err(err))),
            },
            Session::AwaitCreate { address } => match confirm(c) {
                Ok(()) => send_increment(program, address),
                Err(err) => (Session::Done, Action::Finish(Err(err))),
            },
            _ => {
                let address = match s {
                    Session::AwaitIncrement { address } => address,
                    _ => unreached(),
                };
                match confirm(c) {
                    Ok(()) => (Session::AwaitCount { address }, Action::QueryAccount(address)),
                    Err(err) => (Session::Done, Action::Finish(Err(err))),
                }
            },
        },
    }
}

} // verus!
