use vstd::prelude::*;
use crate::error::{AddressError, Error};
use solana_sdk::pubkey::{Pubkey, PubkeyError};
use vstd::string::StringSliceAdditionalSpecFns;

verus! {

/// Longest seed, in bytes, that address derivation accepts.
pub const MAX_SEED_LEN: usize = 32;

/// A ledger public key: 32 bytes.
#[derive(Clone, Copy, Debug)]
pub struct Address {
    pub bytes: [u8; 32],
}

/// The bytes that mark an owner reserved for program-derived addresses.
pub open spec fn pda_marker() -> Seq<u8> {
    seq![80u8, 114, 111, 103, 114, 97, 109, 68, 101, 114, 105, 118, 101, 100, 65, 100, 100, 114, 101, 115, 115]
}

/// Whether an owner key ends with the program-derived-address marker.
pub open spec fn has_pda_marker(owner: Seq<u8>) -> bool {
    owner.len() >= pda_marker().len() && owner.subrange(
        owner.len() - pda_marker().len(),
        owner.len() as int,
    ) == pda_marker()
}

/// The address that the ledger derives from a base key, a seed and an
/// owner (a hash of the three).
pub uninterp spec fn seeded_address(base: Seq<u8>, seed: Seq<u8>, owner: Seq<u8>) -> Seq<u8>;

/// What deriving an address from a base key, a seed and an owner gives.
pub open spec fn derived(base: Seq<u8>, seed: Seq<u8>, owner: Seq<u8>) -> Result<Seq<u8>, AddressError> {
    if seed.len() > MAX_SEED_LEN {
        Err(AddressError::MaxSeedLengthExceeded)
    } else if has_pda_marker(owner) {
        Err(AddressError::IllegalOwner)
    } else {
        Ok(seeded_address(base, seed, owner))
    }
}

/// Relies on solana_sdk's `Pubkey::create_with_seed`: it refuses a seed over
/// `MAX_SEED_LEN` bytes, then an owner that ends with the program-derived
/// marker, and otherwise returns the hash of base, seed and owner.
#[verifier::external_body]
fn create_with_seed(base: &[u8; 32], seed: &str, owner: &[u8; 32]) -> (r: Result<[u8; 32], AddressError>)
    ensures
        r is Ok <==> (seed.spec_bytes().len() <= MAX_SEED_LEN && !has_pda_marker(owner@)),
        r is Ok ==> r->Ok_0@ == seeded_address(base@, seed.spec_bytes(), owner@),
        r is Err ==> (r->Err_0 == AddressError::MaxSeedLengthExceeded <==> seed.spec_bytes().len() > MAX_SEED_LEN),
        r is Err ==> r->Err_0 != AddressError::InvalidSeeds,
{
    let base = Pubkey::new_from_array(*base);
    let owner = Pubkey::new_from_array(*owner);
    match Pubkey::create_with_seed(&base, seed, &owner) {
        Ok(k) => Ok(k.to_bytes()),
        Err(PubkeyError::MaxSeedLengthExceeded) => Err(AddressError::MaxSeedLengthExceeded),
        Err(PubkeyError::InvalidSeeds) => Err(AddressError::InvalidSeeds),
        Err(PubkeyError::IllegalOwner) => Err(AddressError::IllegalOwner),
    }
}

/// The bytes of the seed from which greeting accounts are derived.
pub open spec fn greeting_seed_bytes() -> Seq<u8> {
    seq![104u8, 101, 108, 108, 111]
}

/// The greeting account address of a player and a program, if the program
/// key may own derived accounts.
pub open spec fn greeting_address(player: Seq<u8>, program: Seq<u8>) -> Result<Seq<u8>, AddressError> {
    derived(player, greeting_seed_bytes(), program)
}

/// The seed used to derive greeting accounts. Changing it gives every player
/// a new greeting account, and so restarts the counter.
pub fn get_greeting_seed() -> (r: &'static str)
    ensures
        r@ == seq!['h', 'e', 'l', 'l', 'o'],
        r.spec_bytes() == greeting_seed_bytes(),
{
    proof {
        reveal_strlit("hello");
    }
    let s = "hello";
    proof {
        broadcast use vstd::string::is_ascii_spec_bytes;
        assert(vstd::string::is_ascii(s));
        assert(s.spec_bytes() =~= greeting_seed_bytes());
    }
    s
}

/// Derives the greeting account address of a player for a program.
pub fn get_greeting_public_key(player: &Address, program: &Address) -> (r: Result<Address, Error>)
    ensures
        r matches Ok(a) ==> greeting_address(player.bytes@, program.bytes@) == Ok::<Seq<u8>, AddressError>(a.bytes@),
        r matches Err(e) ==> greeting_address(player.bytes@, program.bytes@) matches Err(ae) && e == Error::Address(ae),
        r is Ok <==> !has_pda_marker(program.bytes@),
{
    let seed = get_greeting_seed();
    match create_with_seed(&player.bytes, seed, &program.bytes) {
        Ok(bytes) => Ok(Address { bytes }),
        Err(e) => Err(Error::Address(e)),
    }
}

/// Derivation is a function of its inputs: the same player and program give
/// the same greeting account address, on every call.
pub proof fn lemma_derivation_deterministic(
    player1: Seq<u8>,
    program1: Seq<u8>,
    player2: Seq<u8>,
    program2: Seq<u8>,
)
    requires
        player1 == player2,
        program1 == program2,
    ensures
        greeting_address(player1, program1) == greeting_address(player2, program2),
{
}

} // verus!
