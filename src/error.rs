use vstd::prelude::*;

verus! {

/// Why a counter payload could not be decoded.
#[derive(Clone, Copy, Debug, PartialEq, Eq, Structural)]
pub enum CodecError {
    /// The payload does not have the fixed encoded size.
    LengthMismatch,
}

/// Why an account address could not be derived from a seed.
#[derive(Clone, Copy, Debug, PartialEq, Eq, Structural)]
pub enum AddressError {
    /// The seed is longer than the ledger allows.
    MaxSeedLengthExceeded,
    /// The seeds do not give a valid address.
    InvalidSeeds,
    /// The owner is reserved for program-derived addresses.
    IllegalOwner,
}

/// What is wrong with the configuration.
#[derive(Clone, Copy, Debug, PartialEq, Eq, Structural)]
pub enum ConfigProblem {
    /// The file is not a well-formed document.
    Malformed,
    /// The file held this many documents instead of exactly one.
    DocumentCount(usize),
    /// The `json_rpc_url` field is absent or not a string.
    MissingRpcUrl,
    /// The `keypair_path` field is absent or not a string.
    MissingKeypairPath,
    /// The keypair file could not be read.
    UnreadableKeypair,
}

/// Every way a run of the client can fail.
#[derive(Clone, Copy, Debug, PartialEq, Eq, Structural)]
pub enum Error {
    /// The configuration file is missing or unreadable.
    ConfigReadError,
    /// The configuration is malformed or lacks a field.
    InvalidConfig(ConfigProblem),
    /// The ledger could not be reached, or refused a request.
    NetworkError,
    /// The airdrop needed to fund the operator was not granted.
    FundingError,
    /// A transaction did not reach finality in time.
    ConfirmationTimeout,
    /// A counter payload had the wrong size.
    Codec(CodecError),
    /// The program left the counter account empty or malformed after a
    /// confirmed increment.
    ProtocolViolation,
    /// The counter account address could not be derived.
    Address(AddressError),
}

impl Error {
    /// A short description of the error.
    pub fn message(&self) -> (r: &'static str)
        ensures
            r@ == match self {
                Error::ConfigReadError => "configuration file could not be read"@,
                Error::InvalidConfig(_) => "invalid configuration"@,
                Error::NetworkError => "ledger request failed"@,
                Error::FundingError => "airdrop was not granted"@,
                Error::ConfirmationTimeout => "confirmation timed out"@,
                Error::Codec(_) => "counter payload has the wrong size"@,
                Error::ProtocolViolation => "program did not populate the counter account"@,
                Error::Address(_) => "counter account address could not be derived"@,
            },
    {
        match self {
            Error::ConfigReadError => "configuration file could not be read",
            Error::InvalidConfig(_) => "invalid configuration",
            Error::NetworkError => "ledger request failed",
            Error::FundingError => "airdrop was not granted",
            Error::ConfirmationTimeout => "confirmation timed out",
            Error::Codec(_) => "counter payload has the wrong size",
            Error::ProtocolViolation => "program did not populate the counter account",
            Error::Address(_) => "counter account address could not be derived",
        }
    }
}

/// The outcome of waiting for a submitted transaction.
#[derive(Clone, Copy, Debug, PartialEq, Eq, Structural)]
pub enum Confirmation {
    /// The ledger reports the transaction final.
    Confirmed,
    /// The ledger or the transport reported a failure.
    Failed,
    /// Finality was not reached in time.
    TimedOut,
}

/// What a confirmation outcome means for an ordinary transaction.
pub open spec fn confirmation_result(c: Confirmation) -> Result<(), Error> {
    match c {
        Confirmation::Confirmed => Ok(()),
        Confirmation::Failed => Err(Error::NetworkError),
        Confirmation::TimedOut => Err(Error::ConfirmationTimeout),
    }
}

/// Turns the outcome of waiting for a transaction into a result: a failure
/// is a network error, and a timeout stays distinguishable.
pub fn confirm(c: Confirmation) -> (r: Result<(), Error>)
    ensures
        r == confirmation_result(c),
{
    match c {
        Confirmation::Confirmed => Ok(()),
        Confirmation::Failed => Err(Error::NetworkError),
        Confirmation::TimedOut => Err(Error::ConfirmationTimeout),
    }
}

} // verus!
