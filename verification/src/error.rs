//! The reasons for which a request is rejected.

use vstd::prelude::*;

verus! {

/// Why a request was rejected. Every rejection aborts the whole request:
/// a handler that returns one of these hands back nothing to commit.
#[derive(Clone, Copy, Debug, PartialEq, Eq, Structural)]
pub enum PrizeError {
    /// The operation needs a record that an earlier request has initialised.
    UninitializedAccount,
    /// The record account supplied is not the one derived for the party.
    InvalidPDA,
    /// The claimant is none of the three configured winners.
    NotWinner,
    /// The encoded record does not fit the storage slot it is meant for.
    InvalidDataLength,
    /// A window that starts after it ends, or a withdrawal before maturity.
    InvalidTime,
    /// The prize or the reward has been paid out already.
    Claimed,
    /// The signature of the party that has to authorise the request is absent.
    Unauthorized,
    /// The record account is not owned by this program.
    IllegalOwner,
    /// The slot already holds an initialised record.
    AlreadyInitialized,
    /// The escrow holds less than the amount that has to leave it.
    InsufficientFunds,
    /// Unknown selector, or a payload or a record that cannot be decoded.
    MalformedRequest,
    /// A token account or token program that is not the token program's.
    IncorrectProgramId,
    /// An amount or a point in time that does not fit in 64 bits.
    ArithmeticOverflow,
    /// The request comes with fewer accounts than its handler reads.
    NotEnoughAccountKeys,
}

impl PrizeError {
    /// The numeric code under which the rejection is reported to a client.
    pub open spec fn spec_code(self) -> u32 {
        match self {
            PrizeError::UninitializedAccount => 0,
            PrizeError::InvalidPDA => 1,
            PrizeError::NotWinner => 2,
            PrizeError::InvalidDataLength => 3,
            PrizeError::InvalidTime => 4,
            PrizeError::Claimed => 5,
            PrizeError::Unauthorized => 6,
            PrizeError::IllegalOwner => 7,
            PrizeError::AlreadyInitialized => 8,
            PrizeError::InsufficientFunds => 9,
            PrizeError::MalformedRequest => 10,
            PrizeError::IncorrectProgramId => 11,
            PrizeError::ArithmeticOverflow => 12,
            PrizeError::NotEnoughAccountKeys => 13,
        }
    }

    /// The numeric code under which the rejection is reported to a client.
    pub fn code(&self) -> (code: u32)
        ensures
            code == self.spec_code(),
    {
        match self {
            PrizeError::UninitializedAccount => 0,
            PrizeError::InvalidPDA => 1,
            PrizeError::NotWinner => 2,
            PrizeError::InvalidDataLength => 3,
            PrizeError::InvalidTime => 4,
            PrizeError::Claimed => 5,
            PrizeError::Unauthorized => 6,
            PrizeError::IllegalOwner => 7,
            PrizeError::AlreadyInitialized => 8,
            PrizeError::InsufficientFunds => 9,
            PrizeError::MalformedRequest => 10,
            PrizeError::IncorrectProgramId => 11,
            PrizeError::ArithmeticOverflow => 12,
            PrizeError::NotEnoughAccountKeys => 13,
        }
    }

    /// The text shown for the rejection.
    pub open spec fn spec_message(self) -> Seq<char> {
        match self {
            PrizeError::UninitializedAccount => "Account not initialized yet"@,
            PrizeError::InvalidPDA => "PDA derived does not equal PDA passed in"@,
            PrizeError::NotWinner => "Account is not a winner"@,
            PrizeError::InvalidDataLength => "Input data exceeds max length"@,
            PrizeError::InvalidTime => "Time is invalid"@,
            PrizeError::Claimed => "Already claimed"@,
            PrizeError::Unauthorized => "Missing required signature"@,
            PrizeError::IllegalOwner => "Account is not owned by this program"@,
            PrizeError::AlreadyInitialized => "Account already initialized"@,
            PrizeError::InsufficientFunds => "Escrow balance is insufficient"@,
            PrizeError::MalformedRequest => "Request is malformed"@,
            PrizeError::IncorrectProgramId => "Incorrect token program"@,
            PrizeError::ArithmeticOverflow => "Amount does not fit in 64 bits"@,
            PrizeError::NotEnoughAccountKeys => "Not enough account keys"@,
        }
    }

    /// The text shown for the rejection.
    pub fn message(&self) -> (text: &'static str)
        ensures
            text@ == self.spec_message(),
    {
        match self {
            PrizeError::UninitializedAccount => "Account not initialized yet",
            PrizeError::InvalidPDA => "PDA derived does not equal PDA passed in",
            PrizeError::NotWinner => "Account is not a winner",
            PrizeError::InvalidDataLength => "Input data exceeds max length",
            PrizeError::InvalidTime => "Time is invalid",
            PrizeError::Claimed => "Already claimed",
            PrizeError::Unauthorized => "Missing required signature",
            PrizeError::IllegalOwner => "Account is not owned by this program",
            PrizeError::AlreadyInitialized => "Account already initialized",
            PrizeError::InsufficientFunds => "Escrow balance is insufficient",
            PrizeError::MalformedRequest => "Request is malformed",
            PrizeError::IncorrectProgramId => "Incorrect token program",
            PrizeError::ArithmeticOverflow => "Amount does not fit in 64 bits",
            PrizeError::NotEnoughAccountKeys => "Not enough account keys",
        }
    }
}

} // verus!
