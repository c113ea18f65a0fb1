use vstd::prelude::*;

verus! {

/// The one terminating error that a failed operation reports.
#[derive(Clone, Copy, Debug, PartialEq, Eq, Structural)]
pub enum UniPinoNftErr {
    /// The caller-supplied location differs from the derived address.
    InvalidSeeds,
    /// No bump of the search space gives a valid derived address.
    AddressSpaceExhausted,
    /// A record has the wrong size or tag.
    MalformedRecord,
    /// The platform location is already live.
    AlreadyInitialized,
    /// The user location is already live.
    AlreadyExists,
    /// A location that must hold a live record does not.
    NotInitialized,
    /// A signer or ownership-chain check failed.
    Unauthorized,
    /// A counter would pass its maximum.
    CounterOverflow,
    /// A counter would go below zero.
    CounterUnderflow,
    /// The selector byte names no operation.
    UnknownOperation,
    /// Fewer locations were supplied than the operation reads.
    NotEnoughAccountKeys,
    /// The argument bytes do not decode into the operation's arguments.
    InvalidInstructionData,
    /// The payer's balance does not cover what the operation moves out of it.
    InsufficientFunds,
}

pub open spec fn error_code(e: UniPinoNftErr) -> u32 {
    match e {
        UniPinoNftErr::InvalidSeeds => 0,
        UniPinoNftErr::AddressSpaceExhausted => 1,
        UniPinoNftErr::MalformedRecord => 2,
        UniPinoNftErr::AlreadyInitialized => 3,
        UniPinoNftErr::AlreadyExists => 4,
        UniPinoNftErr::NotInitialized => 5,
        UniPinoNftErr::Unauthorized => 6,
        UniPinoNftErr::CounterOverflow => 7,
        UniPinoNftErr::CounterUnderflow => 8,
        UniPinoNftErr::UnknownOperation => 9,
        UniPinoNftErr::NotEnoughAccountKeys => 10,
        UniPinoNftErr::InvalidInstructionData => 11,
        UniPinoNftErr::InsufficientFunds => 12,
    }
}

impl UniPinoNftErr {
    /// The numeric code under which the error is reported to the runtime.
    pub fn code(&self) -> (r: u32)
        ensures
            r == error_code(*self),
    {
        match self {
            UniPinoNftErr::InvalidSeeds => 0,
            UniPinoNftErr::AddressSpaceExhausted => 1,
            UniPinoNftErr::MalformedRecord => 2,
            UniPinoNftErr::AlreadyInitialized => 3,
            UniPinoNftErr::AlreadyExists => 4,
            UniPinoNftErr::NotInitialized => 5,
            UniPinoNftErr::Unauthorized => 6,
            UniPinoNftErr::CounterOverflow => 7,
            UniPinoNftErr::CounterUnderflow => 8,
            UniPinoNftErr::UnknownOperation => 9,
            UniPinoNftErr::NotEnoughAccountKeys => 10,
            UniPinoNftErr::InvalidInstructionData => 11,
            UniPinoNftErr::InsufficientFunds => 12,
        }
    }

    /// A human-readable description of the error.
    pub fn to_str(&self) -> (r: &'static str)
        ensures
            r@ == error_message(*self)@,
    {
        match self {
            UniPinoNftErr::InvalidSeeds => "supplied location does not match the derived address",
            UniPinoNftErr::AddressSpaceExhausted => "no bump gives a valid derived address",
            UniPinoNftErr::MalformedRecord => "record has the wrong size or tag",
            UniPinoNftErr::AlreadyInitialized => "platform record is already live",
            UniPinoNftErr::AlreadyExists => "user record already exists",
            UniPinoNftErr::NotInitialized => "record is not live",
            UniPinoNftErr::Unauthorized => "signer or ownership check failed",
            UniPinoNftErr::CounterOverflow => "counter overflow",
            UniPinoNftErr::CounterUnderflow => "counter underflow",
            UniPinoNftErr::UnknownOperation => "unknown operation",
            UniPinoNftErr::NotEnoughAccountKeys => "not enough account keys",
            UniPinoNftErr::InvalidInstructionData => "invalid instruction data",
            UniPinoNftErr::InsufficientFunds => "insufficient funds",
        }
    }
}

pub open spec fn error_message(e: UniPinoNftErr) -> &'static str {
    match e {
        UniPinoNftErr::InvalidSeeds => "supplied location does not match the derived address",
        UniPinoNftErr::AddressSpaceExhausted => "no bump gives a valid derived address",
        UniPinoNftErr::MalformedRecord => "record has the wrong size or tag",
        UniPinoNftErr::AlreadyInitialized => "platform record is already live",
        UniPinoNftErr::AlreadyExists => "user record already exists",
        UniPinoNftErr::NotInitialized => "record is not live",
        UniPinoNftErr::Unauthorized => "signer or ownership check failed",
        UniPinoNftErr::CounterOverflow => "counter overflow",
        UniPinoNftErr::CounterUnderflow => "counter underflow",
        UniPinoNftErr::UnknownOperation => "unknown operation",
        UniPinoNftErr::NotEnoughAccountKeys => "not enough account keys",
        UniPinoNftErr::InvalidInstructionData => "invalid instruction data",
        UniPinoNftErr::InsufficientFunds => "insufficient funds",
    }
}

} // verus!
