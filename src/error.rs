//! Errors raised while turning wire messages into validated models.

use vstd::prelude::*;

verus! {

/// The kinds of failure that decoding, validation and synthesis report.
#[derive(Clone, Copy, Debug, PartialEq, Eq, Structural)]
pub enum FixtureError {
    /// The wire bytes are not a well-formed message.
    InvalidProtobuf,
    /// A numeric field does not fit the width it is stored in.
    IntegerOutOfRange,
    /// A hash field is not exactly 32 bytes long.
    InvalidHashBytes,
    /// An identity or owner field is not exactly 32 bytes long.
    InvalidPubkeyBytes,
    /// An instruction account names an index past the end of the accounts.
    AccountMissing,
    /// A fixture carries no input context.
    InvalidFixtureInput,
    /// A fixture carries no expected effects.
    InvalidFixtureOutput,
    /// The runtime could not load the program under test.
    FailedToInitializeLoader,
    /// The rent-exempt balance of a synthesized account cannot be computed
    /// within 64 bits.
    BalanceOverflow,
    /// No program-data address could be derived for the program.
    AddressDerivationFailed,
}

/// The description of each error kind.
pub open spec fn error_text(e: FixtureError) -> Seq<char> {
    match e {
        FixtureError::InvalidProtobuf => "Invalid protobuf"@,
        FixtureError::IntegerOutOfRange => "Integer out of range"@,
        FixtureError::InvalidHashBytes => "Invalid hash bytes"@,
        FixtureError::InvalidPubkeyBytes => "Invalid public key bytes"@,
        FixtureError::AccountMissing => "Account missing"@,
        FixtureError::InvalidFixtureInput => "Invalid fixture input"@,
        FixtureError::InvalidFixtureOutput => "Invalid fixture output"@,
        FixtureError::FailedToInitializeLoader => "Failed to initialize loader"@,
        FixtureError::BalanceOverflow => "Rent-exempt balance overflows"@,
        FixtureError::AddressDerivationFailed => "Program data address derivation failed"@,
    }
}

impl FixtureError {
    /// A short human-readable description of the error.
    pub fn description(&self) -> (r: &'static str)
        ensures
            r@ == error_text(*self),
    {
        match self {
            FixtureError::InvalidProtobuf => "Invalid protobuf",
            FixtureError::IntegerOutOfRange => "Integer out of range",
            FixtureError::InvalidHashBytes => "Invalid hash bytes",
            FixtureError::InvalidPubkeyBytes => "Invalid public key bytes",
            FixtureError::AccountMissing => "Account missing",
            FixtureError::InvalidFixtureInput => "Invalid fixture input",
            FixtureError::InvalidFixtureOutput => "Invalid fixture output",
            FixtureError::FailedToInitializeLoader => "Failed to initialize loader",
            FixtureError::BalanceOverflow => "Rent-exempt balance overflows",
            FixtureError::AddressDerivationFailed => "Program data address derivation failed",
        }
    }
}

} // verus!
