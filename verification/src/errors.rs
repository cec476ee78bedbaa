//! The errors with which an operation aborts.

use vstd::prelude::*;

verus! {

/// The errors of the escrow's own rules.
#[derive(Clone, Copy, Debug, PartialEq, Eq)]
pub enum EscrowError {
    /// An amount of zero was offered or asked.
    InvalidAmount,
    /// The maker does not hold more than the amount offered.
    InsufficientInitiatorBalance,
    /// The taker holds less than the amount asked.
    InsufficientTakerBalance,
    /// The offered and the asked asset are the same.
    InvalidTokenMint,
}

impl EscrowError {
    /// The number under which the error reaches a caller.
    pub open spec fn spec_code(self) -> u32 {
        match self {
            EscrowError::InvalidAmount => 6000,
            EscrowError::InsufficientInitiatorBalance => 6001,
            EscrowError::InsufficientTakerBalance => 6002,
            EscrowError::InvalidTokenMint => 6003,
        }
    }

    /// The number under which the error reaches a caller.
    pub fn code(&self) -> (code: u32)
        ensures
            code == self.spec_code(),
    {
        match self {
            EscrowError::InvalidAmount => 6000,
            EscrowError::InsufficientInitiatorBalance => 6001,
            EscrowError::InsufficientTakerBalance => 6002,
            EscrowError::InvalidTokenMint => 6003,
        }
    }

    /// The message that describes the error.
    pub open spec fn spec_message(self) -> Seq<char> {
        match self {
            EscrowError::InvalidAmount => "Invalid token amount"@,
            EscrowError::InsufficientInitiatorBalance => "Insufficient token balance in initiator's account"@,
            EscrowError::InsufficientTakerBalance => "Insufficient token balance in taker's account"@,
            EscrowError::InvalidTokenMint => "Offered token mint must not be the same as asked token mint"@,
        }
    }

    /// The message that describes the error.
    pub fn message(&self) -> (message: &'static str)
        ensures
            message@ == self.spec_message(),
    {
        match self {
            EscrowError::InvalidAmount => "Invalid token amount",
            EscrowError::InsufficientInitiatorBalance => "Insufficient token balance in initiator's account",
            EscrowError::InsufficientTakerBalance => "Insufficient token balance in taker's account",
            EscrowError::InvalidTokenMint => "Offered token mint must not be the same as asked token mint",
        }
    }
}

/// Why the accounts named in a call could not be resolved.
#[derive(Clone, Copy, Debug, PartialEq, Eq)]
pub enum AccountError {
    /// No escrow record lives at the address given for it.
    RecordMissing,
    /// An escrow record already lives at the address derived from the index.
    RecordExists,
    /// No address can be derived from the seeds.
    Underivable,
    /// The address given for the record is not the one its seeds derive.
    SeedsMismatch,
    /// The token program named is not the one that keeps the accounts.
    InvalidProgram,
    /// No mint lives at the address given for it.
    MintMissing,
    /// A mint or a token account is not of the asset that the record names
    /// or that its role requires.
    MintMismatch,
    /// No token account lives at the address given for it.
    AccountMissing,
    /// An account already lives at the address where one is to be created.
    AccountExists,
    /// A token account does not belong to the party that its role requires.
    OwnerMismatch,
    /// A token account is not the associated account of its owner and mint.
    NotAssociated,
}

/// Why the asset-transfer service rejected an instruction.
#[derive(Clone, Copy, Debug, PartialEq, Eq)]
pub enum TransferError {
    /// The account to take from, or to close, does not exist.
    SourceMissing,
    /// The account to give to does not exist.
    DestinationMissing,
    /// The source holds less than the amount.
    InsufficientFunds,
    /// The accounts and the declared mint are not one asset, or the mint is
    /// not known.
    MintMismatch,
    /// The declared precision is not that of the mint.
    DecimalsMismatch,
    /// The authority named is not the owner of the account.
    OwnerMismatch,
    /// The authority has not signed, or its proof does not derive it.
    MissingSignature,
    /// The destination's balance would exceed what it can hold.
    Overflow,
    /// The account to close still holds a balance.
    NonEmpty,
}

/// Why an operation aborted. An operation that aborts changes nothing.
#[derive(Clone, Copy, Debug, PartialEq, Eq)]
pub enum Failure {
    /// A rule of the escrow was broken.
    Escrow(EscrowError),
    /// The accounts named could not be resolved.
    Account(AccountError),
    /// The asset-transfer service rejected an instruction.
    Transfer(TransferError),
}

} // verus!
