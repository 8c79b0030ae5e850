use vstd::prelude::*;

verus! {

/// Every failure the escrow program or its client logic can report.
#[derive(Clone, Copy, Debug, PartialEq, Eq, Structural)]
pub enum EscrowError {
    /// The escrow record already holds an initialized escrow.
    AlreadyInitialized,
    /// An account's byte length differs from the length its layout demands.
    InvalidAccountSize,
    /// An account is not owned by the program that must own it.
    InvalidOwner,
    /// The supplied token account is not bound to the custodian authority
    /// derived for the escrow record.
    InvalidAuthority,
    /// The supplied token account holds a different mint than the request names.
    MintMismatch,
    /// The request bytes are truncated, carry an unknown tag, or have
    /// trailing bytes.
    InvalidInstructionData,
    /// The escrow's validity window has passed.
    EscrowExpired,
    /// The fee payer cannot cover rent exemption plus the batch fee.
    InsufficientFeePayerBalance,
}

impl EscrowError {
    /// A short description, for callers that print errors.
    pub fn message(&self) -> (r: &'static str)
    {
        match self {
            EscrowError::AlreadyInitialized => "escrow record is already initialized",
            EscrowError::InvalidAccountSize => "account has the wrong size",
            EscrowError::InvalidOwner => "account has the wrong owner",
            EscrowError::InvalidAuthority => "token account authority does not match the derived custodian",
            EscrowError::MintMismatch => "token account mint does not match the request",
            EscrowError::InvalidInstructionData => "malformed request data",
            EscrowError::EscrowExpired => "escrow validity window has passed",
            EscrowError::InsufficientFeePayerBalance => "fee payer balance is insufficient",
        }
    }
}

} // verus!
