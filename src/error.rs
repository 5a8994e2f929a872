use vstd::prelude::*;

verus! {

/// The five kinds of failure an instruction can end in.
#[derive(Clone, Copy, Debug, PartialEq, Eq, Structural)]
pub enum ErrorKind {
    /// The supplied accounts do not belong to the stated mint.
    Relationship,
    /// The signer is not the authority the operation requires.
    Authority,
    /// The operation is not permitted in the current state.
    State,
    /// The ledger engine rejected the delegated call.
    Ledger,
    /// Creating a mint or an account failed.
    Allocation,
}

/// Every failure an instruction can report.
#[derive(Clone, Copy, Debug, PartialEq, Eq, Structural)]
pub enum TokenError {
    /// A token account is not bound to the supplied mint.
    InvalidTokenAccount,
    /// The accounts of a transfer are not all of the supplied mint.
    MintMismatch,
    /// The signer is not the mint authority.
    InvalidMintAuthority,
    /// The signer is not the freeze authority.
    InvalidFreezeAuthority,
    /// The signer is not the account's owner.
    InvalidOwner,
    AccountFrozen,
    MintingDisabled,
    FreezingDisabled,
    InsufficientBalance,
    Overflow,
    NonZeroBalance,
    /// A freeze of a frozen account, or a thaw of a thawed one.
    AlreadyInState,
    AllocationFailed,
    DuplicateAccount,
}

pub open spec fn spec_kind(e: TokenError) -> ErrorKind {
    match e {
        TokenError::InvalidTokenAccount | TokenError::MintMismatch => ErrorKind::Relationship,
        TokenError::InvalidMintAuthority
        | TokenError::InvalidFreezeAuthority
        | TokenError::InvalidOwner => ErrorKind::Authority,
        TokenError::AccountFrozen
        | TokenError::MintingDisabled
        | TokenError::FreezingDisabled => ErrorKind::State,
        TokenError::InsufficientBalance
        | TokenError::Overflow
        | TokenError::NonZeroBalance
        | TokenError::AlreadyInState => ErrorKind::Ledger,
        TokenError::AllocationFailed | TokenError::DuplicateAccount => ErrorKind::Allocation,
    }
}

impl TokenError {
    /// The kind this error belongs to.
    pub fn kind(&self) -> (r: ErrorKind)
        ensures
            r == spec_kind(*self),
    {
        match self {
            TokenError::InvalidTokenAccount | TokenError::MintMismatch => ErrorKind::Relationship,
            TokenError::InvalidMintAuthority
            | TokenError::InvalidFreezeAuthority
            | TokenError::InvalidOwner => ErrorKind::Authority,
            TokenError::AccountFrozen
            | TokenError::MintingDisabled
            | TokenError::FreezingDisabled => ErrorKind::State,
            TokenError::InsufficientBalance
            | TokenError::Overflow
            | TokenError::NonZeroBalance
            | TokenError::AlreadyInState => ErrorKind::Ledger,
            TokenError::AllocationFailed | TokenError::DuplicateAccount => ErrorKind::Allocation,
        }
    }
}

/// The failures particular to minting.
#[derive(Clone, Copy, Debug, PartialEq, Eq, Structural)]
pub enum MintError {
    InvalidTokenAccount,
    InvalidMintAuthority,
}

impl MintError {
    pub fn to_token_error(self) -> (r: TokenError)
        ensures
            self == MintError::InvalidTokenAccount ==> r == TokenError::InvalidTokenAccount,
            self == MintError::InvalidMintAuthority ==> r == TokenError::InvalidMintAuthority,
    {
        match self {
            MintError::InvalidTokenAccount => TokenError::InvalidTokenAccount,
            MintError::InvalidMintAuthority => TokenError::InvalidMintAuthority,
        }
    }
}

} // verus!
