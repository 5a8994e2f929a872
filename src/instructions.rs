use vstd::prelude::*;

use crate::error::{MintError, TokenError};
use crate::keys::PublicKey;
use crate::ledger::LedgerCall;
use crate::records::{is_authority, Mint, TokenAccount};

verus! {

/// Accounts of a mint-tokens instruction.
#[derive(Clone, Copy, Debug, PartialEq, Eq)]
pub struct MintTokens {
    pub signer: PublicKey,
    pub mint: Mint,
    pub token_account: TokenAccount,
}

pub open spec fn spec_mint_tokens(ctx: MintTokens, amount: u64) -> Result<LedgerCall, TokenError> {
    if ctx.token_account.mint@ != ctx.mint.key@ {
        Err(TokenError::InvalidTokenAccount)
    } else if ctx.mint.mint_authority is None {
        Err(TokenError::MintingDisabled)
    } else if !is_authority(ctx.mint.mint_authority, ctx.signer) {
        Err(TokenError::InvalidMintAuthority)
    } else {
        Ok(
            LedgerCall::MintTo {
                mint: ctx.mint.key,
                account: ctx.token_account.key,
                authority: ctx.signer,
                amount,
            },
        )
    }
}

/// Checks that the account belongs to the mint, that minting is enabled and
/// that the signer is the mint authority; then asks the ledger to mint.
pub fn mint_tokens(ctx: &MintTokens, amount: u64) -> (r: Result<LedgerCall, TokenError>)
    ensures
        r == spec_mint_tokens(*ctx, amount),
{
    if ctx.token_account.mint != ctx.mint.key {
        return Err(MintError::InvalidTokenAccount.to_token_error());
    }
    match ctx.mint.mint_authority {
        None => Err(TokenError::MintingDisabled),
        Some(authority) => {
            if authority != ctx.signer {
                Err(MintError::InvalidMintAuthority.to_token_error())
            } else {
                Ok(
                    LedgerCall::MintTo {
                        mint: ctx.mint.key,
                        account: ctx.token_account.key,
                        authority: ctx.signer,
                        amount,
                    },
                )
            }
        },
    }
}


/// Accounts of a transfer-tokens instruction.
#[derive(Clone, Copy, Debug, PartialEq, Eq)]
pub struct TransferTokens {
    pub signer: PublicKey,
    pub mint: Mint,
    pub sender_token_account: TokenAccount,
    pub receiver_token_account: TokenAccount,
}

pub open spec fn spec_transfer_tokens(ctx: TransferTokens, amount: u64) -> Result<
    LedgerCall,
    TokenError,
> {
    if ctx.sender_token_account.mint@ != ctx.mint.key@ || ctx.receiver_token_account.mint@
        != ctx.mint.key@ {
        Err(TokenError::MintMismatch)
    } else if ctx.signer@ != ctx.sender_token_account.owner_authority@ {
        Err(TokenError::InvalidOwner)
    } else if ctx.sender_token_account.is_frozen {
        Err(TokenError::AccountFrozen)
    } else {
        Ok(
            LedgerCall::TransferChecked {
                mint: ctx.mint.key,
                from: ctx.sender_token_account.key,
                to: ctx.receiver_token_account.key,
                authority: ctx.signer,
                amount,
                decimals: ctx.mint.decimals,
            },
        )
    }
}

/// Checks that both accounts are of the mint, that the signer owns the
/// sender and that the sender is not frozen; then asks the ledger for a
/// transfer checked against the mint's decimals.
pub fn transfer_tokens(ctx: &TransferTokens, amount: u64) -> (r: Result<LedgerCall, TokenError>)
    ensures
        r == spec_transfer_tokens(*ctx, amount),
{
    if ctx.sender_token_account.mint != ctx.mint.key || ctx.receiver_token_account.mint
        != ctx.mint.key {
        return Err(TokenError::MintMismatch);
    }
    if ctx.signer != ctx.sender_token_account.owner_authority {
        return Err(TokenError::InvalidOwner);
    }
    if ctx.sender_token_account.is_frozen {
        return Err(TokenError::AccountFrozen);
    }
    Ok(
        LedgerCall::TransferChecked {
            mint: ctx.mint.key,
            from: ctx.sender_token_account.key,
            to: ctx.receiver_token_account.key,
            authority: ctx.signer,
            amount,
            decimals: ctx.mint.decimals,
        },
    )
}

/// Accounts of a burn-tokens instruction.
#[derive(Clone, Copy, Debug, PartialEq, Eq)]
pub struct BurnTokens {
    pub token_account: TokenAccount,
    pub signer: PublicKey,
    pub mint: Mint,
}

pub open spec fn spec_burn_tokens(ctx: BurnTokens, amount: u64) -> Result<LedgerCall, TokenError> {
    if ctx.token_account.mint@ != ctx.mint.key@ {
        Err(TokenError::InvalidTokenAccount)
    } else if ctx.signer@ != ctx.token_account.owner_authority@ {
        Err(TokenError::InvalidOwner)
    } else if ctx.token_account.is_frozen {
        Err(TokenError::AccountFrozen)
    } else {
        Ok(
            LedgerCall::Burn {
                mint: ctx.mint.key,
                account: ctx.token_account.key,
                authority: ctx.signer,
                amount,
            },
        )
    }
}

/// Checks that the account is of the mint, that the signer owns it and that
/// it is not frozen; then asks the ledger to burn.
pub fn burn_tokens(ctx: &BurnTokens, amount: u64) -> (r: Result<LedgerCall, TokenError>)
    ensures
        r == spec_burn_tokens(*ctx, amount),
{
    if ctx.token_account.mint != ctx.mint.key {
        return Err(TokenError::InvalidTokenAccount);
    }
    if ctx.signer != ctx.token_account.owner_authority {
        return Err(TokenError::InvalidOwner);
    }
    if ctx.token_account.is_frozen {
        return Err(TokenError::AccountFrozen);
    }
    Ok(
        LedgerCall::Burn {
            mint: ctx.mint.key,
            account: ctx.token_account.key,
            authority: ctx.signer,
            amount,
        },
    )
}

/// What freeze and thaw both demand: the account is of the mint, freezing is
/// enabled and the signer is the freeze authority. `None` when all hold.
pub open spec fn spec_freeze_check(mint: Mint, account: TokenAccount, signer: PublicKey) -> Option<
    TokenError,
> {
    if account.mint@ != mint.key@ {
        Some(TokenError::InvalidTokenAccount)
    } else if mint.freeze_authority is None {
        Some(TokenError::FreezingDisabled)
    } else if !is_authority(mint.freeze_authority, signer) {
        Some(TokenError::InvalidFreezeAuthority)
    } else {
        None
    }
}

fn check_freeze_authority(mint: &Mint, account: &TokenAccount, signer: &PublicKey) -> (r: Option<
    TokenError,
>)
    ensures
        r == spec_freeze_check(*mint, *account, *signer),
{
    if account.mint != mint.key {
        return Some(TokenError::InvalidTokenAccount);
    }
    match mint.freeze_authority {
        None => Some(TokenError::FreezingDisabled),
        Some(authority) => {
            if authority != *signer {
                Some(TokenError::InvalidFreezeAuthority)
            } else {
                None
            }
        },
    }
}

/// Accounts of a freeze instruction.
#[derive(Clone, Copy, Debug, PartialEq, Eq)]
pub struct FreezeTokenAccount {
    pub token_account: TokenAccount,
    pub freeze_authority: PublicKey,
    pub mint: Mint,
}

pub open spec fn spec_freeze(ctx: FreezeTokenAccount) -> Result<LedgerCall, TokenError> {
    match spec_freeze_check(ctx.mint, ctx.token_account, ctx.freeze_authority) {
        Some(e) => Err(e),
        None => Ok(
            LedgerCall::Freeze {
                mint: ctx.mint.key,
                account: ctx.token_account.key,
                authority: ctx.freeze_authority,
            },
        ),
    }
}

/// Asks the ledger to freeze the account, when the signer is the mint's
/// freeze authority. Freezing a frozen account is not refused here.
pub fn freeze(ctx: &FreezeTokenAccount) -> (r: Result<LedgerCall, TokenError>)
    ensures
        r == spec_freeze(*ctx),
{
    match check_freeze_authority(&ctx.mint, &ctx.token_account, &ctx.freeze_authority) {
        Some(e) => Err(e),
        None => Ok(
            LedgerCall::Freeze {
                mint: ctx.mint.key,
                account: ctx.token_account.key,
                authority: ctx.freeze_authority,
            },
        ),
    }
}

/// Accounts of a thaw instruction.
#[derive(Clone, Copy, Debug, PartialEq, Eq)]
pub struct ThawTokenAccount {
    pub token_account: TokenAccount,
    pub mint: Mint,
    pub freeze_authority: PublicKey,
}

pub open spec fn spec_thaw(ctx: ThawTokenAccount) -> Result<LedgerCall, TokenError> {
    match spec_freeze_check(ctx.mint, ctx.token_account, ctx.freeze_authority) {
        Some(e) => Err(e),
        None => Ok(
            LedgerCall::Thaw {
                mint: ctx.mint.key,
                account: ctx.token_account.key,
                authority: ctx.freeze_authority,
            },
        ),
    }
}

/// Asks the ledger to thaw the account, under the same checks as a freeze.
pub fn thaw_token_account(ctx: &ThawTokenAccount) -> (r: Result<LedgerCall, TokenError>)
    ensures
        r == spec_thaw(*ctx),
{
    match check_freeze_authority(&ctx.mint, &ctx.token_account, &ctx.freeze_authority) {
        Some(e) => Err(e),
        None => Ok(
            LedgerCall::Thaw {
                mint: ctx.mint.key,
                account: ctx.token_account.key,
                authority: ctx.freeze_authority,
            },
        ),
    }
}

/// Accounts of an approve-delegate instruction.
#[derive(Clone, Copy, Debug, PartialEq, Eq)]
pub struct ApproveDelegate {
    pub token_account: TokenAccount,
    pub authority: PublicKey,
    pub delegate: PublicKey,
}

pub open spec fn spec_approve_delegate(ctx: ApproveDelegate, amount: u64) -> Result<
    LedgerCall,
    TokenError,
> {
    if ctx.authority@ != ctx.token_account.owner_authority@ {
        Err(TokenError::InvalidOwner)
    } else {
        Ok(
            LedgerCall::Approve {
                account: ctx.token_account.key,
                delegate: ctx.delegate,
                authority: ctx.authority,
                amount,
            },
        )
    }
}

/// Asks the ledger to let `delegate` move up to `amount`, when the signer
/// owns the account.
pub fn approve_delegate(ctx: &ApproveDelegate, amount: u64) -> (r: Result<LedgerCall, TokenError>)
    ensures
        r == spec_approve_delegate(*ctx, amount),
{
    if ctx.authority != ctx.token_account.owner_authority {
        return Err(TokenError::InvalidOwner);
    }
    Ok(
        LedgerCall::Approve {
            account: ctx.token_account.key,
            delegate: ctx.delegate,
            authority: ctx.authority,
            amount,
        },
    )
}

/// Accounts of a revoke-delegate instruction.
#[derive(Clone, Copy, Debug, PartialEq, Eq)]
pub struct RevokeDelegate {
    pub authority: PublicKey,
    pub token_account: TokenAccount,
}

pub open spec fn spec_revoke_delegate(ctx: RevokeDelegate) -> Result<LedgerCall, TokenError> {
    if ctx.authority@ != ctx.token_account.owner_authority@ {
        Err(TokenError::InvalidOwner)
    } else {
        Ok(LedgerCall::Revoke { account: ctx.token_account.key, authority: ctx.authority })
    }
}

/// Asks the ledger to clear the delegate, when the signer owns the account.
pub fn revoke_delegate(ctx: &RevokeDelegate) -> (r: Result<LedgerCall, TokenError>)
    ensures
        r == spec_revoke_delegate(*ctx),
{
    if ctx.authority != ctx.token_account.owner_authority {
        return Err(TokenError::InvalidOwner);
    }
    Ok(LedgerCall::Revoke { account: ctx.token_account.key, authority: ctx.authority })
}

/// Accounts of a close-account instruction.
#[derive(Clone, Copy, Debug, PartialEq, Eq)]
pub struct CloseTokenAccount {
    pub authority: PublicKey,
    pub token_account: TokenAccount,
    pub destination: PublicKey,
}

pub open spec fn spec_close_token_account(ctx: CloseTokenAccount) -> Result<LedgerCall, TokenError> {
    if ctx.authority@ != ctx.token_account.owner_authority@ {
        Err(TokenError::InvalidOwner)
    } else {
        Ok(
            LedgerCall::Close {
                account: ctx.token_account.key,
                destination: ctx.destination,
                authority: ctx.authority,
            },
        )
    }
}

/// Asks the ledger to close the account and credit `destination`, when the
/// signer owns the account. The zero-balance rule is the ledger's.
pub fn close_token_account(ctx: &CloseTokenAccount) -> (r: Result<LedgerCall, TokenError>)
    ensures
        r == spec_close_token_account(*ctx),
{
    if ctx.authority != ctx.token_account.owner_authority {
        return Err(TokenError::InvalidOwner);
    }
    Ok(
        LedgerCall::Close {
            account: ctx.token_account.key,
            destination: ctx.destination,
            authority: ctx.authority,
        },
    )
}

/// Accounts and settings of a create-mint instruction; the signer pays.
#[derive(Clone, Copy, Debug, PartialEq, Eq)]
pub struct InitializeMint {
    pub signer: PublicKey,
    pub mint: PublicKey,
    pub decimals: u8,
    pub mint_authority: Option<PublicKey>,
    pub freeze_authority: Option<PublicKey>,
}

pub open spec fn spec_initialize_mint(ctx: InitializeMint) -> Result<LedgerCall, TokenError> {
    Ok(
        LedgerCall::AllocateMint {
            mint: ctx.mint,
            payer: ctx.signer,
            decimals: ctx.decimals,
            mint_authority: ctx.mint_authority,
            freeze_authority: ctx.freeze_authority,
        },
    )
}

/// Asks the ledger to allocate the mint with the given settings. Nothing is
/// checked here; allocation can only fail in the ledger.
pub fn initialize_mint(ctx: &InitializeMint) -> (r: Result<LedgerCall, TokenError>)
    ensures
        r == spec_initialize_mint(*ctx),
{
    Ok(
        LedgerCall::AllocateMint {
            mint: ctx.mint,
            payer: ctx.signer,
            decimals: ctx.decimals,
            mint_authority: ctx.mint_authority,
            freeze_authority: ctx.freeze_authority,
        },
    )
}

/// Accounts of a create-token-account instruction; the signer pays, and
/// `authority` becomes the owner.
#[derive(Clone, Copy, Debug, PartialEq, Eq)]
pub struct CreateTokenAccount {
    pub signer: PublicKey,
    pub token_account: PublicKey,
    pub mint: Mint,
    pub authority: PublicKey,
}

pub open spec fn spec_create_token_account(ctx: CreateTokenAccount) -> Result<
    LedgerCall,
    TokenError,
> {
    Ok(
        LedgerCall::AllocateTokenAccount {
            account: ctx.token_account,
            payer: ctx.signer,
            mint: ctx.mint.key,
            owner_authority: ctx.authority,
        },
    )
}

/// Asks the ledger to allocate an account bound to the mint and owned by
/// `authority`.
pub fn create_token_account(ctx: &CreateTokenAccount) -> (r: Result<LedgerCall, TokenError>)
    ensures
        r == spec_create_token_account(*ctx),
{
    Ok(
        LedgerCall::AllocateTokenAccount {
            account: ctx.token_account,
            payer: ctx.signer,
            mint: ctx.mint.key,
            owner_authority: ctx.authority,
        },
    )
}

} // verus!
