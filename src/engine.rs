use vstd::prelude::*;

use crate::error::TokenError;
use crate::keys::PublicKey;
use crate::records::{Mint, TokenAccount};

verus! {

pub open spec fn spec_allocate_mint(
    key: PublicKey,
    decimals: u8,
    mint_authority: Option<PublicKey>,
    freeze_authority: Option<PublicKey>,
) -> Mint {
    Mint { key, decimals, mint_authority, freeze_authority, supply: 0 }
}

/// The record of a freshly allocated mint: no supply yet.
pub fn allocate_mint(
    key: PublicKey,
    decimals: u8,
    mint_authority: Option<PublicKey>,
    freeze_authority: Option<PublicKey>,
) -> (r: Mint)
    ensures
        r == spec_allocate_mint(key, decimals, mint_authority, freeze_authority),
{
    Mint { key, decimals, mint_authority, freeze_authority, supply: 0 }
}

pub open spec fn spec_allocate_token_account(
    key: PublicKey,
    mint: PublicKey,
    owner_authority: PublicKey,
) -> TokenAccount {
    TokenAccount { key, mint, owner_authority, delegate: None, is_frozen: false, balance: 0 }
}

/// The record of a freshly allocated account: empty, thawed, no delegate.
pub fn allocate_token_account(key: PublicKey, mint: PublicKey, owner_authority: PublicKey) -> (r:
    TokenAccount)
    ensures
        r == spec_allocate_token_account(key, mint, owner_authority),
{
    TokenAccount { key, mint, owner_authority, delegate: None, is_frozen: false, balance: 0 }
}

pub open spec fn spec_mint_to(mint: Mint, account: TokenAccount, amount: u64) -> Result<
    (Mint, TokenAccount),
    TokenError,
> {
    if account.is_frozen {
        Err(TokenError::AccountFrozen)
    } else if account.balance + amount > u64::MAX || mint.supply + amount > u64::MAX {
        Err(TokenError::Overflow)
    } else {
        Ok(
            (
                Mint { supply: (mint.supply + amount) as u64, ..mint },
                TokenAccount { balance: (account.balance + amount) as u64, ..account },
            ),
        )
    }
}

/// Raises the account's balance and the mint's supply by `amount`.
pub fn mint_to(mint: &Mint, account: &TokenAccount, amount: u64) -> (r: Result<
    (Mint, TokenAccount),
    TokenError,
>)
    ensures
        r == spec_mint_to(*mint, *account, amount),
{
    if account.is_frozen {
        return Err(TokenError::AccountFrozen);
    }
    match (account.balance.checked_add(amount), mint.supply.checked_add(amount)) {
        (Some(balance), Some(supply)) => Ok(
            (Mint { supply, ..*mint }, TokenAccount { balance, ..*account }),
        ),
        _ => Err(TokenError::Overflow),
    }
}

pub open spec fn spec_transfer_checked(
    mint: Mint,
    from: TokenAccount,
    to: TokenAccount,
    amount: u64,
    decimals: u8,
) -> Result<(TokenAccount, TokenAccount), TokenError> {
    if from.mint@ != mint.key@ || to.mint@ != mint.key@ || decimals != mint.decimals {
        Err(TokenError::MintMismatch)
    } else if from.is_frozen || to.is_frozen {
        Err(TokenError::AccountFrozen)
    } else if from.balance < amount {
        Err(TokenError::InsufficientBalance)
    } else if from.key@ == to.key@ {
        Ok((from, to))
    } else if to.balance + amount > u64::MAX {
        Err(TokenError::Overflow)
    } else {
        Ok(
            (
                TokenAccount { balance: (from.balance - amount) as u64, ..from },
                TokenAccount { balance: (to.balance + amount) as u64, ..to },
            ),
        )
    }
}

/// Moves `amount` from `from` to `to`, both of the mint and neither frozen,
/// with `decimals` checked against the mint's. A transfer of an account to
/// itself changes nothing.
pub fn transfer_checked(
    mint: &Mint,
    from: &TokenAccount,
    to: &TokenAccount,
    amount: u64,
    decimals: u8,
) -> (r: Result<(TokenAccount, TokenAccount), TokenError>)
    ensures
        r == spec_transfer_checked(*mint, *from, *to, amount, decimals),
{
    if from.mint != mint.key || to.mint != mint.key || decimals != mint.decimals {
        return Err(TokenError::MintMismatch);
    }
    if from.is_frozen || to.is_frozen {
        return Err(TokenError::AccountFrozen);
    }
    if from.balance < amount {
        return Err(TokenError::InsufficientBalance);
    }
    if from.key == to.key {
        return Ok((*from, *to));
    }
    match to.balance.checked_add(amount) {
        None => Err(TokenError::Overflow),
        Some(balance) => Ok(
            (
                TokenAccount { balance: from.balance - amount, ..*from },
                TokenAccount { balance, ..*to },
            ),
        ),
    }
}

pub open spec fn spec_burn(mint: Mint, account: TokenAccount, amount: u64) -> Result<
    (Mint, TokenAccount),
    TokenError,
> {
    if account.is_frozen {
        Err(TokenError::AccountFrozen)
    } else if account.balance < amount {
        Err(TokenError::InsufficientBalance)
    } else if mint.supply < amount {
        Err(TokenError::Overflow)
    } else {
        Ok(
            (
                Mint { supply: (mint.supply - amount) as u64, ..mint },
                TokenAccount { balance: (account.balance - amount) as u64, ..account },
            ),
        )
    }
}

/// Lowers the account's balance and the mint's supply by `amount`.
pub fn burn(mint: &Mint, account: &TokenAccount, amount: u64) -> (r: Result<
    (Mint, TokenAccount),
    TokenError,
>)
    ensures
        r == spec_burn(*mint, *account, amount),
{
    if account.is_frozen {
        return Err(TokenError::AccountFrozen);
    }
    if account.balance < amount {
        return Err(TokenError::InsufficientBalance);
    }
    if mint.supply < amount {
        return Err(TokenError::Overflow);
    }
    Ok(
        (
            Mint { supply: mint.supply - amount, ..*mint },
            TokenAccount { balance: account.balance - amount, ..*account },
        ),
    )
}

pub open spec fn spec_set_frozen(account: TokenAccount, frozen: bool) -> Result<
    TokenAccount,
    TokenError,
> {
    if account.is_frozen == frozen {
        Err(TokenError::AlreadyInState)
    } else {
        Ok(TokenAccount { is_frozen: frozen, ..account })
    }
}

/// Marks the account frozen; a frozen one is refused as already so.
pub fn freeze_account(account: &TokenAccount) -> (r: Result<TokenAccount, TokenError>)
    ensures
        r == spec_set_frozen(*account, true),
{
    if account.is_frozen {
        return Err(TokenError::AlreadyInState);
    }
    Ok(TokenAccount { is_frozen: true, ..*account })
}

/// Marks the account thawed; a thawed one is refused as already so.
pub fn thaw_account(account: &TokenAccount) -> (r: Result<TokenAccount, TokenError>)
    ensures
        r == spec_set_frozen(*account, false),
{
    if !account.is_frozen {
        return Err(TokenError::AlreadyInState);
    }
    Ok(TokenAccount { is_frozen: false, ..*account })
}

pub open spec fn spec_approve(account: TokenAccount, delegate: PublicKey, amount: u64) -> TokenAccount {
    TokenAccount { delegate: Some((delegate, amount)), ..account }
}

/// Sets the delegate and its allowance, replacing any earlier one.
pub fn approve(account: &TokenAccount, delegate: PublicKey, amount: u64) -> (r: TokenAccount)
    ensures
        r == spec_approve(*account, delegate, amount),
{
    TokenAccount { delegate: Some((delegate, amount)), ..*account }
}

pub open spec fn spec_revoke(account: TokenAccount) -> TokenAccount {
    TokenAccount { delegate: None, ..account }
}

/// Clears the delegate.
pub fn revoke(account: &TokenAccount) -> (r: TokenAccount)
    ensures
        r == spec_revoke(*account),
{
    TokenAccount { delegate: None, ..*account }
}

/// Permits closing an account only when its balance is zero.
pub fn close_account(account: &TokenAccount) -> (r: Result<(), TokenError>)
    ensures
        r is Ok <==> account.balance == 0,
        r is Err ==> r == Err::<(), TokenError>(TokenError::NonZeroBalance),
{
    if account.balance != 0 {
        return Err(TokenError::NonZeroBalance);
    }
    Ok(())
}

} // verus!
