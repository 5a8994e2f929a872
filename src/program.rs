use vstd::prelude::*;

use crate::error::TokenError;
use crate::instructions::{
    approve_delegate, burn_tokens, close_token_account, create_token_account, freeze,
    initialize_mint, mint_tokens, revoke_delegate, spec_approve_delegate, spec_burn_tokens,
    spec_close_token_account, spec_create_token_account, spec_freeze, spec_initialize_mint,
    spec_mint_tokens, spec_revoke_delegate, spec_thaw, spec_transfer_tokens, thaw_token_account,
    transfer_tokens, ApproveDelegate, BurnTokens, CloseTokenAccount, CreateTokenAccount,
    FreezeTokenAccount, InitializeMint, MintTokens, RevokeDelegate, ThawTokenAccount,
    TransferTokens,
};
use crate::keys::PublicKey;
use crate::ledger::LedgerCall;

verus! {

/// One invocation of the program: an operation with its accounts and amount.
#[derive(Clone, Copy, Debug, PartialEq, Eq)]
pub enum Instruction {
    InitializeMint(InitializeMint),
    CreateTokenAccount(CreateTokenAccount),
    MintTokens(MintTokens, u64),
    TransferTokens(TransferTokens, u64),
    BurnTokens(BurnTokens, u64),
    FreezeTokenAccount(FreezeTokenAccount),
    ThawTokenAccount(ThawTokenAccount),
    ApproveDelegate(ApproveDelegate, u64),
    RevokeDelegate(RevokeDelegate),
    CloseTokenAccount(CloseTokenAccount),
}

pub open spec fn spec_process(ix: Instruction) -> Result<LedgerCall, TokenError> {
    match ix {
        Instruction::InitializeMint(c) => spec_initialize_mint(c),
        Instruction::CreateTokenAccount(c) => spec_create_token_account(c),
        Instruction::MintTokens(c, amount) => spec_mint_tokens(c, amount),
        Instruction::TransferTokens(c, amount) => spec_transfer_tokens(c, amount),
        Instruction::BurnTokens(c, amount) => spec_burn_tokens(c, amount),
        Instruction::FreezeTokenAccount(c) => spec_freeze(c),
        Instruction::ThawTokenAccount(c) => spec_thaw(c),
        Instruction::ApproveDelegate(c, amount) => spec_approve_delegate(c, amount),
        Instruction::RevokeDelegate(c) => spec_revoke_delegate(c),
        Instruction::CloseTokenAccount(c) => spec_close_token_account(c),
    }
}

/// The key that signed the invocation.
pub open spec fn signer_of(ix: Instruction) -> PublicKey {
    match ix {
        Instruction::InitializeMint(c) => c.signer,
        Instruction::CreateTokenAccount(c) => c.signer,
        Instruction::MintTokens(c, _) => c.signer,
        Instruction::TransferTokens(c, _) => c.signer,
        Instruction::BurnTokens(c, _) => c.signer,
        Instruction::FreezeTokenAccount(c) => c.freeze_authority,
        Instruction::ThawTokenAccount(c) => c.freeze_authority,
        Instruction::ApproveDelegate(c, _) => c.authority,
        Instruction::RevokeDelegate(c) => c.authority,
        Instruction::CloseTokenAccount(c) => c.authority,
    }
}

/// The authority the operation demands of its signer, as recorded on the
/// supplied accounts. Creation demands none beyond a paying signer; an
/// absent mint or freeze authority is `None`.
pub open spec fn required_authority(ix: Instruction) -> Option<PublicKey> {
    match ix {
        Instruction::InitializeMint(_) => None,
        Instruction::CreateTokenAccount(_) => None,
        Instruction::MintTokens(c, _) => c.mint.mint_authority,
        Instruction::TransferTokens(c, _) => Some(c.sender_token_account.owner_authority),
        Instruction::BurnTokens(c, _) => Some(c.token_account.owner_authority),
        Instruction::FreezeTokenAccount(c) => c.mint.freeze_authority,
        Instruction::ThawTokenAccount(c) => c.mint.freeze_authority,
        Instruction::ApproveDelegate(c, _) => Some(c.token_account.owner_authority),
        Instruction::RevokeDelegate(c) => Some(c.token_account.owner_authority),
        Instruction::CloseTokenAccount(c) => Some(c.token_account.owner_authority),
    }
}

/// Whether every token account supplied alongside a mint is bound to it.
pub open spec fn accounts_match_mint(ix: Instruction) -> bool {
    match ix {
        Instruction::MintTokens(c, _) => c.token_account.mint@ == c.mint.key@,
        Instruction::TransferTokens(c, _) => c.sender_token_account.mint@ == c.mint.key@
            && c.receiver_token_account.mint@ == c.mint.key@,
        Instruction::BurnTokens(c, _) => c.token_account.mint@ == c.mint.key@,
        Instruction::FreezeTokenAccount(c) => c.token_account.mint@ == c.mint.key@,
        Instruction::ThawTokenAccount(c) => c.token_account.mint@ == c.mint.key@,
        _ => true,
    }
}

/// Validates one invocation and returns the ledger call it permits.
pub fn process(ix: &Instruction) -> (r: Result<LedgerCall, TokenError>)
    ensures
        r == spec_process(*ix),
{
    match ix {
        Instruction::InitializeMint(c) => initialize_mint(c),
        Instruction::CreateTokenAccount(c) => create_token_account(c),
        Instruction::MintTokens(c, amount) => mint_tokens(c, *amount),
        Instruction::TransferTokens(c, amount) => transfer_tokens(c, *amount),
        Instruction::BurnTokens(c, amount) => burn_tokens(c, *amount),
        Instruction::FreezeTokenAccount(c) => freeze(c),
        Instruction::ThawTokenAccount(c) => thaw_token_account(c),
        Instruction::ApproveDelegate(c, amount) => approve_delegate(c, *amount),
        Instruction::RevokeDelegate(c) => revoke_delegate(c),
        Instruction::CloseTokenAccount(c) => close_token_account(c),
    }
}

} // verus!
