use vstd::prelude::*;

use crate::engine::{spec_approve, spec_revoke, spec_set_frozen, spec_transfer_checked};
use crate::error::{spec_kind, ErrorKind, TokenError};
use crate::instructions::{
    spec_approve_delegate, spec_freeze, spec_mint_tokens, spec_revoke_delegate, spec_thaw,
    spec_transfer_tokens, ApproveDelegate, FreezeTokenAccount, MintTokens, RevokeDelegate,
    ThawTokenAccount, TransferTokens,
};
use crate::keys::PublicKey;
use crate::program::{accounts_match_mint, required_authority, signer_of, spec_process, Instruction};
use crate::records::TokenAccount;

verus! {

/// Any operation that demands authority `a`, presented by a signer other
/// than `a`, fails with an authority error and issues no ledger call.
pub proof fn lemma_wrong_signer_rejected(ix: Instruction, a: PublicKey)
    requires
        accounts_match_mint(ix),
        required_authority(ix) == Some(a),
        signer_of(ix)@ != a@,
    ensures
        spec_process(ix) is Err,
        spec_kind(spec_process(ix)->Err_0) == ErrorKind::Authority,
{
}

/// An account that is not bound to the supplied mint makes the operation
/// fail with a relationship error, before any ledger call.
pub proof fn lemma_wrong_mint_rejected(ix: Instruction)
    requires
        !accounts_match_mint(ix),
    ensures
        spec_process(ix) is Err,
        spec_kind(spec_process(ix)->Err_0) == ErrorKind::Relationship,
{
}

/// Once an account is frozen, its owner's transfer out of it fails with
/// `AccountFrozen`, whatever the amount; the ledger too refuses to move
/// anything out of it.
pub proof fn lemma_frozen_account_cannot_send(
    f: FreezeTokenAccount,
    receiver: TokenAccount,
    amount: u64,
)
    requires
        spec_freeze(f) is Ok,
        spec_set_frozen(f.token_account, true) is Ok,
        receiver.mint@ == f.mint.key@,
    ensures
        ({
            let frozen = spec_set_frozen(f.token_account, true)->Ok_0;
            &&& spec_transfer_tokens(
                TransferTokens {
                    signer: frozen.owner_authority,
                    mint: f.mint,
                    sender_token_account: frozen,
                    receiver_token_account: receiver,
                },
                amount,
            ) == Err::<crate::ledger::LedgerCall, TokenError>(TokenError::AccountFrozen)
            &&& spec_transfer_checked(f.mint, frozen, receiver, amount, f.mint.decimals) == Err::<
                (TokenAccount, TokenAccount),
                TokenError,
            >(TokenError::AccountFrozen)
        }),
{
}

/// Freezing and then thawing an account gives it back as it was, and its
/// owner can again transfer one token out of it when it holds one, to a
/// thawed account of the same mint with room for it.
pub proof fn lemma_thaw_restores_transfer(f: FreezeTokenAccount, receiver: TokenAccount)
    requires
        spec_freeze(f) is Ok,
        !f.token_account.is_frozen,
        f.token_account.balance >= 1,
        receiver.mint@ == f.mint.key@,
        !receiver.is_frozen,
        receiver.balance < u64::MAX,
    ensures
        spec_set_frozen(f.token_account, true) is Ok,
        ({
            let frozen = spec_set_frozen(f.token_account, true)->Ok_0;
            let thaw = ThawTokenAccount {
                token_account: frozen,
                mint: f.mint,
                freeze_authority: f.freeze_authority,
            };
            &&& spec_thaw(thaw) is Ok
            &&& spec_set_frozen(frozen, false) == Ok::<TokenAccount, TokenError>(f.token_account)
        }),
        spec_transfer_tokens(
            TransferTokens {
                signer: f.token_account.owner_authority,
                mint: f.mint,
                sender_token_account: f.token_account,
                receiver_token_account: receiver,
            },
            1,
        ) is Ok,
        spec_transfer_checked(f.mint, f.token_account, receiver, 1, f.mint.decimals) is Ok,
{
    let frozen = spec_set_frozen(f.token_account, true)->Ok_0;
    assert(TokenAccount { is_frozen: false, ..frozen } == f.token_account);
}

/// Approving a delegate and then revoking it leaves no delegate, and a
/// second approval replaces the first rather than adding to it.
pub proof fn lemma_approve_then_revoke(
    ctx: ApproveDelegate,
    amount: u64,
    delegate2: PublicKey,
    amount2: u64,
)
    requires
        spec_approve_delegate(ctx, amount) is Ok,
    ensures
        ({
            let approved = spec_approve(ctx.token_account, ctx.delegate, amount);
            &&& spec_revoke_delegate(
                RevokeDelegate { authority: ctx.authority, token_account: approved },
            ) is Ok
            &&& spec_revoke(approved).delegate is None
            &&& spec_approve_delegate(
                ApproveDelegate { token_account: approved, authority: ctx.authority, delegate: delegate2 },
                amount2,
            ) is Ok
            &&& spec_approve(approved, delegate2, amount2) == spec_approve(
                ctx.token_account,
                delegate2,
                amount2,
            )
        }),
{
}

/// Without a mint authority, minting into an account of the mint fails with
/// `MintingDisabled`, whoever signs.
pub proof fn lemma_minting_disabled(ctx: MintTokens, amount: u64)
    requires
        ctx.mint.mint_authority is None,
        ctx.token_account.mint@ == ctx.mint.key@,
    ensures
        spec_mint_tokens(ctx, amount) == Err::<crate::ledger::LedgerCall, TokenError>(
            TokenError::MintingDisabled,
        ),
        spec_kind(TokenError::MintingDisabled) == ErrorKind::State,
{
}

} // verus!
