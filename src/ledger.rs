use vstd::prelude::*;

use crate::keys::PublicKey;

verus! {

/// The one request an instruction hands to the ledger engine when it is
/// permitted. Accounts are named by key; `authority` is the signer presented.
#[derive(Clone, Copy, Debug, PartialEq, Eq)]
pub enum LedgerCall {
    AllocateMint {
        mint: PublicKey,
        payer: PublicKey,
        decimals: u8,
        mint_authority: Option<PublicKey>,
        freeze_authority: Option<PublicKey>,
    },
    AllocateTokenAccount {
        account: PublicKey,
        payer: PublicKey,
        mint: PublicKey,
        owner_authority: PublicKey,
    },
    MintTo { mint: PublicKey, account: PublicKey, authority: PublicKey, amount: u64 },
    TransferChecked {
        mint: PublicKey,
        from: PublicKey,
        to: PublicKey,
        authority: PublicKey,
        amount: u64,
        decimals: u8,
    },
    Burn { mint: PublicKey, account: PublicKey, authority: PublicKey, amount: u64 },
    Freeze { mint: PublicKey, account: PublicKey, authority: PublicKey },
    Thaw { mint: PublicKey, account: PublicKey, authority: PublicKey },
    Approve { account: PublicKey, delegate: PublicKey, authority: PublicKey, amount: u64 },
    Revoke { account: PublicKey, authority: PublicKey },
    Close { account: PublicKey, destination: PublicKey, authority: PublicKey },
}

} // verus!
