use vstd::prelude::*;

use crate::keys::PublicKey;

verus! {

/// One fungible asset type, as read from the ledger.
#[derive(Clone, Copy, Debug, PartialEq, Eq)]
pub struct Mint {
    pub key: PublicKey,
    pub decimals: u8,
    /// Who may increase supply; `None` disables minting for good.
    pub mint_authority: Option<PublicKey>,
    /// Who may freeze and thaw accounts of this mint; `None` disables freezing.
    pub freeze_authority: Option<PublicKey>,
    pub supply: u64,
}

/// One holder's balance of one mint, as read from the ledger.
#[derive(Clone, Copy, Debug, PartialEq, Eq)]
pub struct TokenAccount {
    pub key: PublicKey,
    /// The mint this account is bound to.
    pub mint: PublicKey,
    /// Who may transfer, burn, approve, revoke and close.
    pub owner_authority: PublicKey,
    /// A secondary authority with its allowance.
    pub delegate: Option<(PublicKey, u64)>,
    pub is_frozen: bool,
    pub balance: u64,
}

/// Whether an optional authority is present and equal to `k`.
pub open spec fn is_authority(a: Option<PublicKey>, k: PublicKey) -> bool {
    match a {
        Some(x) => x@ == k@,
        None => false,
    }
}

} // verus!
