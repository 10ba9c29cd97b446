//! A fixed two-signer authority over a token mint, which mints and airdrops
//! through the ledger on behalf of both signers.
use crate::pubkey::Pubkey;
use vstd::prelude::*;

verus! {

/// Ways in which an airdrop fails.
#[derive(Debug, Clone, Copy, PartialEq, Eq, Structural)]
pub enum MultiSigErrors {
    /// A token account has no recipient or no amount at its position.
    ErrInvalidIndex,
    /// Minting to a recipient failed.
    ErrFailedToAirdropUser,
}

/// The parameters of a new mint created through the two-signer authority.
#[derive(Debug, Clone)]
pub struct TokenMintInputs {
    pub supply: u64,
    pub decimals: u8,
    pub symbol: String,
    pub name: String,
    pub nonce: u8,
}

/// The two-signer authority's persisted state.
#[derive(Debug, Clone, Copy)]
pub struct TokenAuthMultiSig {
    pub bump: u8,
    pub signer1: Pubkey,
    pub signer2: Pubkey,
    pub nonce: u64,
}

/// The state of a new two-signer authority; its nonce starts at zero.
pub fn create_multi_sig(bump: u8, signer1: Pubkey, signer2: Pubkey) -> (r: TokenAuthMultiSig)
    ensures
        r == (TokenAuthMultiSig { bump, signer1, signer2, nonce: 0 }),
{
    TokenAuthMultiSig { bump, signer1, signer2, nonce: 0 }
}

/// Pairs each of `n_accounts` token accounts, by position, with the
/// recipient and amount at the same position. Fails with `ErrInvalidIndex`
/// exactly when there are fewer recipients or fewer amounts than accounts.
pub fn airdrop(n_accounts: usize, users: &Vec<Pubkey>, amounts: &Vec<u64>) -> (r: Result<
    Vec<(Pubkey, u64)>,
    MultiSigErrors,
>)
    ensures
        r is Ok <==> n_accounts <= users@.len() && n_accounts <= amounts@.len(),
        r matches Err(e) ==> e == MultiSigErrors::ErrInvalidIndex,
        r matches Ok(plan) ==> plan@.len() == n_accounts && forall|i: int|
            0 <= i < n_accounts ==> #[trigger] plan@[i] == (users@[i], amounts@[i]),
{
    let mut plan: Vec<(Pubkey, u64)> = Vec::new();
    let mut index: usize = 0;
    while index < n_accounts
        invariant
            index <= n_accounts,
            index <= users@.len(),
            index <= amounts@.len(),
            plan@.len() == index,
            forall|i: int| 0 <= i < index ==> #[trigger] plan@[i] == (users@[i], amounts@[i]),
        decreases n_accounts - index,
    {
        if index >= amounts.len() || index >= users.len() {
            return Err(MultiSigErrors::ErrInvalidIndex);
        }
        plan.push((users[index], amounts[index]));
        index = index + 1;
    }
    Ok(plan)
}

} // verus!
