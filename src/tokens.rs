//! A small fungible-token ledger: mints with a capped supply, and token
//! accounts that receive minted tokens and transfers.
use crate::pubkey::Pubkey;
use vstd::prelude::*;

verus! {

/// The life cycle of a token account.
#[derive(Debug, Clone, Copy, PartialEq, Eq, Structural, Default)]
pub enum AccountState {
    #[default]
    Uninitialized,
    Initialized,
    Frozen,
}

/// Ways in which a ledger operation fails.
#[derive(Debug, Clone, Copy, PartialEq, Eq, Structural)]
pub enum TokenErrors {
    MintAccountAlreadyInitialized,
    TokenAccountFrozen,
    Overflow,
    ExceedsSupply,
    TransferSubError,
}

/// One holder's balance of one mint.
#[derive(Debug, Clone, Copy)]
pub struct TokenAccount {
    pub mint: Pubkey,
    pub owner: Pubkey,
    pub amount: u64,
    pub state: AccountState,
    pub bump: u8,
}

/// A token mint: its authority, metadata, cap and how much has been minted.
#[derive(Debug, Clone)]
pub struct TokenMint {
    pub authority: Pubkey,
    pub supply: u64,
    pub decimals: u8,
    pub symbol: String,
    pub name: String,
    pub initialized: bool,
    pub minted_supply: u64,
    pub bump: u8,
    pub nonce: u8,
}

/// Initializes a mint that has not been initialized yet; minting starts
/// from zero. An initialized mint is left as it is.
pub fn create_token_mint(
    mint_account: &mut TokenMint,
    authority: &Pubkey,
    bump: u8,
    supply: u64,
    decimals: u8,
    symbol: String,
    name: String,
    nonce: u8,
) -> (r: Result<(), TokenErrors>)
    ensures
        old(mint_account).initialized ==> r == Err::<(), TokenErrors>(
            TokenErrors::MintAccountAlreadyInitialized,
        ) && *final(mint_account) == *old(mint_account),
        !old(mint_account).initialized ==> r is Ok && (*final(mint_account) == TokenMint {
            authority: *authority,
            supply,
            decimals,
            symbol,
            name,
            initialized: true,
            minted_supply: 0,
            bump,
            nonce,
        }),
{
    if mint_account.initialized {
        return Err(TokenErrors::MintAccountAlreadyInitialized);
    }
    mint_account.bump = bump;
    mint_account.authority = *authority;
    mint_account.name = name;
    mint_account.symbol = symbol;
    mint_account.decimals = decimals;
    mint_account.supply = supply;
    mint_account.initialized = true;
    mint_account.nonce = nonce;
    mint_account.minted_supply = 0;
    Ok(())
}

/// What minting `amount` into `account` yields: a frozen account refuses,
/// balances and the minted total must not overflow, and the minted total
/// must stay within the supply.
pub open spec fn mint_outcome(mint: TokenMint, account: TokenAccount, amount: u64) -> Result<
    (),
    TokenErrors,
> {
    if account.state == AccountState::Frozen {
        Err(TokenErrors::TokenAccountFrozen)
    } else if account.state != AccountState::Uninitialized && account.amount + amount > u64::MAX {
        Err(TokenErrors::Overflow)
    } else if mint.minted_supply + amount > u64::MAX {
        Err(TokenErrors::Overflow)
    } else if mint.minted_supply + amount > mint.supply {
        Err(TokenErrors::ExceedsSupply)
    } else {
        Ok(())
    }
}

/// `after` is `before` credited with `amount`; an uninitialized account is
/// first set up for `mint` and `owner`, holding just `amount`.
pub open spec fn credited(
    before: TokenAccount,
    after: TokenAccount,
    mint: Pubkey,
    owner: Pubkey,
    bump: u8,
    amount: u64,
) -> bool {
    if before.state == AccountState::Uninitialized {
        after == TokenAccount { mint, amount, owner, state: AccountState::Initialized, bump }
    } else {
        after == TokenAccount { amount: (before.amount + amount) as u64, ..before }
    }
}

/// Mints `amount` tokens of the mint at `mint_address` into `token_account`
/// for `target`. Either both the account and the mint's total change, or
/// neither does.
pub fn mint_tokens(
    mint_account: &mut TokenMint,
    mint_address: &Pubkey,
    token_account: &mut TokenAccount,
    bump: u8,
    target: Pubkey,
    amount: u64,
) -> (r: Result<(), TokenErrors>)
    ensures
        match r {
            Ok(()) => {
                &&& mint_outcome(*old(mint_account), *old(token_account), amount) is Ok
                &&& (*final(mint_account) == TokenMint {
                    minted_supply: (old(mint_account).minted_supply + amount) as u64,
                    ..*old(mint_account)
                })
                &&& credited(
                    *old(token_account),
                    *final(token_account),
                    *mint_address,
                    target,
                    bump,
                    amount,
                )
            },
            Err(e) => {
                &&& mint_outcome(*old(mint_account), *old(token_account), amount) == Err::<
                    (),
                    TokenErrors,
                >(e)
                &&& *final(mint_account) == *old(mint_account)
                &&& *final(token_account) == *old(token_account)
            },
        },
{
    if token_account.state == AccountState::Frozen {
        return Err(TokenErrors::TokenAccountFrozen);
    }
    let new_amount = if token_account.state == AccountState::Uninitialized {
        amount
    } else {
        match token_account.amount.checked_add(amount) {
            Some(a) => a,
            None => {
                return Err(TokenErrors::Overflow);
            },
        }
    };
    let new_supply = match mint_account.minted_supply.checked_add(amount) {
        Some(s) => s,
        None => {
            return Err(TokenErrors::Overflow);
        },
    };
    if new_supply > mint_account.supply {
        return Err(TokenErrors::ExceedsSupply);
    }
    if token_account.state == AccountState::Uninitialized {
        token_account.mint = *mint_address;
        token_account.owner = target;
        token_account.state = AccountState::Initialized;
        token_account.bump = bump;
    }
    token_account.amount = new_amount;
    mint_account.minted_supply = new_supply;
    Ok(())
}

/// What transferring `amount` from `sender` to `receiver` yields: refused
/// when both accounts are frozen, when the sender holds too little, or when
/// the receiver's balance would overflow.
pub open spec fn transfer_outcome(sender: TokenAccount, receiver: TokenAccount, amount: u64) -> Result<
    (),
    TokenErrors,
> {
    if receiver.state == AccountState::Frozen && sender.state == AccountState::Frozen {
        Err(TokenErrors::TokenAccountFrozen)
    } else if sender.amount < amount {
        Err(TokenErrors::TransferSubError)
    } else if receiver.state != AccountState::Uninitialized && receiver.amount + amount > u64::MAX {
        Err(TokenErrors::Overflow)
    } else {
        Ok(())
    }
}

/// Moves `amount` tokens of the mint at `mint_address` from `sender` to
/// `receiver`, setting the receiver up for `receiver_key` if it is new.
/// Either both balances change, or neither does.
pub fn transfer(
    mint_address: &Pubkey,
    sender: &mut TokenAccount,
    receiver: &mut TokenAccount,
    receiver_key: Pubkey,
    receiver_bump: u8,
    amount: u64,
) -> (r: Result<(), TokenErrors>)
    ensures
        match r {
            Ok(()) => {
                &&& transfer_outcome(*old(sender), *old(receiver), amount) is Ok
                &&& (*final(sender) == TokenAccount {
                    amount: (old(sender).amount - amount) as u64,
                    ..*old(sender)
                })
                &&& credited(
                    *old(receiver),
                    *final(receiver),
                    *mint_address,
                    receiver_key,
                    receiver_bump,
                    amount,
                )
            },
            Err(e) => {
                &&& transfer_outcome(*old(sender), *old(receiver), amount) == Err::<
                    (),
                    TokenErrors,
                >(e)
                &&& *final(sender) == *old(sender)
                &&& *final(receiver) == *old(receiver)
            },
        },
{
    if receiver.state == AccountState::Frozen && sender.state == AccountState::Frozen {
        return Err(TokenErrors::TokenAccountFrozen);
    }
    let new_sender_amount = match sender.amount.checked_sub(amount) {
        Some(a) => a,
        None => {
            return Err(TokenErrors::TransferSubError);
        },
    };
    let new_receiver_amount = if receiver.state == AccountState::Uninitialized {
        amount
    } else {
        match receiver.amount.checked_add(amount) {
            Some(a) => a,
            None => {
                return Err(TokenErrors::Overflow);
            },
        }
    };
    sender.amount = new_sender_amount;
    if receiver.state == AccountState::Uninitialized {
        receiver.mint = *mint_address;
        receiver.owner = receiver_key;
        receiver.state = AccountState::Initialized;
        receiver.bump = receiver_bump;
    }
    receiver.amount = new_receiver_amount;
    Ok(())
}

} // verus!
