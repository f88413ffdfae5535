use vstd::prelude::*;

use crate::state::Pubkey;

verus! {

/// Record of tokens minted to an account.
#[derive(Debug, Clone, Copy, PartialEq, Eq, Structural)]
pub struct MintToEvent {
    pub mint: Pubkey,
    pub token_account: Pubkey,
    pub amount: u64,
    pub new_balance: u64,
}

/// Record of tokens burned from an account.
#[derive(Debug, Clone, Copy, PartialEq, Eq, Structural)]
pub struct BurnEvent {
    pub mint: Pubkey,
    pub token_account: Pubkey,
    pub amount: u64,
    pub new_balance: u64,
}

/// Record of an account put in the paused state.
#[derive(Debug, Clone, Copy, PartialEq, Eq, Structural)]
pub struct PauseEvent {
    pub mint: Pubkey,
    pub token_account: Pubkey,
    pub authority: Pubkey,
}

/// Record of decayed value returned to an account.
#[derive(Debug, Clone, Copy, PartialEq, Eq, Structural)]
pub struct ReUpEvent {
    pub mint: Pubkey,
    pub token_account: Pubkey,
    pub authority: Pubkey,
    pub amount: u64,
    pub new_balance: u64,
    pub decay_pool_balance: u64,
}

} // verus!
