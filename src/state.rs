use vstd::prelude::*;

use crate::equation::{ChronoEquationType, EquationParams};

verus! {

/// The identity of an account, a program or a signer: 32 bytes, read as two
/// big-endian halves.
#[derive(Debug, Clone, Copy, PartialEq, Eq, Structural)]
pub struct Pubkey {
    pub high: u128,
    pub low: u128,
}

/// Lifecycle of a token account.
#[derive(Debug, Clone, Copy, PartialEq, Eq, Structural)]
pub enum AccountState {
    Uninitialized,
    Initialized,
    Pause,
    Unpause,
    Frozen,
}

/// What the policy extension of a mint lets its accounts do.
#[derive(Debug, Clone, Copy, PartialEq, Eq, Structural)]
pub enum PauseType {
    Disabled,
    Pause,
    ReUp,
}

/// A token class.
#[derive(Debug, Clone, Copy, PartialEq, Eq, Structural)]
pub struct Mint {
    pub mint_authority: Pubkey,
    pub decimals: u8,
    pub is_initialized: bool,
    pub freeze_authority: Option<Pubkey>,
    pub chrono_equation: ChronoEquationType,
    pub pause_type: PauseType,
    pub supply: u64,
}

/// One holder's position: a balance snapshot and the equation that moves it with time.
#[derive(Debug, Clone, Copy, PartialEq, Eq, Structural)]
pub struct TokenAccount {
    pub mint: Pubkey,
    pub owner: Pubkey,
    /// The last recorded balance, in fixed-point units.
    pub last_balance_snapshot: u64,
    /// The family of the equation the balance follows.
    pub current_chrono_equation: ChronoEquationType,
    pub creation_time: i64,
    pub state: AccountState,
    pub delegate: Option<Pubkey>,
    pub delegated_amount: u64,
    pub close_authority: Option<Pubkey>,
}

impl TokenAccount {
    /// Whether the account is frozen.
    pub fn is_frozen(&self) -> (r: bool)
        ensures
            r == (self.state == AccountState::Frozen),
    {
        self.state == AccountState::Frozen
    }

    /// Whether the account's balance may not change now: it is frozen or paused.
    pub fn is_locked(&self) -> (r: bool)
        ensures
            r == locked(self.state),
    {
        self.state == AccountState::Frozen || self.state == AccountState::Pause
    }
}

pub open spec fn locked(s: AccountState) -> bool {
    s == AccountState::Frozen || s == AccountState::Pause
}

/// The value an account has lost to decay, kept for a later reup.
#[derive(Debug, Clone, Copy, PartialEq, Eq, Structural)]
pub struct DecayPool {
    pub token_account: Pubkey,
    pub amount: u64,
    pub bump: u8,
}

/// The policy extension of a mint.
#[derive(Debug, Clone, Copy, PartialEq, Eq, Structural)]
pub struct ChronoExtension {
    pub authority: Pubkey,
    /// The policy hook program that pause and reup must name.
    pub program_id: Pubkey,
    pub equation_type: ChronoEquationType,
    pub pause_type: PauseType,
    pub equation_params: EquationParams,
    /// Share of the decay pool that a reup returns, in percent.
    pub reup_percentage: u8,
}

impl ChronoExtension {
    pub fn new(
        authority: Pubkey,
        program_id: Pubkey,
        equation_type: ChronoEquationType,
        pause_type: PauseType,
        equation_params: EquationParams,
        reup_percentage: u8,
    ) -> (r: ChronoExtension)
        ensures
            r == (ChronoExtension {
                authority,
                program_id,
                equation_type,
                pause_type,
                equation_params,
                reup_percentage,
            }),
    {
        ChronoExtension {
            authority,
            program_id,
            equation_type,
            pause_type,
            equation_params,
            reup_percentage,
        }
    }
}

} // verus!
