use vstd::prelude::*;

verus! {

/// Failures of the ledger's transaction handlers.
#[derive(Debug, Clone, Copy, PartialEq, Eq, Structural)]
pub enum TokenError {
    MintAuthorityInvalid,
    MintMismatch,
    OwnerMismatch,
    InsufficientFunds,
    Overflow,
    AccountFrozen,
    AlreadyInUse,
    InsufficientDelegatedAmount,
    InvalidAuthority,
    BalanceEvaluationError,
    InvalidMintAuthority,
    AlreadyPaused,
    InvalidAmount,
    SelfTransfer,
    InvalidAccountData,
    InvalidArgument,
    PauseNotAllowed,
    ReUpNotAllowed,
    InvalidReUpPercentage,
    MintAuthorityMismatch,
    MissingReUpPercentage,
    UnexpectedReUpPercentage,
}

} // verus!
