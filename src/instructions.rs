use vstd::prelude::*;

use crate::equation::{default_params, ChronoEquationType, EquationParams};
use crate::error::TokenError;
use crate::events::{BurnEvent, MintToEvent, PauseEvent, ReUpEvent};
use crate::state::{
    locked, AccountState, ChronoExtension, DecayPool, Mint, PauseType, Pubkey, TokenAccount,
};

verus! {

// Every handler checks everything before it changes anything: on an error all the
// records it was given are left as they were.

/// The value an account lost to decay: how far its evaluated balance fell below its snapshot.
pub open spec fn decay(snapshot: u64, balance: u64) -> int {
    if balance < snapshot {
        snapshot - balance
    } else {
        0
    }
}

/// How far an evaluated balance rose above its snapshot.
pub open spec fn growth(snapshot: u64, balance: u64) -> int {
    if balance > snapshot {
        balance - snapshot
    } else {
        0
    }
}

/// Why `authority` may not move `amount` out of account `a`, if it may not: the owner
/// always may; anyone else must be the delegate with a large enough allowance.
pub open spec fn authority_error(a: TokenAccount, authority: Pubkey, amount: u64) -> Option<TokenError> {
    if a.owner == authority {
        None
    } else if a.delegate != Some(authority) {
        Some(TokenError::InvalidAuthority)
    } else if a.delegated_amount < amount {
        Some(TokenError::InsufficientDelegatedAmount)
    } else {
        None
    }
}

/// The allowance left after `authority` moved `amount` out of `a`.
pub open spec fn allowance_after(a: TokenAccount, authority: Pubkey, amount: u64) -> u64 {
    if a.owner == authority {
        a.delegated_amount
    } else {
        (a.delegated_amount - amount) as u64
    }
}

/// Checks that `authority` may move `amount` out of `account`.
pub fn check_authority(account: &TokenAccount, authority: &Pubkey, amount: u64) -> (r: Result<
    (),
    TokenError,
>)
    ensures
        r == match authority_error(*account, *authority, amount) {
            Some(e) => Err::<(), TokenError>(e),
            None => Ok(()),
        },
{
    if account.owner != *authority {
        if account.delegate != Some(*authority) {
            return Err(TokenError::InvalidAuthority);
        }
        if account.delegated_amount < amount {
            return Err(TokenError::InsufficientDelegatedAmount);
        }
    }
    Ok(())
}

fn debit_allowance(account: &mut TokenAccount, authority: &Pubkey, amount: u64)
    requires
        authority_error(*old(account), *authority, amount) is None,
    ensures
        *final(account) == (TokenAccount {
            delegated_amount: allowance_after(*old(account), *authority, amount),
            ..*old(account)
        }),
{
    if account.owner != *authority {
        account.delegated_amount = account.delegated_amount - amount;
    }
}

fn decay_of(snapshot: u64, balance: u64) -> (r: u64)
    ensures
        r == decay(snapshot, balance),
{
    if balance < snapshot {
        snapshot - balance
    } else {
        0
    }
}

/// The parameters an account's equation is evaluated with: those of the mint's
/// policy extension when it has one, else the family's defaults.
pub fn equation_params_for(
    equation: ChronoEquationType,
    extension: &Option<ChronoExtension>,
) -> (r: EquationParams)
    ensures
        r == match extension {
            Some(ext) => ext.equation_params,
            None => default_params(equation),
        },
{
    match extension {
        Some(ext) => ext.equation_params,
        None => equation.get_params(),
    }
}

// ---------------------------------------------------------------- initialize_mint

/// Why a mint cannot be initialized with these arguments, if it cannot.
pub open spec fn initialize_mint_error(
    mint: Mint,
    enable_chrono_hook: bool,
    chrono_hook_program_id: Option<Pubkey>,
    equation_type: Option<ChronoEquationType>,
    pause_type: Option<PauseType>,
    equation_params: Option<EquationParams>,
    reup_percentage: Option<u8>,
) -> Option<TokenError> {
    if mint.is_initialized {
        Some(TokenError::AlreadyInUse)
    } else if equation_type is None || pause_type is None {
        Some(TokenError::InvalidArgument)
    } else if !enable_chrono_hook {
        None
    } else if chrono_hook_program_id is None || equation_params is None {
        Some(TokenError::InvalidArgument)
    } else {
        reup_percentage_error(pause_type->Some_0, reup_percentage)
    }
}

/// A reup mode needs a percentage of at most 100; any other mode must give none.
pub open spec fn reup_percentage_error(p: PauseType, pct: Option<u8>) -> Option<TokenError> {
    match (p, pct) {
        (PauseType::ReUp, Some(v)) => if v <= 100 {
            None
        } else {
            Some(TokenError::InvalidReUpPercentage)
        },
        (PauseType::ReUp, None) => Some(TokenError::MissingReUpPercentage),
        (_, Some(_)) => Some(TokenError::UnexpectedReUpPercentage),
        (_, None) => None,
    }
}

/// Initializes `mint` for `authority` and, when the policy hook is enabled, its
/// policy extension.
pub fn initialize_mint(
    mint: &mut Mint,
    extension: &mut Option<ChronoExtension>,
    authority: Pubkey,
    decimals: u8,
    supply: u64,
    freeze_authority: Option<Pubkey>,
    enable_chrono_hook: bool,
    chrono_hook_program_id: Option<Pubkey>,
    equation_type: Option<ChronoEquationType>,
    pause_type: Option<PauseType>,
    equation_params: Option<EquationParams>,
    reup_percentage: Option<u8>,
) -> (r: Result<(), TokenError>)
    ensures
        match initialize_mint_error(
            *old(mint),
            enable_chrono_hook,
            chrono_hook_program_id,
            equation_type,
            pause_type,
            equation_params,
            reup_percentage,
        ) {
            Some(e) => {
                &&& r == Err::<(), TokenError>(e)
                &&& *final(mint) == *old(mint)
                &&& *final(extension) == *old(extension)
            },
            None => {
                &&& r == Ok::<(), TokenError>(())
                &&& *final(mint) == (Mint {
                    mint_authority: authority,
                    decimals,
                    is_initialized: true,
                    freeze_authority,
                    chrono_equation: equation_type->Some_0,
                    pause_type: pause_type->Some_0,
                    supply,
                })
                &&& *final(extension) == if enable_chrono_hook {
                    Some(
                        ChronoExtension {
                            authority,
                            program_id: chrono_hook_program_id->Some_0,
                            equation_type: equation_type->Some_0,
                            pause_type: pause_type->Some_0,
                            equation_params: equation_params->Some_0,
                            reup_percentage: match reup_percentage {
                                Some(v) => v,
                                None => 0,
                            },
                        },
                    )
                } else {
                    *old(extension)
                }
            },
        },
{
    if mint.is_initialized {
        return Err(TokenError::AlreadyInUse);
    }
    let (eq_type, p_type) = match (equation_type, pause_type) {
        (Some(e), Some(p)) => (e, p),
        _ => {
            return Err(TokenError::InvalidArgument);
        },
    };
    let mut new_extension: Option<ChronoExtension> = None;
    if enable_chrono_hook {
        let (program_id, params) = match (chrono_hook_program_id, equation_params) {
            (Some(id), Some(params)) => (id, params),
            _ => {
                return Err(TokenError::InvalidArgument);
            },
        };
        let pct = match (p_type, reup_percentage) {
            (PauseType::ReUp, Some(v)) => {
                if v > 100 {
                    return Err(TokenError::InvalidReUpPercentage);
                }
                v
            },
            (PauseType::ReUp, None) => {
                return Err(TokenError::MissingReUpPercentage);
            },
            (_, Some(_)) => {
                return Err(TokenError::UnexpectedReUpPercentage);
            },
            (_, None) => 0,
        };
        new_extension = Some(
            ChronoExtension::new(authority, program_id, eq_type, p_type, params, pct),
        );
    }
    mint.mint_authority = authority;
    mint.decimals = decimals;
    mint.supply = supply;
    mint.freeze_authority = freeze_authority;
    mint.chrono_equation = eq_type;
    mint.pause_type = p_type;
    mint.is_initialized = true;
    if enable_chrono_hook {
        *extension = new_extension;
    }
    Ok(())
}

// ---------------------------------------------------------------- initialize_token_account

/// Opens an account of `mint` for `authority` at time `now`, with a zero balance
/// that follows the mint's equation, and its empty decay pool.
pub fn initialize_token_account(
    mint_key: Pubkey,
    mint: &Mint,
    token_account_key: Pubkey,
    authority: Pubkey,
    delegate: Option<Pubkey>,
    now: i64,
) -> (r: (TokenAccount, DecayPool))
    ensures
        r.0 == (TokenAccount {
            mint: mint_key,
            owner: authority,
            last_balance_snapshot: 0,
            current_chrono_equation: mint.chrono_equation,
            creation_time: now,
            state: AccountState::Initialized,
            delegate,
            delegated_amount: 0,
            close_authority: Some(authority),
        }),
        r.1.token_account == token_account_key,
        r.1.amount == 0,
{
    let account = TokenAccount {
        mint: mint_key,
        owner: authority,
        last_balance_snapshot: 0,
        current_chrono_equation: mint.chrono_equation,
        creation_time: now,
        state: AccountState::Initialized,
        delegate,
        delegated_amount: 0,
        close_authority: Some(authority),
    };
    let pool = DecayPool { token_account: token_account_key, amount: 0, bump: 0 };
    (account, pool)
}

// ---------------------------------------------------------------- mint_to

/// Why `authority` cannot mint `amount` to an account whose balance is now `current_balance`.
pub open spec fn mint_to_error(
    mint: Mint,
    account: TokenAccount,
    authority: Pubkey,
    amount: u64,
    current_balance: u64,
) -> Option<TokenError> {
    if mint.mint_authority != authority {
        Some(TokenError::InvalidMintAuthority)
    } else if locked(account.state) {
        Some(TokenError::AccountFrozen)
    } else if mint.supply + amount > u64::MAX {
        Some(TokenError::Overflow)
    } else if current_balance + amount > u64::MAX {
        Some(TokenError::Overflow)
    } else {
        None
    }
}

/// Mints `amount` to an account: the supply and the account's balance, which is
/// `current_balance` now, both grow by `amount`.
pub fn mint_to(
    mint_key: Pubkey,
    mint: &mut Mint,
    token_account_key: Pubkey,
    token_account: &mut TokenAccount,
    authority: Pubkey,
    amount: u64,
    current_balance: u64,
) -> (r: Result<MintToEvent, TokenError>)
    ensures
        match mint_to_error(*old(mint), *old(token_account), authority, amount, current_balance) {
            Some(e) => {
                &&& r == Err::<MintToEvent, TokenError>(e)
                &&& *final(mint) == *old(mint)
                &&& *final(token_account) == *old(token_account)
            },
            None => {
                &&& r == Ok::<MintToEvent, TokenError>(
                    MintToEvent {
                        mint: mint_key,
                        token_account: token_account_key,
                        amount,
                        new_balance: (current_balance + amount) as u64,
                    },
                )
                &&& *final(mint) == (Mint { supply: (old(mint).supply + amount) as u64, ..*old(mint) })
                &&& *final(token_account) == (TokenAccount {
                    last_balance_snapshot: (current_balance + amount) as u64,
                    ..*old(token_account)
                })
            },
        },
{
    if mint.mint_authority != authority {
        return Err(TokenError::InvalidMintAuthority);
    }
    if token_account.is_locked() {
        return Err(TokenError::AccountFrozen);
    }
    let supply = match mint.supply.checked_add(amount) {
        Some(v) => v,
        None => {
            return Err(TokenError::Overflow);
        },
    };
    let new_balance = match current_balance.checked_add(amount) {
        Some(v) => v,
        None => {
            return Err(TokenError::Overflow);
        },
    };
    mint.supply = supply;
    token_account.last_balance_snapshot = new_balance;
    Ok(MintToEvent { mint: mint_key, token_account: token_account_key, amount, new_balance })
}

// ---------------------------------------------------------------- burn

/// Why `authority` cannot burn `amount` from an account whose balance is now `current_balance`.
pub open spec fn burn_error(
    mint: Mint,
    account: TokenAccount,
    authority: Pubkey,
    amount: u64,
    current_balance: u64,
) -> Option<TokenError> {
    if locked(account.state) {
        Some(TokenError::AccountFrozen)
    } else if current_balance < amount {
        Some(TokenError::InsufficientFunds)
    } else if authority_error(account, authority, amount) is Some {
        authority_error(account, authority, amount)
    } else if mint.supply < amount {
        Some(TokenError::Overflow)
    } else {
        None
    }
}

/// Burns `amount` from an account: the supply and the account's balance, which is
/// `current_balance` now, both shrink by `amount`.
pub fn burn(
    mint_key: Pubkey,
    mint: &mut Mint,
    token_account_key: Pubkey,
    token_account: &mut TokenAccount,
    authority: Pubkey,
    amount: u64,
    current_balance: u64,
) -> (r: Result<BurnEvent, TokenError>)
    ensures
        match burn_error(*old(mint), *old(token_account), authority, amount, current_balance) {
            Some(e) => {
                &&& r == Err::<BurnEvent, TokenError>(e)
                &&& *final(mint) == *old(mint)
                &&& *final(token_account) == *old(token_account)
            },
            None => {
                &&& r == Ok::<BurnEvent, TokenError>(
                    BurnEvent {
                        mint: mint_key,
                        token_account: token_account_key,
                        amount,
                        new_balance: (current_balance - amount) as u64,
                    },
                )
                &&& *final(mint) == (Mint { supply: (old(mint).supply - amount) as u64, ..*old(mint) })
                &&& *final(token_account) == (TokenAccount {
                    last_balance_snapshot: (current_balance - amount) as u64,
                    delegated_amount: allowance_after(*old(token_account), authority, amount),
                    ..*old(token_account)
                })
            },
        },
{
    if token_account.is_locked() {
        return Err(TokenError::AccountFrozen);
    }
    if current_balance < amount {
        return Err(TokenError::InsufficientFunds);
    }
    check_authority(token_account, &authority, amount)?;
    let supply = match mint.supply.checked_sub(amount) {
        Some(v) => v,
        None => {
            return Err(TokenError::Overflow);
        },
    };
    let new_balance = current_balance - amount;
    mint.supply = supply;
    token_account.last_balance_snapshot = new_balance;
    debit_allowance(token_account, &authority, amount);
    Ok(BurnEvent { mint: mint_key, token_account: token_account_key, amount, new_balance })
}

// ---------------------------------------------------------------- transfer

/// Why `authority` cannot move `amount` between two accounts whose balances are
/// now `from_balance` and `to_balance`.
pub open spec fn transfer_error(
    from_key: Pubkey,
    from: TokenAccount,
    to_key: Pubkey,
    to: TokenAccount,
    from_pool: DecayPool,
    to_pool: DecayPool,
    authority: Pubkey,
    amount: u64,
    from_balance: u64,
    to_balance: u64,
) -> Option<TokenError> {
    if locked(from.state) || locked(to.state) {
        Some(TokenError::AccountFrozen)
    } else if from_key == to_key {
        Some(TokenError::SelfTransfer)
    } else if amount == 0 {
        None
    } else if from_balance < amount {
        Some(TokenError::InsufficientFunds)
    } else if authority_error(from, authority, amount) is Some {
        authority_error(from, authority, amount)
    } else if to_balance + amount > u64::MAX {
        Some(TokenError::Overflow)
    } else if from_pool.amount + decay(from.last_balance_snapshot, from_balance) > u64::MAX {
        Some(TokenError::Overflow)
    } else if to_pool.amount + decay(to.last_balance_snapshot, to_balance) > u64::MAX {
        Some(TokenError::Overflow)
    } else {
        None
    }
}

/// The sender after a transfer: its balance less `amount`, its allowance debited
/// when a delegate moved it.
pub open spec fn sender_after(from: TokenAccount, authority: Pubkey, amount: u64, from_balance: u64) -> TokenAccount {
    TokenAccount {
        last_balance_snapshot: (from_balance - amount) as u64,
        delegated_amount: allowance_after(from, authority, amount),
        ..from
    }
}

/// The receiver after a transfer: its balance plus `amount`.
pub open spec fn receiver_after(to: TokenAccount, amount: u64, to_balance: u64) -> TokenAccount {
    TokenAccount { last_balance_snapshot: (to_balance + amount) as u64, ..to }
}

/// A decay pool credited with what its account lost to decay.
pub open spec fn pool_after(pool: DecayPool, snapshot: u64, balance: u64) -> DecayPool {
    DecayPool { amount: (pool.amount + decay(snapshot, balance)) as u64, ..pool }
}

/// Moves `amount` from one account to another. Both balances are given as they
/// evaluate now; each account's decay since its snapshot goes to its decay pool.
/// A zero amount changes nothing.
pub fn transfer(
    from_key: Pubkey,
    from: &mut TokenAccount,
    to_key: Pubkey,
    to: &mut TokenAccount,
    from_pool: &mut DecayPool,
    to_pool: &mut DecayPool,
    authority: Pubkey,
    amount: u64,
    from_balance: u64,
    to_balance: u64,
) -> (r: Result<(), TokenError>)
    ensures
        match transfer_error(
            from_key,
            *old(from),
            to_key,
            *old(to),
            *old(from_pool),
            *old(to_pool),
            authority,
            amount,
            from_balance,
            to_balance,
        ) {
            Some(e) => r == Err::<(), TokenError>(e),
            None => r == Ok::<(), TokenError>(()),
        },
        (r is Err || amount == 0) ==> {
            &&& *final(from) == *old(from)
            &&& *final(to) == *old(to)
            &&& *final(from_pool) == *old(from_pool)
            &&& *final(to_pool) == *old(to_pool)
        },
        (r is Ok && amount > 0) ==> {
            &&& *final(from) == sender_after(*old(from), authority, amount, from_balance)
            &&& *final(to) == receiver_after(*old(to), amount, to_balance)
            &&& *final(from_pool) == pool_after(
                *old(from_pool),
                old(from).last_balance_snapshot,
                from_balance,
            )
            &&& *final(to_pool) == pool_after(*old(to_pool), old(to).last_balance_snapshot, to_balance)
        },
{
    if from.is_locked() || to.is_locked() {
        return Err(TokenError::AccountFrozen);
    }
    if from_key == to_key {
        return Err(TokenError::SelfTransfer);
    }
    if amount == 0 {
        return Ok(());
    }
    if from_balance < amount {
        return Err(TokenError::InsufficientFunds);
    }
    check_authority(from, &authority, amount)?;
    let new_to = match to_balance.checked_add(amount) {
        Some(v) => v,
        None => {
            return Err(TokenError::Overflow);
        },
    };
    let from_decay = decay_of(from.last_balance_snapshot, from_balance);
    let to_decay = decay_of(to.last_balance_snapshot, to_balance);
    let new_from_pool = match from_pool.amount.checked_add(from_decay) {
        Some(v) => v,
        None => {
            return Err(TokenError::Overflow);
        },
    };
    let new_to_pool = match to_pool.amount.checked_add(to_decay) {
        Some(v) => v,
        None => {
            return Err(TokenError::Overflow);
        },
    };
    from.last_balance_snapshot = from_balance - amount;
    debit_allowance(from, &authority, amount);
    to.last_balance_snapshot = new_to;
    from_pool.amount = new_from_pool;
    to_pool.amount = new_to_pool;
    Ok(())
}

/// A transfer never takes from a decay pool; it moves `amount` from the sender's
/// evaluated balance to the receiver's, so the two new snapshots add up to the two
/// evaluated balances; and the two old snapshots, with what the balances grew by,
/// add up to the two new snapshots and the decay credited to the pools.
pub proof fn transfer_conserves_value(
    from_key: Pubkey,
    from: TokenAccount,
    to_key: Pubkey,
    to: TokenAccount,
    from_pool: DecayPool,
    to_pool: DecayPool,
    authority: Pubkey,
    amount: u64,
    from_balance: u64,
    to_balance: u64,
)
    requires
        transfer_error(
            from_key,
            from,
            to_key,
            to,
            from_pool,
            to_pool,
            authority,
            amount,
            from_balance,
            to_balance,
        ) is None,
        amount > 0,
    ensures
        ({
            let from2 = sender_after(from, authority, amount, from_balance);
            let to2 = receiver_after(to, amount, to_balance);
            let from_pool2 = pool_after(from_pool, from.last_balance_snapshot, from_balance);
            let to_pool2 = pool_after(to_pool, to.last_balance_snapshot, to_balance);
            let credited = (from_pool2.amount - from_pool.amount) + (to_pool2.amount
                - to_pool.amount);
            &&& from_pool2.amount >= from_pool.amount
            &&& to_pool2.amount >= to_pool.amount
            &&& from_balance + to_balance == from2.last_balance_snapshot
                + to2.last_balance_snapshot
            &&& from.last_balance_snapshot + to.last_balance_snapshot + growth(
                from.last_balance_snapshot,
                from_balance,
            ) + growth(to.last_balance_snapshot, to_balance) == from2.last_balance_snapshot
                + to2.last_balance_snapshot + credited
        }),
{
}

// ---------------------------------------------------------------- pause

/// Why the account cannot be paused through policy hook `hook_program`, if it cannot.
pub open spec fn pause_error(
    account: TokenAccount,
    extension: Option<ChronoExtension>,
    hook_program: Pubkey,
) -> Option<TokenError> {
    match extension {
        None => Some(TokenError::PauseNotAllowed),
        Some(ext) => if ext.program_id != hook_program {
            Some(TokenError::InvalidAccountData)
        } else if ext.pause_type != PauseType::Pause {
            Some(TokenError::PauseNotAllowed)
        } else if account.state == AccountState::Pause {
            Some(TokenError::AlreadyPaused)
        } else {
            None
        },
    }
}

/// Checks a pause before the policy hook is invoked.
pub fn check_pause(
    token_account: &TokenAccount,
    extension: &Option<ChronoExtension>,
    hook_program: Pubkey,
) -> (r: Result<(), TokenError>)
    ensures
        r == match pause_error(*token_account, *extension, hook_program) {
            Some(e) => Err::<(), TokenError>(e),
            None => Ok(()),
        },
{
    match extension {
        None => Err(TokenError::PauseNotAllowed),
        Some(ext) => {
            if ext.program_id != hook_program {
                return Err(TokenError::InvalidAccountData);
            }
            if ext.pause_type != PauseType::Pause {
                return Err(TokenError::PauseNotAllowed);
            }
            if token_account.state == AccountState::Pause {
                return Err(TokenError::AlreadyPaused);
            }
            Ok(())
        },
    }
}

/// Pauses an account once its policy hook has accepted: the account enters the
/// paused state and takes up the mint's current equation.
pub fn pause(
    mint_key: Pubkey,
    mint: &Mint,
    token_account_key: Pubkey,
    token_account: &mut TokenAccount,
    extension: &Option<ChronoExtension>,
    hook_program: Pubkey,
    authority: Pubkey,
) -> (r: Result<PauseEvent, TokenError>)
    ensures
        match pause_error(*old(token_account), *extension, hook_program) {
            Some(e) => r == Err::<PauseEvent, TokenError>(e) && *final(token_account) == *old(
                token_account,
            ),
            None => {
                &&& r == Ok::<PauseEvent, TokenError>(
                    PauseEvent { mint: mint_key, token_account: token_account_key, authority },
                )
                &&& *final(token_account) == (TokenAccount {
                    state: AccountState::Pause,
                    current_chrono_equation: mint.chrono_equation,
                    ..*old(token_account)
                })
            },
        },
{
    check_pause(token_account, extension, hook_program)?;
    token_account.state = AccountState::Pause;
    token_account.current_chrono_equation = mint.chrono_equation;
    Ok(PauseEvent { mint: mint_key, token_account: token_account_key, authority })
}

// ---------------------------------------------------------------- reup

/// The share of a decay pool that a reup returns.
pub open spec fn reup_amount(pool_amount: u64, reup_percentage: u8) -> int {
    pool_amount * reup_percentage / 100
}

/// Why `authority` cannot reup the account through policy hook `hook_program`,
/// before the hook is invoked.
pub open spec fn reup_check_error(
    account: TokenAccount,
    extension: Option<ChronoExtension>,
    hook_program: Pubkey,
    authority: Pubkey,
) -> Option<TokenError> {
    match extension {
        None => Some(TokenError::ReUpNotAllowed),
        Some(ext) => if ext.program_id != hook_program {
            Some(TokenError::InvalidAccountData)
        } else if ext.pause_type != PauseType::ReUp {
            Some(TokenError::ReUpNotAllowed)
        } else if locked(account.state) {
            Some(TokenError::AccountFrozen)
        } else if account.owner != authority {
            Some(TokenError::OwnerMismatch)
        } else {
            None
        },
    }
}

/// Why the reup cannot be applied, if it cannot.
pub open spec fn reup_error(
    token_account_key: Pubkey,
    account: TokenAccount,
    pool: DecayPool,
    extension: Option<ChronoExtension>,
    hook_program: Pubkey,
    authority: Pubkey,
    current_balance: u64,
) -> Option<TokenError> {
    if reup_check_error(account, extension, hook_program, authority) is Some {
        reup_check_error(account, extension, hook_program, authority)
    } else {
        let pct = extension->Some_0.reup_percentage;
        if pct > 100 {
            Some(TokenError::InvalidReUpPercentage)
        } else if current_balance + reup_amount(pool.amount, pct) > u64::MAX {
            Some(TokenError::Overflow)
        } else if pool.token_account != token_account_key {
            Some(TokenError::InvalidAuthority)
        } else if pool.amount < reup_amount(pool.amount, pct) {
            Some(TokenError::InsufficientFunds)
        } else {
            None
        }
    }
}

/// Checks a reup before the policy hook is invoked.
pub fn check_reup(
    token_account: &TokenAccount,
    extension: &Option<ChronoExtension>,
    hook_program: Pubkey,
    authority: Pubkey,
) -> (r: Result<(), TokenError>)
    ensures
        r == match reup_check_error(*token_account, *extension, hook_program, authority) {
            Some(e) => Err::<(), TokenError>(e),
            None => Ok(()),
        },
{
    match extension {
        None => Err(TokenError::ReUpNotAllowed),
        Some(ext) => {
            if ext.program_id != hook_program {
                return Err(TokenError::InvalidAccountData);
            }
            if ext.pause_type != PauseType::ReUp {
                return Err(TokenError::ReUpNotAllowed);
            }
            if token_account.is_locked() {
                return Err(TokenError::AccountFrozen);
            }
            if token_account.owner != authority {
                return Err(TokenError::OwnerMismatch);
            }
            Ok(())
        },
    }
}

/// Returns a share of the decay pool to the account once its policy hook has
/// accepted: the account's balance, `current_balance` now, grows by the share, and
/// the pool shrinks by it.
pub fn reup(
    mint_key: Pubkey,
    token_account_key: Pubkey,
    token_account: &mut TokenAccount,
    decay_pool: &mut DecayPool,
    extension: &Option<ChronoExtension>,
    hook_program: Pubkey,
    authority: Pubkey,
    current_balance: u64,
) -> (r: Result<ReUpEvent, TokenError>)
    ensures
        match reup_error(
            token_account_key,
            *old(token_account),
            *old(decay_pool),
            *extension,
            hook_program,
            authority,
            current_balance,
        ) {
            Some(e) => {
                &&& r == Err::<ReUpEvent, TokenError>(e)
                &&& *final(token_account) == *old(token_account)
                &&& *final(decay_pool) == *old(decay_pool)
            },
            None => {
                let amount = reup_amount(old(decay_pool).amount, extension->Some_0.reup_percentage);
                &&& r == Ok::<ReUpEvent, TokenError>(
                    ReUpEvent {
                        mint: mint_key,
                        token_account: token_account_key,
                        authority,
                        amount: amount as u64,
                        new_balance: (current_balance + amount) as u64,
                        decay_pool_balance: (old(decay_pool).amount - amount) as u64,
                    },
                )
                &&& *final(token_account) == (TokenAccount {
                    last_balance_snapshot: (current_balance + amount) as u64,
                    ..*old(token_account)
                })
                &&& *final(decay_pool) == (DecayPool {
                    amount: (old(decay_pool).amount - amount) as u64,
                    ..*old(decay_pool)
                })
            },
        },
{
    check_reup(token_account, extension, hook_program, authority)?;
    let pct = match extension {
        Some(ext) => ext.reup_percentage,
        None => {
            return Err(TokenError::ReUpNotAllowed);
        },
    };
    if pct > 100 {
        return Err(TokenError::InvalidReUpPercentage);
    }
    assert(decay_pool.amount as u128 * pct as u128 <= u64::MAX as u128 * 100) by (nonlinear_arith)
        requires
            pct <= 100,
    ;
    let wide: u128 = decay_pool.amount as u128 * pct as u128 / 100;
    proof {
        reup_amount_within_pool(decay_pool.amount, pct);
    }
    let amount = wide as u64;
    let new_balance = match current_balance.checked_add(amount) {
        Some(v) => v,
        None => {
            return Err(TokenError::Overflow);
        },
    };
    if decay_pool.token_account != token_account_key {
        return Err(TokenError::InvalidAuthority);
    }
    let left = match decay_pool.amount.checked_sub(amount) {
        Some(v) => v,
        None => {
            return Err(TokenError::InsufficientFunds);
        },
    };
    token_account.last_balance_snapshot = new_balance;
    decay_pool.amount = left;
    Ok(
        ReUpEvent {
            mint: mint_key,
            token_account: token_account_key,
            authority,
            amount,
            new_balance,
            decay_pool_balance: left,
        },
    )
}

/// A reup returns at most what the pool holds, so the pool never goes negative.
pub proof fn reup_amount_within_pool(pool_amount: u64, reup_percentage: u8)
    requires
        reup_percentage <= 100,
    ensures
        0 <= reup_amount(pool_amount, reup_percentage) <= pool_amount,
        pool_amount - reup_amount(pool_amount, reup_percentage) >= 0,
{
    assert(pool_amount * reup_percentage <= pool_amount * 100) by (nonlinear_arith)
        requires
            reup_percentage <= 100,
    ;
    assert(0 <= pool_amount * reup_percentage) by (nonlinear_arith);
}

} // verus!
