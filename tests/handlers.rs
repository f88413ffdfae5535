use chrono_token::equation::{ChronoEquationType, EquationParams};
use chrono_token::error::TokenError;
use chrono_token::events::{BurnEvent, MintToEvent, PauseEvent, ReUpEvent};
use chrono_token::instructions::{
    burn, check_authority, check_pause, check_reup, initialize_mint, initialize_token_account,
    mint_to, pause, reup, transfer,
};
use chrono_token::state::{
    AccountState, ChronoExtension, DecayPool, Mint, PauseType, Pubkey, TokenAccount,
};
use chrono_token::utils::parse_amount;

fn key(n: u128) -> Pubkey {
    Pubkey { high: 0, low: n }
}

fn fresh_mint() -> Mint {
    Mint {
        mint_authority: key(0),
        decimals: 0,
        is_initialized: false,
        freeze_authority: None,
        chrono_equation: ChronoEquationType::Linear,
        pause_type: PauseType::Disabled,
        supply: 0,
    }
}

fn ready_mint(authority: Pubkey, supply: u64) -> Mint {
    Mint {
        mint_authority: authority,
        decimals: 9,
        is_initialized: true,
        freeze_authority: None,
        chrono_equation: ChronoEquationType::Linear,
        pause_type: PauseType::ReUp,
        supply,
    }
}

fn account(owner: Pubkey, snapshot: u64) -> TokenAccount {
    TokenAccount {
        mint: key(1),
        owner,
        last_balance_snapshot: snapshot,
        current_chrono_equation: ChronoEquationType::Linear,
        creation_time: 0,
        state: AccountState::Initialized,
        delegate: None,
        delegated_amount: 0,
        close_authority: Some(owner),
    }
}

fn pool(of: Pubkey, amount: u64) -> DecayPool {
    DecayPool { token_account: of, amount, bump: 0 }
}

fn extension(p: PauseType, hook: Pubkey, pct: u8) -> Option<ChronoExtension> {
    Some(ChronoExtension::new(
        key(0),
        hook,
        ChronoEquationType::Linear,
        p,
        EquationParams::new(),
        pct,
    ))
}

#[test]
fn transfer_moves_amount_between_fresh_accounts() {
    let (a, b) = (key(10), key(11));
    let mut mint = ready_mint(key(0), 0);
    let mut from = account(key(20), 0);
    let mut to = account(key(21), 0);
    mint_to(key(1), &mut mint, a, &mut from, key(0), 1000, 0).unwrap();
    let mut fp = pool(a, 0);
    let mut tp = pool(b, 0);
    transfer(a, &mut from, b, &mut to, &mut fp, &mut tp, key(20), 500, 1000, 0).unwrap();
    assert_eq!(from.last_balance_snapshot, 500);
    assert_eq!(to.last_balance_snapshot, 500);
    assert_eq!(fp.amount, 0);
    assert_eq!(tp.amount, 0);
    assert_eq!(mint.supply, 1000);
}

#[test]
fn transfer_credits_observed_decay_to_pools() {
    let (a, b) = (key(10), key(11));
    let mut from = account(key(20), 1000);
    let mut to = account(key(21), 300);
    let mut fp = pool(a, 5);
    let mut tp = pool(b, 0);
    transfer(a, &mut from, b, &mut to, &mut fp, &mut tp, key(20), 500, 900, 250).unwrap();
    assert_eq!(from.last_balance_snapshot, 400);
    assert_eq!(to.last_balance_snapshot, 750);
    assert_eq!(fp.amount, 105);
    assert_eq!(tp.amount, 50);
    // old snapshots = new snapshots + credited decay
    assert_eq!(1000 + 300, 400 + 750 + 100 + 50);
}

#[test]
fn self_transfer_is_rejected_without_change() {
    let a = key(10);
    let mut from = account(key(20), 1000);
    let mut to = from;
    let mut fp = pool(a, 0);
    let mut tp = pool(a, 0);
    let r = transfer(a, &mut from, a, &mut to, &mut fp, &mut tp, key(20), 500, 1000, 1000);
    assert_eq!(r, Err(TokenError::SelfTransfer));
    assert_eq!(from, account(key(20), 1000));
    assert_eq!(to, account(key(20), 1000));
    assert_eq!(fp.amount, 0);
}

#[test]
fn zero_transfer_is_a_no_op() {
    let (a, b) = (key(10), key(11));
    let mut from = account(key(20), 1000);
    let mut to = account(key(21), 0);
    let mut fp = pool(a, 0);
    let mut tp = pool(b, 0);
    assert_eq!(transfer(a, &mut from, b, &mut to, &mut fp, &mut tp, key(99), 0, 10, 0), Ok(()));
    assert_eq!(from, account(key(20), 1000));
    assert_eq!(to, account(key(21), 0));
}

#[test]
fn transfer_errors() {
    let (a, b) = (key(10), key(11));
    let mut fp = pool(a, 0);
    let mut tp = pool(b, 0);
    let mut from = account(key(20), 100);
    let mut to = account(key(21), 0);
    let r = transfer(a, &mut from, b, &mut to, &mut fp, &mut tp, key(20), 500, 100, 0);
    assert_eq!(r, Err(TokenError::InsufficientFunds));
    let r = transfer(a, &mut from, b, &mut to, &mut fp, &mut tp, key(30), 50, 100, 0);
    assert_eq!(r, Err(TokenError::InvalidAuthority));
    let r = transfer(a, &mut from, b, &mut to, &mut fp, &mut tp, key(20), 50, 100, u64::MAX);
    assert_eq!(r, Err(TokenError::Overflow));
    to.state = AccountState::Frozen;
    let r = transfer(a, &mut from, b, &mut to, &mut fp, &mut tp, key(20), 50, 100, 0);
    assert_eq!(r, Err(TokenError::AccountFrozen));
    assert_eq!(from, account(key(20), 100));
}

#[test]
fn delegate_transfer_spends_allowance() {
    let (a, b) = (key(10), key(11));
    let mut fp = pool(a, 0);
    let mut tp = pool(b, 0);
    let mut from = account(key(20), 100);
    from.delegate = Some(key(30));
    from.delegated_amount = 60;
    let mut to = account(key(21), 0);
    let r = transfer(a, &mut from, b, &mut to, &mut fp, &mut tp, key(30), 70, 100, 0);
    assert_eq!(r, Err(TokenError::InsufficientDelegatedAmount));
    transfer(a, &mut from, b, &mut to, &mut fp, &mut tp, key(30), 40, 100, 0).unwrap();
    assert_eq!(from.delegated_amount, 20);
    assert_eq!(from.last_balance_snapshot, 60);
    assert_eq!(check_authority(&from, &key(20), 1_000), Ok(()));
}

#[test]
fn reup_returns_half_of_pool() {
    let a = key(10);
    let hook = key(40);
    let ext = extension(PauseType::ReUp, hook, 50);
    let mut acc = account(key(20), 2000);
    let mut dp = pool(a, 1000);
    let ev = reup(key(1), a, &mut acc, &mut dp, &ext, hook, key(20), 1500).unwrap();
    assert_eq!(ev, ReUpEvent {
        mint: key(1),
        token_account: a,
        authority: key(20),
        amount: 500,
        new_balance: 2000,
        decay_pool_balance: 500,
    });
    assert_eq!(dp.amount, 500);
    assert_eq!(acc.last_balance_snapshot, 2000);
}

#[test]
fn reup_full_and_rounded_down() {
    let a = key(10);
    let hook = key(40);
    let mut acc = account(key(20), 0);
    let mut dp = pool(a, 999);
    let ext = extension(PauseType::ReUp, hook, 100);
    reup(key(1), a, &mut acc, &mut dp, &ext, hook, key(20), 0).unwrap();
    assert_eq!(dp.amount, 0);
    assert_eq!(acc.last_balance_snapshot, 999);
    let mut dp = pool(a, 3);
    let ext = extension(PauseType::ReUp, hook, 33);
    let ev = reup(key(1), a, &mut acc, &mut dp, &ext, hook, key(20), 0).unwrap();
    assert_eq!(ev.amount, 0);
    assert_eq!(dp.amount, 3);
}

#[test]
fn reup_errors() {
    let a = key(10);
    let hook = key(40);
    let mut acc = account(key(20), 0);
    let mut dp = pool(a, 100);
    let ext = extension(PauseType::ReUp, hook, 50);
    assert_eq!(reup(key(1), a, &mut acc, &mut dp, &None, hook, key(20), 0), Err(TokenError::ReUpNotAllowed));
    assert_eq!(reup(key(1), a, &mut acc, &mut dp, &ext, key(41), key(20), 0), Err(TokenError::InvalidAccountData));
    let paused = extension(PauseType::Pause, hook, 50);
    assert_eq!(reup(key(1), a, &mut acc, &mut dp, &paused, hook, key(20), 0), Err(TokenError::ReUpNotAllowed));
    assert_eq!(reup(key(1), a, &mut acc, &mut dp, &ext, hook, key(21), 0), Err(TokenError::OwnerMismatch));
    let bad = extension(PauseType::ReUp, hook, 101);
    assert_eq!(reup(key(1), a, &mut acc, &mut dp, &bad, hook, key(20), 0), Err(TokenError::InvalidReUpPercentage));
    assert_eq!(reup(key(1), a, &mut acc, &mut dp, &ext, hook, key(20), u64::MAX), Err(TokenError::Overflow));
    assert_eq!(reup(key(1), key(11), &mut acc, &mut dp, &ext, hook, key(20), 0), Err(TokenError::InvalidAuthority));
    acc.state = AccountState::Pause;
    assert_eq!(check_reup(&acc, &ext, hook, key(20)), Err(TokenError::AccountFrozen));
    assert_eq!(dp.amount, 100);
    assert_eq!(acc.last_balance_snapshot, 0);
}

#[test]
fn mint_to_by_non_authority_is_rejected() {
    let mut mint = ready_mint(key(0), 77);
    let mut acc = account(key(20), 5);
    let r = mint_to(key(1), &mut mint, key(10), &mut acc, key(99), 100, 5);
    assert_eq!(r, Err(TokenError::InvalidMintAuthority));
    assert_eq!(mint.supply, 77);
    assert_eq!(acc.last_balance_snapshot, 5);
}

#[test]
fn mint_to_adds_to_supply_and_balance() {
    let mut mint = ready_mint(key(0), 77);
    let mut acc = account(key(20), 5);
    let ev = mint_to(key(1), &mut mint, key(10), &mut acc, key(0), 100, 3).unwrap();
    assert_eq!(ev, MintToEvent { mint: key(1), token_account: key(10), amount: 100, new_balance: 103 });
    assert_eq!(mint.supply, 177);
    assert_eq!(acc.last_balance_snapshot, 103);
    let mut full = ready_mint(key(0), u64::MAX);
    assert_eq!(mint_to(key(1), &mut full, key(10), &mut acc, key(0), 1, 3), Err(TokenError::Overflow));
}

#[test]
fn burn_removes_from_supply_and_balance() {
    let mut mint = ready_mint(key(0), 1000);
    let mut acc = account(key(20), 600);
    let ev = burn(key(1), &mut mint, key(10), &mut acc, key(20), 200, 500).unwrap();
    assert_eq!(ev, BurnEvent { mint: key(1), token_account: key(10), amount: 200, new_balance: 300 });
    assert_eq!(mint.supply, 800);
    assert_eq!(acc.last_balance_snapshot, 300);
    assert_eq!(burn(key(1), &mut mint, key(10), &mut acc, key(20), 301, 300), Err(TokenError::InsufficientFunds));
    assert_eq!(burn(key(1), &mut mint, key(10), &mut acc, key(21), 1, 300), Err(TokenError::InvalidAuthority));
    acc.state = AccountState::Frozen;
    assert_eq!(burn(key(1), &mut mint, key(10), &mut acc, key(20), 1, 300), Err(TokenError::AccountFrozen));
    assert_eq!(mint.supply, 800);
}

#[test]
fn pause_sets_state_and_takes_mint_equation() {
    let hook = key(40);
    let mut mint = ready_mint(key(0), 0);
    mint.chrono_equation = ChronoEquationType::Exponential;
    let ext = extension(PauseType::Pause, hook, 0);
    let mut acc = account(key(20), 10);
    let ev = pause(key(1), &mint, key(10), &mut acc, &ext, hook, key(20)).unwrap();
    assert_eq!(ev, PauseEvent { mint: key(1), token_account: key(10), authority: key(20) });
    assert_eq!(acc.state, AccountState::Pause);
    assert_eq!(acc.current_chrono_equation, ChronoEquationType::Exponential);
    assert_eq!(pause(key(1), &mint, key(10), &mut acc, &ext, hook, key(20)), Err(TokenError::AlreadyPaused));
}

#[test]
fn pause_errors() {
    let hook = key(40);
    let acc = account(key(20), 10);
    assert_eq!(check_pause(&acc, &None, hook), Err(TokenError::PauseNotAllowed));
    let ext = extension(PauseType::Pause, hook, 0);
    assert_eq!(check_pause(&acc, &ext, key(41)), Err(TokenError::InvalidAccountData));
    let other = extension(PauseType::ReUp, hook, 10);
    assert_eq!(check_pause(&acc, &other, hook), Err(TokenError::PauseNotAllowed));
    assert_eq!(check_pause(&acc, &ext, hook), Ok(()));
}

#[test]
fn initialize_mint_sets_fields_and_extension() {
    let mut mint = fresh_mint();
    let mut ext = None;
    let r = initialize_mint(
        &mut mint, &mut ext, key(5), 9, 1000, Some(key(6)), true, Some(key(40)),
        Some(ChronoEquationType::Deflationary), Some(PauseType::ReUp),
        Some(EquationParams::new()), Some(30),
    );
    assert_eq!(r, Ok(()));
    assert!(mint.is_initialized);
    assert_eq!(mint.mint_authority, key(5));
    assert_eq!(mint.supply, 1000);
    assert_eq!(mint.freeze_authority, Some(key(6)));
    assert_eq!(mint.chrono_equation, ChronoEquationType::Deflationary);
    let e = ext.unwrap();
    assert_eq!(e.program_id, key(40));
    assert_eq!(e.reup_percentage, 30);
    let r = initialize_mint(
        &mut mint, &mut ext, key(5), 9, 1, None, false, None,
        Some(ChronoEquationType::Linear), Some(PauseType::Pause), None, None,
    );
    assert_eq!(r, Err(TokenError::AlreadyInUse));
}

#[test]
fn initialize_mint_checks_reup_percentage() {
    let run = |p: PauseType, pct: Option<u8>| {
        let mut mint = fresh_mint();
        let mut ext = None;
        let r = initialize_mint(
            &mut mint, &mut ext, key(5), 9, 0, None, true, Some(key(40)),
            Some(ChronoEquationType::Linear), Some(p), Some(EquationParams::new()), pct,
        );
        if r.is_err() {
            assert_eq!(mint, fresh_mint());
            assert!(ext.is_none());
        }
        r
    };
    assert_eq!(run(PauseType::ReUp, Some(101)), Err(TokenError::InvalidReUpPercentage));
    assert_eq!(run(PauseType::ReUp, None), Err(TokenError::MissingReUpPercentage));
    assert_eq!(run(PauseType::Pause, Some(10)), Err(TokenError::UnexpectedReUpPercentage));
    assert_eq!(run(PauseType::Pause, None), Ok(()));
    assert_eq!(run(PauseType::ReUp, Some(100)), Ok(()));
    assert_eq!(run(PauseType::ReUp, Some(0)), Ok(()));
}

#[test]
fn initialize_mint_requires_hook_arguments() {
    let mut mint = fresh_mint();
    let mut ext = None;
    let r = initialize_mint(
        &mut mint, &mut ext, key(5), 9, 0, None, true, None,
        Some(ChronoEquationType::Linear), Some(PauseType::Pause), Some(EquationParams::new()), None,
    );
    assert_eq!(r, Err(TokenError::InvalidArgument));
    let r = initialize_mint(
        &mut mint, &mut ext, key(5), 9, 0, None, false, None, None, Some(PauseType::Pause), None, None,
    );
    assert_eq!(r, Err(TokenError::InvalidArgument));
}

#[test]
fn initialize_token_account_starts_empty() {
    let mut mint = ready_mint(key(0), 0);
    mint.chrono_equation = ChronoEquationType::Subscription;
    let (acc, dp) = initialize_token_account(key(1), &mint, key(10), key(20), Some(key(30)), 1234);
    assert_eq!(acc.owner, key(20));
    assert_eq!(acc.mint, key(1));
    assert_eq!(acc.last_balance_snapshot, 0);
    assert_eq!(acc.creation_time, 1234);
    assert_eq!(acc.state, AccountState::Initialized);
    assert_eq!(acc.current_chrono_equation, ChronoEquationType::Subscription);
    assert_eq!(acc.delegate, Some(key(30)));
    assert_eq!(acc.close_authority, Some(key(20)));
    assert!(!acc.is_frozen());
    assert_eq!(dp.token_account, key(10));
    assert_eq!(dp.amount, 0);
}

#[test]
fn parse_amount_reads_u64_text() {
    assert_eq!(parse_amount("500"), Ok(500));
    assert_eq!(parse_amount("+7"), Ok(7));
    assert_eq!(parse_amount("18446744073709551615"), Ok(u64::MAX));
    assert_eq!(parse_amount("18446744073709551616"), Err(TokenError::InvalidAmount));
    assert_eq!(parse_amount(""), Err(TokenError::InvalidAmount));
    assert_eq!(parse_amount("+"), Err(TokenError::InvalidAmount));
    assert_eq!(parse_amount("-1"), Err(TokenError::InvalidAmount));
    assert_eq!(parse_amount("12a"), Err(TokenError::InvalidAmount));
}
