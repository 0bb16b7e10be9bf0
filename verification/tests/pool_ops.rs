use game_pool::pool::GamePoolAccount;
use game_pool::pool::GamePoolError;
use game_pool::pool::Pubkey;
use game_pool::pool::deposit_lamports;
use game_pool::pool::deposit_spl_tokens;
use game_pool::pool::initialise;
use game_pool::pool::withdraw_lamports;
use game_pool::pool::withdraw_spl_tokens;

fn key(n: u64) -> Pubkey {
    Pubkey { w0: n, w1: n, w2: 0, w3: 1 }
}

fn initialised_pool(authority: Pubkey) -> GamePoolAccount {
    let mut pool = GamePoolAccount::new();
    initialise(&mut pool, authority).unwrap();
    pool
}

#[test]
fn initialise_sets_fields() {
    let mut pool = GamePoolAccount::new();
    assert!(!pool.is_initialized);
    let a = key(7);
    assert_eq!(initialise(&mut pool, a), Ok(()));
    assert!(pool.is_initialized);
    assert_eq!(pool.authority, a);
    assert_eq!(pool.lamport_amount_deposited, 0);
    assert_eq!(pool.spl_token_amount_deposited, 0);
}

#[test]
fn initialise_twice_fails_without_mutation() {
    let mut pool = GamePoolAccount::new();
    assert_eq!(initialise(&mut pool, key(7)), Ok(()));
    let first = pool;
    assert_eq!(
        initialise(&mut pool, key(8)),
        Err(GamePoolError::AlreadyInitialized)
    );
    assert_eq!(pool, first);
}

#[test]
fn deposit_before_initialise_fails() {
    let mut pool = GamePoolAccount::new();
    let mut user: u64 = 500;
    let mut custody: u64 = 100;
    assert_eq!(
        deposit_lamports(&mut pool, &mut user, &mut custody, 50),
        Err(GamePoolError::Uninitialized)
    );
    assert_eq!((user, custody), (500, 100));
    assert_eq!(pool, GamePoolAccount::new());
}

#[test]
fn withdraw_before_initialise_fails() {
    let mut pool = GamePoolAccount::new();
    let a = key(7);
    let mut custody: u64 = 100;
    let mut user: u64 = 0;
    assert_eq!(
        withdraw_lamports(&mut pool, &a, &mut custody, &mut user, 10, 50),
        Err(GamePoolError::Uninitialized)
    );
    assert_eq!((custody, user), (100, 0));
}

#[test]
fn deposit_with_short_balance_fails_transfer() {
    let a = key(7);
    let mut pool = initialised_pool(a);
    let mut user: u64 = 30;
    let mut custody: u64 = 100;
    assert_eq!(
        deposit_lamports(&mut pool, &mut user, &mut custody, 31),
        Err(GamePoolError::TransferFailed)
    );
    assert_eq!((user, custody), (30, 100));
    assert_eq!(pool.lamport_amount_deposited, 0);
}

#[test]
fn zero_amount_calls_are_noop_successes() {
    let a = key(7);
    let mut pool = initialised_pool(a);
    let mut user: u64 = 30;
    let mut custody: u64 = 100;
    assert_eq!(deposit_lamports(&mut pool, &mut user, &mut custody, 0), Ok(()));
    assert_eq!(
        withdraw_lamports(&mut pool, &a, &mut custody, &mut user, 100, 0),
        Ok(())
    );
    let mut user_tok: u64 = 5;
    let mut pool_tok: u64 = 9;
    assert_eq!(
        deposit_spl_tokens(&mut pool, &mut user_tok, &mut pool_tok, 0),
        Ok(())
    );
    assert_eq!(
        withdraw_spl_tokens(&mut pool, &a, &mut pool_tok, &mut user_tok, 0),
        Ok(())
    );
    assert_eq!((user, custody), (30, 100));
    assert_eq!((user_tok, pool_tok), (5, 9));
    assert_eq!(pool.lamport_amount_deposited, 0);
    assert_eq!(pool.spl_token_amount_deposited, 0);
}

#[test]
fn counters_track_net_of_successful_calls() {
    let a = key(1);
    let mut pool = initialised_pool(a);
    let mut u1: u64 = 1_000;
    let mut u2: u64 = 2_000;
    let mut custody: u64 = 50;
    let rent: u64 = 50;

    assert_eq!(deposit_lamports(&mut pool, &mut u1, &mut custody, 300), Ok(()));
    assert_eq!(pool.lamport_amount_deposited, 300);
    assert_eq!(deposit_lamports(&mut pool, &mut u2, &mut custody, 700), Ok(()));
    assert_eq!(pool.lamport_amount_deposited, 1_000);
    assert_eq!(
        withdraw_lamports(&mut pool, &a, &mut custody, &mut u1, rent, 250),
        Ok(())
    );
    assert_eq!(pool.lamport_amount_deposited, 750);
    assert_eq!(deposit_lamports(&mut pool, &mut u1, &mut custody, 50), Ok(()));
    assert_eq!(pool.lamport_amount_deposited, 800);
    assert_eq!(
        withdraw_lamports(&mut pool, &a, &mut custody, &mut u2, rent, 800),
        Ok(())
    );
    assert_eq!(pool.lamport_amount_deposited, 0);
    // Real balances moved in step with the counter.
    assert_eq!(custody, 50);
    assert_eq!(u1, 1_000 - 300 + 250 - 50);
    assert_eq!(u2, 2_000 - 700 + 800);
    // The token counter was never touched.
    assert_eq!(pool.spl_token_amount_deposited, 0);
}

#[test]
fn unauthorized_native_withdrawal_rejected() {
    let a = key(1);
    let intruder = key(2);
    let mut pool = initialised_pool(a);
    let mut user: u64 = 1_000;
    let mut custody: u64 = 0;
    assert_eq!(deposit_lamports(&mut pool, &mut user, &mut custody, 600), Ok(()));
    let before = pool;
    assert_eq!(
        withdraw_lamports(&mut pool, &intruder, &mut custody, &mut user, 0, 100),
        Err(GamePoolError::Unauthorized)
    );
    assert_eq!(pool, before);
    assert_eq!((custody, user), (600, 400));
}

#[test]
fn unauthorized_token_withdrawal_rejected() {
    let a = key(1);
    let intruder = key(2);
    let mut pool = initialised_pool(a);
    let mut user_tok: u64 = 1_000;
    let mut pool_tok: u64 = 0;
    assert_eq!(
        deposit_spl_tokens(&mut pool, &mut user_tok, &mut pool_tok, 600),
        Ok(())
    );
    let before = pool;
    assert_eq!(
        withdraw_spl_tokens(&mut pool, &intruder, &mut pool_tok, &mut user_tok, 100),
        Err(GamePoolError::Unauthorized)
    );
    assert_eq!(pool, before);
    assert_eq!((pool_tok, user_tok), (600, 400));
}

#[test]
fn reserve_floor_blocks_native_withdrawal() {
    let a = key(1);
    let mut pool = initialised_pool(a);
    let mut user: u64 = 1_000;
    let rent: u64 = 200;
    // The custody account starts at exactly its reserve minimum.
    let mut custody: u64 = rent;
    assert_eq!(deposit_lamports(&mut pool, &mut user, &mut custody, 500), Ok(()));
    let before = pool;
    // 501 would leave the custody balance at 199, under the 200 reserve.
    assert_eq!(
        withdraw_lamports(&mut pool, &a, &mut custody, &mut user, rent, 501),
        Err(GamePoolError::InsufficientFunds)
    );
    assert_eq!(pool, before);
    assert_eq!((custody, user), (700, 500));
    // Exactly down to the reserve is allowed.
    assert_eq!(
        withdraw_lamports(&mut pool, &a, &mut custody, &mut user, rent, 500),
        Ok(())
    );
    assert_eq!((custody, user), (200, 1_000));
}

#[test]
fn native_counter_underflow_blocked_despite_reserve_headroom() {
    let a = key(1);
    let mut pool = initialised_pool(a);
    let mut user: u64 = 1_000;
    // Pre-funded custody account: far more real balance than was deposited
    // through the core, so the reserve check alone would pass.
    let mut custody: u64 = 10_000;
    assert_eq!(deposit_lamports(&mut pool, &mut user, &mut custody, 100), Ok(()));
    let before = pool;
    assert_eq!(
        withdraw_lamports(&mut pool, &a, &mut custody, &mut user, 0, 500),
        Err(GamePoolError::InsufficientFunds)
    );
    assert_eq!(pool, before);
    assert_eq!((custody, user), (10_100, 900));
}

#[test]
fn token_counter_underflow_blocked_despite_pool_balance() {
    let a = key(1);
    let mut pool = initialised_pool(a);
    let mut user_tok: u64 = 1_000;
    // Pre-funded pool token account.
    let mut pool_tok: u64 = 10_000;
    assert_eq!(
        deposit_spl_tokens(&mut pool, &mut user_tok, &mut pool_tok, 100),
        Ok(())
    );
    let before = pool;
    assert_eq!(
        withdraw_spl_tokens(&mut pool, &a, &mut pool_tok, &mut user_tok, 500),
        Err(GamePoolError::InsufficientFunds)
    );
    assert_eq!(pool, before);
    assert_eq!((pool_tok, user_tok), (10_100, 900));
}

#[test]
fn token_withdrawal_has_no_reserve_floor() {
    let a = key(1);
    let mut pool = initialised_pool(a);
    let mut user_tok: u64 = 400;
    let mut pool_tok: u64 = 0;
    assert_eq!(
        deposit_spl_tokens(&mut pool, &mut user_tok, &mut pool_tok, 400),
        Ok(())
    );
    // The pool's token account may be drained to zero.
    assert_eq!(
        withdraw_spl_tokens(&mut pool, &a, &mut pool_tok, &mut user_tok, 400),
        Ok(())
    );
    assert_eq!((pool_tok, user_tok), (0, 400));
    assert_eq!(pool.spl_token_amount_deposited, 0);
}

#[test]
fn token_withdrawal_with_short_pool_account_fails_transfer() {
    let a = key(1);
    let mut pool = initialised_pool(a);
    let mut user_tok: u64 = 400;
    let mut pool_tok: u64 = 0;
    assert_eq!(
        deposit_spl_tokens(&mut pool, &mut user_tok, &mut pool_tok, 400),
        Ok(())
    );
    // Something outside the core drained the pool's token account; the
    // counter still covers the amount, so the failure is the transfer's.
    pool_tok = 300;
    let before = pool;
    assert_eq!(
        withdraw_spl_tokens(&mut pool, &a, &mut pool_tok, &mut user_tok, 400),
        Err(GamePoolError::TransferFailed)
    );
    assert_eq!(pool, before);
    assert_eq!((pool_tok, user_tok), (300, 0));
}
