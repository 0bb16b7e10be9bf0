//! The pool ledger: the persistent record, its error taxonomy, and the five
//! state-transition operations (initialise, two deposits, two withdrawals).
//!
//! Every operation is a single atomic transition: it either performs the
//! whole effect (balance movement plus counter update) or leaves every value
//! it was handed untouched and reports a typed error.

use vstd::prelude::*;

verus! {

/// A 32-byte principal identity, held as four 64-bit words.
///
/// Authorization is raw identity equality: there is no role hierarchy,
/// delegation or rotation.
#[derive(Clone, Copy, Debug, PartialEq, Eq, Structural)]
pub struct Pubkey {
    pub w0: u64,
    pub w1: u64,
    pub w2: u64,
    pub w3: u64,
}

/// The sole persistent entity: the pool's ledger record.
///
/// `lamport_amount_deposited` and `spl_token_amount_deposited` record the
/// net value currently held in custody for depositors (deposits minus
/// withdrawals, per balance class). `authority` is set once at
/// initialisation and is the only principal allowed to withdraw.
#[derive(Clone, Copy, Debug, PartialEq, Eq, Structural)]
pub struct GamePoolAccount {
    pub authority: Pubkey,
    pub lamport_amount_deposited: u64,
    pub spl_token_amount_deposited: u64,
    pub is_initialized: bool,
}

/// Every way an operation can fail. Each failure leaves all state unchanged;
/// the kind tells a client whether a retry can help.
#[derive(Clone, Copy, Debug, PartialEq, Eq, Structural)]
pub enum GamePoolError {
    /// A second initialisation was attempted on an already-initialised pool.
    AlreadyInitialized,
    /// A deposit or withdrawal was attempted before the pool was initialised.
    Uninitialized,
    /// A withdrawal caller's identity does not match the stored authority.
    Unauthorized,
    /// A withdrawal would breach the reserve floor or underflow a counter.
    InsufficientFunds,
    /// The balance-transfer step could not be performed (for a deposit:
    /// the depositor's balance is short of the amount).
    TransferFailed,
}

impl GamePoolAccount {
    /// A record as the storage substrate allocates it, before any
    /// initialisation: zeroed fields, not yet initialised.
    pub fn new() -> (r: GamePoolAccount)
        ensures
            r == (GamePoolAccount {
                authority: Pubkey { w0: 0, w1: 0, w2: 0, w3: 0 },
                lamport_amount_deposited: 0,
                spl_token_amount_deposited: 0,
                is_initialized: false,
            }),
    {
        GamePoolAccount {
            authority: Pubkey { w0: 0, w1: 0, w2: 0, w3: 0 },
            lamport_amount_deposited: 0,
            spl_token_amount_deposited: 0,
            is_initialized: false,
        }
    }
}

/// The record as `initialise` writes it for a given authority.
pub open spec fn fresh_pool(authority: Pubkey) -> GamePoolAccount {
    GamePoolAccount {
        authority,
        lamport_amount_deposited: 0,
        spl_token_amount_deposited: 0,
        is_initialized: true,
    }
}

/// The full behaviour of `initialise`: a first initialisation writes the
/// record for the given authority with zeroed counters; any later attempt
/// fails with `AlreadyInitialized` and mutates nothing.
pub open spec fn initialise_post(
    pre: GamePoolAccount,
    authority: Pubkey,
    post: GamePoolAccount,
    r: Result<(), GamePoolError>,
) -> bool {
    if pre.is_initialized {
        &&& r == Err::<(), GamePoolError>(GamePoolError::AlreadyInitialized)
        &&& post == pre
    } else {
        &&& r == Ok::<(), GamePoolError>(())
        &&& post == fresh_pool(authority)
    }
}

/// One successful ledger operation, named by balance class and direction.
/// A trace of these is what the conservation law quantifies over.
#[derive(Clone, Copy, Debug, PartialEq, Eq, Structural)]
pub enum LedgerOp {
    DepositNative { amount: u64 },
    DepositToken { amount: u64 },
    WithdrawNative { amount: u64 },
    WithdrawToken { amount: u64 },
}

/// How one successful operation rewrites the pool record: deposits add
/// their amount to the counter of their balance class, withdrawals subtract
/// it, and nothing else about the record changes. Only an initialised
/// record takes any operation.
pub open spec fn op_applies(pre: GamePoolAccount, op: LedgerOp, post: GamePoolAccount) -> bool {
    &&& pre.is_initialized
    &&& post.is_initialized
    &&& post.authority == pre.authority
    &&& match op {
        LedgerOp::DepositNative { amount } => {
            &&& post.lamport_amount_deposited == pre.lamport_amount_deposited + amount
            &&& post.spl_token_amount_deposited == pre.spl_token_amount_deposited
        },
        LedgerOp::DepositToken { amount } => {
            &&& post.lamport_amount_deposited == pre.lamport_amount_deposited
            &&& post.spl_token_amount_deposited == pre.spl_token_amount_deposited + amount
        },
        LedgerOp::WithdrawNative { amount } => {
            &&& post.lamport_amount_deposited == pre.lamport_amount_deposited - amount
            &&& pre.lamport_amount_deposited >= amount
            &&& post.spl_token_amount_deposited == pre.spl_token_amount_deposited
        },
        LedgerOp::WithdrawToken { amount } => {
            &&& post.lamport_amount_deposited == pre.lamport_amount_deposited
            &&& post.spl_token_amount_deposited == pre.spl_token_amount_deposited - amount
            &&& pre.spl_token_amount_deposited >= amount
        },
    }
}

/// The full behaviour of `deposit_lamports` over the record and the two
/// real balances it touches. An uninitialised pool rejects the call; a
/// depositor balance short of the amount fails the transfer; otherwise the
/// amount moves from the depositor to the custody account and the native
/// counter grows by it. Every failure leaves all three values unchanged.
pub open spec fn deposit_lamports_post(
    pre: GamePoolAccount,
    pre_user_lamports: u64,
    pre_pool_lamports: u64,
    amount: u64,
    post: GamePoolAccount,
    post_user_lamports: u64,
    post_pool_lamports: u64,
    r: Result<(), GamePoolError>,
) -> bool {
    if !pre.is_initialized {
        &&& r == Err::<(), GamePoolError>(GamePoolError::Uninitialized)
        &&& post == pre
        &&& post_user_lamports == pre_user_lamports
        &&& post_pool_lamports == pre_pool_lamports
    } else if pre_user_lamports < amount {
        &&& r == Err::<(), GamePoolError>(GamePoolError::TransferFailed)
        &&& post == pre
        &&& post_user_lamports == pre_user_lamports
        &&& post_pool_lamports == pre_pool_lamports
    } else {
        &&& r == Ok::<(), GamePoolError>(())
        &&& op_applies(pre, LedgerOp::DepositNative { amount }, post)
        &&& post_user_lamports == pre_user_lamports - amount
        &&& post_pool_lamports == pre_pool_lamports + amount
    }
}

/// Deposits `amount` native units: moves them from the depositor's real
/// balance into the pool's custody balance and increments the native
/// counter, as one atomic unit. Any depositor may deposit; no authority
/// check applies. A zero amount is a successful no-op.
///
/// The two overflow bounds are machine limits on the 64-bit balances and
/// counter; a host whose total supply fits in the balance unit meets them
/// trivially.
pub fn deposit_lamports(
    pool: &mut GamePoolAccount,
    user_lamports: &mut u64,
    pool_lamports: &mut u64,
    amount: u64,
) -> (r: Result<(), GamePoolError>)
    requires
        old(pool).lamport_amount_deposited + amount <= u64::MAX,
        *old(pool_lamports) + amount <= u64::MAX,
    ensures
        deposit_lamports_post(
            *old(pool),
            *old(user_lamports),
            *old(pool_lamports),
            amount,
            *final(pool),
            *final(user_lamports),
            *final(pool_lamports),
            r,
        ),
{
    if !pool.is_initialized {
        return Err(GamePoolError::Uninitialized);
    }
    if *user_lamports < amount {
        return Err(GamePoolError::TransferFailed);
    }
    *user_lamports = *user_lamports - amount;
    *pool_lamports = *pool_lamports + amount;
    pool.lamport_amount_deposited = pool.lamport_amount_deposited + amount;
    Ok(())
}

/// The full behaviour of `deposit_spl_tokens`, in exact analogy to
/// `deposit_lamports_post` but over the token balances and counter.
pub open spec fn deposit_spl_tokens_post(
    pre: GamePoolAccount,
    pre_user_tokens: u64,
    pre_pool_tokens: u64,
    amount: u64,
    post: GamePoolAccount,
    post_user_tokens: u64,
    post_pool_tokens: u64,
    r: Result<(), GamePoolError>,
) -> bool {
    if !pre.is_initialized {
        &&& r == Err::<(), GamePoolError>(GamePoolError::Uninitialized)
        &&& post == pre
        &&& post_user_tokens == pre_user_tokens
        &&& post_pool_tokens == pre_pool_tokens
    } else if pre_user_tokens < amount {
        &&& r == Err::<(), GamePoolError>(GamePoolError::TransferFailed)
        &&& post == pre
        &&& post_user_tokens == pre_user_tokens
        &&& post_pool_tokens == pre_pool_tokens
    } else {
        &&& r == Ok::<(), GamePoolError>(())
        &&& op_applies(pre, LedgerOp::DepositToken { amount }, post)
        &&& post_user_tokens == pre_user_tokens - amount
        &&& post_pool_tokens == pre_pool_tokens + amount
    }
}

/// Deposits `amount` of the fungible-token balance class: moves it from
/// the depositor's token account into the pool's token account and
/// increments the token counter, as one atomic unit. The substrate is
/// responsible for checking that the depositor authorised the transfer out
/// of the source token account; no check is duplicated here.
pub fn deposit_spl_tokens(
    pool: &mut GamePoolAccount,
    user_tokens: &mut u64,
    pool_tokens: &mut u64,
    amount: u64,
) -> (r: Result<(), GamePoolError>)
    requires
        old(pool).spl_token_amount_deposited + amount <= u64::MAX,
        *old(pool_tokens) + amount <= u64::MAX,
    ensures
        deposit_spl_tokens_post(
            *old(pool),
            *old(user_tokens),
            *old(pool_tokens),
            amount,
            *final(pool),
            *final(user_tokens),
            *final(pool_tokens),
            r,
        ),
{
    if !pool.is_initialized {
        return Err(GamePoolError::Uninitialized);
    }
    if *user_tokens < amount {
        return Err(GamePoolError::TransferFailed);
    }
    *user_tokens = *user_tokens - amount;
    *pool_tokens = *pool_tokens + amount;
    pool.spl_token_amount_deposited = pool.spl_token_amount_deposited + amount;
    Ok(())
}

/// What the custody account can pay out without breaching its reserve: its
/// real balance minus the substrate-mandated minimum, and nothing when the
/// balance is already at or under the minimum.
pub open spec fn available_lamports(pool_lamports: u64, rent_minimum: u64) -> int {
    if pool_lamports >= rent_minimum {
        pool_lamports - rent_minimum
    } else {
        0
    }
}

/// The full behaviour of `withdraw_lamports`. The checks run in this
/// order, short-circuiting on the first failure: the pool must be
/// initialised; the caller must be the stored authority (`Unauthorized`
/// otherwise); the amount must not exceed what the custody balance holds
/// above the reserve minimum (`InsufficientFunds`); and the amount must not
/// exceed the recorded native counter (`InsufficientFunds`), even where the
/// reserve check alone would pass. On success the amount moves from the
/// custody account to the user and the native counter shrinks by it. Every
/// failure leaves all values unchanged.
pub open spec fn withdraw_lamports_post(
    pre: GamePoolAccount,
    caller: Pubkey,
    pre_pool_lamports: u64,
    pre_user_lamports: u64,
    rent_minimum: u64,
    amount: u64,
    post: GamePoolAccount,
    post_pool_lamports: u64,
    post_user_lamports: u64,
    r: Result<(), GamePoolError>,
) -> bool {
    if !pre.is_initialized {
        &&& r == Err::<(), GamePoolError>(GamePoolError::Uninitialized)
        &&& post == pre
        &&& post_pool_lamports == pre_pool_lamports
        &&& post_user_lamports == pre_user_lamports
    } else if caller != pre.authority {
        &&& r == Err::<(), GamePoolError>(GamePoolError::Unauthorized)
        &&& post == pre
        &&& post_pool_lamports == pre_pool_lamports
        &&& post_user_lamports == pre_user_lamports
    } else if available_lamports(pre_pool_lamports, rent_minimum) < amount
        || pre.lamport_amount_deposited < amount {
        &&& r == Err::<(), GamePoolError>(GamePoolError::InsufficientFunds)
        &&& post == pre
        &&& post_pool_lamports == pre_pool_lamports
        &&& post_user_lamports == pre_user_lamports
    } else {
        &&& r == Ok::<(), GamePoolError>(())
        &&& op_applies(pre, LedgerOp::WithdrawNative { amount }, post)
        &&& post_pool_lamports == pre_pool_lamports - amount
        &&& post_user_lamports == pre_user_lamports + amount
    }
}

/// Withdraws `amount` native units from custody to the user's account.
/// Only the stored authority may withdraw; the withdrawal may neither take
/// the custody balance below its minimum reserved balance nor take the
/// native counter below zero. A zero amount is a successful no-op.
///
/// `rent_minimum` is the substrate's minimum reserved balance for the
/// custody account; the host queries it and passes it in. The overflow
/// bound on the destination balance is a machine limit.
pub fn withdraw_lamports(
    pool: &mut GamePoolAccount,
    caller: &Pubkey,
    pool_lamports: &mut u64,
    user_lamports: &mut u64,
    rent_minimum: u64,
    amount: u64,
) -> (r: Result<(), GamePoolError>)
    requires
        *old(user_lamports) + amount <= u64::MAX,
    ensures
        withdraw_lamports_post(
            *old(pool),
            *caller,
            *old(pool_lamports),
            *old(user_lamports),
            rent_minimum,
            amount,
            *final(pool),
            *final(pool_lamports),
            *final(user_lamports),
            r,
        ),
{
    if !pool.is_initialized {
        return Err(GamePoolError::Uninitialized);
    }
    if pool.authority != *caller {
        return Err(GamePoolError::Unauthorized);
    }
    let available: u64 = if *pool_lamports >= rent_minimum {
        *pool_lamports - rent_minimum
    } else {
        0
    };
    if available < amount {
        return Err(GamePoolError::InsufficientFunds);
    }
    if pool.lamport_amount_deposited < amount {
        return Err(GamePoolError::InsufficientFunds);
    }
    *pool_lamports = *pool_lamports - amount;
    *user_lamports = *user_lamports + amount;
    pool.lamport_amount_deposited = pool.lamport_amount_deposited - amount;
    Ok(())
}

/// The full behaviour of `withdraw_spl_tokens`. The checks run in this
/// order, short-circuiting on the first failure: the pool must be
/// initialised; the caller must be the stored authority (`Unauthorized`
/// otherwise); the amount must not exceed the recorded token counter
/// (`InsufficientFunds`); and the pool's token account must hold the
/// amount, else the delegated transfer fails (`TransferFailed`). No
/// reserve floor applies to token balances. On success the amount moves
/// from the pool's token account to the user's and the token counter
/// shrinks by it. Every failure leaves all values unchanged.
pub open spec fn withdraw_spl_tokens_post(
    pre: GamePoolAccount,
    caller: Pubkey,
    pre_pool_tokens: u64,
    pre_user_tokens: u64,
    amount: u64,
    post: GamePoolAccount,
    post_pool_tokens: u64,
    post_user_tokens: u64,
    r: Result<(), GamePoolError>,
) -> bool {
    if !pre.is_initialized {
        &&& r == Err::<(), GamePoolError>(GamePoolError::Uninitialized)
        &&& post == pre
        &&& post_pool_tokens == pre_pool_tokens
        &&& post_user_tokens == pre_user_tokens
    } else if caller != pre.authority {
        &&& r == Err::<(), GamePoolError>(GamePoolError::Unauthorized)
        &&& post == pre
        &&& post_pool_tokens == pre_pool_tokens
        &&& post_user_tokens == pre_user_tokens
    } else if pre.spl_token_amount_deposited < amount {
        &&& r == Err::<(), GamePoolError>(GamePoolError::InsufficientFunds)
        &&& post == pre
        &&& post_pool_tokens == pre_pool_tokens
        &&& post_user_tokens == pre_user_tokens
    } else if pre_pool_tokens < amount {
        &&& r == Err::<(), GamePoolError>(GamePoolError::TransferFailed)
        &&& post == pre
        &&& post_pool_tokens == pre_pool_tokens
        &&& post_user_tokens == pre_user_tokens
    } else {
        &&& r == Ok::<(), GamePoolError>(())
        &&& op_applies(pre, LedgerOp::WithdrawToken { amount }, post)
        &&& post_pool_tokens == pre_pool_tokens - amount
        &&& post_user_tokens == pre_user_tokens + amount
    }
}

/// Withdraws `amount` of the token balance class from the pool's token
/// account to the user's. Only the stored authority may withdraw, and the
/// token counter must cover the amount; token balances have no reserve
/// floor, so the pool's token account may be drained to zero. A zero
/// amount is a successful no-op. The overflow bound on the destination
/// balance is a machine limit.
pub fn withdraw_spl_tokens(
    pool: &mut GamePoolAccount,
    caller: &Pubkey,
    pool_tokens: &mut u64,
    user_tokens: &mut u64,
    amount: u64,
) -> (r: Result<(), GamePoolError>)
    requires
        *old(user_tokens) + amount <= u64::MAX,
    ensures
        withdraw_spl_tokens_post(
            *old(pool),
            *caller,
            *old(pool_tokens),
            *old(user_tokens),
            amount,
            *final(pool),
            *final(pool_tokens),
            *final(user_tokens),
            r,
        ),
{
    if !pool.is_initialized {
        return Err(GamePoolError::Uninitialized);
    }
    if pool.authority != *caller {
        return Err(GamePoolError::Unauthorized);
    }
    if pool.spl_token_amount_deposited < amount {
        return Err(GamePoolError::InsufficientFunds);
    }
    if *pool_tokens < amount {
        return Err(GamePoolError::TransferFailed);
    }
    *pool_tokens = *pool_tokens - amount;
    *user_tokens = *user_tokens + amount;
    pool.spl_token_amount_deposited = pool.spl_token_amount_deposited - amount;
    Ok(())
}

/// Creates the pool record: sets the withdrawal authority, zeroes both
/// counters and marks the record initialised. Exactly one initialisation
/// can ever succeed on a record.
pub fn initialise(pool: &mut GamePoolAccount, authority: Pubkey) -> (r: Result<
    (),
    GamePoolError,
>)
    ensures
        initialise_post(*old(pool), authority, *final(pool), r),
{
    if pool.is_initialized {
        return Err(GamePoolError::AlreadyInitialized);
    }
    pool.authority = authority;
    pool.lamport_amount_deposited = 0;
    pool.spl_token_amount_deposited = 0;
    pool.is_initialized = true;
    Ok(())
}

} // verus!
