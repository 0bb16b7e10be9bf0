//! Laws that relate the operations to each other, proved once and for all.

use vstd::prelude::*;
use crate::pool::GamePoolAccount;
use crate::pool::GamePoolError;
use crate::pool::LedgerOp;
use crate::pool::Pubkey;
use crate::pool::available_lamports;
use crate::pool::initialise_post;
use crate::pool::op_applies;
use crate::pool::withdraw_lamports_post;
use crate::pool::withdraw_spl_tokens_post;

verus! {

/// What one operation contributes to the native counter: deposits of the
/// native class count positively, withdrawals negatively, token operations
/// not at all.
pub open spec fn native_delta(op: LedgerOp) -> int {
    match op {
        LedgerOp::DepositNative { amount } => amount as int,
        LedgerOp::WithdrawNative { amount } => -(amount as int),
        LedgerOp::DepositToken { amount: _ } => 0,
        LedgerOp::WithdrawToken { amount: _ } => 0,
    }
}

/// What one operation contributes to the token counter.
pub open spec fn token_delta(op: LedgerOp) -> int {
    match op {
        LedgerOp::DepositNative { amount: _ } => 0,
        LedgerOp::WithdrawNative { amount: _ } => 0,
        LedgerOp::DepositToken { amount } => amount as int,
        LedgerOp::WithdrawToken { amount } => -(amount as int),
    }
}

/// The sum of native deposit amounts minus native withdrawal amounts over
/// a whole sequence of operations.
pub open spec fn native_net(ops: Seq<LedgerOp>) -> int
    decreases ops.len(),
{
    if ops.len() == 0 {
        0
    } else {
        native_net(ops.drop_last()) + native_delta(ops.last())
    }
}

/// The sum of token deposit amounts minus token withdrawal amounts over a
/// whole sequence of operations.
pub open spec fn token_net(ops: Seq<LedgerOp>) -> int
    decreases ops.len(),
{
    if ops.len() == 0 {
        0
    } else {
        token_net(ops.drop_last()) + token_delta(ops.last())
    }
}

/// A trace of successful operations: `states` records the pool record
/// before and after each operation, and consecutive records are related
/// exactly as the operations' contracts rewrite them.
pub open spec fn trace_ok(ops: Seq<LedgerOp>, states: Seq<GamePoolAccount>) -> bool {
    &&& states.len() == ops.len() + 1
    &&& forall|i: int|
        0 <= i < ops.len() ==> #[trigger] op_applies(states[i], ops[i], states[i + 1])
}

/// Conservation: along any trace of successful operations that starts from
/// a freshly initialised pool (both counters zero), at every point each
/// counter equals the sum of the deposit amounts minus the sum of the
/// withdrawal amounts of its balance class so far.
pub proof fn lemma_conservation(
    ops: Seq<LedgerOp>,
    states: Seq<GamePoolAccount>,
    i: int,
)
    requires
        trace_ok(ops, states),
        states[0].lamport_amount_deposited == 0,
        states[0].spl_token_amount_deposited == 0,
        0 <= i <= ops.len(),
    ensures
        states[i].lamport_amount_deposited == native_net(ops.take(i)),
        states[i].spl_token_amount_deposited == token_net(ops.take(i)),
    decreases i,
{
    if i > 0 {
        let j = i - 1;
        lemma_conservation(ops, states, j);
        assert(ops.take(i).drop_last() =~= ops.take(j));
        assert(op_applies(states[j], ops[j], states[j + 1]));
    }
}

/// Once initialised, always initialised, and under the same authority:
/// along any trace of successful operations the record stays initialised
/// and its authority never moves from the one it started with.
pub proof fn lemma_authority_immutable(
    ops: Seq<LedgerOp>,
    states: Seq<GamePoolAccount>,
    i: int,
)
    requires
        trace_ok(ops, states),
        0 <= i <= ops.len(),
    ensures
        states[i].authority == states[0].authority,
        i > 0 ==> states[i].is_initialized,
    decreases i,
{
    if i > 0 {
        let j = i - 1;
        lemma_authority_immutable(ops, states, j);
        assert(op_applies(states[j], ops[j], states[j + 1]));
    }
}

/// A trace that also records the custody account's real balances beside
/// each record: every operation moves the real balance of its class by
/// exactly its amount, in the direction it names, and leaves the other
/// class's balance alone.
pub open spec fn trace_balances_ok(
    ops: Seq<LedgerOp>,
    states: Seq<GamePoolAccount>,
    custody_lamports: Seq<u64>,
    custody_tokens: Seq<u64>,
) -> bool {
    &&& trace_ok(ops, states)
    &&& custody_lamports.len() == ops.len() + 1
    &&& custody_tokens.len() == ops.len() + 1
    &&& forall|i: int|
        0 <= i < ops.len() ==> {
            &&& custody_lamports[i + 1] == custody_lamports[i] + native_delta(#[trigger] ops[i])
            &&& custody_tokens[i + 1] == custody_tokens[i] + token_delta(ops[i])
        }
}

/// No drift: along any trace of successful operations from a freshly
/// initialised pool, the custody account's real balance of each class
/// stands above its starting balance by exactly the recorded counter. With
/// a custody account that starts at its minimum reserved balance, every
/// recorded obligation is therefore backed by real balance over the
/// reserve.
pub proof fn lemma_no_drift(
    ops: Seq<LedgerOp>,
    states: Seq<GamePoolAccount>,
    custody_lamports: Seq<u64>,
    custody_tokens: Seq<u64>,
    i: int,
)
    requires
        trace_balances_ok(ops, states, custody_lamports, custody_tokens),
        states[0].lamport_amount_deposited == 0,
        states[0].spl_token_amount_deposited == 0,
        0 <= i <= ops.len(),
    ensures
        custody_lamports[i] == custody_lamports[0] + states[i].lamport_amount_deposited,
        custody_tokens[i] == custody_tokens[0] + states[i].spl_token_amount_deposited,
    decreases i,
{
    if i > 0 {
        let j = i - 1;
        lemma_no_drift(ops, states, custody_lamports, custody_tokens, j);
        assert(op_applies(states[j], ops[j], states[j + 1]));
    }
}

/// Authorization gate, native class: a withdrawal attempt on an
/// initialised pool by any caller other than the stored authority fails
/// with `Unauthorized`, and neither the record nor any balance changes.
pub proof fn lemma_authorization_gate_native(
    pre: GamePoolAccount,
    caller: Pubkey,
    pre_pool_lamports: u64,
    pre_user_lamports: u64,
    rent_minimum: u64,
    amount: u64,
    post: GamePoolAccount,
    post_pool_lamports: u64,
    post_user_lamports: u64,
    r: Result<(), GamePoolError>,
)
    requires
        pre.is_initialized,
        caller != pre.authority,
        withdraw_lamports_post(
            pre,
            caller,
            pre_pool_lamports,
            pre_user_lamports,
            rent_minimum,
            amount,
            post,
            post_pool_lamports,
            post_user_lamports,
            r,
        ),
    ensures
        r == Err::<(), GamePoolError>(GamePoolError::Unauthorized),
        post == pre,
        post_pool_lamports == pre_pool_lamports,
        post_user_lamports == pre_user_lamports,
{
}

/// Authorization gate, token class: the same, for token withdrawals.
pub proof fn lemma_authorization_gate_token(
    pre: GamePoolAccount,
    caller: Pubkey,
    pre_pool_tokens: u64,
    pre_user_tokens: u64,
    amount: u64,
    post: GamePoolAccount,
    post_pool_tokens: u64,
    post_user_tokens: u64,
    r: Result<(), GamePoolError>,
)
    requires
        pre.is_initialized,
        caller != pre.authority,
        withdraw_spl_tokens_post(
            pre,
            caller,
            pre_pool_tokens,
            pre_user_tokens,
            amount,
            post,
            post_pool_tokens,
            post_user_tokens,
            r,
        ),
    ensures
        r == Err::<(), GamePoolError>(GamePoolError::Unauthorized),
        post == pre,
        post_pool_tokens == pre_pool_tokens,
        post_user_tokens == pre_user_tokens,
{
}

/// Reserve floor: an authorised native withdrawal whose amount would take
/// the custody account's real balance below its minimum reserved balance
/// fails with `InsufficientFunds` and executes nothing.
pub proof fn lemma_reserve_floor(
    pre: GamePoolAccount,
    caller: Pubkey,
    pre_pool_lamports: u64,
    pre_user_lamports: u64,
    rent_minimum: u64,
    amount: u64,
    post: GamePoolAccount,
    post_pool_lamports: u64,
    post_user_lamports: u64,
    r: Result<(), GamePoolError>,
)
    requires
        pre.is_initialized,
        caller == pre.authority,
        amount > 0,
        pre_pool_lamports - amount < rent_minimum,
        withdraw_lamports_post(
            pre,
            caller,
            pre_pool_lamports,
            pre_user_lamports,
            rent_minimum,
            amount,
            post,
            post_pool_lamports,
            post_user_lamports,
            r,
        ),
    ensures
        r == Err::<(), GamePoolError>(GamePoolError::InsufficientFunds),
        post == pre,
        post_pool_lamports == pre_pool_lamports,
        post_user_lamports == pre_user_lamports,
{
    assert(available_lamports(pre_pool_lamports, rent_minimum) < amount);
}

/// No underflow, native class: an authorised withdrawal of more than the
/// recorded native counter fails with `InsufficientFunds` and changes
/// nothing, even where the reserve check alone would have let it through.
pub proof fn lemma_no_underflow_native(
    pre: GamePoolAccount,
    caller: Pubkey,
    pre_pool_lamports: u64,
    pre_user_lamports: u64,
    rent_minimum: u64,
    amount: u64,
    post: GamePoolAccount,
    post_pool_lamports: u64,
    post_user_lamports: u64,
    r: Result<(), GamePoolError>,
)
    requires
        pre.is_initialized,
        caller == pre.authority,
        pre.lamport_amount_deposited < amount,
        withdraw_lamports_post(
            pre,
            caller,
            pre_pool_lamports,
            pre_user_lamports,
            rent_minimum,
            amount,
            post,
            post_pool_lamports,
            post_user_lamports,
            r,
        ),
    ensures
        r == Err::<(), GamePoolError>(GamePoolError::InsufficientFunds),
        post == pre,
        post_pool_lamports == pre_pool_lamports,
        post_user_lamports == pre_user_lamports,
{
}

/// No underflow, token class: an authorised withdrawal of more than the
/// recorded token counter fails with `InsufficientFunds` and changes
/// nothing, whatever the token accounts hold.
pub proof fn lemma_no_underflow_token(
    pre: GamePoolAccount,
    caller: Pubkey,
    pre_pool_tokens: u64,
    pre_user_tokens: u64,
    amount: u64,
    post: GamePoolAccount,
    post_pool_tokens: u64,
    post_user_tokens: u64,
    r: Result<(), GamePoolError>,
)
    requires
        pre.is_initialized,
        caller == pre.authority,
        pre.spl_token_amount_deposited < amount,
        withdraw_spl_tokens_post(
            pre,
            caller,
            pre_pool_tokens,
            pre_user_tokens,
            amount,
            post,
            post_pool_tokens,
            post_user_tokens,
            r,
        ),
    ensures
        r == Err::<(), GamePoolError>(GamePoolError::InsufficientFunds),
        post == pre,
        post_pool_tokens == pre_pool_tokens,
        post_user_tokens == pre_user_tokens,
{
}

/// Idempotent failure of initialisation: after one successful
/// initialisation, a second attempt (whatever authority it names) fails
/// with `AlreadyInitialized` and leaves the record from the first call
/// unchanged.
pub proof fn lemma_initialise_idempotent_failure(
    pre: GamePoolAccount,
    a1: Pubkey,
    mid: GamePoolAccount,
    a2: Pubkey,
    post: GamePoolAccount,
    r2: Result<(), GamePoolError>,
)
    requires
        initialise_post(pre, a1, mid, Ok(())),
        initialise_post(mid, a2, post, r2),
    ensures
        r2 == Err::<(), GamePoolError>(GamePoolError::AlreadyInitialized),
        post == mid,
{
}

} // verus!
