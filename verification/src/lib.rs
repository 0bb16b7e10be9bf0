//! A custodial pooling core: one pool record that accepts deposits of the
//! platform's native balance unit and of one fungible-token balance class,
//! tracks the aggregate amounts it owes to depositors, and lets a single
//! designated authority withdraw funds back to users.
//!
//! The hosting substrate (account storage, signature checking, the queries
//! for an account's minimum reserved balance) is an external collaborator:
//! callers resolve accounts and hand the core plain balances, and the core
//! performs the validated, atomic state transition.

pub mod laws;
pub mod pool;
