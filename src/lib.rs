//! Policy and governance engine of a token ledger: pooled treasury balances,
//! owner-set authorization, time-locked administrative changes, a rate-limited and
//! taxed transfer path, tiered staking with voting power and rewards, batched LP
//! incentives, proposal voting that rewrites policy, vesting schedules and a token
//! migration workflow. Every operation is a verified state transition on plain
//! records; moving tokens, reading the clock and storing records is left to the
//! caller, which the returned outcomes instruct.

pub mod admin;
pub mod constants;
pub mod error;
pub mod governance;
pub mod guard;
pub mod key;
pub mod lp;
pub mod math;
pub mod migration;
pub mod multisig;
pub mod ratelimit;
pub mod setup;
pub mod staking;
pub mod state;
pub mod tax;
pub mod treasury;
pub mod vesting;
