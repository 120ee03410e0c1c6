//! Accounting engine for a shared pooled-deposit vehicle.
//!
//! Users deposit an asset into a common pool, an administrator periodically
//! injects an externally computed yield amount, a fixed percentage of that
//! yield is routed to a designated charity identity, and users may withdraw
//! up to their available balance.
//!
//! The library holds the accounting state machine only: the operations that
//! mutate pool and per-user balances, the invariants they preserve, and the
//! authorization and lifecycle rules gating them. The surrounding host —
//! signature verification, the token ledger that actually moves value, event
//! transport, persistent storage — stays outside. Each operation that moves
//! value first reports the transfer it needs (an intent) and then takes the
//! outcome of that transfer as an input, so the host performs the movement
//! and the engine commits atomically or not at all.

mod engine;
mod errors;
mod records;
mod yield_split;

pub use engine::ImpactPoolContract;
pub use engine::Party;
pub use engine::TransferIntent;
pub use errors::PoolError;
pub use records::PoolInfo;
pub use records::UserPosition;
pub use yield_split::donation_of;
pub use yield_split::lemma_donation_split;
pub use yield_split::remaining_of;
