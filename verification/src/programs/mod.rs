//! The on-chain programs that the commands talk to: what their client crates
//! derive, build and compute. Everything here is trusted to do what its
//! contract says; nothing here decides anything.
pub mod associated_token;
pub mod compute_budget;
pub mod ids;
pub mod message;
pub mod pool;
pub mod pool_amounts;
pub mod stake;
pub mod system;
pub mod token;
