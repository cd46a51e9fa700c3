//! Registry of delegation targets for a liquid-staking pool: a round-robin
//! allocator over the registered targets and the state machine that gates the
//! start of a reward-claim cycle.

pub mod address;
pub mod allocator;
pub mod amount;
pub mod claim;
pub mod delegation;
pub mod error;
