//! The three records of the engine and the operations on each.
pub mod amm_pool;
pub mod hook_proposal;
pub mod whitelist;
