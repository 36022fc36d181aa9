//! The entry points that decide more than a single operation of a record does: they
//! hold callers against stored authorities, prices against the callers' minima, and
//! keep a change to two records in one piece. Opening a pool, a whitelist or a proposal
//! and casting a vote need none of this, and are the operations of [`crate::state`]
//! as they stand.
pub mod amm_pool;
pub mod governance;
pub mod liquidity;
pub mod trading;
pub mod whitelist;
