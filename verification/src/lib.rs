//! Core of a constant-product market maker for tokens with transfer hooks.
//!
//! Three state machines make up the engine, each verified against a mathematical
//! model of its state:
//!
//! * [`state::whitelist`]: a bounded, ordered set of trusted hook programs;
//! * [`state::amm_pool`]: reserve and LP-share accounting with exact integer pricing;
//! * [`state::hook_proposal`]: stake-weighted voting that admits hooks to the whitelist.
//!
//! [`instructions`] combines them into the decisions of the entry points. Nothing here
//! moves tokens, reads a clock or checks a signature: callers pass in the current time
//! and the identities involved, and get back the amounts to move.
//!
//! Accounts are identified by `anchor_lang`'s `Pubkey`. The verifier sees such a key as
//! an opaque value; the two facts that it takes on trust of the type are written down
//! in [`pubkey`]. Everything else is proved.
pub mod error;
pub mod instructions;
pub mod math;
pub mod pubkey;
pub mod safe_transfer_hook;
pub mod state;

pub use error::AmmError;
pub use state::amm_pool::AmmPool;
pub use state::hook_proposal::{HookProposal, ProposalStatus, Vote};
pub use state::whitelist::{TransferHookWhitelist, MAX_WHITELISTED_HOOKS};
