//! The two steps of governance that involve more than the proposal's own state:
//! carrying out an approved proposal, and withdrawing one.
use crate::error::{committed, AmmError};
use crate::pubkey::same_key;
use crate::state::hook_proposal::{HookProposal, ProposalStatus, ProposalView};
use crate::state::whitelist::{add_hook_outcome, TransferHookWhitelist};
use anchor_lang::prelude::Pubkey;
use vstd::prelude::*;

verus! {

/// The outcome of `caller` carrying out `proposal` on the whitelist of `authority`:
/// the proposal and the whitelisted hook programs afterwards.
pub open spec fn execute_proposal_outcome(
    proposal: ProposalView,
    authority: Pubkey,
    hooks: Seq<Pubkey>,
    caller: Pubkey,
) -> Result<(ProposalView, Seq<Pubkey>), AmmError> {
    if proposal.status != ProposalStatus::Approved {
        Err(AmmError::ProposalNotExecutable)
    } else if caller != authority {
        Err(AmmError::InvalidWhitelistAuthority)
    } else if !proposal.is_approved() {
        Err(AmmError::ProposalNotApproved)
    } else {
        match add_hook_outcome(hooks, proposal.hook_program_id) {
            Err(e) => Err(e),
            Ok(next) => Ok((proposal.executed(), next)),
        }
    }
}

/// The outcome of `caller` withdrawing `proposal` at time `now`.
pub open spec fn cancel_proposal_outcome(proposal: ProposalView, caller: Pubkey, now: i64) -> Result<
    ProposalView,
    AmmError,
> {
    if caller != proposal.proposer {
        Err(AmmError::InvalidProposalProposer)
    } else if !proposal.can_be_cancelled(now) {
        Err(AmmError::ProposalCannotBeCancelled)
    } else {
        proposal.cancel()
    }
}

/// Carries out an approved proposal: its hook program joins the whitelist and the
/// proposal becomes executed, both or neither. Where the whitelist refuses the hook
/// program, the proposal stays approved and can be carried out later.
pub fn execute_proposal(
    proposal: &mut HookProposal,
    whitelist: &mut TransferHookWhitelist,
    caller: &Pubkey,
) -> (result: Result<(), AmmError>)
    requires
        old(whitelist).bounded(),
    ensures
        committed(
            (old(proposal)@, old(whitelist)@),
            (final(proposal)@, final(whitelist)@),
            result,
            execute_proposal_outcome(
                old(proposal)@,
                old(whitelist).authority,
                old(whitelist)@,
                *caller,
            ),
        ),
        result is Err ==> *final(whitelist) == *old(whitelist),
        final(whitelist).same_header(old(whitelist)),
        final(whitelist).bounded(),
        old(whitelist).wf() ==> final(whitelist).wf(),
        old(proposal)@.wf() ==> final(proposal)@.wf(),
{
    if !proposal.is_executable() {
        return Err(AmmError::ProposalNotExecutable);
    }
    if !same_key(caller, &whitelist.authority) {
        return Err(AmmError::InvalidWhitelistAuthority);
    }
    if !proposal.is_approved() {
        return Err(AmmError::ProposalNotApproved);
    }
    match whitelist.add_hook(proposal.hook_program_id) {
        Ok(()) => {
            proposal.status = ProposalStatus::Executed;
            Ok(())
        },
        Err(e) => Err(e),
    }
}

/// Withdraws a proposal, if `caller` opened it, it is still active and its voting
/// period is not over at time `now`.
pub fn cancel_proposal(proposal: &mut HookProposal, caller: &Pubkey, now: i64) -> (result: Result<
    (),
    AmmError,
>)
    ensures
        committed(
            old(proposal)@,
            final(proposal)@,
            result,
            cancel_proposal_outcome(old(proposal)@, *caller, now),
        ),
        old(proposal)@.wf() ==> final(proposal)@.wf(),
{
    if !same_key(caller, &proposal.proposer) {
        return Err(AmmError::InvalidProposalProposer);
    }
    if !proposal.can_be_cancelled(now) {
        return Err(AmmError::ProposalCannotBeCancelled);
    }
    proposal.cancel()
}

} // verus!
