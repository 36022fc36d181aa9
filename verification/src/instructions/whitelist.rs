//! Changes to the whitelist by its authority, and the membership check that pools
//! rely on.
use crate::error::{committed, AmmError};
use crate::pubkey::same_key;
use crate::state::whitelist::{add_hook_outcome, remove_hook_outcome, TransferHookWhitelist};
use anchor_lang::prelude::Pubkey;
use vstd::prelude::*;

verus! {

/// The outcome of `caller` admitting `hook_program_id` to the whitelist of `authority`.
pub open spec fn add_hook_to_whitelist_outcome(
    authority: Pubkey,
    hooks: Seq<Pubkey>,
    caller: Pubkey,
    hook_program_id: Pubkey,
) -> Result<Seq<Pubkey>, AmmError> {
    if caller != authority {
        Err(AmmError::InvalidWhitelistAuthority)
    } else {
        add_hook_outcome(hooks, hook_program_id)
    }
}

/// The outcome of `caller` striking `hook_program_id` from the whitelist of
/// `authority`.
pub open spec fn remove_hook_from_whitelist_outcome(
    authority: Pubkey,
    hooks: Seq<Pubkey>,
    caller: Pubkey,
    hook_program_id: Pubkey,
) -> Result<Seq<Pubkey>, AmmError> {
    if caller != authority {
        Err(AmmError::InvalidWhitelistAuthority)
    } else {
        remove_hook_outcome(hooks, hook_program_id)
    }
}

/// Admits `hook_program_id` to `whitelist`, if `caller` is its authority.
pub fn add_hook_to_whitelist(
    whitelist: &mut TransferHookWhitelist,
    caller: &Pubkey,
    hook_program_id: Pubkey,
) -> (result: Result<(), AmmError>)
    requires
        old(whitelist).bounded(),
    ensures
        committed(
            old(whitelist)@,
            final(whitelist)@,
            result,
            add_hook_to_whitelist_outcome(
                old(whitelist).authority,
                old(whitelist)@,
                *caller,
                hook_program_id,
            ),
        ),
        result is Err ==> *final(whitelist) == *old(whitelist),
        final(whitelist).same_header(old(whitelist)),
        final(whitelist).bounded(),
        old(whitelist).wf() ==> final(whitelist).wf(),
{
    if !same_key(caller, &whitelist.authority) {
        return Err(AmmError::InvalidWhitelistAuthority);
    }
    whitelist.add_hook(hook_program_id)
}

/// Strikes `hook_program_id` from `whitelist`, if `caller` is its authority.
pub fn remove_hook_from_whitelist(
    whitelist: &mut TransferHookWhitelist,
    caller: &Pubkey,
    hook_program_id: Pubkey,
) -> (result: Result<(), AmmError>)
    requires
        old(whitelist).bounded(),
    ensures
        committed(
            old(whitelist)@,
            final(whitelist)@,
            result,
            remove_hook_from_whitelist_outcome(
                old(whitelist).authority,
                old(whitelist)@,
                *caller,
                hook_program_id,
            ),
        ),
        result is Err ==> *final(whitelist) == *old(whitelist),
        final(whitelist).same_header(old(whitelist)),
        final(whitelist).bounded(),
        old(whitelist).wf() ==> final(whitelist).wf(),
{
    if !same_key(caller, &whitelist.authority) {
        return Err(AmmError::InvalidWhitelistAuthority);
    }
    whitelist.remove_hook(&hook_program_id)
}

/// Confirms that `hook_program_id` is whitelisted, and fails if it is not.
pub fn validate_transfer_hook(whitelist: &TransferHookWhitelist, hook_program_id: &Pubkey) -> (result:
    Result<bool, AmmError>)
    requires
        whitelist.bounded(),
    ensures
        result == if whitelist@.contains(*hook_program_id) {
            Ok::<bool, AmmError>(true)
        } else {
            Err(AmmError::HookNotWhitelisted)
        },
{
    if !whitelist.is_hook_whitelisted(hook_program_id) {
        return Err(AmmError::HookNotWhitelisted);
    }
    Ok(true)
}

} // verus!
