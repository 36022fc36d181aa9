//! Reconfiguration of a pool by its authority.
use crate::error::{committed, AmmError};
use crate::pubkey::same_key;
use crate::state::amm_pool::AmmPool;
use anchor_lang::prelude::Pubkey;
use vstd::prelude::*;

verus! {

/// The outcome of `caller` setting the fee rate and the minimum liquidity of `pool`.
pub open spec fn update_pool_config_outcome(
    pool: AmmPool,
    caller: Pubkey,
    fee_rate: u64,
    min_liquidity: u64,
) -> Result<AmmPool, AmmError> {
    if caller != pool.authority {
        Err(AmmError::InvalidPoolAuthority)
    } else {
        Ok(AmmPool { fee_rate, min_liquidity, ..pool })
    }
}

/// Sets the fee rate and the minimum liquidity of `pool`, if `caller` is its authority.
pub fn update_pool_config(
    pool: &mut AmmPool,
    caller: &Pubkey,
    fee_rate: u64,
    min_liquidity: u64,
) -> (result: Result<(), AmmError>)
    ensures
        committed(
            *old(pool),
            *final(pool),
            result,
            update_pool_config_outcome(*old(pool), *caller, fee_rate, min_liquidity),
        ),
{
    if !same_key(caller, &pool.authority) {
        return Err(AmmError::InvalidPoolAuthority);
    }
    pool.update_config(fee_rate, min_liquidity)
}

} // verus!
