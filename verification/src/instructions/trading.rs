//! Swaps of token A for token B: price, hold the price against the caller's minimum,
//! then book the swap.
use crate::error::{settled, AmmError};
use crate::state::amm_pool::AmmPool;
use vstd::prelude::*;

verus! {

/// The outcome of a swap of `amount_in` that must pay out at least `min_amount_out`:
/// the pool afterwards and the amount of token B to pay out.
pub open spec fn swap_outcome(pool: AmmPool, amount_in: u64, min_amount_out: u64) -> Result<
    (AmmPool, u64),
    AmmError,
> {
    match pool.swap_quote(amount_in) {
        Err(e) => Err(e),
        Ok(amount_out) => if amount_out < min_amount_out {
            Err(AmmError::InsufficientOutputAmount)
        } else {
            match pool.apply_swap(amount_in, amount_out) {
                Err(e) => Err(e),
                Ok(next) => Ok((next, amount_out)),
            }
        },
    }
}

/// Swaps `amount_in` of token A for token B and returns the amount to pay out. The
/// swap is refused where it would pay out less than `min_amount_out`; a swap that is
/// carried out leaves something in both reserves.
pub fn swap(pool: &mut AmmPool, amount_in: u64, min_amount_out: u64) -> (result: Result<
    u64,
    AmmError,
>)
    requires
        old(pool).wf(),
        old(pool).token_a_reserve + amount_in <= u64::MAX,
    ensures
        settled(*old(pool), *final(pool), result, swap_outcome(*old(pool), amount_in, min_amount_out)),
        result matches Ok(amount_out) ==> {
            &&& min_amount_out <= amount_out
            &&& final(pool).token_a_reserve == old(pool).token_a_reserve + amount_in
            &&& final(pool).token_b_reserve == old(pool).token_b_reserve - amount_out
            &&& final(pool).token_a_reserve > 0
            &&& final(pool).token_b_reserve > 0
        },
{
    let amount_out: u64 = match pool.calculate_swap_output(amount_in) {
        Ok(amount_out) => amount_out,
        Err(e) => {
            return Err(e);
        },
    };
    if amount_out < min_amount_out {
        return Err(AmmError::InsufficientOutputAmount);
    }
    match pool.update_swap_state(amount_in, amount_out) {
        Ok(()) => Ok(amount_out),
        Err(e) => Err(e),
    }
}

/// Swaps exactly `amount_in` of the input token for the output token, as [`swap`] does.
pub fn swap_exact_tokens_for_tokens(pool: &mut AmmPool, amount_in: u64, min_amount_out: u64) -> (result:
    Result<u64, AmmError>)
    requires
        old(pool).wf(),
        old(pool).token_a_reserve + amount_in <= u64::MAX,
    ensures
        settled(*old(pool), *final(pool), result, swap_outcome(*old(pool), amount_in, min_amount_out)),
        result matches Ok(amount_out) ==> {
            &&& min_amount_out <= amount_out
            &&& final(pool).token_a_reserve == old(pool).token_a_reserve + amount_in
            &&& final(pool).token_b_reserve == old(pool).token_b_reserve - amount_out
            &&& final(pool).token_a_reserve > 0
            &&& final(pool).token_b_reserve > 0
        },
{
    swap(pool, amount_in, min_amount_out)
}

} // verus!
