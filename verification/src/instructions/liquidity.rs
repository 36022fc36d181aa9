//! Deposits and withdrawals of liquidity: price, hold the price against the caller's
//! minimum, then book the change.
use crate::error::{settled, AmmError};
use crate::state::amm_pool::AmmPool;
use vstd::prelude::*;

verus! {

/// The outcome of a deposit of `amount_a` and `amount_b` that must mint at least
/// `min_lp_tokens`: the pool afterwards and the LP tokens to mint.
pub open spec fn add_liquidity_outcome(
    pool: AmmPool,
    amount_a: u64,
    amount_b: u64,
    min_lp_tokens: u64,
) -> Result<(AmmPool, u64), AmmError> {
    match pool.deposit_quote(amount_a, amount_b) {
        Err(e) => Err(e),
        Ok(lp_tokens) => if lp_tokens < min_lp_tokens {
            Err(AmmError::InsufficientLPTokens)
        } else {
            Ok((pool.apply_deposit(amount_a, amount_b, lp_tokens), lp_tokens))
        },
    }
}

/// The deposit can be priced, and where it goes ahead, both reserves and the LP supply
/// stay within 64 bits.
pub open spec fn add_liquidity_in_range(
    pool: AmmPool,
    amount_a: u64,
    amount_b: u64,
    min_lp_tokens: u64,
) -> bool {
    &&& pool.deposit_quote_defined(amount_a, amount_b)
    &&& add_liquidity_outcome(pool, amount_a, amount_b, min_lp_tokens) matches Ok((_, lp_tokens))
        ==> pool.deposit_fits(amount_a, amount_b, lp_tokens)
}

/// The outcome of burning `lp_tokens_to_burn` for at least `min_token_a` and
/// `min_token_b`: the pool afterwards and the amounts of token A and B to pay out.
pub open spec fn remove_liquidity_outcome(
    pool: AmmPool,
    lp_tokens_to_burn: u64,
    min_token_a: u64,
    min_token_b: u64,
) -> Result<(AmmPool, (u64, u64)), AmmError> {
    match pool.burn_quote(lp_tokens_to_burn) {
        Err(e) => Err(e),
        Ok((amount_a, amount_b)) => if amount_a < min_token_a {
            Err(AmmError::InsufficientTokenA)
        } else if amount_b < min_token_b {
            Err(AmmError::InsufficientTokenB)
        } else {
            match pool.apply_withdrawal(amount_a, amount_b, lp_tokens_to_burn) {
                Err(e) => Err(e),
                Ok(next) => Ok((next, (amount_a, amount_b))),
            }
        },
    }
}

/// Tells whether [`add_liquidity`] can be called with these arguments.
pub fn can_add_liquidity(pool: &AmmPool, amount_a: u64, amount_b: u64, min_lp_tokens: u64) -> (in_range:
    bool)
    ensures
        in_range == add_liquidity_in_range(*pool, amount_a, amount_b, min_lp_tokens),
{
    if !pool.can_quote_deposit(amount_a, amount_b) {
        return false;
    }
    match pool.calculate_lp_tokens_for_liquidity(amount_a, amount_b) {
        Err(_) => true,
        Ok(lp_tokens) => {
            lp_tokens < min_lp_tokens || (amount_a <= u64::MAX - pool.token_a_reserve && amount_b
                <= u64::MAX - pool.token_b_reserve && lp_tokens <= u64::MAX - pool.total_lp_supply)
        },
    }
}

/// Deposits `amount_a` and `amount_b` and returns the LP tokens to mint. The deposit
/// is refused where it would mint fewer than `min_lp_tokens`.
pub fn add_liquidity(pool: &mut AmmPool, amount_a: u64, amount_b: u64, min_lp_tokens: u64) -> (result:
    Result<u64, AmmError>)
    requires
        add_liquidity_in_range(*old(pool), amount_a, amount_b, min_lp_tokens),
    ensures
        settled(
            *old(pool),
            *final(pool),
            result,
            add_liquidity_outcome(*old(pool), amount_a, amount_b, min_lp_tokens),
        ),
{
    let lp_tokens: u64 = match pool.calculate_lp_tokens_for_liquidity(amount_a, amount_b) {
        Ok(lp_tokens) => lp_tokens,
        Err(e) => {
            return Err(e);
        },
    };
    if lp_tokens < min_lp_tokens {
        return Err(AmmError::InsufficientLPTokens);
    }
    match pool.add_liquidity(amount_a, amount_b, lp_tokens) {
        Ok(()) => Ok(lp_tokens),
        Err(e) => Err(e),
    }
}

/// Burns `lp_tokens_to_burn` and returns the amounts of token A and B to pay out. The
/// withdrawal is refused where it would pay out less than `min_token_a` or
/// `min_token_b`.
pub fn remove_liquidity(
    pool: &mut AmmPool,
    lp_tokens_to_burn: u64,
    min_token_a: u64,
    min_token_b: u64,
) -> (result: Result<(u64, u64), AmmError>)
    ensures
        settled(
            *old(pool),
            *final(pool),
            result,
            remove_liquidity_outcome(*old(pool), lp_tokens_to_burn, min_token_a, min_token_b),
        ),
        result matches Ok((amount_a, amount_b)) ==> {
            &&& min_token_a <= amount_a
            &&& min_token_b <= amount_b
            &&& final(pool).token_a_reserve == old(pool).token_a_reserve - amount_a
            &&& final(pool).token_b_reserve == old(pool).token_b_reserve - amount_b
            &&& final(pool).total_lp_supply == old(pool).total_lp_supply - lp_tokens_to_burn
        },
{
    let (amount_a, amount_b): (u64, u64) = match pool.calculate_tokens_for_lp_burn(lp_tokens_to_burn) {
        Ok(amounts) => amounts,
        Err(e) => {
            return Err(e);
        },
    };
    if amount_a < min_token_a {
        return Err(AmmError::InsufficientTokenA);
    }
    if amount_b < min_token_b {
        return Err(AmmError::InsufficientTokenB);
    }
    match pool.remove_liquidity(amount_a, amount_b, lp_tokens_to_burn) {
        Ok(()) => Ok((amount_a, amount_b)),
        Err(e) => Err(e),
    }
}

} // verus!
