//! Reserve and LP-share accounting of one trading pair, priced by the constant-product
//! rule. Quotes are pure; the operations that change reserves either apply in full or
//! leave the pool as it was.
use crate::error::{committed, AmmError};
use crate::math::{
    floor_sqrt, integer_sqrt, is_floor_sqrt, lemma_floor_sqrt_exists, lemma_product_fits,
    mul_div_floor,
};
use crate::pubkey::{default_key, zero_key};
use anchor_lang::prelude::Pubkey;
use vstd::prelude::*;

verus! {

/// One hundred percent, in basis points.
pub const FEE_DENOMINATOR: u64 = 10_000;

/// The fee rate of a new pool, in basis points.
pub const DEFAULT_FEE_RATE: u64 = 30;

/// The least number of LP tokens that the first deposit of a new pool must mint.
pub const DEFAULT_MIN_LIQUIDITY: u64 = 1_000;

/// The part of `amount_in` that is kept as fee, at `fee_rate` basis points.
pub open spec fn fee_amount(amount_in: int, fee_rate: int) -> int {
    amount_in * fee_rate / 10_000
}

/// What is left of `amount_in` once the fee is taken.
pub open spec fn amount_after_fee(amount_in: int, fee_rate: int) -> int {
    amount_in - fee_amount(amount_in, fee_rate)
}

/// The constant-product payout for `amount_in`, rounded down.
pub open spec fn swap_output(reserve_in: int, reserve_out: int, fee_rate: int, amount_in: int) -> int {
    let net = amount_after_fee(amount_in, fee_rate);
    reserve_out * net / (reserve_in + net)
}

/// The outcome of pricing a swap of `amount_in` against the given reserves.
pub open spec fn quote_swap_output(
    reserve_in: u64,
    reserve_out: u64,
    fee_rate: u64,
    amount_in: u64,
) -> Result<u64, AmmError> {
    if amount_in == 0 {
        Err(AmmError::InvalidAmount)
    } else if reserve_in == 0 || reserve_out == 0 {
        Err(AmmError::InsufficientLiquidity)
    } else {
        let out = swap_output(reserve_in as int, reserve_out as int, fee_rate as int, amount_in as int);
        if out == 0 {
            Err(AmmError::InsufficientOutputAmount)
        } else if out >= reserve_out {
            Err(AmmError::InsufficientLiquidity)
        } else {
            Ok(out as u64)
        }
    }
}

/// The LP tokens that a deposit into a funded pool mints: the smaller of the two
/// shares that the deposit adds to either reserve, rounded down.
pub open spec fn proportional_lp(
    amount_a: int,
    amount_b: int,
    total_lp_supply: int,
    reserve_a: int,
    reserve_b: int,
) -> int {
    let by_a = amount_a * total_lp_supply / reserve_a;
    let by_b = amount_b * total_lp_supply / reserve_b;
    if by_a <= by_b {
        by_a
    } else {
        by_b
    }
}

/// The part of `reserve` that `lp_tokens` out of `total_lp_supply` redeem, rounded down.
pub open spec fn burn_share(reserve: int, lp_tokens: int, total_lp_supply: int) -> int {
    reserve * lp_tokens / total_lp_supply
}

/// A liquidity pool for one pair of tokens.
#[derive(Clone, Copy, Debug)]
pub struct AmmPool {
    /// Who may reconfigure the pool.
    pub authority: Pubkey,
    /// Mint of token A.
    pub token_a_mint: Pubkey,
    /// Mint of token B.
    pub token_b_mint: Pubkey,
    /// The pool's vault for token A.
    pub token_a_vault: Pubkey,
    /// The pool's vault for token B.
    pub token_b_vault: Pubkey,
    /// Mint of the pool's LP token.
    pub lp_mint: Pubkey,
    /// LP tokens minted and not yet burned.
    pub total_lp_supply: u64,
    /// The pool's holding of token A.
    pub token_a_reserve: u64,
    /// The pool's holding of token B.
    pub token_b_reserve: u64,
    /// Swap fee in basis points.
    pub fee_rate: u64,
    /// The least number of LP tokens that the first deposit must mint.
    pub min_liquidity: u64,
    /// Bump seed of the pool's address.
    pub bump: u8,
    /// Unused.
    pub reserved: [u64; 8],
}

impl AmmPool {
    /// The fee rate is at most one hundred percent.
    pub open spec fn wf(&self) -> bool {
        self.fee_rate <= FEE_DENOMINATOR
    }

    /// The outcome of pricing a swap of `amount_in` of token A for token B.
    pub open spec fn swap_quote(&self, amount_in: u64) -> Result<u64, AmmError> {
        quote_swap_output(self.token_a_reserve, self.token_b_reserve, self.fee_rate, amount_in)
    }

    /// The outcome of pricing a deposit of `amount_a` and `amount_b`.
    pub open spec fn deposit_quote(&self, amount_a: u64, amount_b: u64) -> Result<u64, AmmError> {
        if amount_a == 0 || amount_b == 0 {
            Err(AmmError::InvalidAmount)
        } else if self.total_lp_supply == 0 {
            let lp_tokens = floor_sqrt((amount_a * amount_b) as nat);
            if lp_tokens < self.min_liquidity {
                Err(AmmError::InsufficientLPTokens)
            } else {
                Ok(lp_tokens as u64)
            }
        } else {
            Ok(
                proportional_lp(
                    amount_a as int,
                    amount_b as int,
                    self.total_lp_supply as int,
                    self.token_a_reserve as int,
                    self.token_b_reserve as int,
                ) as u64,
            )
        }
    }

    /// A deposit of `amount_a` and `amount_b` can be priced: where the pool is funded,
    /// neither reserve is empty and the LP tokens to mint fit in 64 bits.
    pub open spec fn deposit_quote_defined(&self, amount_a: u64, amount_b: u64) -> bool {
        amount_a > 0 && amount_b > 0 && self.total_lp_supply > 0 ==> {
            &&& self.token_a_reserve > 0
            &&& self.token_b_reserve > 0
            &&& proportional_lp(
                amount_a as int,
                amount_b as int,
                self.total_lp_supply as int,
                self.token_a_reserve as int,
                self.token_b_reserve as int,
            ) <= u64::MAX
        }
    }

    /// The outcome of pricing the redemption of `lp_tokens_to_burn`.
    pub open spec fn burn_quote(&self, lp_tokens_to_burn: u64) -> Result<(u64, u64), AmmError> {
        if lp_tokens_to_burn == 0 {
            Err(AmmError::InvalidAmount)
        } else if lp_tokens_to_burn > self.total_lp_supply {
            Err(AmmError::InsufficientLPTokens)
        } else {
            Ok(
                (
                    burn_share(
                        self.token_a_reserve as int,
                        lp_tokens_to_burn as int,
                        self.total_lp_supply as int,
                    ) as u64,
                    burn_share(
                        self.token_b_reserve as int,
                        lp_tokens_to_burn as int,
                        self.total_lp_supply as int,
                    ) as u64,
                ),
            )
        }
    }

    /// The pool after a swap took in `amount_in` of token A and paid out `amount_out`
    /// of token B.
    pub open spec fn apply_swap(self, amount_in: u64, amount_out: u64) -> Result<AmmPool, AmmError> {
        if self.token_b_reserve < amount_out {
            Err(AmmError::InsufficientLiquidity)
        } else {
            Ok(
                AmmPool {
                    token_a_reserve: (self.token_a_reserve + amount_in) as u64,
                    token_b_reserve: (self.token_b_reserve - amount_out) as u64,
                    ..self
                },
            )
        }
    }

    /// The pool after a deposit of `amount_a` and `amount_b` minted `lp_tokens`.
    pub open spec fn apply_deposit(self, amount_a: u64, amount_b: u64, lp_tokens: u64) -> AmmPool {
        AmmPool {
            token_a_reserve: (self.token_a_reserve + amount_a) as u64,
            token_b_reserve: (self.token_b_reserve + amount_b) as u64,
            total_lp_supply: (self.total_lp_supply + lp_tokens) as u64,
            ..self
        }
    }

    /// The pool after `lp_tokens` were burned for `amount_a` and `amount_b`.
    pub open spec fn apply_withdrawal(self, amount_a: u64, amount_b: u64, lp_tokens: u64) -> Result<
        AmmPool,
        AmmError,
    > {
        if self.token_a_reserve < amount_a || self.token_b_reserve < amount_b {
            Err(AmmError::InsufficientLiquidity)
        } else if self.total_lp_supply < lp_tokens {
            Err(AmmError::InsufficientLPTokens)
        } else {
            Ok(
                AmmPool {
                    token_a_reserve: (self.token_a_reserve - amount_a) as u64,
                    token_b_reserve: (self.token_b_reserve - amount_b) as u64,
                    total_lp_supply: (self.total_lp_supply - lp_tokens) as u64,
                    ..self
                },
            )
        }
    }

    /// Neither reserve nor the LP supply would leave 64 bits in a deposit of these
    /// amounts.
    pub open spec fn deposit_fits(&self, amount_a: u64, amount_b: u64, lp_tokens: u64) -> bool {
        &&& self.token_a_reserve + amount_a <= u64::MAX
        &&& self.token_b_reserve + amount_b <= u64::MAX
        &&& self.total_lp_supply + lp_tokens <= u64::MAX
    }

    /// Sets up an empty pool for the given pair, with the default fee and minimum
    /// liquidity.
    pub fn initialize(
        &mut self,
        authority: Pubkey,
        token_a_mint: Pubkey,
        token_b_mint: Pubkey,
        token_a_vault: Pubkey,
        token_b_vault: Pubkey,
        lp_mint: Pubkey,
    ) -> (result: Result<(), AmmError>)
        ensures
            result is Ok,
            final(self).authority == authority,
            final(self).token_a_mint == token_a_mint,
            final(self).token_b_mint == token_b_mint,
            final(self).token_a_vault == token_a_vault,
            final(self).token_b_vault == token_b_vault,
            final(self).lp_mint == lp_mint,
            final(self).total_lp_supply == 0,
            final(self).token_a_reserve == 0,
            final(self).token_b_reserve == 0,
            final(self).fee_rate == DEFAULT_FEE_RATE,
            final(self).min_liquidity == DEFAULT_MIN_LIQUIDITY,
            final(self).bump == 0,
            forall|i: int| 0 <= i < 8 ==> final(self).reserved[i] == 0,
            final(self).wf(),
    {
        self.authority = authority;
        self.token_a_mint = token_a_mint;
        self.token_b_mint = token_b_mint;
        self.token_a_vault = token_a_vault;
        self.token_b_vault = token_b_vault;
        self.lp_mint = lp_mint;
        self.total_lp_supply = 0;
        self.token_a_reserve = 0;
        self.token_b_reserve = 0;
        self.fee_rate = DEFAULT_FEE_RATE;
        self.min_liquidity = DEFAULT_MIN_LIQUIDITY;
        self.bump = 0;
        self.reserved = [0u64;8];
        Ok(())
    }

    /// Overwrites the fee rate and the minimum liquidity. No range is enforced here: a
    /// fee rate above one hundred percent leaves a pool that cannot price swaps.
    pub fn update_config(&mut self, fee_rate: u64, min_liquidity: u64) -> (result: Result<
        (),
        AmmError,
    >)
        ensures
            result is Ok,
            *final(self) == (AmmPool { fee_rate, min_liquidity, ..*old(self) }),
    {
        self.fee_rate = fee_rate;
        self.min_liquidity = min_liquidity;
        Ok(())
    }

    /// Prices a swap of `amount_in` of token A for token B. Changes nothing.
    pub fn calculate_swap_output(&self, amount_in: u64) -> (result: Result<u64, AmmError>)
        requires
            self.wf(),
        ensures
            result == self.swap_quote(amount_in),
            result matches Ok(amount_out) ==> 0 < amount_out < self.token_b_reserve,
    {
        if amount_in == 0 {
            return Err(AmmError::InvalidAmount);
        }
        if self.token_a_reserve == 0 {
            return Err(AmmError::InsufficientLiquidity);
        }
        if self.token_b_reserve == 0 {
            return Err(AmmError::InsufficientLiquidity);
        }
        let fee: u128 = mul_div_floor(amount_in, self.fee_rate, 10_000);
        proof {
            lemma_fee_bounded(amount_in as int, self.fee_rate as int);
        }
        let net: u64 = (amount_in as u128 - fee) as u64;
        let amount_out: u128 = mul_div_floor(
            self.token_b_reserve,
            net,
            self.token_a_reserve as u128 + net as u128,
        );
        proof {
            law_swap_output_below_reserve(
                self.token_a_reserve as int,
                self.token_b_reserve as int,
                self.fee_rate as int,
                amount_in as int,
            );
        }
        if amount_out == 0 {
            return Err(AmmError::InsufficientOutputAmount);
        }
        if amount_out >= self.token_b_reserve as u128 {
            return Err(AmmError::InsufficientLiquidity);
        }
        Ok(amount_out as u64)
    }

    /// Tells whether a deposit of `amount_a` and `amount_b` can be priced.
    pub fn can_quote_deposit(&self, amount_a: u64, amount_b: u64) -> (defined: bool)
        ensures
            defined == self.deposit_quote_defined(amount_a, amount_b),
    {
        if amount_a == 0 || amount_b == 0 || self.total_lp_supply == 0 {
            return true;
        }
        if self.token_a_reserve == 0 || self.token_b_reserve == 0 {
            return false;
        }
        let by_a: u128 = mul_div_floor(amount_a, self.total_lp_supply, self.token_a_reserve as u128);
        let by_b: u128 = mul_div_floor(amount_b, self.total_lp_supply, self.token_b_reserve as u128);
        by_a <= u64::MAX as u128 || by_b <= u64::MAX as u128
    }

    /// Prices a deposit of `amount_a` and `amount_b` in LP tokens. The first deposit
    /// into a pool mints the integer square root of the product of the amounts, and
    /// must reach the pool's minimum; a later one mints the smaller of the two shares
    /// it adds. Changes nothing.
    pub fn calculate_lp_tokens_for_liquidity(&self, amount_a: u64, amount_b: u64) -> (result: Result<
        u64,
        AmmError,
    >)
        requires
            self.deposit_quote_defined(amount_a, amount_b),
        ensures
            result == self.deposit_quote(amount_a, amount_b),
    {
        if amount_a == 0 {
            return Err(AmmError::InvalidAmount);
        }
        if amount_b == 0 {
            return Err(AmmError::InvalidAmount);
        }
        if self.total_lp_supply == 0 {
            proof {
                lemma_product_fits(amount_a, amount_b);
            }
            let lp_tokens: u64 = integer_sqrt(amount_a as u128 * amount_b as u128);
            if lp_tokens < self.min_liquidity {
                return Err(AmmError::InsufficientLPTokens);
            }
            Ok(lp_tokens)
        } else {
            let by_a: u128 = mul_div_floor(
                amount_a,
                self.total_lp_supply,
                self.token_a_reserve as u128,
            );
            let by_b: u128 = mul_div_floor(
                amount_b,
                self.total_lp_supply,
                self.token_b_reserve as u128,
            );
            let lp_tokens: u128 = if by_a <= by_b {
                by_a
            } else {
                by_b
            };
            Ok(lp_tokens as u64)
        }
    }

    /// Prices the redemption of `lp_tokens_to_burn`: of either reserve, the part that
    /// the burned tokens are of the whole supply, rounded down. Changes nothing.
    pub fn calculate_tokens_for_lp_burn(&self, lp_tokens_to_burn: u64) -> (result: Result<
        (u64, u64),
        AmmError,
    >)
        ensures
            result == self.burn_quote(lp_tokens_to_burn),
            result matches Ok((amount_a, amount_b)) ==> amount_a <= self.token_a_reserve && amount_b
                <= self.token_b_reserve,
    {
        if lp_tokens_to_burn == 0 {
            return Err(AmmError::InvalidAmount);
        }
        if lp_tokens_to_burn > self.total_lp_supply {
            return Err(AmmError::InsufficientLPTokens);
        }
        let amount_a: u128 = mul_div_floor(
            self.token_a_reserve,
            lp_tokens_to_burn,
            self.total_lp_supply as u128,
        );
        let amount_b: u128 = mul_div_floor(
            self.token_b_reserve,
            lp_tokens_to_burn,
            self.total_lp_supply as u128,
        );
        proof {
            lemma_burn_share_bounded(
                self.token_a_reserve as int,
                lp_tokens_to_burn as int,
                self.total_lp_supply as int,
            );
            lemma_burn_share_bounded(
                self.token_b_reserve as int,
                lp_tokens_to_burn as int,
                self.total_lp_supply as int,
            );
        }
        Ok((amount_a as u64, amount_b as u64))
    }

    /// Books a swap that took in `amount_in` of token A and paid out `amount_out` of
    /// token B.
    pub fn update_swap_state(&mut self, amount_in: u64, amount_out: u64) -> (result: Result<
        (),
        AmmError,
    >)
        requires
            old(self).token_a_reserve + amount_in <= u64::MAX,
        ensures
            committed(*old(self), *final(self), result, old(self).apply_swap(amount_in, amount_out)),
    {
        if self.token_b_reserve < amount_out {
            return Err(AmmError::InsufficientLiquidity);
        }
        self.token_a_reserve = self.token_a_reserve + amount_in;
        self.token_b_reserve = self.token_b_reserve - amount_out;
        Ok(())
    }

    /// Books a deposit of `amount_a` and `amount_b` that minted `lp_tokens`.
    pub fn add_liquidity(&mut self, amount_a: u64, amount_b: u64, lp_tokens: u64) -> (result: Result<
        (),
        AmmError,
    >)
        requires
            old(self).deposit_fits(amount_a, amount_b, lp_tokens),
        ensures
            result is Ok,
            *final(self) == old(self).apply_deposit(amount_a, amount_b, lp_tokens),
    {
        self.token_a_reserve = self.token_a_reserve + amount_a;
        self.token_b_reserve = self.token_b_reserve + amount_b;
        self.total_lp_supply = self.total_lp_supply + lp_tokens;
        Ok(())
    }

    /// Books a withdrawal of `amount_a` and `amount_b` that burned `lp_tokens`.
    pub fn remove_liquidity(&mut self, amount_a: u64, amount_b: u64, lp_tokens: u64) -> (result: Result<
        (),
        AmmError,
    >)
        ensures
            committed(
                *old(self),
                *final(self),
                result,
                old(self).apply_withdrawal(amount_a, amount_b, lp_tokens),
            ),
    {
        if self.token_a_reserve < amount_a {
            return Err(AmmError::InsufficientLiquidity);
        }
        if self.token_b_reserve < amount_b {
            return Err(AmmError::InsufficientLiquidity);
        }
        if self.total_lp_supply < lp_tokens {
            return Err(AmmError::InsufficientLPTokens);
        }
        self.token_a_reserve = self.token_a_reserve - amount_a;
        self.token_b_reserve = self.token_b_reserve - amount_b;
        self.total_lp_supply = self.total_lp_supply - lp_tokens;
        Ok(())
    }

    /// The price of token A in token B, as the exact fraction of the two reserves:
    /// numerator first, then denominator.
    pub fn get_price_ratio(&self) -> (result: Result<(u64, u64), AmmError>)
        ensures
            result == if self.token_a_reserve == 0 || self.token_b_reserve == 0 {
                Err::<(u64, u64), AmmError>(AmmError::InsufficientLiquidity)
            } else {
                Ok((self.token_b_reserve, self.token_a_reserve))
            },
    {
        if self.token_a_reserve == 0 {
            return Err(AmmError::InsufficientLiquidity);
        }
        if self.token_b_reserve == 0 {
            return Err(AmmError::InsufficientLiquidity);
        }
        Ok((self.token_b_reserve, self.token_a_reserve))
    }

    /// Both reserves and the LP supply, in that order.
    pub fn get_pool_info(&self) -> (info: (u64, u64, u64))
        ensures
            info == (self.token_a_reserve, self.token_b_reserve, self.total_lp_supply),
    {
        (self.token_a_reserve, self.token_b_reserve, self.total_lp_supply)
    }
}

impl Default for AmmPool {
    /// An empty pool without fee, with the key of zero bytes in every place of a key.
    fn default() -> (pool: AmmPool)
        ensures
            pool.authority == zero_key(),
            pool.token_a_mint == zero_key(),
            pool.token_b_mint == zero_key(),
            pool.token_a_vault == zero_key(),
            pool.token_b_vault == zero_key(),
            pool.lp_mint == zero_key(),
            pool.total_lp_supply == 0,
            pool.token_a_reserve == 0,
            pool.token_b_reserve == 0,
            pool.fee_rate == 0,
            pool.min_liquidity == 0,
            pool.bump == 0,
            forall|i: int| 0 <= i < 8 ==> pool.reserved[i] == 0,
            pool.wf(),
    {
        AmmPool {
            authority: default_key(),
            token_a_mint: default_key(),
            token_b_mint: default_key(),
            token_a_vault: default_key(),
            token_b_vault: default_key(),
            lp_mint: default_key(),
            total_lp_supply: 0,
            token_a_reserve: 0,
            token_b_reserve: 0,
            fee_rate: 0,
            min_liquidity: 0,
            bump: 0,
            reserved: [0u64;8],
        }
    }
}

/// Redeeming part of the LP supply returns at most the reserve.
pub proof fn lemma_burn_share_bounded(reserve: int, lp_tokens: int, total_lp_supply: int)
    requires
        0 <= reserve,
        0 <= lp_tokens <= total_lp_supply,
        0 < total_lp_supply,
    ensures
        0 <= burn_share(reserve, lp_tokens, total_lp_supply) <= reserve,
{
    assert(0 <= reserve * lp_tokens / total_lp_supply <= reserve) by (nonlinear_arith)
        requires
            0 <= reserve,
            0 <= lp_tokens <= total_lp_supply,
            0 < total_lp_supply,
    ;
}

/// A fee of at most one hundred percent is at most the amount it is taken from.
pub proof fn lemma_fee_bounded(amount_in: int, fee_rate: int)
    requires
        0 <= amount_in,
        0 <= fee_rate <= 10_000,
    ensures
        0 <= fee_amount(amount_in, fee_rate) <= amount_in,
        0 <= amount_after_fee(amount_in, fee_rate) <= amount_in,
{
    assert(0 <= amount_in * fee_rate <= amount_in * 10_000) by (nonlinear_arith)
        requires
            0 <= amount_in,
            0 <= fee_rate <= 10_000,
    ;
}

/// Whatever is paid in, a swap pays out less than the reserve it draws on.
pub proof fn law_swap_output_below_reserve(
    reserve_in: int,
    reserve_out: int,
    fee_rate: int,
    amount_in: int,
)
    requires
        0 < reserve_in,
        0 < reserve_out,
        0 <= fee_rate <= 10_000,
        0 <= amount_in,
    ensures
        0 <= swap_output(reserve_in, reserve_out, fee_rate, amount_in) < reserve_out,
{
    lemma_fee_bounded(amount_in, fee_rate);
    let net = amount_after_fee(amount_in, fee_rate);
    let d = reserve_in + net;
    assert(0 <= reserve_out * net / d < reserve_out) by (nonlinear_arith)
        requires
            0 < reserve_out,
            0 <= net < d,
    ;
}


/// What is left after the fee does not shrink when the amount grows.
pub proof fn lemma_amount_after_fee_monotonic(fee_rate: int, smaller: int, larger: int)
    requires
        0 <= fee_rate <= 10_000,
        0 <= smaller <= larger,
    ensures
        amount_after_fee(smaller, fee_rate) <= amount_after_fee(larger, fee_rate),
{
    let extra = larger - smaller;
    assert(larger * fee_rate <= smaller * fee_rate + extra * 10_000) by (nonlinear_arith)
        requires
            larger == smaller + extra,
            0 <= extra,
            0 <= fee_rate <= 10_000,
    ;
    assert((smaller * fee_rate + extra * 10_000) / 10_000 == smaller * fee_rate / 10_000 + extra)
        by (nonlinear_arith);
    assert(larger * fee_rate / 10_000 <= (smaller * fee_rate + extra * 10_000) / 10_000)
        by (nonlinear_arith)
        requires
            larger * fee_rate <= smaller * fee_rate + extra * 10_000,
    ;
}

/// The constant-product payout does not shrink when the amount after the fee grows.
pub proof fn lemma_payout_monotonic(reserve_in: int, reserve_out: int, smaller: int, larger: int)
    requires
        0 < reserve_in,
        0 < reserve_out,
        0 <= smaller <= larger,
    ensures
        reserve_out * smaller / (reserve_in + smaller) <= reserve_out * larger / (reserve_in
            + larger),
{
    let q = reserve_out * smaller / (reserve_in + smaller);
    assert(0 <= q <= reserve_out && q * (reserve_in + smaller) <= reserve_out * smaller)
        by (nonlinear_arith)
        requires
            q == reserve_out * smaller / (reserve_in + smaller),
            0 < reserve_in,
            0 < reserve_out,
            0 <= smaller,
    ;
    assert(q * (reserve_in + larger) <= reserve_out * larger) by (nonlinear_arith)
        requires
            0 <= q <= reserve_out,
            q * (reserve_in + smaller) <= reserve_out * smaller,
            smaller <= larger,
    ;
    assert(q <= reserve_out * larger / (reserve_in + larger)) by (nonlinear_arith)
        requires
            q * (reserve_in + larger) <= reserve_out * larger,
            0 < reserve_in + larger,
    ;
}

/// For fixed reserves and fee rate, a larger amount paid in never pays out less.
pub proof fn law_swap_output_monotonic(
    reserve_in: int,
    reserve_out: int,
    fee_rate: int,
    smaller: int,
    larger: int,
)
    requires
        0 < reserve_in,
        0 < reserve_out,
        0 <= fee_rate <= 10_000,
        0 <= smaller <= larger,
    ensures
        swap_output(reserve_in, reserve_out, fee_rate, smaller) <= swap_output(
            reserve_in,
            reserve_out,
            fee_rate,
            larger,
        ),
{
    lemma_fee_bounded(smaller, fee_rate);
    lemma_amount_after_fee_monotonic(fee_rate, smaller, larger);
    lemma_payout_monotonic(
        reserve_in,
        reserve_out,
        amount_after_fee(smaller, fee_rate),
        amount_after_fee(larger, fee_rate),
    );
}

/// For fixed reserves and fee rate, wherever two amounts are paid out differently,
/// the larger amount is paid out more. Rounding down lets neighbouring amounts pay out
/// the same, so the payout grows strictly only across such a change.
pub proof fn law_swap_output_increasing(
    reserve_in: int,
    reserve_out: int,
    fee_rate: int,
    smaller: int,
    larger: int,
)
    requires
        0 < reserve_in,
        0 < reserve_out,
        0 <= fee_rate <= 10_000,
        0 <= smaller < larger,
        swap_output(reserve_in, reserve_out, fee_rate, smaller) != swap_output(
            reserve_in,
            reserve_out,
            fee_rate,
            larger,
        ),
    ensures
        swap_output(reserve_in, reserve_out, fee_rate, smaller) < swap_output(
            reserve_in,
            reserve_out,
            fee_rate,
            larger,
        ),
{
    law_swap_output_monotonic(reserve_in, reserve_out, fee_rate, smaller, larger);
}

/// For fixed reserves and fee rate, the larger of two amounts is paid out more
/// whenever the exact price of the difference is at least one unit of the output
/// token.
pub proof fn law_swap_output_increasing_by_units(
    reserve_in: int,
    reserve_out: int,
    fee_rate: int,
    smaller: int,
    larger: int,
)
    requires
        0 < reserve_in,
        0 < reserve_out,
        0 <= fee_rate <= 10_000,
        0 <= smaller < larger,
        reserve_out * reserve_in * (amount_after_fee(larger, fee_rate) - amount_after_fee(
            smaller,
            fee_rate,
        )) >= (reserve_in + amount_after_fee(smaller, fee_rate)) * (reserve_in
            + amount_after_fee(larger, fee_rate)),
    ensures
        swap_output(reserve_in, reserve_out, fee_rate, smaller) < swap_output(
            reserve_in,
            reserve_out,
            fee_rate,
            larger,
        ),
{
    lemma_fee_bounded(smaller, fee_rate);
    lemma_fee_bounded(larger, fee_rate);
    let x = amount_after_fee(smaller, fee_rate);
    let y = amount_after_fee(larger, fee_rate);
    let dx = reserve_in + x;
    let dy = reserve_in + y;
    let q = reserve_out * x / dx;
    assert(q * dx <= reserve_out * x) by (nonlinear_arith)
        requires
            q == reserve_out * x / dx,
            0 < dx,
    ;
    // (q + 1) * dx * dy <= reserve_out * y * dx, so q + 1 fits below the larger payout.
    assert((q + 1) * dy * dx <= reserve_out * y * dx) by (nonlinear_arith)
        requires
            q * dx <= reserve_out * x,
            reserve_out * reserve_in * (y - x) >= dx * dy,
            dx == reserve_in + x,
            dy == reserve_in + y,
            0 < dx,
            0 < dy,
            0 <= q,
            0 < reserve_in,
            0 < reserve_out,
            0 <= x,
            0 <= y,
    ;
    assert((q + 1) * dy <= reserve_out * y) by (nonlinear_arith)
        requires
            (q + 1) * dy * dx <= reserve_out * y * dx,
            0 < dx,
    ;
    assert(q + 1 <= reserve_out * y / dy) by (nonlinear_arith)
        requires
            (q + 1) * dy <= reserve_out * y,
            0 < dy,
    ;
}

/// A swap that was priced can be booked, and leaves something in both reserves: what
/// it pays out is less than the reserve it draws on.
pub proof fn law_swap_never_drains_a_reserve(pool: AmmPool, amount_in: u64)
    requires
        pool.wf(),
        pool.token_a_reserve + amount_in <= u64::MAX,
        pool.swap_quote(amount_in) is Ok,
    ensures
        ({
            let amount_out = pool.swap_quote(amount_in)->Ok_0;
            &&& 0 < amount_out < pool.token_b_reserve
            &&& pool.apply_swap(amount_in, amount_out) matches Ok(next)
            &&& next.token_a_reserve == pool.token_a_reserve + amount_in
            &&& next.token_b_reserve == pool.token_b_reserve - amount_out
            &&& next.token_a_reserve > 0
            &&& next.token_b_reserve > 0
        }),
{
    law_swap_output_below_reserve(
        pool.token_a_reserve as int,
        pool.token_b_reserve as int,
        pool.fee_rate as int,
        amount_in as int,
    );
}

/// Booking a swap never takes more out of a reserve than it holds: it either fails
/// and changes nothing, or adds to one reserve what came in and takes from the other
/// what went out.
pub proof fn law_booked_swap_keeps_reserves(pool: AmmPool, amount_in: u64, amount_out: u64)
    requires
        pool.token_a_reserve + amount_in <= u64::MAX,
    ensures
        match pool.apply_swap(amount_in, amount_out) {
            Ok(next) => {
                &&& amount_out <= pool.token_b_reserve
                &&& next.token_a_reserve == pool.token_a_reserve + amount_in
                &&& next.token_b_reserve == pool.token_b_reserve - amount_out
                &&& next.total_lp_supply == pool.total_lp_supply
            },
            Err(e) => e == AmmError::InsufficientLiquidity && amount_out > pool.token_b_reserve,
        },
{
}

/// The first deposit into a pool mints the integer square root of the product of the
/// two amounts, and goes ahead only where that reaches the pool's minimum liquidity.
pub proof fn law_first_deposit_mints_the_root(pool: AmmPool, amount_a: u64, amount_b: u64)
    requires
        pool.total_lp_supply == 0,
        amount_a > 0,
        amount_b > 0,
    ensures
        match pool.deposit_quote(amount_a, amount_b) {
            Ok(lp_tokens) => {
                &&& is_floor_sqrt((amount_a * amount_b) as nat, lp_tokens as nat)
                &&& lp_tokens >= pool.min_liquidity
                &&& lp_tokens > 0
            },
            Err(e) => {
                &&& e == AmmError::InsufficientLPTokens
                &&& floor_sqrt((amount_a * amount_b) as nat) < pool.min_liquidity
            },
        },
{
    let product = (amount_a * amount_b) as nat;
    assert(1 <= amount_a * amount_b <= 0xffff_ffff_ffff_ffff * 0xffff_ffff_ffff_ffff)
        by (nonlinear_arith)
        requires
            1 <= amount_a <= 0xffff_ffff_ffff_ffff,
            1 <= amount_b <= 0xffff_ffff_ffff_ffff,
    ;
    lemma_floor_sqrt_exists(product);
    let root = floor_sqrt(product);
    if root > 0xffff_ffff_ffff_ffff {
        assert(root * root > 0xffff_ffff_ffff_ffff * 0xffff_ffff_ffff_ffff) by (nonlinear_arith)
            requires
                root > 0xffff_ffff_ffff_ffff,
        ;
    }
    if root == 0 {
        assert((root + 1) * (root + 1) == 1) by (nonlinear_arith)
            requires
                root == 0,
        ;
    }
}

/// Whoever deposits and at once redeems the LP tokens that the deposit minted gets
/// back no more of either token than was deposited, and leaves the LP supply as it
/// was: rounding only ever favours the pool. This holds of every pool whose reserves
/// are empty while it has no LP tokens outstanding; reserves left in a pool without LP
/// tokens go to the next depositor.
pub proof fn law_deposit_then_withdraw_returns_no_more(pool: AmmPool, amount_a: u64, amount_b: u64)
    requires
        pool.total_lp_supply == 0 ==> pool.token_a_reserve == 0 && pool.token_b_reserve == 0,
        pool.deposit_quote_defined(amount_a, amount_b),
        pool.deposit_quote(amount_a, amount_b) is Ok,
        pool.deposit_fits(amount_a, amount_b, pool.deposit_quote(amount_a, amount_b)->Ok_0),
    ensures
        ({
            let lp_tokens = pool.deposit_quote(amount_a, amount_b)->Ok_0;
            let funded = pool.apply_deposit(amount_a, amount_b, lp_tokens);
            match funded.burn_quote(lp_tokens) {
                Ok((back_a, back_b)) => {
                    &&& back_a <= amount_a
                    &&& back_b <= amount_b
                    &&& funded.apply_withdrawal(back_a, back_b, lp_tokens) matches Ok(rest)
                    &&& rest.total_lp_supply == pool.total_lp_supply
                    &&& rest.token_a_reserve >= pool.token_a_reserve
                    &&& rest.token_b_reserve >= pool.token_b_reserve
                },
                Err(e) => lp_tokens == 0 && e == AmmError::InvalidAmount,
            }
        }),
{
    let lp_tokens = pool.deposit_quote(amount_a, amount_b)->Ok_0;
    let funded = pool.apply_deposit(amount_a, amount_b, lp_tokens);
    if lp_tokens > 0 {
        if pool.total_lp_supply == 0 {
            let lp = lp_tokens as int;
            assert(amount_a * lp / lp == amount_a && amount_b * lp / lp == amount_b)
                by (nonlinear_arith)
                requires
                    lp > 0,
            ;
        } else {
            lemma_share_round_trip(
                amount_a as int,
                pool.token_a_reserve as int,
                pool.total_lp_supply as int,
                lp_tokens as int,
            );
            lemma_share_round_trip(
                amount_b as int,
                pool.token_b_reserve as int,
                pool.total_lp_supply as int,
                lp_tokens as int,
            );
        }
    }
}

/// LP tokens worth no more than the share that `amount` adds to `reserve` redeem no
/// more than `amount` from the reserve after the deposit.
pub proof fn lemma_share_round_trip(amount: int, reserve: int, total_lp_supply: int, lp_tokens: int)
    requires
        0 <= amount,
        0 < reserve,
        0 < total_lp_supply,
        0 < lp_tokens <= amount * total_lp_supply / reserve,
    ensures
        burn_share(reserve + amount, lp_tokens, total_lp_supply + lp_tokens) <= amount,
{
    assert(lp_tokens * reserve <= amount * total_lp_supply) by (nonlinear_arith)
        requires
            lp_tokens <= amount * total_lp_supply / reserve,
            0 < reserve,
            0 <= amount,
            0 < total_lp_supply,
    ;
    assert((reserve + amount) * lp_tokens <= amount * (total_lp_supply + lp_tokens))
        by (nonlinear_arith)
        requires
            lp_tokens * reserve <= amount * total_lp_supply,
    ;
    assert((reserve + amount) * lp_tokens / (total_lp_supply + lp_tokens) <= amount)
        by (nonlinear_arith)
        requires
            (reserve + amount) * lp_tokens <= amount * (total_lp_supply + lp_tokens),
            0 < total_lp_supply + lp_tokens,
            0 <= amount,
    ;
}

} // verus!
