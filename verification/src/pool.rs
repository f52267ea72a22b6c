use vstd::prelude::*;

use vstd::arithmetic::div_mod::{
    lemma_div_by_multiple, lemma_div_is_ordered, lemma_div_pos_is_pos, lemma_fundamental_div_mod,
    lemma_mod_bound,
};

use crate::errors::CustomError;

verus! {

/// The persisted state of one pool: its holdings of the two assets, the swap
/// fee in basis points (fixed at initialization), and the bump seed under
/// which the hosting environment derived the pool's storage address. The
/// bump is opaque to this library: it is stored at initialization and never
/// read by any operation.
#[derive(Clone, Copy, Debug, PartialEq, Eq, Structural)]
pub struct Pool {
    pub token_a_reserve: u64,
    pub token_b_reserve: u64,
    pub fee: u64,
    pub bump: u8,
}

impl Pool {
    /// Well-formedness: the fee never exceeds 10000 basis points (100%).
    /// Established by `initialize_pool` and preserved by every operation.
    pub open spec fn wf(self) -> bool {
        self.fee <= 10000
    }
}

/// The fee-adjusted input of a swap: the fee is retained on the way in, and
/// the division by 10000 truncates toward zero, in the pool's favour.
pub open spec fn spec_effective_in(amount_in: u64, fee: u64) -> int {
    amount_in * (10000 - fee) / 10000
}

/// The constant-product output for a swap of `amount_in` of asset A against
/// `pool`: `eff * reserveB / (reserveA + eff)`, truncating toward zero.
/// Meaningful only when `reserveA > 0`.
pub open spec fn spec_swap_out(pool: Pool, amount_in: u64) -> int {
    let eff: int = spec_effective_in(amount_in, pool.fee);
    eff * pool.token_b_reserve / (pool.token_a_reserve + eff)
}

/// What initialization decides: a fee above 10000 basis points is rejected,
/// anything else yields a fresh pool with empty reserves.
pub open spec fn spec_initialize_pool(fee: u64, bump: u8) -> Result<Pool, CustomError> {
    if fee > 10000 {
        Err(CustomError::InvalidFee)
    } else {
        Ok(Pool { token_a_reserve: 0, token_b_reserve: 0, fee, bump })
    }
}

/// What a deposit decides: both amounts must be strictly positive and both
/// grown reserves must fit in 64 bits; the pool then grows by exactly the
/// supplied amounts and nothing else changes.
pub open spec fn spec_add_liquidity(pool: Pool, amount_a: u64, amount_b: u64) -> Result<
    Pool,
    CustomError,
> {
    if amount_a == 0 || amount_b == 0 {
        Err(CustomError::InvalidLiquidityAmount)
    } else if pool.token_a_reserve + amount_a > u64::MAX {
        Err(CustomError::Overflow)
    } else if pool.token_b_reserve + amount_b > u64::MAX {
        Err(CustomError::Overflow)
    } else {
        Ok(
            Pool {
                token_a_reserve: (pool.token_a_reserve + amount_a) as u64,
                token_b_reserve: (pool.token_b_reserve + amount_b) as u64,
                fee: pool.fee,
                bump: pool.bump,
            },
        )
    }
}

/// The committed result of a successful swap: the amount of asset B paid out
/// and the two reserves as they stand after the trade.
#[derive(Clone, Copy, Debug, PartialEq, Eq, Structural)]
pub struct SwapOutcome {
    pub amount_out: u64,
    pub new_reserve_a: u64,
    pub new_reserve_b: u64,
}

/// What a swap decides, checks in order: a zero input is rejected; an empty
/// pool cannot price a trade; the fee-adjusted input, the output numerator
/// and the output denominator must each fit in 64 bits; the output must be
/// positive and within the reserve of asset B; and the grown reserve of
/// asset A must fit in 64 bits. Only then does the trade commit.
pub open spec fn spec_swap(pool: Pool, amount_in: u64) -> Result<SwapOutcome, CustomError> {
    let eff: int = spec_effective_in(amount_in, pool.fee);
    let out: int = spec_swap_out(pool, amount_in);
    if amount_in == 0 {
        Err(CustomError::InvalidSwapAmount)
    } else if pool.token_a_reserve == 0 || pool.token_b_reserve == 0 {
        Err(CustomError::InsufficientLiquidity)
    } else if amount_in * (10000 - pool.fee) > u64::MAX {
        Err(CustomError::Overflow)
    } else if eff * pool.token_b_reserve > u64::MAX {
        Err(CustomError::Overflow)
    } else if pool.token_a_reserve + eff > u64::MAX {
        Err(CustomError::Overflow)
    } else if out == 0 || out > pool.token_b_reserve {
        Err(CustomError::InsufficientOutput)
    } else if pool.token_a_reserve + amount_in > u64::MAX {
        Err(CustomError::Overflow)
    } else {
        Ok(
            SwapOutcome {
                amount_out: out as u64,
                new_reserve_a: (pool.token_a_reserve + amount_in) as u64,
                new_reserve_b: (pool.token_b_reserve - out) as u64,
            },
        )
    }
}

/// Creates a fresh pool: validates the fee, starts both reserves at zero and
/// stores the bump seed.
pub fn initialize_pool(fee: u64, bump: u8) -> (r: Result<Pool, CustomError>)
    ensures
        r == spec_initialize_pool(fee, bump),
        r is Ok <==> fee <= 10000,
        r is Ok ==> r->Ok_0 == (Pool { token_a_reserve: 0, token_b_reserve: 0, fee, bump })
            && r->Ok_0.wf(),
        r is Err ==> r->Err_0 == CustomError::InvalidFee,
{
    if fee > 10000 {
        return Err(CustomError::InvalidFee);
    }
    Ok(Pool { token_a_reserve: 0, token_b_reserve: 0, fee, bump })
}

impl Pool {
    /// Validation phase of a deposit: decides `spec_add_liquidity` without
    /// touching the pool and, on success, returns the grown reserves. A host
    /// performs its two asset transfers only after this succeeds, then calls
    /// `commit_add_liquidity`.
    pub fn validate_add_liquidity(&self, amount_a: u64, amount_b: u64) -> (r: Result<
        (u64, u64),
        CustomError,
    >)
        ensures
            (match spec_add_liquidity(*self, amount_a, amount_b) {
                Ok(p) => r == Ok::<(u64, u64), CustomError>(
                    (p.token_a_reserve, p.token_b_reserve),
                ),
                Err(e) => r == Err::<(u64, u64), CustomError>(e),
            }),
    {
        if amount_a == 0 || amount_b == 0 {
            return Err(CustomError::InvalidLiquidityAmount);
        }
        let new_a: u64 = match self.token_a_reserve.checked_add(amount_a) {
            Some(v) => v,
            None => {
                return Err(CustomError::Overflow);
            },
        };
        let new_b: u64 = match self.token_b_reserve.checked_add(amount_b) {
            Some(v) => v,
            None => {
                return Err(CustomError::Overflow);
            },
        };
        Ok((new_a, new_b))
    }

    /// Commit phase of a deposit: applies the already-validated growth. Both
    /// reserves grow by exactly the supplied amounts; fee and bump are
    /// untouched.
    pub fn commit_add_liquidity(&mut self, amount_a: u64, amount_b: u64)
        requires
            spec_add_liquidity(*old(self), amount_a, amount_b) is Ok,
        ensures
            *final(self) == spec_add_liquidity(*old(self), amount_a, amount_b)->Ok_0,
            final(self).token_a_reserve == old(self).token_a_reserve + amount_a,
            final(self).token_b_reserve == old(self).token_b_reserve + amount_b,
            final(self).fee == old(self).fee,
            final(self).bump == old(self).bump,
    {
        self.token_a_reserve = self.token_a_reserve + amount_a;
        self.token_b_reserve = self.token_b_reserve + amount_b;
    }

    /// A deposit as one atomic step: validate, then commit. On any failure
    /// the pool is bit-for-bit unchanged; on success both reserves strictly
    /// grow by exactly the supplied amounts and nothing else changes.
    pub fn add_liquidity(&mut self, amount_a: u64, amount_b: u64) -> (r: Result<(), CustomError>)
        ensures
            (match spec_add_liquidity(*old(self), amount_a, amount_b) {
                Ok(p) => r is Ok && *final(self) == p,
                Err(e) => r == Err::<(), CustomError>(e) && *final(self) == *old(self),
            }),
            r is Ok ==> final(self).token_a_reserve == old(self).token_a_reserve + amount_a
                && final(self).token_a_reserve > old(self).token_a_reserve,
            r is Ok ==> final(self).token_b_reserve == old(self).token_b_reserve + amount_b
                && final(self).token_b_reserve > old(self).token_b_reserve,
            final(self).fee == old(self).fee,
            final(self).bump == old(self).bump,
    {
        match self.validate_add_liquidity(amount_a, amount_b) {
            Ok(_) => {
                self.commit_add_liquidity(amount_a, amount_b);
                Ok(())
            },
            Err(e) => Err(e),
        }
    }

    /// Validation and pricing phase of a swap: decides `spec_swap` without
    /// touching the pool. All arithmetic is checked here, before any
    /// transfer: a host moves `amount_in` of asset A in and
    /// `r.amount_out` of asset B out only after this succeeds, then calls
    /// `commit_swap`.
    pub fn compute_swap(&self, amount_in: u64) -> (r: Result<SwapOutcome, CustomError>)
        requires
            self.wf(),
        ensures
            r == spec_swap(*self, amount_in),
    {
        if amount_in == 0 {
            return Err(CustomError::InvalidSwapAmount);
        }
        if self.token_a_reserve == 0 || self.token_b_reserve == 0 {
            return Err(CustomError::InsufficientLiquidity);
        }
        let scaled: u64 = match amount_in.checked_mul(10000 - self.fee) {
            Some(v) => v,
            None => {
                return Err(CustomError::Overflow);
            },
        };
        let amount_in_with_fee: u64 = scaled / 10000;
        let numerator: u64 = match amount_in_with_fee.checked_mul(self.token_b_reserve) {
            Some(v) => v,
            None => {
                return Err(CustomError::Overflow);
            },
        };
        let denominator: u64 = match self.token_a_reserve.checked_add(amount_in_with_fee) {
            Some(v) => v,
            None => {
                return Err(CustomError::Overflow);
            },
        };
        let amount_out: u64 = numerator / denominator;
        if amount_out == 0 || amount_out > self.token_b_reserve {
            return Err(CustomError::InsufficientOutput);
        }
        let new_reserve_a: u64 = match self.token_a_reserve.checked_add(amount_in) {
            Some(v) => v,
            None => {
                return Err(CustomError::Overflow);
            },
        };
        let new_reserve_b: u64 = match self.token_b_reserve.checked_sub(amount_out) {
            Some(v) => v,
            None => {
                return Err(CustomError::Underflow);
            },
        };
        Ok(SwapOutcome { amount_out, new_reserve_a, new_reserve_b })
    }

    /// Commit phase of a swap: applies an outcome that `compute_swap` (that
    /// is, `spec_swap`) produced for this very pool state. The reserve of
    /// asset A grows by the input, the reserve of asset B shrinks by the
    /// output; fee and bump are untouched.
    pub fn commit_swap(&mut self, amount_in: u64, outcome: SwapOutcome)
        requires
            old(self).wf(),
            spec_swap(*old(self), amount_in) == Ok::<SwapOutcome, CustomError>(outcome),
        ensures
            final(self).wf(),
            final(self).token_a_reserve == outcome.new_reserve_a,
            final(self).token_b_reserve == outcome.new_reserve_b,
            final(self).token_a_reserve == old(self).token_a_reserve + amount_in,
            final(self).token_b_reserve == old(self).token_b_reserve - outcome.amount_out,
            final(self).fee == old(self).fee,
            final(self).bump == old(self).bump,
    {
        self.token_a_reserve = outcome.new_reserve_a;
        self.token_b_reserve = outcome.new_reserve_b;
    }

    /// A swap as one atomic step: validate and price, then commit. On any
    /// failure the pool is bit-for-bit unchanged; on success the reserves
    /// move exactly as the returned outcome says and nothing else changes.
    pub fn swap(&mut self, amount_in: u64) -> (r: Result<SwapOutcome, CustomError>)
        requires
            old(self).wf(),
        ensures
            final(self).wf(),
            r == spec_swap(*old(self), amount_in),
            (match spec_swap(*old(self), amount_in) {
                Ok(o) => final(self).token_a_reserve == o.new_reserve_a
                    && final(self).token_b_reserve == o.new_reserve_b
                    && final(self).token_a_reserve == old(self).token_a_reserve + amount_in
                    && final(self).token_b_reserve == old(self).token_b_reserve - o.amount_out,
                Err(_) => *final(self) == *old(self),
            }),
            final(self).fee == old(self).fee,
            final(self).bump == old(self).bump,
    {
        match self.compute_swap(amount_in) {
            Ok(o) => {
                self.commit_swap(amount_in, o);
                Ok(o)
            },
            Err(e) => Err(e),
        }
    }
}

/// Constant-product law: a swap that succeeds never decreases the product of
/// the two reserves — the retained fee and the truncating divisions always
/// fall in the pool's favour. Applied after each swap of a sequence, this
/// makes the product non-decreasing across the whole sequence. With a zero
/// fee the product is preserved up to the integer-rounding loss, which stays
/// below the grown reserve of asset A.
pub proof fn lemma_swap_product_nondecreasing(pool: Pool, amount_in: u64, outcome: SwapOutcome)
    requires
        pool.wf(),
        spec_swap(pool, amount_in) == Ok::<SwapOutcome, CustomError>(outcome),
    ensures
        outcome.new_reserve_a * outcome.new_reserve_b >= pool.token_a_reserve
            * pool.token_b_reserve,
        pool.fee == 0 ==> outcome.new_reserve_a * outcome.new_reserve_b < pool.token_a_reserve
            * pool.token_b_reserve + outcome.new_reserve_a,
{
    let ra: int = pool.token_a_reserve as int;
    let rb: int = pool.token_b_reserve as int;
    let fee: int = pool.fee as int;
    let ain: int = amount_in as int;
    let eff: int = spec_effective_in(amount_in, pool.fee);
    let out: int = spec_swap_out(pool, amount_in);

    assert(ain > 0 && ra > 0 && rb > 0 && 0 < out <= rb);
    assert(outcome.new_reserve_a == ra + ain && outcome.new_reserve_b == rb - out);

    // The fee is retained and the division truncates: 0 <= eff <= ain.
    assert(0 <= ain * (10000 - fee)) by (nonlinear_arith)
        requires
            0 < ain,
            0 <= fee <= 10000,
    ;
    lemma_div_pos_is_pos(ain * (10000 - fee), 10000);
    assert(ain * (10000 - fee) <= ain * 10000) by (nonlinear_arith)
        requires
            0 < ain,
            0 <= fee,
    ;
    lemma_div_is_ordered(ain * (10000 - fee), ain * 10000, 10000);
    lemma_div_by_multiple(ain, 10000);
    assert(0 <= eff <= ain);

    // The truncating output division, made exact through its remainder:
    // eff * rb == (ra + eff) * out + rem with 0 <= rem < ra + eff.
    lemma_fundamental_div_mod(eff * rb, ra + eff);
    lemma_mod_bound(eff * rb, ra + eff);
    let rem: int = (eff * rb) % (ra + eff);
    assert(eff * rb == (ra + eff) * out + rem);

    assert((ra + ain) * (rb - out) >= ra * rb) by (nonlinear_arith)
        requires
            0 <= eff <= ain,
            0 < out <= rb,
            0 < ra,
            eff * rb == (ra + eff) * out + rem,
            0 <= rem,
    ;

    if fee == 0 {
        assert(eff == ain);
        assert((ra + ain) * (rb - out) < ra * rb + (ra + ain)) by (nonlinear_arith)
            requires
                eff == ain,
                0 < out <= rb,
                0 < ra,
                eff * rb == (ra + eff) * out + rem,
                rem < ra + eff,
        ;
    }
}

/// Overflow law: a swap whose committed reserve of asset A would exceed the
/// largest 64-bit value cannot succeed — `spec_swap` yields an error, and by
/// `swap`'s contract the reserves are then bit-for-bit unchanged. When every
/// earlier check passes, so that the commit check is the one that decides,
/// the reported error is `Overflow`.
pub proof fn lemma_swap_reserve_overflow(pool: Pool, amount_in: u64)
    requires
        pool.wf(),
        pool.token_a_reserve + amount_in > u64::MAX,
    ensures
        spec_swap(pool, amount_in) is Err,
        (pool.token_b_reserve > 0 && amount_in * (10000 - pool.fee) <= u64::MAX
            && spec_effective_in(amount_in, pool.fee) * pool.token_b_reserve <= u64::MAX
            && pool.token_a_reserve + spec_effective_in(amount_in, pool.fee) <= u64::MAX && 0
            < spec_swap_out(pool, amount_in) <= pool.token_b_reserve) ==> spec_swap(
            pool,
            amount_in,
        ) == Err::<SwapOutcome, CustomError>(CustomError::Overflow),
{
}

/// Liquidity monotonicity law: a deposit that succeeds grows each reserve by
/// exactly the supplied amount — hence strictly — and leaves every other
/// field of the pool unchanged.
pub proof fn lemma_add_liquidity_monotone(pool: Pool, amount_a: u64, amount_b: u64, new_pool: Pool)
    requires
        spec_add_liquidity(pool, amount_a, amount_b) == Ok::<Pool, CustomError>(new_pool),
    ensures
        new_pool.token_a_reserve == pool.token_a_reserve + amount_a,
        new_pool.token_a_reserve > pool.token_a_reserve,
        new_pool.token_b_reserve == pool.token_b_reserve + amount_b,
        new_pool.token_b_reserve > pool.token_b_reserve,
        new_pool.fee == pool.fee,
        new_pool.bump == pool.bump,
{
}

} // verus!
