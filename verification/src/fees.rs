//! Fixed-point arithmetic for fees and interest.
//!
//! Rates are in basis points: one hundredth of a percent, so 10000 is the
//! whole. Every quotient is rounded down. The mathematical definitions are
//! over unbounded integers; the executable functions compute them in 128 bits
//! and return them in 64.

use vstd::prelude::*;
use crate::state::ProtocolConfig;

verus! {

/// Basis points that make up the whole.
pub const BPS_DENOMINATOR: u64 = 10_000;

/// Seconds in the 365-day year that interest rates refer to.
pub const SECONDS_PER_YEAR: u64 = 31_536_000;

/// Whether a rate in basis points is at most the whole.
pub open spec fn valid_bps(bps: u16) -> bool {
    bps <= BPS_DENOMINATOR
}

/// The part of `amount` that `bps` basis points stand for, rounded down.
pub open spec fn bps_share(amount: int, bps: int) -> int {
    amount * bps / (BPS_DENOMINATOR as int)
}

/// Simple interest on `principal` at `rate_bps` per year over `elapsed`
/// seconds, rounded down. The divisor is the whole in basis points times the
/// seconds in a year.
pub open spec fn interest_due(principal: int, rate_bps: int, elapsed: int) -> int {
    principal * rate_bps * elapsed / (10_000int * 31_536_000int)
}

/// A share of at most the whole is at most the amount, and never negative.
pub proof fn lemma_bps_share_bounds(amount: int, bps: int)
    requires
        0 <= amount,
        0 <= bps <= 10_000,
    ensures
        0 <= bps_share(amount, bps) <= amount,
{
    assert(0 <= amount * bps <= amount * 10_000) by (nonlinear_arith)
        requires
            0 <= amount,
            0 <= bps <= 10_000,
    ;
}

/// Interest that fits in 64 bits comes from a product that fits in 128.
pub proof fn lemma_interest_product_fits(principal: int, rate_bps: int, elapsed: int)
    requires
        0 <= principal,
        0 <= rate_bps,
        0 <= elapsed,
        interest_due(principal, rate_bps, elapsed) <= u64::MAX,
    ensures
        0 <= principal * rate_bps * elapsed <= u128::MAX,
{
    let product = principal * rate_bps * elapsed;
    assert(0 <= principal * rate_bps) by (nonlinear_arith)
        requires
            0 <= principal,
            0 <= rate_bps,
    ;
    assert(0 <= product) by (nonlinear_arith)
        requires
            product == principal * rate_bps * elapsed,
            0 <= principal * rate_bps,
            0 <= elapsed,
    ;
}

/// Whether a rate in basis points is at most the whole.
pub fn is_valid_bps(bps: u16) -> (valid: bool)
    ensures
        valid == valid_bps(bps),
{
    bps as u64 <= BPS_DENOMINATOR
}

/// The part of `amount` that `bps` basis points stand for, rounded down.
pub fn share_of(amount: u64, bps: u16) -> (share: u64)
    requires
        valid_bps(bps),
    ensures
        share == bps_share(amount as int, bps as int),
        share <= amount,
{
    proof {
        lemma_bps_share_bounds(amount as int, bps as int);
        assert(amount * bps <= u128::MAX) by (nonlinear_arith)
            requires
                amount <= u64::MAX,
                bps <= 10_000,
        ;
    }
    let product: u128 = (amount as u128) * (bps as u128);
    let share: u128 = product / (BPS_DENOMINATOR as u128);
    share as u64
}

/// Simple interest on `principal` at `rate_bps` per year over
/// `elapsed_seconds`, rounded down.
pub fn calculate_interest(principal: u64, rate_bps: u16, elapsed_seconds: u64) -> (interest: u64)
    requires
        interest_due(principal as int, rate_bps as int, elapsed_seconds as int) <= u64::MAX,
    ensures
        interest == interest_due(principal as int, rate_bps as int, elapsed_seconds as int),
{
    proof {
        lemma_interest_product_fits(principal as int, rate_bps as int, elapsed_seconds as int);
        assert(principal * rate_bps <= u128::MAX) by (nonlinear_arith)
            requires
                principal <= u64::MAX,
                rate_bps <= u16::MAX,
        ;
    }
    let annual: u128 = (principal as u128) * (rate_bps as u128);
    let product: u128 = annual * (elapsed_seconds as u128);
    let year_of_bps: u128 = (BPS_DENOMINATOR as u128) * (SECONDS_PER_YEAR as u128);
    let interest: u128 = product / year_of_bps;
    interest as u64
}

/// Simple interest as [`calculate_interest`] gives it, or nothing where it
/// does not fit in 64 bits.
pub fn checked_interest(
    principal: u64,
    rate_bps: u16,
    elapsed_seconds: u64,
) -> (interest: Option<u64>)
    ensures
        interest is Some <==> interest_due(
            principal as int,
            rate_bps as int,
            elapsed_seconds as int,
        ) <= u64::MAX,
        interest matches Some(due) ==> due == interest_due(
            principal as int,
            rate_bps as int,
            elapsed_seconds as int,
        ),
{
    proof {
        assert(0 <= principal * rate_bps <= u128::MAX) by (nonlinear_arith)
            requires
                0 <= principal <= u64::MAX,
                0 <= rate_bps <= u16::MAX,
        ;
    }
    let annual: u128 = (principal as u128) * (rate_bps as u128);
    proof {
        assert(0 <= annual * elapsed_seconds) by (nonlinear_arith)
            requires
                0 <= annual,
                0 <= elapsed_seconds,
        ;
    }
    match annual.checked_mul(elapsed_seconds as u128) {
        Some(product) => {
            let year_of_bps: u128 = (BPS_DENOMINATOR as u128) * (SECONDS_PER_YEAR as u128);
            let interest: u128 = product / year_of_bps;
            if interest <= u64::MAX as u128 {
                Some(interest as u64)
            } else {
                None
            }
        },
        None => None,
    }
}

/// The yield tally after `amount` is credited to depositors: it grows by
/// `amount` if there are deposits to credit, and stays as it is otherwise.
pub open spec fn yield_after(config: ProtocolConfig, amount: u64) -> int {
    if config.total_deposits > 0 && amount > 0 {
        config.total_yield_distributed + amount
    } else {
        config.total_yield_distributed as int
    }
}

/// The configuration after `amount` is credited to depositors.
pub open spec fn with_yield(config: ProtocolConfig, amount: u64) -> ProtocolConfig {
    ProtocolConfig { total_yield_distributed: yield_after(config, amount) as u64, ..config }
}

/// Credits `amount` to depositors. This only adds to the tally of yield; no
/// depositor's share changes.
pub fn distribute_yield(config: &mut ProtocolConfig, amount: u64)
    requires
        yield_after(*old(config), amount) <= u64::MAX,
    ensures
        *final(config) == with_yield(*old(config), amount),
{
    if config.total_deposits > 0 && amount > 0 {
        config.total_yield_distributed = config.total_yield_distributed + amount;
    }
}

/// Whether crediting `amount` to depositors keeps the yield tally within 64
/// bits.
pub fn yield_fits(config: &ProtocolConfig, amount: u64) -> (fits: bool)
    ensures
        fits == (yield_after(*config, amount) <= u64::MAX),
{
    if config.total_deposits > 0 && amount > 0 {
        config.total_yield_distributed.checked_add(amount).is_some()
    } else {
        true
    }
}

} // verus!
