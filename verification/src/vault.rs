//! Deposits into the vault and withdrawals from it.
//!
//! A depositor's share is one for one with what was deposited. What can be
//! withdrawn is bounded twice: by the depositor's share, and by what the
//! pool has not lent out.

use vstd::prelude::*;
use crate::contexts::{Deposit, Withdraw};
use crate::errors::ErrorCode;
use crate::events::{DepositOutcome, Deposited, Transfer, WithdrawOutcome, Withdrawn};
use crate::state::{DepositorRecord, ProtocolConfig};

verus! {

/// Why a deposit is turned away, if it is.
pub open spec fn deposit_rejection(ctx: Deposit, amount: u64) -> Option<ErrorCode> {
    if ctx.protocol_config.is_paused {
        Some(ErrorCode::ProtocolPaused)
    } else if amount == 0 {
        Some(ErrorCode::InvalidAmount)
    } else {
        None
    }
}

/// Whether a deposit of `amount` stays within what the counters can hold.
pub open spec fn deposit_fits(ctx: Deposit, amount: u64) -> bool {
    &&& ctx.depositor_record.deposited_amount + amount <= u64::MAX
    &&& ctx.depositor_record.share_amount + amount <= u64::MAX
    &&& ctx.protocol_config.total_deposits + amount <= u64::MAX
}

/// The context after a deposit of `amount` at time `now`.
pub open spec fn deposit_applied(ctx: Deposit, amount: u64, now: i64) -> Deposit {
    Deposit {
        depositor_record: DepositorRecord {
            owner: ctx.depositor,
            deposited_amount: (ctx.depositor_record.deposited_amount + amount) as u64,
            share_amount: (ctx.depositor_record.share_amount + amount) as u64,
            last_update_ts: now,
        },
        protocol_config: ProtocolConfig {
            total_deposits: (ctx.protocol_config.total_deposits + amount) as u64,
            ..ctx.protocol_config
        },
        ..ctx
    }
}

/// What a deposit of `amount` asks of the host.
pub open spec fn deposit_outcome(ctx: Deposit, amount: u64) -> DepositOutcome {
    DepositOutcome {
        transfer: Transfer { from: ctx.depositor, to: ctx.vault, amount },
        event: Deposited {
            depositor: ctx.depositor,
            amount,
            total_deposits: (ctx.protocol_config.total_deposits + amount) as u64,
        },
    }
}

/// A deposit as a whole: the context afterwards, and the result.
pub open spec fn deposit_spec(
    ctx: Deposit,
    amount: u64,
    now: i64,
) -> (Deposit, Result<DepositOutcome, ErrorCode>) {
    match deposit_rejection(ctx, amount) {
        Some(e) => (ctx, Err(e)),
        None => (deposit_applied(ctx, amount, now), Ok(deposit_outcome(ctx, amount))),
    }
}

/// Whether [`deposit`] may be called: a deposit of `amount`, if it is not
/// turned away, stays within what the counters can hold.
pub fn deposit_within_limits(ctx: &Deposit, amount: u64) -> (ok: bool)
    ensures
        ok == (deposit_rejection(*ctx, amount) is None ==> deposit_fits(*ctx, amount)),
{
    if ctx.protocol_config.is_paused || amount == 0 {
        return true;
    }
    ctx.depositor_record.deposited_amount.checked_add(amount).is_some()
        && ctx.depositor_record.share_amount.checked_add(amount).is_some()
        && ctx.protocol_config.total_deposits.checked_add(amount).is_some()
}

/// Deposits `amount` into the vault. The protocol must not be paused and the
/// amount must be positive. The depositor's record, which becomes the
/// caller's own, and the pool's deposits grow by `amount`.
pub fn deposit(
    ctx: &mut Deposit,
    amount: u64,
    now: i64,
) -> (result: Result<DepositOutcome, ErrorCode>)
    requires
        deposit_rejection(*old(ctx), amount) is None ==> deposit_fits(*old(ctx), amount),
    ensures
        *final(ctx) == deposit_spec(*old(ctx), amount, now).0,
        result == deposit_spec(*old(ctx), amount, now).1,
        result is Err ==> *final(ctx) == *old(ctx),
        old(ctx).protocol_config.solvent() ==> final(ctx).protocol_config.solvent(),
        final(ctx).protocol_config.total_loans_outstanding
            == old(ctx).protocol_config.total_loans_outstanding,
        old(ctx).wf() ==> final(ctx).wf(),
{
    if ctx.protocol_config.is_paused {
        return Err(ErrorCode::ProtocolPaused);
    }
    if amount == 0 {
        return Err(ErrorCode::InvalidAmount);
    }
    ctx.depositor_record.owner = ctx.depositor;
    ctx.depositor_record.deposited_amount = ctx.depositor_record.deposited_amount + amount;
    ctx.depositor_record.share_amount = ctx.depositor_record.share_amount + amount;
    ctx.depositor_record.last_update_ts = now;

    ctx.protocol_config.total_deposits = ctx.protocol_config.total_deposits + amount;

    Ok(
        DepositOutcome {
            transfer: Transfer { from: ctx.depositor, to: ctx.vault, amount },
            event: Deposited {
                depositor: ctx.depositor,
                amount,
                total_deposits: ctx.protocol_config.total_deposits,
            },
        },
    )
}

/// Why a withdrawal is turned away, if it is.
pub open spec fn withdraw_rejection(ctx: Withdraw, amount: u64) -> Option<ErrorCode> {
    if ctx.depositor_record.owner != ctx.depositor {
        Some(ErrorCode::UnauthorizedDepositor)
    } else if ctx.protocol_config.is_paused {
        Some(ErrorCode::ProtocolPaused)
    } else if amount > ctx.depositor_record.share_amount {
        Some(ErrorCode::InsufficientBalance)
    } else if amount > ctx.protocol_config.available() {
        Some(ErrorCode::InsufficientLiquidity)
    } else {
        None
    }
}

/// `balance` less `amount`, and zero where that would fall below zero.
pub open spec fn floored_sub(balance: u64, amount: u64) -> u64 {
    if balance >= amount {
        (balance - amount) as u64
    } else {
        0
    }
}

/// The context after a withdrawal of `amount` at time `now`.
pub open spec fn withdraw_applied(ctx: Withdraw, amount: u64, now: i64) -> Withdraw {
    Withdraw {
        depositor_record: DepositorRecord {
            deposited_amount: floored_sub(ctx.depositor_record.deposited_amount, amount),
            share_amount: floored_sub(ctx.depositor_record.share_amount, amount),
            last_update_ts: now,
            ..ctx.depositor_record
        },
        protocol_config: ProtocolConfig {
            total_deposits: (ctx.protocol_config.total_deposits - amount) as u64,
            ..ctx.protocol_config
        },
        ..ctx
    }
}

/// What a withdrawal of `amount` asks of the host.
pub open spec fn withdraw_outcome(ctx: Withdraw, amount: u64) -> WithdrawOutcome {
    WithdrawOutcome {
        transfer: Transfer { from: ctx.vault, to: ctx.depositor, amount },
        event: Withdrawn {
            depositor: ctx.depositor,
            amount,
            remaining_balance: floored_sub(ctx.depositor_record.share_amount, amount),
        },
    }
}

/// A withdrawal as a whole: the context afterwards, and the result.
pub open spec fn withdraw_spec(
    ctx: Withdraw,
    amount: u64,
    now: i64,
) -> (Withdraw, Result<WithdrawOutcome, ErrorCode>) {
    match withdraw_rejection(ctx, amount) {
        Some(e) => (ctx, Err(e)),
        None => (withdraw_applied(ctx, amount, now), Ok(withdraw_outcome(ctx, amount))),
    }
}

/// Withdraws `amount` from the vault. Only the owner of the record may do
/// so, and not while the protocol is paused. The amount must be at most the
/// depositor's share and at most the available liquidity. The depositor's
/// record and the pool's deposits shrink by `amount`.
pub fn withdraw(
    ctx: &mut Withdraw,
    amount: u64,
    now: i64,
) -> (result: Result<WithdrawOutcome, ErrorCode>)
    ensures
        *final(ctx) == withdraw_spec(*old(ctx), amount, now).0,
        result == withdraw_spec(*old(ctx), amount, now).1,
        result is Err ==> *final(ctx) == *old(ctx),
        old(ctx).protocol_config.solvent() ==> final(ctx).protocol_config.solvent(),
        final(ctx).protocol_config.total_loans_outstanding
            == old(ctx).protocol_config.total_loans_outstanding,
        old(ctx).wf() ==> final(ctx).wf(),
{
    if ctx.depositor_record.owner != ctx.depositor {
        return Err(ErrorCode::UnauthorizedDepositor);
    }
    if ctx.protocol_config.is_paused {
        return Err(ErrorCode::ProtocolPaused);
    }
    if amount > ctx.depositor_record.share_amount {
        return Err(ErrorCode::InsufficientBalance);
    }
    let available: u64 = ctx.protocol_config.available_liquidity();
    if amount > available {
        return Err(ErrorCode::InsufficientLiquidity);
    }
    ctx.depositor_record.share_amount = ctx.depositor_record.share_amount.saturating_sub(amount);
    ctx.depositor_record.deposited_amount = ctx.depositor_record.deposited_amount.saturating_sub(
        amount,
    );
    ctx.depositor_record.last_update_ts = now;

    ctx.protocol_config.total_deposits = ctx.protocol_config.total_deposits - amount;

    Ok(
        WithdrawOutcome {
            transfer: Transfer { from: ctx.vault, to: ctx.depositor, amount },
            event: Withdrawn {
                depositor: ctx.depositor,
                amount,
                remaining_balance: ctx.depositor_record.share_amount,
            },
        },
    )
}

} // verus!
