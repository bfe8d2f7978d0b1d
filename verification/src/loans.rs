//! The life of a loan: origination, binding of the deployed program,
//! repayment, recovery after expiry, and the bookkeeping that follows a
//! recovery.
//!
//! Each operation is stated as a function from the context before the call
//! to the context after it and the result. A rejection names the first
//! condition that fails, in the order in which its definition lists them.

use vstd::prelude::*;
use crate::contexts::{
    ReclaimProgramAuthority, RecoverLoan, RepayLoan, RequestLoan, ReturnReclaimedSol,
    SetDeployedProgram,
};
use crate::errors::ErrorCode;
use crate::events::{
    AuthorityHandover, AuthorityReclaimed, AuthorityTransferred, LoanDeployed, LoanRecovered,
    LoanRepaid, LoanRequestOutcome, LoanRequested, ReclaimOutcome, RecoverOutcome, RepayOutcome,
    SolReclaimed, Transfer,
};
use crate::fees::{
    bps_share, calculate_interest, checked_interest, distribute_yield, interest_due, is_valid_bps,
    share_of, valid_bps, with_yield, yield_after, yield_fits,
};
use crate::identity::Identity;
use crate::state::{books_cover, Loan, LoanState, ProtocolConfig};

verus! {

/// Why a request for a loan is turned away, if it is.
pub open spec fn request_loan_rejection(
    ctx: RequestLoan,
    principal: u64,
    duration: i64,
    interest_rate_bps: u16,
    admin_fee_bps: u16,
) -> Option<ErrorCode> {
    if ctx.protocol_config.is_paused {
        Some(ErrorCode::ProtocolPaused)
    } else if principal == 0 {
        Some(ErrorCode::InvalidAmount)
    } else if duration <= 0 {
        Some(ErrorCode::InvalidDuration)
    } else if !valid_bps(interest_rate_bps) {
        Some(ErrorCode::InvalidInterestRate)
    } else if !valid_bps(admin_fee_bps) {
        Some(ErrorCode::InvalidAdminFee)
    } else if principal > ctx.protocol_config.available() {
        Some(ErrorCode::InsufficientLiquidity)
    } else {
        None
    }
}

/// The loan that a granted request creates.
pub open spec fn requested_loan(
    ctx: RequestLoan,
    loan_id: u64,
    principal: u64,
    duration: i64,
    interest_rate_bps: u16,
    admin_fee_bps: u16,
    now: i64,
) -> Loan {
    Loan {
        loan_id,
        borrower: ctx.borrower,
        program_pubkey: Identity::spec_unset(),
        principal,
        duration,
        interest_rate_bps,
        admin_fee_bps,
        admin_fee_paid: bps_share(principal as int, admin_fee_bps as int) as u64,
        start_ts: now,
        state: LoanState::Active,
        authority_pda: ctx.authority_pda,
        repaid_ts: None,
        recovered_ts: None,
        interest_paid: None,
        reclaimed_amount: None,
        reclaimed_ts: None,
    }
}

/// The context after a request is granted.
pub open spec fn request_loan_applied(
    ctx: RequestLoan,
    loan_id: u64,
    principal: u64,
    duration: i64,
    interest_rate_bps: u16,
    admin_fee_bps: u16,
    now: i64,
) -> RequestLoan {
    RequestLoan {
        loan: requested_loan(ctx, loan_id, principal, duration, interest_rate_bps, admin_fee_bps, now),
        protocol_config: ProtocolConfig {
            total_loans_outstanding: (ctx.protocol_config.total_loans_outstanding + principal) as u64,
            loan_counter: (ctx.protocol_config.loan_counter + 1) as u64,
            ..ctx.protocol_config
        },
        ..ctx
    }
}

/// What a granted request asks of the host.
pub open spec fn request_loan_outcome(
    ctx: RequestLoan,
    loan_id: u64,
    principal: u64,
    duration: i64,
    interest_rate_bps: u16,
    admin_fee_bps: u16,
) -> LoanRequestOutcome {
    let admin_fee = bps_share(principal as int, admin_fee_bps as int) as u64;
    LoanRequestOutcome {
        fee_transfer: if admin_fee > 0 {
            Some(Transfer { from: ctx.borrower, to: ctx.admin_pda, amount: admin_fee })
        } else {
            None
        },
        principal_transfer: Transfer { from: ctx.vault, to: ctx.deployer_pda, amount: principal },
        event: LoanRequested {
            borrower: ctx.borrower,
            loan_id,
            principal,
            duration,
            interest_rate_bps,
            admin_fee,
        },
    }
}

/// A request for a loan as a whole: the context afterwards, and the result.
pub open spec fn request_loan_spec(
    ctx: RequestLoan,
    loan_id: u64,
    principal: u64,
    duration: i64,
    interest_rate_bps: u16,
    admin_fee_bps: u16,
    now: i64,
) -> (RequestLoan, Result<LoanRequestOutcome, ErrorCode>) {
    match request_loan_rejection(ctx, principal, duration, interest_rate_bps, admin_fee_bps) {
        Some(e) => (ctx, Err(e)),
        None => (
            request_loan_applied(
                ctx,
                loan_id,
                principal,
                duration,
                interest_rate_bps,
                admin_fee_bps,
                now,
            ),
            Ok(
                request_loan_outcome(
                    ctx,
                    loan_id,
                    principal,
                    duration,
                    interest_rate_bps,
                    admin_fee_bps,
                ),
            ),
        ),
    }
}

/// Whether [`request_loan`] may be called: the request, if it is not turned
/// away, leaves room in the loan counter.
pub fn request_loan_within_limits(
    ctx: &RequestLoan,
    principal: u64,
    duration: i64,
    interest_rate_bps: u16,
    admin_fee_bps: u16,
) -> (ok: bool)
    ensures
        ok == (request_loan_rejection(*ctx, principal, duration, interest_rate_bps, admin_fee_bps)
            is None ==> ctx.protocol_config.loan_counter < u64::MAX),
{
    if ctx.protocol_config.is_paused || principal == 0 || duration <= 0 || !is_valid_bps(
        interest_rate_bps,
    ) || !is_valid_bps(admin_fee_bps) || principal > ctx.protocol_config.available_liquidity() {
        return true;
    }
    ctx.protocol_config.loan_counter < u64::MAX
}

/// Originates a loan of `principal` for `duration` seconds, starting at
/// `now`. The protocol must not be paused, principal and duration must be
/// positive, both rates at most the whole, and the principal at most the
/// available liquidity. The borrower pays the admin fee up front; the
/// principal goes from the vault to the deployer account and joins the
/// outstanding total.
pub fn request_loan(
    ctx: &mut RequestLoan,
    loan_id: u64,
    principal: u64,
    duration: i64,
    interest_rate_bps: u16,
    admin_fee_bps: u16,
    now: i64,
) -> (result: Result<LoanRequestOutcome, ErrorCode>)
    requires
        request_loan_rejection(*old(ctx), principal, duration, interest_rate_bps, admin_fee_bps)
            is None ==> old(ctx).protocol_config.loan_counter < u64::MAX,
    ensures
        *final(ctx) == request_loan_spec(
            *old(ctx),
            loan_id,
            principal,
            duration,
            interest_rate_bps,
            admin_fee_bps,
            now,
        ).0,
        result == request_loan_spec(
            *old(ctx),
            loan_id,
            principal,
            duration,
            interest_rate_bps,
            admin_fee_bps,
            now,
        ).1,
        result is Err ==> *final(ctx) == *old(ctx),
        old(ctx).protocol_config.solvent() ==> final(ctx).protocol_config.solvent(),
        !valid_bps(interest_rate_bps) || !valid_bps(admin_fee_bps) ==> result is Err,
        result is Ok ==> final(ctx).loan.wf(),
        old(ctx).wf() ==> final(ctx).wf(),
{
    if ctx.protocol_config.is_paused {
        return Err(ErrorCode::ProtocolPaused);
    }
    if principal == 0 {
        return Err(ErrorCode::InvalidAmount);
    }
    if duration <= 0 {
        return Err(ErrorCode::InvalidDuration);
    }
    if !is_valid_bps(interest_rate_bps) {
        return Err(ErrorCode::InvalidInterestRate);
    }
    if !is_valid_bps(admin_fee_bps) {
        return Err(ErrorCode::InvalidAdminFee);
    }
    let admin_fee: u64 = share_of(principal, admin_fee_bps);
    let available: u64 = ctx.protocol_config.available_liquidity();
    if principal > available {
        return Err(ErrorCode::InsufficientLiquidity);
    }
    let fee_transfer = if admin_fee > 0 {
        Some(Transfer { from: ctx.borrower, to: ctx.admin_pda, amount: admin_fee })
    } else {
        None
    };
    let principal_transfer = Transfer { from: ctx.vault, to: ctx.deployer_pda, amount: principal };

    ctx.loan = Loan {
        loan_id,
        borrower: ctx.borrower,
        program_pubkey: Identity::unset(),
        principal,
        duration,
        interest_rate_bps,
        admin_fee_bps,
        admin_fee_paid: admin_fee,
        start_ts: now,
        state: LoanState::Active,
        authority_pda: ctx.authority_pda,
        repaid_ts: None,
        recovered_ts: None,
        interest_paid: None,
        reclaimed_amount: None,
        reclaimed_ts: None,
    };

    ctx.protocol_config.total_loans_outstanding = ctx.protocol_config.total_loans_outstanding
        + principal;
    ctx.protocol_config.loan_counter = ctx.protocol_config.loan_counter + 1;

    Ok(
        LoanRequestOutcome {
            fee_transfer,
            principal_transfer,
            event: LoanRequested {
                borrower: ctx.borrower,
                loan_id,
                principal,
                duration,
                interest_rate_bps,
                admin_fee,
            },
        },
    )
}

/// Why a binding of a deployed program is turned away, if it is.
pub open spec fn set_deployed_program_rejection(
    ctx: SetDeployedProgram,
    loan_id: u64,
) -> Option<ErrorCode> {
    if ctx.admin != ctx.protocol_config.admin {
        Some(ErrorCode::Unauthorized)
    } else if ctx.loan.loan_id != loan_id {
        Some(ErrorCode::InvalidLoanId)
    } else if !ctx.loan.program_pubkey.is_unset() {
        Some(ErrorCode::ProgramAlreadySet)
    } else {
        None
    }
}

/// A binding of a deployed program as a whole: the context afterwards, and
/// the result.
pub open spec fn set_deployed_program_spec(
    ctx: SetDeployedProgram,
    loan_id: u64,
    program_pubkey: Identity,
) -> (SetDeployedProgram, Result<LoanDeployed, ErrorCode>) {
    match set_deployed_program_rejection(ctx, loan_id) {
        Some(e) => (ctx, Err(e)),
        None => (
            SetDeployedProgram { loan: Loan { program_pubkey, ..ctx.loan }, ..ctx },
            Ok(LoanDeployed { loan_id, program_pubkey }),
        ),
    }
}

/// Binds the program that was deployed with a loan's principal to the loan.
/// Only the admin may do so, for the loan that `loan_id` names, and only
/// while no program is bound to it. No funds move.
pub fn set_deployed_program(
    ctx: &mut SetDeployedProgram,
    loan_id: u64,
    program_pubkey: Identity,
) -> (result: Result<LoanDeployed, ErrorCode>)
    ensures
        *final(ctx) == set_deployed_program_spec(*old(ctx), loan_id, program_pubkey).0,
        result == set_deployed_program_spec(*old(ctx), loan_id, program_pubkey).1,
        result is Err ==> *final(ctx) == *old(ctx),
        final(ctx).protocol_config == old(ctx).protocol_config,
        old(ctx).wf() ==> final(ctx).wf(),
{
    if ctx.admin != ctx.protocol_config.admin {
        return Err(ErrorCode::Unauthorized);
    }
    if ctx.loan.loan_id != loan_id {
        return Err(ErrorCode::InvalidLoanId);
    }
    if !ctx.loan.program_pubkey.is_default() {
        return Err(ErrorCode::ProgramAlreadySet);
    }
    ctx.loan.program_pubkey = program_pubkey;
    Ok(LoanDeployed { loan_id, program_pubkey })
}

/// Why a repayment is turned away, if it is.
pub open spec fn repay_loan_rejection(ctx: RepayLoan) -> Option<ErrorCode> {
    if ctx.loan.borrower != ctx.borrower {
        Some(ErrorCode::UnauthorizedBorrower)
    } else if ctx.protocol_config.is_paused {
        Some(ErrorCode::ProtocolPaused)
    } else if ctx.loan.state != LoanState::Active {
        Some(ErrorCode::LoanNotActive)
    } else {
        None
    }
}

/// The interest that has accrued on a loan at time `now`.
pub open spec fn accrued_interest(loan: Loan, now: i64) -> int {
    interest_due(loan.principal as int, loan.interest_rate_bps as int, now - loan.start_ts)
}

/// Whether a repayment at time `now` stays within what the counters can
/// hold: time has not run backwards, principal and interest fit in 64 bits,
/// so does the yield tally, and the outstanding total accounts for the loan.
pub open spec fn repay_loan_fits(ctx: RepayLoan, now: i64) -> bool {
    &&& now >= ctx.loan.start_ts
    &&& ctx.loan.principal + accrued_interest(ctx.loan, now) <= u64::MAX
    &&& yield_after(ctx.protocol_config, accrued_interest(ctx.loan, now) as u64) <= u64::MAX
    &&& books_cover(ctx.protocol_config, ctx.loan)
}

/// The context after a repayment at time `now`.
pub open spec fn repay_loan_applied(ctx: RepayLoan, now: i64) -> RepayLoan {
    let interest = accrued_interest(ctx.loan, now) as u64;
    let credited = with_yield(ctx.protocol_config, interest);
    RepayLoan {
        loan: Loan {
            state: LoanState::Repaid,
            repaid_ts: Some(now),
            interest_paid: Some(interest),
            ..ctx.loan
        },
        protocol_config: ProtocolConfig {
            total_loans_outstanding: (credited.total_loans_outstanding - ctx.loan.principal) as u64,
            ..credited
        },
        ..ctx
    }
}

/// What a repayment at time `now` asks of the host.
pub open spec fn repay_loan_outcome(ctx: RepayLoan, now: i64) -> RepayOutcome {
    let interest = accrued_interest(ctx.loan, now) as u64;
    let total_due = (ctx.loan.principal + interest) as u64;
    let bound = !ctx.loan.program_pubkey.is_unset();
    RepayOutcome {
        transfer: Transfer { from: ctx.borrower, to: ctx.vault, amount: total_due },
        handover: if bound {
            Some(
                AuthorityHandover {
                    program: ctx.loan.program_pubkey,
                    from: ctx.authority_pda,
                    to: ctx.borrower,
                },
            )
        } else {
            None
        },
        handover_event: if bound {
            Some(
                AuthorityTransferred {
                    program_pubkey: ctx.loan.program_pubkey,
                    new_authority: ctx.borrower,
                },
            )
        } else {
            None
        },
        event: LoanRepaid { loan_id: ctx.loan.loan_id, total_repaid: total_due, interest_paid: interest },
    }
}

/// A repayment as a whole: the context afterwards, and the result.
pub open spec fn repay_loan_spec(
    ctx: RepayLoan,
    now: i64,
) -> (RepayLoan, Result<RepayOutcome, ErrorCode>) {
    match repay_loan_rejection(ctx) {
        Some(e) => (ctx, Err(e)),
        None => (repay_loan_applied(ctx, now), Ok(repay_loan_outcome(ctx, now))),
    }
}

/// Whether [`repay_loan`] may be called: a repayment at time `now`, if it
/// is not turned away, stays within what the counters can hold.
pub fn repay_loan_within_limits(ctx: &RepayLoan, now: i64) -> (ok: bool)
    ensures
        ok == (repay_loan_rejection(*ctx) is None ==> repay_loan_fits(*ctx, now)),
{
    if ctx.loan.borrower != ctx.borrower || ctx.protocol_config.is_paused || ctx.loan.state
        != LoanState::Active {
        return true;
    }
    if now < ctx.loan.start_ts || ctx.loan.principal
        > ctx.protocol_config.total_loans_outstanding {
        return false;
    }
    let elapsed: u64 = (now as i128 - ctx.loan.start_ts as i128) as u64;
    match checked_interest(ctx.loan.principal, ctx.loan.interest_rate_bps, elapsed) {
        Some(interest) => ctx.loan.principal.checked_add(interest).is_some() && yield_fits(
            &ctx.protocol_config,
            interest,
        ),
        None => false,
    }
}

/// Repays an active loan. Only its borrower may do so, and not while the
/// protocol is paused. The borrower owes the principal and the interest
/// accrued since the loan started; all of the interest is credited to
/// depositors. Control of the deployed program, if one is bound, passes to
/// the borrower. The loan becomes `Repaid` and its principal leaves the
/// outstanding total.
pub fn repay_loan(ctx: &mut RepayLoan, now: i64) -> (result: Result<RepayOutcome, ErrorCode>)
    requires
        repay_loan_rejection(*old(ctx)) is None ==> repay_loan_fits(*old(ctx), now),
    ensures
        *final(ctx) == repay_loan_spec(*old(ctx), now).0,
        result == repay_loan_spec(*old(ctx), now).1,
        result is Err ==> *final(ctx) == *old(ctx),
        old(ctx).protocol_config.solvent() ==> final(ctx).protocol_config.solvent(),
        old(ctx).wf() ==> final(ctx).wf(),
{
    if ctx.loan.borrower != ctx.borrower {
        return Err(ErrorCode::UnauthorizedBorrower);
    }
    if ctx.protocol_config.is_paused {
        return Err(ErrorCode::ProtocolPaused);
    }
    if ctx.loan.state != LoanState::Active {
        return Err(ErrorCode::LoanNotActive);
    }
    let elapsed: u64 = (now as i128 - ctx.loan.start_ts as i128) as u64;
    let interest: u64 = calculate_interest(ctx.loan.principal, ctx.loan.interest_rate_bps, elapsed);
    let total_due: u64 = ctx.loan.principal + interest;

    let transfer = Transfer { from: ctx.borrower, to: ctx.vault, amount: total_due };
    let bound: bool = !ctx.loan.program_pubkey.is_default();
    let handover = if bound {
        Some(
            AuthorityHandover {
                program: ctx.loan.program_pubkey,
                from: ctx.authority_pda,
                to: ctx.borrower,
            },
        )
    } else {
        None
    };
    let handover_event = if bound {
        Some(
            AuthorityTransferred {
                program_pubkey: ctx.loan.program_pubkey,
                new_authority: ctx.borrower,
            },
        )
    } else {
        None
    };

    distribute_yield(&mut ctx.protocol_config, interest);

    ctx.loan.state = LoanState::Repaid;
    ctx.loan.repaid_ts = Some(now);
    ctx.loan.interest_paid = Some(interest);

    ctx.protocol_config.total_loans_outstanding = ctx.protocol_config.total_loans_outstanding
        - ctx.loan.principal;

    Ok(
        RepayOutcome {
            transfer,
            handover,
            handover_event,
            event: LoanRepaid { loan_id: ctx.loan.loan_id, total_repaid: total_due, interest_paid: interest },
        },
    )
}

/// Why a recovery is turned away, if it is.
pub open spec fn recover_loan_rejection(ctx: RecoverLoan, now: i64) -> Option<ErrorCode> {
    if ctx.protocol_config.admin != ctx.admin {
        Some(ErrorCode::Unauthorized)
    } else if ctx.protocol_config.is_paused {
        Some(ErrorCode::ProtocolPaused)
    } else if ctx.loan.state != LoanState::Active {
        Some(ErrorCode::LoanNotActive)
    } else if !ctx.loan.expired_at(now) {
        Some(ErrorCode::LoanNotExpired)
    } else {
        None
    }
}

/// The depositors' part of a recovered loan's admin fee.
pub open spec fn depositor_share(ctx: RecoverLoan) -> int {
    bps_share(ctx.loan.admin_fee_paid as int, ctx.protocol_config.admin_fee_split_bps as int)
}

/// The treasury's part of a recovered loan's admin fee: what the depositors
/// do not get.
pub open spec fn treasury_share(ctx: RecoverLoan) -> int {
    ctx.loan.admin_fee_paid - depositor_share(ctx)
}

/// Whether a recovery stays within what the counters can hold: the split
/// is at most the whole, the yield tally has room for the depositors' part,
/// and the outstanding total accounts for the loan.
pub open spec fn recover_loan_fits(ctx: RecoverLoan) -> bool {
    &&& valid_bps(ctx.protocol_config.admin_fee_split_bps)
    &&& yield_after(ctx.protocol_config, depositor_share(ctx) as u64) <= u64::MAX
    &&& books_cover(ctx.protocol_config, ctx.loan)
}

/// The context after a recovery at time `now`.
pub open spec fn recover_loan_applied(ctx: RecoverLoan, now: i64) -> RecoverLoan {
    let credited = with_yield(ctx.protocol_config, depositor_share(ctx) as u64);
    RecoverLoan {
        loan: Loan { state: LoanState::Recovered, recovered_ts: Some(now), ..ctx.loan },
        protocol_config: ProtocolConfig {
            total_loans_outstanding: (credited.total_loans_outstanding - ctx.loan.principal) as u64,
            ..credited
        },
        ..ctx
    }
}

/// What a recovery asks of the host.
pub open spec fn recover_loan_outcome(ctx: RecoverLoan) -> RecoverOutcome {
    RecoverOutcome {
        treasury_transfer: if treasury_share(ctx) > 0 {
            Some(
                Transfer {
                    from: ctx.admin_pda,
                    to: ctx.treasury,
                    amount: treasury_share(ctx) as u64,
                },
            )
        } else {
            None
        },
        event: LoanRecovered {
            loan_id: ctx.loan.loan_id,
            admin_fee_distributed: ctx.loan.admin_fee_paid,
            depositor_share: depositor_share(ctx) as u64,
            treasury_share: treasury_share(ctx) as u64,
        },
    }
}

/// A recovery as a whole: the context afterwards, and the result.
pub open spec fn recover_loan_spec(
    ctx: RecoverLoan,
    now: i64,
) -> (RecoverLoan, Result<RecoverOutcome, ErrorCode>) {
    match recover_loan_rejection(ctx, now) {
        Some(e) => (ctx, Err(e)),
        None => (recover_loan_applied(ctx, now), Ok(recover_loan_outcome(ctx))),
    }
}

/// Whether [`recover_loan`] may be called: a recovery at time `now`, if it
/// is not turned away, stays within what the counters can hold.
pub fn recover_loan_within_limits(ctx: &RecoverLoan, now: i64) -> (ok: bool)
    ensures
        ok == (recover_loan_rejection(*ctx, now) is None ==> recover_loan_fits(*ctx)),
{
    if ctx.protocol_config.admin != ctx.admin || ctx.protocol_config.is_paused || ctx.loan.state
        != LoanState::Active || !ctx.loan.is_expired(now) {
        return true;
    }
    if !is_valid_bps(ctx.protocol_config.admin_fee_split_bps) || ctx.loan.principal
        > ctx.protocol_config.total_loans_outstanding {
        return false;
    }
    let depositor_part: u64 = share_of(
        ctx.loan.admin_fee_paid,
        ctx.protocol_config.admin_fee_split_bps,
    );
    yield_fits(&ctx.protocol_config, depositor_part)
}

/// Closes an active loan that has run its full duration without being
/// repaid. Only the admin may do so, and not while the protocol is paused.
/// The principal is written off: it leaves the outstanding total and no
/// funds move for it. The admin fee paid at origination is split between
/// depositors and the treasury. The loan becomes `Recovered`.
pub fn recover_loan(ctx: &mut RecoverLoan, now: i64) -> (result: Result<RecoverOutcome, ErrorCode>)
    requires
        recover_loan_rejection(*old(ctx), now) is None ==> recover_loan_fits(*old(ctx)),
    ensures
        *final(ctx) == recover_loan_spec(*old(ctx), now).0,
        result == recover_loan_spec(*old(ctx), now).1,
        result is Err ==> *final(ctx) == *old(ctx),
        old(ctx).protocol_config.solvent() ==> final(ctx).protocol_config.solvent(),
        old(ctx).wf() ==> final(ctx).wf(),
{
    if ctx.protocol_config.admin != ctx.admin {
        return Err(ErrorCode::Unauthorized);
    }
    if ctx.protocol_config.is_paused {
        return Err(ErrorCode::ProtocolPaused);
    }
    if ctx.loan.state != LoanState::Active {
        return Err(ErrorCode::LoanNotActive);
    }
    if !ctx.loan.is_expired(now) {
        return Err(ErrorCode::LoanNotExpired);
    }
    let depositor_part: u64 = share_of(
        ctx.loan.admin_fee_paid,
        ctx.protocol_config.admin_fee_split_bps,
    );
    let treasury_part: u64 = ctx.loan.admin_fee_paid - depositor_part;

    let treasury_transfer = if treasury_part > 0 {
        Some(Transfer { from: ctx.admin_pda, to: ctx.treasury, amount: treasury_part })
    } else {
        None
    };

    distribute_yield(&mut ctx.protocol_config, depositor_part);

    ctx.loan.state = LoanState::Recovered;
    ctx.loan.recovered_ts = Some(now);

    ctx.protocol_config.total_loans_outstanding = ctx.protocol_config.total_loans_outstanding
        - ctx.loan.principal;

    Ok(
        RecoverOutcome {
            treasury_transfer,
            event: LoanRecovered {
                loan_id: ctx.loan.loan_id,
                admin_fee_distributed: ctx.loan.admin_fee_paid,
                depositor_share: depositor_part,
                treasury_share: treasury_part,
            },
        },
    )
}

/// What a reclaim of program authority comes to: a rejection, or the
/// notification that records it.
pub open spec fn reclaim_program_authority_spec(
    ctx: ReclaimProgramAuthority,
) -> Result<AuthorityReclaimed, ErrorCode> {
    if ctx.admin != ctx.protocol_config.admin {
        Err(ErrorCode::Unauthorized)
    } else if ctx.loan.state != LoanState::Recovered {
        Err(ErrorCode::LoanNotRecovered)
    } else if ctx.loan.program_pubkey.is_unset() {
        Err(ErrorCode::InvalidProgram)
    } else {
        Ok(
            AuthorityReclaimed {
                loan_id: ctx.loan.loan_id,
                program_pubkey: ctx.loan.program_pubkey,
                authority: ctx.authority_pda,
            },
        )
    }
}

/// Records that the protocol keeps control of the program of a recovered
/// loan. Only the admin may do so, and only for a recovered loan with a
/// program bound to it. Nothing changes: control never left the protocol.
pub fn reclaim_program_authority(
    ctx: &ReclaimProgramAuthority,
) -> (result: Result<AuthorityReclaimed, ErrorCode>)
    ensures
        result == reclaim_program_authority_spec(*ctx),
{
    if ctx.admin != ctx.protocol_config.admin {
        return Err(ErrorCode::Unauthorized);
    }
    if ctx.loan.state != LoanState::Recovered {
        return Err(ErrorCode::LoanNotRecovered);
    }
    if ctx.loan.program_pubkey.is_default() {
        return Err(ErrorCode::InvalidProgram);
    }
    Ok(
        AuthorityReclaimed {
            loan_id: ctx.loan.loan_id,
            program_pubkey: ctx.loan.program_pubkey,
            authority: ctx.authority_pda,
        },
    )
}

/// Why a return of reclaimed funds is turned away, if it is.
pub open spec fn return_reclaimed_sol_rejection(ctx: ReturnReclaimedSol) -> Option<ErrorCode> {
    if ctx.caller != ctx.protocol_config.admin && ctx.caller != ctx.protocol_config.deployer {
        Some(ErrorCode::Unauthorized)
    } else if ctx.loan.state != LoanState::Recovered {
        Some(ErrorCode::LoanNotRecovered)
    } else {
        None
    }
}

/// What has been reclaimed for a loan so far.
pub open spec fn reclaimed_so_far(loan: Loan) -> int {
    match loan.reclaimed_amount {
        Some(amount) => amount as int,
        None => 0,
    }
}

/// The context after `amount` is returned at time `now`.
pub open spec fn return_reclaimed_sol_applied(
    ctx: ReturnReclaimedSol,
    amount: u64,
    now: i64,
) -> ReturnReclaimedSol {
    ReturnReclaimedSol {
        loan: Loan {
            reclaimed_amount: Some((reclaimed_so_far(ctx.loan) + amount) as u64),
            reclaimed_ts: Some(now),
            ..ctx.loan
        },
        ..ctx
    }
}

/// What the return of `amount` asks of the host.
pub open spec fn return_reclaimed_sol_outcome(
    ctx: ReturnReclaimedSol,
    amount: u64,
) -> ReclaimOutcome {
    ReclaimOutcome {
        transfer: Transfer { from: ctx.deployer_pda, to: ctx.vault, amount },
        event: SolReclaimed {
            loan_id: ctx.loan.loan_id,
            amount,
            total_reclaimed: (reclaimed_so_far(ctx.loan) + amount) as u64,
        },
    }
}

/// A return of reclaimed funds as a whole: the context afterwards, and the
/// result.
pub open spec fn return_reclaimed_sol_spec(
    ctx: ReturnReclaimedSol,
    amount: u64,
    now: i64,
) -> (ReturnReclaimedSol, Result<ReclaimOutcome, ErrorCode>) {
    match return_reclaimed_sol_rejection(ctx) {
        Some(e) => (ctx, Err(e)),
        None => (
            return_reclaimed_sol_applied(ctx, amount, now),
            Ok(return_reclaimed_sol_outcome(ctx, amount)),
        ),
    }
}

/// Whether [`return_reclaimed_sol`] may be called: the return of `amount`,
/// if it is not turned away, keeps the loan's reclaimed total within 64 bits.
pub fn return_reclaimed_sol_within_limits(ctx: &ReturnReclaimedSol, amount: u64) -> (ok: bool)
    ensures
        ok == (return_reclaimed_sol_rejection(*ctx) is None ==> reclaimed_so_far(ctx.loan) + amount
            <= u64::MAX),
{
    if (ctx.caller != ctx.protocol_config.admin && ctx.caller != ctx.protocol_config.deployer)
        || ctx.loan.state != LoanState::Recovered {
        return true;
    }
    match ctx.loan.reclaimed_amount {
        Some(reclaimed) => reclaimed.checked_add(amount).is_some(),
        None => true,
    }
}

/// Returns funds that were reclaimed for a recovered loan from the deployer
/// account to the vault, and adds them to the loan's reclaimed total. Only
/// the admin or the deployer may do so. The pool's counters do not change:
/// returned funds do not count as deposits.
pub fn return_reclaimed_sol(
    ctx: &mut ReturnReclaimedSol,
    amount: u64,
    now: i64,
) -> (result: Result<ReclaimOutcome, ErrorCode>)
    requires
        return_reclaimed_sol_rejection(*old(ctx)) is None ==> reclaimed_so_far(old(ctx).loan)
            + amount <= u64::MAX,
    ensures
        *final(ctx) == return_reclaimed_sol_spec(*old(ctx), amount, now).0,
        result == return_reclaimed_sol_spec(*old(ctx), amount, now).1,
        result is Err ==> *final(ctx) == *old(ctx),
        final(ctx).protocol_config == old(ctx).protocol_config,
        old(ctx).wf() ==> final(ctx).wf(),
{
    if ctx.caller != ctx.protocol_config.admin && ctx.caller != ctx.protocol_config.deployer {
        return Err(ErrorCode::Unauthorized);
    }
    if ctx.loan.state != LoanState::Recovered {
        return Err(ErrorCode::LoanNotRecovered);
    }
    let so_far: u64 = match ctx.loan.reclaimed_amount {
        Some(reclaimed) => reclaimed,
        None => 0,
    };
    let total_reclaimed: u64 = so_far + amount;
    ctx.loan.reclaimed_amount = Some(total_reclaimed);
    ctx.loan.reclaimed_ts = Some(now);

    Ok(
        ReclaimOutcome {
            transfer: Transfer { from: ctx.deployer_pda, to: ctx.vault, amount },
            event: SolReclaimed { loan_id: ctx.loan.loan_id, amount, total_reclaimed },
        },
    )
}

} // verus!
