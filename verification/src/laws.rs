//! What holds of the operations taken together.
//!
//! The operations each see one loan at a time. The laws here speak of the
//! whole book: the configuration together with every loan that was ever
//! originated, as a sequence. They show that the outstanding total is always
//! the sum of the principals of the active loans, and a few facts about
//! sequences of calls.

use vstd::prelude::*;
use crate::admin::initialize_spec;
use crate::contexts::{
    Deposit, Initialize, RecoverLoan, RepayLoan, RequestLoan, ReturnReclaimedSol,
    SetDeployedProgram, Withdraw,
};
use crate::errors::{ErrorCode, ErrorKind};
use crate::events::{LoanRequestOutcome, RecoverOutcome, RepayOutcome};
use crate::events::LoanDeployed;
use crate::fees::valid_bps;
use crate::loans::{
    recover_loan_spec, repay_loan_spec, request_loan_spec, return_reclaimed_sol_spec,
    set_deployed_program_spec,
};
use crate::state::{books_cover, Loan, LoanState, ProtocolConfig};
use crate::identity::{lemma_unset_is_unique, Identity};
use crate::vault::{deposit_fits, deposit_spec, withdraw_spec};

verus! {

/// The sum of the principals of the active loans among `loans`.
pub open spec fn active_principal(loans: Seq<Loan>) -> int
    decreases loans.len(),
{
    if loans.len() == 0 {
        0
    } else {
        active_principal(loans.drop_last()) + loans.last().outstanding_principal()
    }
}

/// Whether the outstanding total is the sum of the principals of the active
/// loans.
pub open spec fn books_balance(config: ProtocolConfig, loans: Seq<Loan>) -> bool {
    config.total_loans_outstanding == active_principal(loans)
}

/// A new loan adds its outstanding principal to the sum.
pub proof fn lemma_active_principal_push(loans: Seq<Loan>, loan: Loan)
    ensures
        active_principal(loans.push(loan)) == active_principal(loans)
            + loan.outstanding_principal(),
{
    assert(loans.push(loan).drop_last() =~= loans);
}

/// A changed loan changes the sum by the change of its outstanding
/// principal.
pub proof fn lemma_active_principal_update(loans: Seq<Loan>, i: int, loan: Loan)
    requires
        0 <= i < loans.len(),
    ensures
        active_principal(loans.update(i, loan)) == active_principal(loans)
            - loans[i].outstanding_principal() + loan.outstanding_principal(),
    decreases loans.len(),
{
    if i == loans.len() - 1 {
        assert(loans.update(i, loan).drop_last() =~= loans.drop_last());
    } else {
        lemma_active_principal_update(loans.drop_last(), i, loan);
        assert(loans.update(i, loan).drop_last() =~= loans.drop_last().update(i, loan));
    }
}

/// The sum is never negative.
pub proof fn lemma_active_principal_nonnegative(loans: Seq<Loan>)
    ensures
        0 <= active_principal(loans),
    decreases loans.len(),
{
    if loans.len() > 0 {
        lemma_active_principal_nonnegative(loans.drop_last());
    }
}

/// No loan has more outstanding than the sum over all loans.
pub proof fn lemma_active_principal_bounds(loans: Seq<Loan>, i: int)
    requires
        0 <= i < loans.len(),
    ensures
        0 <= loans[i].outstanding_principal() <= active_principal(loans),
    decreases loans.len(),
{
    lemma_active_principal_nonnegative(loans.drop_last());
    if i < loans.len() - 1 {
        lemma_active_principal_bounds(loans.drop_last(), i);
    }
}

/// Where the books balance, the outstanding total accounts for every loan:
/// each context that pairs the configuration with one of the loans meets
/// that part of its well-formedness.
pub proof fn law_balanced_books_cover_each_loan(config: ProtocolConfig, loans: Seq<Loan>, i: int)
    requires
        books_balance(config, loans),
        0 <= i < loans.len(),
    ensures
        books_cover(config, loans[i]),
{
    lemma_active_principal_bounds(loans, i);
}

/// The books of a protocol that has just been set up, with no loans yet,
/// balance.
pub proof fn law_initialize_balances(
    ctx: Initialize,
    admin_fee_split_bps: u16,
    default_interest_rate_bps: u16,
    default_admin_fee_bps: u16,
)
    requires
        initialize_spec(
            ctx,
            admin_fee_split_bps,
            default_interest_rate_bps,
            default_admin_fee_bps,
        ).1 is Ok,
    ensures
        books_balance(
            initialize_spec(
                ctx,
                admin_fee_split_bps,
                default_interest_rate_bps,
                default_admin_fee_bps,
            ).0.protocol_config,
            Seq::<Loan>::empty(),
        ),
{
}

/// If the books balance, they still balance after a request for a loan,
/// with the new loan added to the book where the request was granted.
pub proof fn law_request_loan_balances(
    loans: Seq<Loan>,
    ctx: RequestLoan,
    loan_id: u64,
    principal: u64,
    duration: i64,
    interest_rate_bps: u16,
    admin_fee_bps: u16,
    now: i64,
)
    requires
        books_balance(ctx.protocol_config, loans),
    ensures
        ({
            let (after, result) = request_loan_spec(
                ctx,
                loan_id,
                principal,
                duration,
                interest_rate_bps,
                admin_fee_bps,
                now,
            );
            &&& result is Ok ==> books_balance(after.protocol_config, loans.push(after.loan))
            &&& result is Err ==> books_balance(after.protocol_config, loans)
        }),
{
    let (after, result) = request_loan_spec(
        ctx,
        loan_id,
        principal,
        duration,
        interest_rate_bps,
        admin_fee_bps,
        now,
    );
    if result is Ok {
        lemma_active_principal_push(loans, after.loan);
    }
}

/// If the books balance, they still balance after a repayment, granted or
/// not, of one of the loans in the book.
pub proof fn law_repay_loan_balances(loans: Seq<Loan>, i: int, ctx: RepayLoan, now: i64)
    requires
        books_balance(ctx.protocol_config, loans),
        0 <= i < loans.len(),
        loans[i] == ctx.loan,
    ensures
        books_balance(
            repay_loan_spec(ctx, now).0.protocol_config,
            loans.update(i, repay_loan_spec(ctx, now).0.loan),
        ),
{
    let after = repay_loan_spec(ctx, now).0;
    lemma_active_principal_update(loans, i, after.loan);
    lemma_active_principal_bounds(loans, i);
}

/// If the books balance, they still balance after a recovery, granted or
/// not, of one of the loans in the book.
pub proof fn law_recover_loan_balances(loans: Seq<Loan>, i: int, ctx: RecoverLoan, now: i64)
    requires
        books_balance(ctx.protocol_config, loans),
        0 <= i < loans.len(),
        loans[i] == ctx.loan,
    ensures
        books_balance(
            recover_loan_spec(ctx, now).0.protocol_config,
            loans.update(i, recover_loan_spec(ctx, now).0.loan),
        ),
{
    let after = recover_loan_spec(ctx, now).0;
    lemma_active_principal_update(loans, i, after.loan);
    lemma_active_principal_bounds(loans, i);
}

/// If the books balance, they still balance after a program is bound to
/// one of the loans in the book.
pub proof fn law_set_deployed_program_balances(
    loans: Seq<Loan>,
    i: int,
    ctx: SetDeployedProgram,
    loan_id: u64,
    program_pubkey: Identity,
)
    requires
        books_balance(ctx.protocol_config, loans),
        0 <= i < loans.len(),
        loans[i] == ctx.loan,
    ensures
        books_balance(
            set_deployed_program_spec(ctx, loan_id, program_pubkey).0.protocol_config,
            loans.update(i, set_deployed_program_spec(ctx, loan_id, program_pubkey).0.loan),
        ),
{
    let after = set_deployed_program_spec(ctx, loan_id, program_pubkey).0;
    lemma_active_principal_update(loans, i, after.loan);
}

/// If the books balance, they still balance after reclaimed funds are
/// returned for one of the loans in the book.
pub proof fn law_return_reclaimed_sol_balances(
    loans: Seq<Loan>,
    i: int,
    ctx: ReturnReclaimedSol,
    amount: u64,
    now: i64,
)
    requires
        books_balance(ctx.protocol_config, loans),
        0 <= i < loans.len(),
        loans[i] == ctx.loan,
    ensures
        books_balance(
            return_reclaimed_sol_spec(ctx, amount, now).0.protocol_config,
            loans.update(i, return_reclaimed_sol_spec(ctx, amount, now).0.loan),
        ),
{
    let after = return_reclaimed_sol_spec(ctx, amount, now).0;
    lemma_active_principal_update(loans, i, after.loan);
}

/// The context in which a depositor withdraws right after a deposit.
pub open spec fn withdraw_after(deposit: Deposit) -> Withdraw {
    Withdraw {
        depositor: deposit.depositor,
        depositor_record: deposit.depositor_record,
        protocol_config: deposit.protocol_config,
        vault: deposit.vault,
    }
}

/// A deposit followed by a withdrawal of the same amount, with nothing lent
/// in between, is granted and puts the depositor's amounts and the pool's
/// deposits back to what they were before the deposit.
pub proof fn law_deposit_then_withdraw(
    ctx: Deposit,
    amount: u64,
    deposited_at: i64,
    withdrawn_at: i64,
)
    requires
        ctx.protocol_config.solvent(),
        deposit_fits(ctx, amount),
        deposit_spec(ctx, amount, deposited_at).1 is Ok,
    ensures
        ({
            let deposited = deposit_spec(ctx, amount, deposited_at).0;
            let (after, result) = withdraw_spec(withdraw_after(deposited), amount, withdrawn_at);
            &&& result is Ok
            &&& after.depositor_record.deposited_amount == ctx.depositor_record.deposited_amount
            &&& after.depositor_record.share_amount == ctx.depositor_record.share_amount
            &&& after.protocol_config.total_deposits == ctx.protocol_config.total_deposits
            &&& after.protocol_config.total_loans_outstanding
                == ctx.protocol_config.total_loans_outstanding
        }),
{
}

/// A loan that has reached a final state stays as it is: a recovery and a
/// repayment of it are both turned away and change nothing. Where nothing
/// else stands in the way, the rejection says that the loan is not active,
/// which is an error of the loan's state.
pub proof fn law_final_states_are_final(recover: RecoverLoan, repay: RepayLoan, now: i64)
    requires
        recover.loan.state != LoanState::Active,
        repay.loan.state != LoanState::Active,
    ensures
        recover_loan_spec(recover, now).1 is Err,
        recover_loan_spec(recover, now).0 == recover,
        recover.protocol_config.admin == recover.admin && !recover.protocol_config.is_paused
            ==> recover_loan_spec(recover, now).1 == Err::<RecoverOutcome, ErrorCode>(
            ErrorCode::LoanNotActive,
        ),
        repay_loan_spec(repay, now).1 is Err,
        repay_loan_spec(repay, now).0 == repay,
        repay.loan.borrower == repay.borrower && !repay.protocol_config.is_paused
            ==> repay_loan_spec(repay, now).1 == Err::<RepayOutcome, ErrorCode>(
            ErrorCode::LoanNotActive,
        ),
        ErrorCode::LoanNotActive.spec_kind() == ErrorKind::State,
{
}

/// A loan that was just recovered cannot be recovered again, at any time.
pub proof fn law_recover_loan_only_once(ctx: RecoverLoan, now: i64, later: i64)
    requires
        recover_loan_spec(ctx, now).1 is Ok,
    ensures
        recover_loan_spec(recover_loan_spec(ctx, now).0, later) == (
            recover_loan_spec(ctx, now).0,
            Err::<RecoverOutcome, ErrorCode>(ErrorCode::LoanNotActive),
        ),
{
}

/// A request that is otherwise in order is granted for exactly the
/// available liquidity and turned away, for want of liquidity, for one unit
/// more.
pub proof fn law_request_loan_liquidity_boundary(
    ctx: RequestLoan,
    loan_id: u64,
    duration: i64,
    interest_rate_bps: u16,
    admin_fee_bps: u16,
    now: i64,
)
    requires
        !ctx.protocol_config.is_paused,
        duration > 0,
        valid_bps(interest_rate_bps),
        valid_bps(admin_fee_bps),
        0 < ctx.protocol_config.available() < u64::MAX,
    ensures
        request_loan_spec(
            ctx,
            loan_id,
            ctx.protocol_config.available() as u64,
            duration,
            interest_rate_bps,
            admin_fee_bps,
            now,
        ).1 is Ok,
        request_loan_spec(
            ctx,
            loan_id,
            (ctx.protocol_config.available() + 1) as u64,
            duration,
            interest_rate_bps,
            admin_fee_bps,
            now,
        ).1 == Err::<LoanRequestOutcome, ErrorCode>(ErrorCode::InsufficientLiquidity),
        ErrorCode::InsufficientLiquidity.spec_kind() == ErrorKind::Resource,
{
}

/// A recovery that is otherwise in order is granted from the moment the
/// loan expires, its start plus its duration, and turned away at every
/// moment before, the last second included.
pub proof fn law_recover_loan_expiry_boundary(ctx: RecoverLoan, now: i64)
    requires
        ctx.protocol_config.admin == ctx.admin,
        !ctx.protocol_config.is_paused,
        ctx.loan.state == LoanState::Active,
    ensures
        recover_loan_spec(ctx, now).1 is Ok <==> now >= ctx.loan.start_ts + ctx.loan.duration,
        now < ctx.loan.start_ts + ctx.loan.duration ==> recover_loan_spec(ctx, now).1 == Err::<
            RecoverOutcome,
            ErrorCode,
        >(ErrorCode::LoanNotExpired),
        now == ctx.loan.start_ts + ctx.loan.duration - 1 ==> recover_loan_spec(ctx, now).1 is Err,
        now == ctx.loan.start_ts + ctx.loan.duration ==> recover_loan_spec(ctx, now).1 is Ok,
{
}

/// The context in which the admin binds a program to a loan right after it
/// was granted.
pub open spec fn bind_after(request: RequestLoan) -> SetDeployedProgram {
    SetDeployedProgram {
        admin: request.protocol_config.admin,
        protocol_config: request.protocol_config,
        loan: request.loan,
    }
}

/// A loan that was just granted has no program bound to it, so the admin
/// can bind one.
pub proof fn law_granted_loan_takes_a_program(
    ctx: RequestLoan,
    loan_id: u64,
    principal: u64,
    duration: i64,
    interest_rate_bps: u16,
    admin_fee_bps: u16,
    now: i64,
    program_pubkey: Identity,
)
    requires
        request_loan_spec(
            ctx,
            loan_id,
            principal,
            duration,
            interest_rate_bps,
            admin_fee_bps,
            now,
        ).1 is Ok,
    ensures
        set_deployed_program_spec(
            bind_after(
                request_loan_spec(
                    ctx,
                    loan_id,
                    principal,
                    duration,
                    interest_rate_bps,
                    admin_fee_bps,
                    now,
                ).0,
            ),
            loan_id,
            program_pubkey,
        ).1 == Ok::<LoanDeployed, ErrorCode>(LoanDeployed { loan_id, program_pubkey }),
{
    lemma_unset_is_unique(Identity::spec_unset());
}

/// The deployed program is written once: after a program was bound to a
/// loan, a second binding is turned away and changes nothing.
pub proof fn law_program_binds_once(
    ctx: SetDeployedProgram,
    loan_id: u64,
    first: Identity,
    second: Identity,
)
    requires
        !first.is_unset(),
        set_deployed_program_spec(ctx, loan_id, first).1 is Ok,
    ensures
        set_deployed_program_spec(set_deployed_program_spec(ctx, loan_id, first).0, loan_id, second)
            == (
            set_deployed_program_spec(ctx, loan_id, first).0,
            Err::<LoanDeployed, ErrorCode>(ErrorCode::ProgramAlreadySet),
        ),
        ErrorCode::ProgramAlreadySet.spec_kind() == ErrorKind::Binding,
{
}

} // verus!
