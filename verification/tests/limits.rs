use solignition::{
    checked_interest, deposit_within_limits, is_valid_bps, recover_loan_within_limits,
    repay_loan_within_limits, request_loan_within_limits, return_reclaimed_sol_within_limits,
    yield_fits, Deposit, DepositorRecord, Identity, Loan, LoanState, ProtocolConfig, RecoverLoan,
    RepayLoan, RequestLoan, ReturnReclaimedSol,
};

fn limit_id(n: u8) -> Identity {
    Identity::new([n; 32])
}

fn limit_config(total_deposits: u64, total_loans_outstanding: u64) -> ProtocolConfig {
    ProtocolConfig {
        admin: limit_id(1),
        treasury: limit_id(2),
        deployer: limit_id(3),
        admin_fee_split_bps: 7000,
        default_interest_rate_bps: 500,
        default_admin_fee_bps: 100,
        total_deposits,
        total_loans_outstanding,
        total_yield_distributed: 0,
        loan_counter: 0,
        is_paused: false,
    }
}

fn limit_loan(principal: u64, rate: u16) -> Loan {
    Loan {
        loan_id: 7,
        borrower: limit_id(50),
        program_pubkey: Identity::unset(),
        principal,
        duration: 100,
        interest_rate_bps: rate,
        admin_fee_bps: 0,
        admin_fee_paid: 0,
        start_ts: 1_000,
        state: LoanState::Active,
        authority_pda: limit_id(11),
        repaid_ts: None,
        recovered_ts: None,
        interest_paid: None,
        reclaimed_amount: None,
        reclaimed_ts: None,
    }
}

fn limit_repay(loan: Loan, config: ProtocolConfig) -> RepayLoan {
    RepayLoan { borrower: limit_id(50), loan, protocol_config: config, vault: limit_id(10), authority_pda: limit_id(11) }
}

fn limit_recover(loan: Loan, config: ProtocolConfig) -> RecoverLoan {
    RecoverLoan { admin: limit_id(1), protocol_config: config, loan, admin_pda: limit_id(12), treasury: limit_id(2) }
}

#[test]
fn rates_up_to_the_whole_are_valid() {
    assert!(is_valid_bps(0));
    assert!(is_valid_bps(9_999));
    assert!(is_valid_bps(10_000));
    assert!(!is_valid_bps(10_001));
    assert!(!is_valid_bps(u16::MAX));
}

#[test]
fn checked_interest_agrees_where_interest_fits() {
    assert_eq!(checked_interest(1_000_000, 1000, 31_536_000), Some(100_000));
    assert_eq!(checked_interest(200, 500, 500), Some(0));
    assert_eq!(checked_interest(0, 0, 0), Some(0));
    assert_eq!(checked_interest(u64::MAX, 10_000, 31_536_000), Some(u64::MAX));
    assert_eq!(checked_interest(u64::MAX, 1, 315_360_000_000), Some(u64::MAX));
}

#[test]
fn checked_interest_gives_nothing_where_interest_does_not_fit() {
    // One second more than a year at the whole rate on the largest principal.
    assert_eq!(checked_interest(u64::MAX, 10_000, 31_536_001), None);
    // The product does not even fit in 128 bits.
    assert_eq!(checked_interest(u64::MAX, u16::MAX, u64::MAX), None);
    assert_eq!(checked_interest(u64::MAX, 10_000, u64::MAX), None);
    // The product fits in 128 bits, the quotient does not fit in 64.
    assert_eq!(checked_interest(u64::MAX, 2, 315_360_000_000), None);
}

#[test]
fn yield_fits_up_to_the_brim() {
    let mut config = limit_config(10, 0);
    config.total_yield_distributed = u64::MAX - 5;
    assert!(yield_fits(&config, 5));
    assert!(!yield_fits(&config, 6));
    assert!(yield_fits(&config, 0));
    config.total_deposits = 0;
    assert!(yield_fits(&config, u64::MAX));
}

#[test]
fn deposit_limits() {
    let record = DepositorRecord { owner: limit_id(40), deposited_amount: 10, share_amount: 20, last_update_ts: 0 };
    let mut ctx = Deposit { depositor: limit_id(40), depositor_record: record, protocol_config: limit_config(30, 0), vault: limit_id(10) };
    assert!(deposit_within_limits(&ctx, u64::MAX - 30));
    assert!(!deposit_within_limits(&ctx, u64::MAX - 29));
    ctx.depositor_record.share_amount = 40;
    assert!(deposit_within_limits(&ctx, u64::MAX - 40));
    assert!(!deposit_within_limits(&ctx, u64::MAX - 39));
    ctx.depositor_record.deposited_amount = 50;
    assert!(deposit_within_limits(&ctx, u64::MAX - 50));
    assert!(!deposit_within_limits(&ctx, u64::MAX - 49));
    // A deposit that is turned away anyway is within limits.
    assert!(deposit_within_limits(&ctx, 0));
    ctx.protocol_config.is_paused = true;
    assert!(deposit_within_limits(&ctx, u64::MAX));
}

#[test]
fn request_loan_limits() {
    let mut ctx = RequestLoan {
        borrower: limit_id(50),
        loan: Loan::vacant(),
        protocol_config: limit_config(1000, 0),
        vault: limit_id(10),
        authority_pda: limit_id(11),
        admin_pda: limit_id(12),
        deployer_pda: limit_id(13),
    };
    assert!(request_loan_within_limits(&ctx, 100, 10, 500, 100));
    ctx.protocol_config.loan_counter = u64::MAX - 1;
    assert!(request_loan_within_limits(&ctx, 100, 10, 500, 100));
    ctx.protocol_config.loan_counter = u64::MAX;
    assert!(!request_loan_within_limits(&ctx, 100, 10, 500, 100));
    // Requests that are turned away anyway are within limits.
    assert!(request_loan_within_limits(&ctx, 0, 10, 500, 100));
    assert!(request_loan_within_limits(&ctx, 100, 0, 500, 100));
    assert!(request_loan_within_limits(&ctx, 100, 10, 10_001, 100));
    assert!(request_loan_within_limits(&ctx, 100, 10, 500, 10_001));
    assert!(request_loan_within_limits(&ctx, 1001, 10, 500, 100));
    ctx.protocol_config.is_paused = true;
    assert!(request_loan_within_limits(&ctx, 100, 10, 500, 100));
}

#[test]
fn repay_loan_limits() {
    let ctx = limit_repay(limit_loan(1_000_000, 1000), limit_config(2_000_000, 1_000_000));
    assert!(repay_loan_within_limits(&ctx, 1_000));
    assert!(repay_loan_within_limits(&ctx, 1_000 + 31_536_000));
    // Time that runs backwards is out of limits.
    assert!(!repay_loan_within_limits(&ctx, 999));
    // Unless the repayment is turned away anyway.
    let mut stranger = ctx;
    stranger.borrower = limit_id(51);
    assert!(repay_loan_within_limits(&stranger, 999));
    let mut paused = ctx;
    paused.protocol_config.is_paused = true;
    assert!(repay_loan_within_limits(&paused, 999));
    // The outstanding total must account for the loan.
    let mut uncovered = ctx;
    uncovered.protocol_config.total_loans_outstanding = 999_999;
    assert!(!repay_loan_within_limits(&uncovered, 2_000));
    uncovered.borrower = limit_id(51);
    assert!(repay_loan_within_limits(&uncovered, 2_000));
}

#[test]
fn repay_loan_limits_on_what_is_due() {
    // Principal plus a year's interest at the whole rate is twice the principal.
    let half = u64::MAX / 2;
    let ctx = limit_repay(limit_loan(half, 10_000), limit_config(u64::MAX, half));
    assert!(repay_loan_within_limits(&ctx, 1_000 + 31_536_000));
    let ctx = limit_repay(limit_loan(half + 1, 10_000), limit_config(u64::MAX, half + 1));
    assert!(!repay_loan_within_limits(&ctx, 1_000 + 31_536_000));
    assert!(!repay_loan_within_limits(&ctx, i64::MAX));
    // The yield tally must have room for the interest.
    let mut ctx = limit_repay(limit_loan(1_000_000, 1000), limit_config(2_000_000, 1_000_000));
    ctx.protocol_config.total_yield_distributed = u64::MAX - 100_000;
    assert!(repay_loan_within_limits(&ctx, 1_000 + 31_536_000));
    ctx.protocol_config.total_yield_distributed = u64::MAX - 99_999;
    assert!(!repay_loan_within_limits(&ctx, 1_000 + 31_536_000));
}

#[test]
fn recover_loan_limits() {
    let mut loan = limit_loan(100_000, 1000);
    loan.admin_fee_bps = 100;
    loan.admin_fee_paid = 1000;
    let mut ctx = limit_recover(loan, limit_config(500_000, 100_000));
    assert!(recover_loan_within_limits(&ctx, 1_100));
    ctx.protocol_config.total_yield_distributed = u64::MAX - 700;
    assert!(recover_loan_within_limits(&ctx, 1_100));
    ctx.protocol_config.total_yield_distributed = u64::MAX - 699;
    assert!(!recover_loan_within_limits(&ctx, 1_100));
    // Before expiry the recovery is turned away, so it is within limits.
    assert!(recover_loan_within_limits(&ctx, 1_099));
    // The split must be at most the whole.
    ctx.protocol_config.total_yield_distributed = 0;
    assert!(recover_loan_within_limits(&ctx, 1_100));
    ctx.protocol_config.admin_fee_split_bps = 10_001;
    assert!(!recover_loan_within_limits(&ctx, 1_100));
    assert!(recover_loan_within_limits(&ctx, 1_099));
    // The outstanding total must account for the loan.
    ctx.protocol_config.admin_fee_split_bps = 10_000;
    ctx.protocol_config.total_loans_outstanding = 99_999;
    assert!(!recover_loan_within_limits(&ctx, 1_100));
    ctx.protocol_config.total_loans_outstanding = 100_000;
    assert!(recover_loan_within_limits(&ctx, 1_100));
}

#[test]
fn return_reclaimed_sol_limits() {
    let mut loan = limit_loan(100_000, 1000);
    loan.state = LoanState::Recovered;
    loan.recovered_ts = Some(1_100);
    let mut ctx = ReturnReclaimedSol {
        caller: limit_id(3),
        protocol_config: limit_config(500_000, 0),
        loan,
        vault: limit_id(10),
        deployer_pda: limit_id(13),
    };
    assert!(return_reclaimed_sol_within_limits(&ctx, u64::MAX));
    ctx.loan.reclaimed_amount = Some(10);
    ctx.loan.reclaimed_ts = Some(1_200);
    assert!(return_reclaimed_sol_within_limits(&ctx, u64::MAX - 10));
    assert!(!return_reclaimed_sol_within_limits(&ctx, u64::MAX - 9));
    ctx.caller = limit_id(50);
    assert!(return_reclaimed_sol_within_limits(&ctx, u64::MAX));
}
