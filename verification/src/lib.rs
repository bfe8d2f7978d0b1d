//! Accounting core of a pooled lending protocol.
//!
//! Depositors pool funds into a vault, borrowers draw principal against the
//! pool, and every operation is a checked transition over plain records: it
//! either rejects with an [`ErrorCode`] and leaves the records untouched, or
//! applies all of its bookkeeping and reports the value movements that the
//! host has to carry out.

pub mod admin;
pub mod contexts;
pub mod errors;
pub mod events;
pub mod fees;
pub mod identity;
pub mod laws;
pub mod loans;
pub mod state;
pub mod vault;

pub use admin::{initialize, set_paused, update_config};
pub use contexts::{
    AdminAction, Deposit, Initialize, ReclaimProgramAuthority, RecoverLoan, RepayLoan, RequestLoan,
    ReturnReclaimedSol, SetDeployedProgram, Withdraw,
};
pub use errors::{ErrorCode, ErrorKind};
pub use events::{
    AuthorityHandover, AuthorityReclaimed, AuthorityTransferred, ConfigUpdated, DepositOutcome,
    Deposited, LoanDeployed, LoanRecovered, LoanRepaid, LoanRequestOutcome, LoanRequested,
    ProtocolInitialized, ProtocolPausedChanged, ReclaimOutcome, RecoverOutcome, RepayOutcome,
    SolReclaimed, Transfer, WithdrawOutcome, Withdrawn,
};
pub use fees::{
    calculate_interest, checked_interest, distribute_yield, is_valid_bps, share_of, yield_fits,
    BPS_DENOMINATOR, SECONDS_PER_YEAR,
};
pub use identity::Identity;
pub use loans::{
    reclaim_program_authority, recover_loan, recover_loan_within_limits, repay_loan,
    repay_loan_within_limits, request_loan, request_loan_within_limits, return_reclaimed_sol,
    return_reclaimed_sol_within_limits, set_deployed_program,
};
pub use state::{DepositorRecord, Loan, LoanState, ProtocolConfig};
pub use vault::{deposit, deposit_within_limits, withdraw};
