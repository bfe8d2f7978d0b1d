//! Notifications and value movements that a successful operation reports.
//!
//! The library moves no funds and notifies nobody. An operation that
//! succeeds returns what the host has to do on its behalf: the transfers
//! between accounts, an authority hand-over where one is due, and the
//! notification for observers.

use vstd::prelude::*;
use crate::identity::Identity;

verus! {

/// The protocol was set up.
#[derive(Clone, Copy, Debug, PartialEq, Eq)]
pub struct ProtocolInitialized {
    pub admin: Identity,
    pub treasury: Identity,
}

/// A depositor put `amount` into the vault; `total_deposits` is the pool's
/// total afterwards.
#[derive(Clone, Copy, Debug, PartialEq, Eq)]
pub struct Deposited {
    pub depositor: Identity,
    pub amount: u64,
    pub total_deposits: u64,
}

/// A depositor took `amount` out of the vault; `remaining_balance` is the
/// depositor's share afterwards.
#[derive(Clone, Copy, Debug, PartialEq, Eq)]
pub struct Withdrawn {
    pub depositor: Identity,
    pub amount: u64,
    pub remaining_balance: u64,
}

/// A loan was originated.
#[derive(Clone, Copy, Debug, PartialEq, Eq)]
pub struct LoanRequested {
    pub borrower: Identity,
    pub loan_id: u64,
    pub principal: u64,
    pub duration: i64,
    pub interest_rate_bps: u16,
    pub admin_fee: u64,
}

/// A deployed program was bound to a loan.
#[derive(Clone, Copy, Debug, PartialEq, Eq)]
pub struct LoanDeployed {
    pub loan_id: u64,
    pub program_pubkey: Identity,
}

/// A loan was repaid; `total_repaid` is principal and interest together.
#[derive(Clone, Copy, Debug, PartialEq, Eq)]
pub struct LoanRepaid {
    pub loan_id: u64,
    pub total_repaid: u64,
    pub interest_paid: u64,
}

/// An expired loan was recovered and its admin fee split.
#[derive(Clone, Copy, Debug, PartialEq, Eq)]
pub struct LoanRecovered {
    pub loan_id: u64,
    pub admin_fee_distributed: u64,
    pub depositor_share: u64,
    pub treasury_share: u64,
}

/// Control of a deployed program passed to its borrower.
#[derive(Clone, Copy, Debug, PartialEq, Eq)]
pub struct AuthorityTransferred {
    pub program_pubkey: Identity,
    pub new_authority: Identity,
}

/// The protocol keeps control of the program of a recovered loan.
#[derive(Clone, Copy, Debug, PartialEq, Eq)]
pub struct AuthorityReclaimed {
    pub loan_id: u64,
    pub program_pubkey: Identity,
    pub authority: Identity,
}

/// Funds reclaimed for a recovered loan came back to the vault;
/// `total_reclaimed` is the loan's total afterwards.
#[derive(Clone, Copy, Debug, PartialEq, Eq)]
pub struct SolReclaimed {
    pub loan_id: u64,
    pub amount: u64,
    pub total_reclaimed: u64,
}

/// The protocol was paused or resumed.
#[derive(Clone, Copy, Debug, PartialEq, Eq)]
pub struct ProtocolPausedChanged {
    pub is_paused: bool,
}

/// The protocol's parameters were changed; the rates are those now in force.
#[derive(Clone, Copy, Debug, PartialEq, Eq)]
pub struct ConfigUpdated {
    pub admin_fee_split_bps: u16,
    pub default_interest_rate_bps: u16,
    pub default_admin_fee_bps: u16,
}

/// A movement of `amount` from one account to another. It is all or
/// nothing: if the source cannot pay, the operation that asked for it must
/// not take effect.
#[derive(Clone, Copy, Debug, PartialEq, Eq)]
pub struct Transfer {
    pub from: Identity,
    pub to: Identity,
    pub amount: u64,
}

/// A hand-over of the control of a deployed program.
#[derive(Clone, Copy, Debug, PartialEq, Eq)]
pub struct AuthorityHandover {
    pub program: Identity,
    pub from: Identity,
    pub to: Identity,
}

/// What a deposit asks of the host.
#[derive(Clone, Copy, Debug, PartialEq, Eq)]
pub struct DepositOutcome {
    /// From the depositor to the vault.
    pub transfer: Transfer,
    pub event: Deposited,
}

/// What a withdrawal asks of the host.
#[derive(Clone, Copy, Debug, PartialEq, Eq)]
pub struct WithdrawOutcome {
    /// From the vault to the depositor.
    pub transfer: Transfer,
    pub event: Withdrawn,
}

/// What a loan's origination asks of the host.
#[derive(Clone, Copy, Debug, PartialEq, Eq)]
pub struct LoanRequestOutcome {
    /// The admin fee, from the borrower to the admin account; none if the
    /// fee is zero.
    pub fee_transfer: Option<Transfer>,
    /// The principal, from the vault to the deployer account.
    pub principal_transfer: Transfer,
    pub event: LoanRequested,
}

/// What a repayment asks of the host.
#[derive(Clone, Copy, Debug, PartialEq, Eq)]
pub struct RepayOutcome {
    /// Principal and interest, from the borrower to the vault.
    pub transfer: Transfer,
    /// Control of the deployed program passes to the borrower; none if no
    /// program was bound to the loan.
    pub handover: Option<AuthorityHandover>,
    pub handover_event: Option<AuthorityTransferred>,
    pub event: LoanRepaid,
}

/// What a recovery asks of the host.
#[derive(Clone, Copy, Debug, PartialEq, Eq)]
pub struct RecoverOutcome {
    /// The treasury's part of the admin fee, from the admin account to the
    /// treasury; none if that part is zero.
    pub treasury_transfer: Option<Transfer>,
    pub event: LoanRecovered,
}

/// What the return of reclaimed funds asks of the host.
#[derive(Clone, Copy, Debug, PartialEq, Eq)]
pub struct ReclaimOutcome {
    /// From the deployer account to the vault.
    pub transfer: Transfer,
    pub event: SolReclaimed,
}

} // verus!
