//! What each operation works on: the caller, the records it reads and
//! writes, and the accounts that take part.
//!
//! A context holds copies. An operation that succeeds leaves the new records
//! in the context for the host to store; one that is rejected leaves the
//! context as it was.

use vstd::prelude::*;
use crate::identity::Identity;
use crate::state::{books_cover, DepositorRecord, Loan, LoanState, ProtocolConfig};

verus! {

/// For setting the protocol up.
#[derive(Clone, Copy, Debug, PartialEq, Eq)]
pub struct Initialize {
    /// The caller, who becomes the admin.
    pub admin: Identity,
    /// The record to fill.
    pub protocol_config: ProtocolConfig,
    pub vault: Identity,
    pub authority_pda: Identity,
    pub admin_pda: Identity,
    pub treasury: Identity,
    pub deployer: Identity,
}

/// For a deposit into the vault.
#[derive(Clone, Copy, Debug, PartialEq, Eq)]
pub struct Deposit {
    /// The caller.
    pub depositor: Identity,
    /// The caller's record; vacant on a first deposit.
    pub depositor_record: DepositorRecord,
    pub protocol_config: ProtocolConfig,
    pub vault: Identity,
}

/// For a withdrawal from the vault.
#[derive(Clone, Copy, Debug, PartialEq, Eq)]
pub struct Withdraw {
    /// The caller.
    pub depositor: Identity,
    pub depositor_record: DepositorRecord,
    pub protocol_config: ProtocolConfig,
    pub vault: Identity,
}

/// For the origination of a loan.
#[derive(Clone, Copy, Debug, PartialEq, Eq)]
pub struct RequestLoan {
    /// The caller.
    pub borrower: Identity,
    /// The record to fill.
    pub loan: Loan,
    pub protocol_config: ProtocolConfig,
    pub vault: Identity,
    pub authority_pda: Identity,
    pub admin_pda: Identity,
    pub deployer_pda: Identity,
}

/// For binding a deployed program to a loan.
#[derive(Clone, Copy, Debug, PartialEq, Eq)]
pub struct SetDeployedProgram {
    /// The caller.
    pub admin: Identity,
    pub protocol_config: ProtocolConfig,
    pub loan: Loan,
}

/// For the repayment of a loan.
#[derive(Clone, Copy, Debug, PartialEq, Eq)]
pub struct RepayLoan {
    /// The caller.
    pub borrower: Identity,
    pub loan: Loan,
    pub protocol_config: ProtocolConfig,
    pub vault: Identity,
    pub authority_pda: Identity,
}

/// For the recovery of an expired loan.
#[derive(Clone, Copy, Debug, PartialEq, Eq)]
pub struct RecoverLoan {
    /// The caller.
    pub admin: Identity,
    pub protocol_config: ProtocolConfig,
    pub loan: Loan,
    pub admin_pda: Identity,
    pub treasury: Identity,
}

/// For recording that the protocol keeps a recovered loan's program.
#[derive(Clone, Copy, Debug, PartialEq, Eq)]
pub struct ReclaimProgramAuthority {
    /// The caller.
    pub admin: Identity,
    pub protocol_config: ProtocolConfig,
    pub loan: Loan,
    pub authority_pda: Identity,
}

/// For the return of funds reclaimed for a recovered loan.
#[derive(Clone, Copy, Debug, PartialEq, Eq)]
pub struct ReturnReclaimedSol {
    pub caller: Identity,
    pub protocol_config: ProtocolConfig,
    pub loan: Loan,
    pub vault: Identity,
    pub deployer_pda: Identity,
}

/// For pausing, resuming and changing parameters.
#[derive(Clone, Copy, Debug, PartialEq, Eq)]
pub struct AdminAction {
    /// The caller.
    pub admin: Identity,
    pub protocol_config: ProtocolConfig,
}

impl Deposit {
    /// The configuration is well formed.
    pub open spec fn wf(self) -> bool {
        self.protocol_config.wf()
    }

    /// Whether the context is well formed.
    pub fn is_well_formed(&self) -> (ok: bool)
        ensures
            ok == self.wf(),
    {
        self.protocol_config.is_well_formed()
    }
}

impl Withdraw {
    /// The configuration is well formed.
    pub open spec fn wf(self) -> bool {
        self.protocol_config.wf()
    }

    /// Whether the context is well formed.
    pub fn is_well_formed(&self) -> (ok: bool)
        ensures
            ok == self.wf(),
    {
        self.protocol_config.is_well_formed()
    }
}

impl RequestLoan {
    /// The configuration is well formed. The record to fill may hold
    /// anything.
    pub open spec fn wf(self) -> bool {
        self.protocol_config.wf()
    }

    /// Whether the context is well formed.
    pub fn is_well_formed(&self) -> (ok: bool)
        ensures
            ok == self.wf(),
    {
        self.protocol_config.is_well_formed()
    }
}

/// Whether a configuration and a loan are each well formed and the
/// outstanding total accounts for the loan.
pub open spec fn wf_pair(config: ProtocolConfig, loan: Loan) -> bool {
    &&& config.wf()
    &&& loan.wf()
    &&& books_cover(config, loan)
}

/// Whether a configuration and a loan are each well formed and the
/// outstanding total accounts for the loan.
pub fn is_wf_pair(config: &ProtocolConfig, loan: &Loan) -> (ok: bool)
    ensures
        ok == wf_pair(*config, *loan),
{
    config.is_well_formed() && loan.is_well_formed() && (loan.state != LoanState::Active
        || loan.principal <= config.total_loans_outstanding)
}

impl SetDeployedProgram {
    /// Configuration and loan are well formed, and the outstanding total
    /// accounts for the loan.
    pub open spec fn wf(self) -> bool {
        wf_pair(self.protocol_config, self.loan)
    }

    /// Whether the context is well formed.
    pub fn is_well_formed(&self) -> (ok: bool)
        ensures
            ok == self.wf(),
    {
        is_wf_pair(&self.protocol_config, &self.loan)
    }
}

impl RepayLoan {
    /// Configuration and loan are well formed, and the outstanding total
    /// accounts for the loan.
    pub open spec fn wf(self) -> bool {
        wf_pair(self.protocol_config, self.loan)
    }

    /// Whether the context is well formed.
    pub fn is_well_formed(&self) -> (ok: bool)
        ensures
            ok == self.wf(),
    {
        is_wf_pair(&self.protocol_config, &self.loan)
    }
}

impl RecoverLoan {
    /// Configuration and loan are well formed, and the outstanding total
    /// accounts for the loan.
    pub open spec fn wf(self) -> bool {
        wf_pair(self.protocol_config, self.loan)
    }

    /// Whether the context is well formed.
    pub fn is_well_formed(&self) -> (ok: bool)
        ensures
            ok == self.wf(),
    {
        is_wf_pair(&self.protocol_config, &self.loan)
    }
}

impl ReclaimProgramAuthority {
    /// Configuration and loan are well formed, and the outstanding total
    /// accounts for the loan.
    pub open spec fn wf(self) -> bool {
        wf_pair(self.protocol_config, self.loan)
    }

    /// Whether the context is well formed.
    pub fn is_well_formed(&self) -> (ok: bool)
        ensures
            ok == self.wf(),
    {
        is_wf_pair(&self.protocol_config, &self.loan)
    }
}

impl ReturnReclaimedSol {
    /// Configuration and loan are well formed, and the outstanding total
    /// accounts for the loan.
    pub open spec fn wf(self) -> bool {
        wf_pair(self.protocol_config, self.loan)
    }

    /// Whether the context is well formed.
    pub fn is_well_formed(&self) -> (ok: bool)
        ensures
            ok == self.wf(),
    {
        is_wf_pair(&self.protocol_config, &self.loan)
    }
}

impl AdminAction {
    /// The configuration is well formed.
    pub open spec fn wf(self) -> bool {
        self.protocol_config.wf()
    }

    /// Whether the context is well formed.
    pub fn is_well_formed(&self) -> (ok: bool)
        ensures
            ok == self.wf(),
    {
        self.protocol_config.is_well_formed()
    }
}

} // verus!
