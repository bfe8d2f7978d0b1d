//! The persistent records: the protocol's configuration and counters, one
//! record per depositor and one per loan.

use vstd::prelude::*;
use crate::fees::{bps_share, is_valid_bps, share_of, valid_bps};
use crate::identity::Identity;

verus! {

/// Where a loan stands in its life. A loan starts `Active`; `Repaid` and
/// `Recovered` are final.
#[derive(Clone, Copy, Debug, PartialEq, Eq, Structural)]
pub enum LoanState {
    Active,
    Repaid,
    Recovered,
}

/// Global parameters and aggregate counters. There is one per protocol.
#[derive(Clone, Copy, Debug, PartialEq, Eq)]
pub struct ProtocolConfig {
    pub admin: Identity,
    pub treasury: Identity,
    pub deployer: Identity,
    /// Part of a recovered loan's admin fee that goes to depositors; the rest
    /// goes to the treasury.
    pub admin_fee_split_bps: u16,
    pub default_interest_rate_bps: u16,
    pub default_admin_fee_bps: u16,
    pub total_deposits: u64,
    pub total_loans_outstanding: u64,
    pub total_yield_distributed: u64,
    pub loan_counter: u64,
    pub is_paused: bool,
}

/// What one depositor has put into the vault.
#[derive(Clone, Copy, Debug, PartialEq, Eq)]
pub struct DepositorRecord {
    pub owner: Identity,
    pub deposited_amount: u64,
    pub share_amount: u64,
    pub last_update_ts: i64,
}

/// One loan, from origination to its final state.
#[derive(Clone, Copy, Debug, PartialEq, Eq)]
pub struct Loan {
    pub loan_id: u64,
    pub borrower: Identity,
    /// The deployed program that the loan paid for; unset until it is bound.
    pub program_pubkey: Identity,
    pub principal: u64,
    /// Seconds from `start_ts` until the loan expires.
    pub duration: i64,
    pub interest_rate_bps: u16,
    pub admin_fee_bps: u16,
    pub admin_fee_paid: u64,
    pub start_ts: i64,
    pub state: LoanState,
    pub authority_pda: Identity,
    pub repaid_ts: Option<i64>,
    pub recovered_ts: Option<i64>,
    pub interest_paid: Option<u64>,
    pub reclaimed_amount: Option<u64>,
    pub reclaimed_ts: Option<i64>,
}

impl ProtocolConfig {
    /// The pool has not lent out more than was deposited.
    pub open spec fn solvent(self) -> bool {
        self.total_loans_outstanding <= self.total_deposits
    }

    /// Every rate is at most the whole, and the pool is solvent.
    pub open spec fn wf(self) -> bool {
        &&& valid_bps(self.admin_fee_split_bps)
        &&& valid_bps(self.default_interest_rate_bps)
        &&& valid_bps(self.default_admin_fee_bps)
        &&& self.solvent()
    }

    /// What the pool can still lend or pay out: deposits less outstanding
    /// principal, and nothing if more is outstanding than was deposited.
    pub open spec fn available(self) -> int {
        if self.solvent() {
            self.total_deposits - self.total_loans_outstanding
        } else {
            0
        }
    }

    /// A record as storage first hands it out: every field zero.
    pub fn vacant() -> (config: ProtocolConfig)
        ensures
            config.wf(),
            config.admin.is_unset(),
            config.treasury.is_unset(),
            config.deployer.is_unset(),
            config.admin_fee_split_bps == 0,
            config.default_interest_rate_bps == 0,
            config.default_admin_fee_bps == 0,
            config.total_deposits == 0,
            config.total_loans_outstanding == 0,
            config.total_yield_distributed == 0,
            config.loan_counter == 0,
            !config.is_paused,
    {
        ProtocolConfig {
            admin: Identity::unset(),
            treasury: Identity::unset(),
            deployer: Identity::unset(),
            admin_fee_split_bps: 0,
            default_interest_rate_bps: 0,
            default_admin_fee_bps: 0,
            total_deposits: 0,
            total_loans_outstanding: 0,
            total_yield_distributed: 0,
            loan_counter: 0,
            is_paused: false,
        }
    }

    /// Whether the record is well formed.
    pub fn is_well_formed(&self) -> (ok: bool)
        ensures
            ok == self.wf(),
    {
        is_valid_bps(self.admin_fee_split_bps) && is_valid_bps(self.default_interest_rate_bps)
            && is_valid_bps(self.default_admin_fee_bps) && self.total_loans_outstanding
            <= self.total_deposits
    }

    /// What the pool can still lend or pay out.
    pub fn available_liquidity(&self) -> (available: u64)
        ensures
            available == self.available(),
    {
        self.total_deposits.saturating_sub(self.total_loans_outstanding)
    }
}

impl DepositorRecord {
    /// A record as storage first hands it out: every field zero.
    pub fn vacant() -> (record: DepositorRecord)
        ensures
            record.owner.is_unset(),
            record.deposited_amount == 0,
            record.share_amount == 0,
            record.last_update_ts == 0,
    {
        DepositorRecord {
            owner: Identity::unset(),
            deposited_amount: 0,
            share_amount: 0,
            last_update_ts: 0,
        }
    }
}

impl Loan {
    /// Both rates are at most the whole, the fee paid is the fee rate applied
    /// to the principal, and the fields that belong to a final state are set
    /// in that state and in no other.
    pub open spec fn wf(self) -> bool {
        &&& valid_bps(self.interest_rate_bps)
        &&& valid_bps(self.admin_fee_bps)
        &&& self.admin_fee_paid == bps_share(self.principal as int, self.admin_fee_bps as int)
        &&& match self.state {
            LoanState::Active => {
                &&& self.repaid_ts is None
                &&& self.interest_paid is None
                &&& self.recovered_ts is None
                &&& self.reclaimed_amount is None
                &&& self.reclaimed_ts is None
            },
            LoanState::Repaid => {
                &&& self.repaid_ts is Some
                &&& self.interest_paid is Some
                &&& self.recovered_ts is None
                &&& self.reclaimed_amount is None
                &&& self.reclaimed_ts is None
            },
            LoanState::Recovered => {
                &&& self.repaid_ts is None
                &&& self.interest_paid is None
                &&& self.recovered_ts is Some
                &&& (self.reclaimed_amount is Some <==> self.reclaimed_ts is Some)
            },
        }
    }

    /// The principal that this loan adds to the outstanding total: all of it
    /// while the loan is active, nothing afterwards.
    pub open spec fn outstanding_principal(self) -> int {
        if self.state == LoanState::Active {
            self.principal as int
        } else {
            0
        }
    }

    /// Whether the loan has run its full duration at time `now`.
    pub open spec fn expired_at(self, now: i64) -> bool {
        now >= self.start_ts + self.duration
    }

    /// A record as storage first hands it out: every field zero, which reads
    /// as an active loan of nothing.
    pub fn vacant() -> (loan: Loan)
        ensures
            loan.wf(),
            loan.loan_id == 0,
            loan.borrower.is_unset(),
            loan.program_pubkey.is_unset(),
            loan.authority_pda.is_unset(),
            loan.principal == 0,
            loan.duration == 0,
            loan.interest_rate_bps == 0,
            loan.admin_fee_bps == 0,
            loan.admin_fee_paid == 0,
            loan.start_ts == 0,
            loan.state == LoanState::Active,
    {
        Loan {
            loan_id: 0,
            borrower: Identity::unset(),
            program_pubkey: Identity::unset(),
            principal: 0,
            duration: 0,
            interest_rate_bps: 0,
            admin_fee_bps: 0,
            admin_fee_paid: 0,
            start_ts: 0,
            state: LoanState::Active,
            authority_pda: Identity::unset(),
            repaid_ts: None,
            recovered_ts: None,
            interest_paid: None,
            reclaimed_amount: None,
            reclaimed_ts: None,
        }
    }

    /// Whether the record is well formed.
    pub fn is_well_formed(&self) -> (ok: bool)
        ensures
            ok == self.wf(),
    {
        if !is_valid_bps(self.interest_rate_bps) || !is_valid_bps(self.admin_fee_bps) {
            return false;
        }
        if self.admin_fee_paid != share_of(self.principal, self.admin_fee_bps) {
            return false;
        }
        match self.state {
            LoanState::Active => self.repaid_ts.is_none() && self.interest_paid.is_none()
                && self.recovered_ts.is_none() && self.reclaimed_amount.is_none()
                && self.reclaimed_ts.is_none(),
            LoanState::Repaid => self.repaid_ts.is_some() && self.interest_paid.is_some()
                && self.recovered_ts.is_none() && self.reclaimed_amount.is_none()
                && self.reclaimed_ts.is_none(),
            LoanState::Recovered => self.repaid_ts.is_none() && self.interest_paid.is_none()
                && self.recovered_ts.is_some() && (self.reclaimed_amount.is_some()
                == self.reclaimed_ts.is_some()),
        }
    }

    /// Whether the loan has run its full duration at time `now`. The expiry
    /// is taken without wrapping: one that lies beyond the last timestamp is
    /// never reached.
    pub fn is_expired(&self, now: i64) -> (expired: bool)
        ensures
            expired == self.expired_at(now),
    {
        match self.start_ts.checked_add(self.duration) {
            Some(expiry) => now >= expiry,
            None => self.duration < 0,
        }
    }
}

/// Whether the outstanding total accounts for this loan: an active loan's
/// principal is part of it.
pub open spec fn books_cover(config: ProtocolConfig, loan: Loan) -> bool {
    loan.outstanding_principal() <= config.total_loans_outstanding
}

} // verus!
