//! Why an operation was rejected.

use vstd::prelude::*;

verus! {

/// The reason an operation was rejected. A rejected operation changes nothing.
#[derive(Clone, Copy, Debug, PartialEq, Eq, Structural)]
pub enum ErrorCode {
    ProtocolPaused,
    InvalidAmount,
    InsufficientBalance,
    InsufficientLiquidity,
    InvalidDuration,
    InvalidInterestRate,
    InvalidAdminFee,
    LoanNotActive,
    UnauthorizedBorrower,
    LoanNotExpired,
    LoanNotRecovered,
    Unauthorized,
    InvalidParameter,
    UnauthorizedDepositor,
    InvalidLoanId,
    ProgramAlreadySet,
    InvalidProgram,
}

/// The families that rejections fall into.
#[derive(Clone, Copy, Debug, PartialEq, Eq, Structural)]
pub enum ErrorKind {
    /// An amount, duration, rate or identifier is out of range.
    Validation,
    /// The loan is in the wrong stage of its life, or it is too early.
    State,
    /// The caller does not hold the role that the operation asks for.
    Authorization,
    /// The pool or the depositor does not hold enough.
    Resource,
    /// A deployment target is bound that must not be, or missing that must be.
    Binding,
    /// The protocol is paused.
    Paused,
}

impl ErrorCode {
    /// The family of this rejection.
    pub open spec fn spec_kind(self) -> ErrorKind {
        match self {
            ErrorCode::ProtocolPaused => ErrorKind::Paused,
            ErrorCode::InvalidAmount => ErrorKind::Validation,
            ErrorCode::InsufficientBalance => ErrorKind::Resource,
            ErrorCode::InsufficientLiquidity => ErrorKind::Resource,
            ErrorCode::InvalidDuration => ErrorKind::Validation,
            ErrorCode::InvalidInterestRate => ErrorKind::Validation,
            ErrorCode::InvalidAdminFee => ErrorKind::Validation,
            ErrorCode::LoanNotActive => ErrorKind::State,
            ErrorCode::UnauthorizedBorrower => ErrorKind::Authorization,
            ErrorCode::LoanNotExpired => ErrorKind::State,
            ErrorCode::LoanNotRecovered => ErrorKind::State,
            ErrorCode::Unauthorized => ErrorKind::Authorization,
            ErrorCode::InvalidParameter => ErrorKind::Validation,
            ErrorCode::UnauthorizedDepositor => ErrorKind::Authorization,
            ErrorCode::InvalidLoanId => ErrorKind::Validation,
            ErrorCode::ProgramAlreadySet => ErrorKind::Binding,
            ErrorCode::InvalidProgram => ErrorKind::Binding,
        }
    }

    /// The family of this rejection.
    #[verifier::when_used_as_spec(spec_kind)]
    pub fn kind(self) -> (kind: ErrorKind)
        ensures
            kind == self.spec_kind(),
    {
        match self {
            ErrorCode::ProtocolPaused => ErrorKind::Paused,
            ErrorCode::InvalidAmount => ErrorKind::Validation,
            ErrorCode::InsufficientBalance => ErrorKind::Resource,
            ErrorCode::InsufficientLiquidity => ErrorKind::Resource,
            ErrorCode::InvalidDuration => ErrorKind::Validation,
            ErrorCode::InvalidInterestRate => ErrorKind::Validation,
            ErrorCode::InvalidAdminFee => ErrorKind::Validation,
            ErrorCode::LoanNotActive => ErrorKind::State,
            ErrorCode::UnauthorizedBorrower => ErrorKind::Authorization,
            ErrorCode::LoanNotExpired => ErrorKind::State,
            ErrorCode::LoanNotRecovered => ErrorKind::State,
            ErrorCode::Unauthorized => ErrorKind::Authorization,
            ErrorCode::InvalidParameter => ErrorKind::Validation,
            ErrorCode::UnauthorizedDepositor => ErrorKind::Authorization,
            ErrorCode::InvalidLoanId => ErrorKind::Validation,
            ErrorCode::ProgramAlreadySet => ErrorKind::Binding,
            ErrorCode::InvalidProgram => ErrorKind::Binding,
        }
    }
}

} // verus!
