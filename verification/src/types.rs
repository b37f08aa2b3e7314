//! Plain values that the lifecycle rules read and write.

use vstd::prelude::*;

verus! {

/// What kind of party an address names.
#[derive(Clone, Copy, Debug, PartialEq, Eq, Structural)]
pub enum AddressKind {
    /// A keyed account.
    Account,
    /// A deployed contract.
    Contract,
}

/// The identity of a party: its kind and the thirty-two bytes that identify it, as two halves.
#[derive(Clone, Copy, Debug, PartialEq, Eq, Structural)]
pub struct Address {
    pub kind: AddressKind,
    pub hi: u128,
    pub lo: u128,
}

/// A short name of at most thirty-two characters: its bytes, most significant first and padded
/// at the end with zeros, as two halves. Two symbols are equal exactly when their texts are.
#[derive(Clone, Copy, Debug, PartialEq, Eq, Structural)]
pub struct Symbol {
    pub hi: u128,
    pub lo: u128,
}

/// Where a credit line stands in its life.
#[derive(Clone, Copy, Debug, PartialEq, Eq, Structural)]
pub enum CreditStatus {
    /// Draws and repayments are open.
    Active,
    /// Draws are blocked, repayments are open.
    Suspended,
    /// The line is in default; it can be liquidated or reinstated.
    Defaulted,
    /// The line has ended.
    Closed,
    /// The limit lies below the debt; the excess has to be repaid before draws reopen.
    Restricted,
}

/// The stored record of one borrower's credit line.
#[derive(Clone, Copy, Debug, PartialEq, Eq, Structural)]
pub struct CreditLineData {
    pub borrower: Address,
    pub credit_limit: i128,
    /// Outstanding debt, capitalized interest included.
    pub utilized_amount: i128,
    pub interest_rate_bps: u32,
    pub risk_score: u32,
    pub status: CreditStatus,
    pub last_rate_update_ts: u64,
    /// The part of the debt that is interest.
    pub accrued_interest: i128,
    pub last_accrual_ts: u64,
    pub suspension_ts: u64,
}

/// A borrower's installment plan.
#[derive(Clone, Copy, Debug, PartialEq, Eq, Structural)]
pub struct RepaymentSchedule {
    pub amount_per_period: i128,
    pub period_seconds: u64,
    pub next_due_ts: u64,
}

/// Why a call was refused.
#[derive(Clone, Copy, Debug, PartialEq, Eq, Structural)]
pub enum ContractError {
    /// No administrator has been configured.
    AdminNotSet,
    /// A party whose consent the call needs has not authorized it.
    MissingAuthorization,
    /// The caller is neither the administrator nor the borrower.
    Unauthorized,
    /// The protocol is paused.
    Paused,
    /// An amount, a period or a target status is not acceptable.
    InvalidAmount,
    /// A credit limit, or a pair of bounds, lies outside what is allowed.
    LimitOutOfBounds,
    /// The interest rate exceeds its ceiling.
    RateTooHigh,
    /// The risk score exceeds its ceiling.
    ScoreTooHigh,
    /// The borrower has no credit line.
    CreditLineNotFound,
    /// The line is not active.
    CreditLineSuspended,
    /// The line is closed.
    CreditLineClosed,
    /// The line is not in default.
    CreditLineDefaulted,
    /// The borrower asked to close a line with debt outstanding.
    UtilizationNotZero,
    /// The line is already active, or the settlement was already applied.
    AlreadyInitialized,
    /// More was recovered than is owed.
    OverLimit,
    /// An amount does not fit its type.
    Overflow,
    /// A timestamp would move backwards.
    TimestampRegression,
    /// A batch names more borrowers than a batch may.
    BatchTooLarge,
}

impl ContractError {
    /// The text with which a refusal is reported, for the refusals that carry one.
    pub open spec fn spec_panic_message(self) -> Option<Seq<char>> {
        match self {
            ContractError::CreditLineNotFound => Some("Credit line not found"@),
            ContractError::UtilizationNotZero => Some("cannot close: utilized amount not zero"@),
            ContractError::Unauthorized => Some("unauthorized"@),
            _ => None,
        }
    }

    /// Returns the text with which a refusal is reported, for the refusals that carry one.
    pub fn panic_message(&self) -> (message: Option<&'static str>)
        ensures
            message is Some <==> self.spec_panic_message() is Some,
            message matches Some(text) ==> self.spec_panic_message() == Some(text@),
    {
        match self {
            ContractError::CreditLineNotFound => Some("Credit line not found"),
            ContractError::UtilizationNotZero => Some("cannot close: utilized amount not zero"),
            ContractError::Unauthorized => Some("unauthorized"),
            _ => None,
        }
    }
}

} // verus!
