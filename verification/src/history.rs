//! Any lifecycle call as a value, and sequences of calls.

use crate::book::{BookState, CallState};
use crate::model::{Accrued, Outcome};
use crate::types::{Address, CreditLineData, CreditStatus, Symbol};
use vstd::prelude::*;

verus! {

/// One lifecycle call with its arguments and with what interest accrual answers to it.
pub enum Operation {
    SetCreditLimitBounds { min: i128, max: i128 },
    SetRepaymentSchedule {
        borrower: Address,
        amount_per_period: i128,
        period_seconds: u64,
        first_due_ts: u64,
    },
    AdvanceRepaymentSchedule { borrower: Address, amount: i128 },
    Open { borrower: Address, credit_limit: i128, interest_rate_bps: u32, risk_score: u32 },
    Suspend { borrower: Address, accrued: Accrued },
    SelfSuspend { borrower: Address, accrued: Accrued },
    Close { borrower: Address, closer: Address, accrued: Accrued },
    /// Accrual answers for each borrower in turn.
    CloseBatch { borrowers: Seq<Address>, answers: Seq<Accrued> },
    Default { borrower: Address, accrued: Accrued },
    Forgive { borrower: Address, amount: i128, accrued: Accrued },
    Settle {
        borrower: Address,
        recovered_amount: i128,
        settlement_id: Symbol,
        accrued: Accrued,
    },
    Reinstate { borrower: Address, target_status: CreditStatus, accrued: Accrued },
}

/// Calls made one after the other.
pub type History = Seq<(CallState, Operation)>;

impl Operation {
    /// The call names `borrower`.
    pub open spec fn concerns(self, borrower: Address) -> bool {
        match self {
            Operation::SetCreditLimitBounds { .. } => false,
            Operation::SetRepaymentSchedule { borrower: b, .. } => b == borrower,
            Operation::AdvanceRepaymentSchedule { borrower: b, .. } => b == borrower,
            Operation::Open { borrower: b, .. } => b == borrower,
            Operation::Suspend { borrower: b, .. } => b == borrower,
            Operation::SelfSuspend { borrower: b, .. } => b == borrower,
            Operation::Close { borrower: b, .. } => b == borrower,
            Operation::CloseBatch { borrowers, .. } => borrowers.contains(borrower),
            Operation::Default { borrower: b, .. } => b == borrower,
            Operation::Forgive { borrower: b, .. } => b == borrower,
            Operation::Settle { borrower: b, .. } => b == borrower,
            Operation::Reinstate { borrower: b, .. } => b == borrower,
        }
    }

    /// The borrower whose line accrual is asked about and the line that it answers with, for a
    /// call that lets interest accrue on one line and is not stopped by it.
    pub open spec fn accrual(self) -> Option<(Address, CreditLineData)> {
        match self {
            Operation::Suspend { borrower, accrued: Ok(line) } => Some((borrower, line)),
            Operation::SelfSuspend { borrower, accrued: Ok(line) } => Some((borrower, line)),
            Operation::Close { borrower, accrued: Ok(line), .. } => Some((borrower, line)),
            Operation::Default { borrower, accrued: Ok(line) } => Some((borrower, line)),
            Operation::Forgive { borrower, accrued: Ok(line), .. } => Some((borrower, line)),
            Operation::Settle { borrower, accrued: Ok(line), .. } => Some((borrower, line)),
            Operation::Reinstate { borrower, accrued: Ok(line), .. } => Some((borrower, line)),
            _ => None,
        }
    }
}

impl BookState {
    /// What the call comes to.
    pub open spec fn step(self, call: CallState, operation: Operation) -> Outcome {
        match operation {
            Operation::SetCreditLimitBounds { min, max } => self.set_credit_limit_bounds(
                call,
                min,
                max,
            ),
            Operation::SetRepaymentSchedule {
                borrower,
                amount_per_period,
                period_seconds,
                first_due_ts,
            } => self.set_repayment_schedule(
                call,
                borrower,
                amount_per_period,
                period_seconds,
                first_due_ts,
            ),
            Operation::AdvanceRepaymentSchedule { borrower, amount } => Ok(
                self.advanced(borrower, amount),
            ),
            Operation::Open { borrower, credit_limit, interest_rate_bps, risk_score } =>
                self.open_credit_line(call, borrower, credit_limit, interest_rate_bps, risk_score),
            Operation::Suspend { borrower, accrued } => self.suspend_credit_line(
                call,
                borrower,
                accrued,
            ),
            Operation::SelfSuspend { borrower, accrued } => self.self_suspend_credit_line(
                call,
                borrower,
                accrued,
            ),
            Operation::Close { borrower, closer, accrued } => self.close_credit_line(
                call,
                borrower,
                closer,
                accrued,
            ),
            Operation::CloseBatch { borrowers, answers } => self.close_credit_lines_batch(
                call,
                borrowers,
                answers,
            ),
            Operation::Default { borrower, accrued } => self.default_credit_line(
                call,
                borrower,
                accrued,
            ),
            Operation::Forgive { borrower, amount, accrued } => self.forgive_debt(
                call,
                borrower,
                amount,
                accrued,
            ),
            Operation::Settle { borrower, recovered_amount, settlement_id, accrued } =>
                self.settle_default_liquidation(
                    call,
                    borrower,
                    recovered_amount,
                    settlement_id,
                    accrued,
                ),
            Operation::Reinstate { borrower, target_status, accrued } =>
                self.reinstate_credit_line(call, borrower, target_status, accrued),
        }
    }

    /// The state after the call, whether it was accepted or refused.
    pub open spec fn after(self, call: CallState, operation: Operation) -> BookState {
        match self.step(call, operation) {
            Ok(next) => next,
            Err(_) => self,
        }
    }

    /// The state after all calls of `history`.
    pub open spec fn run(self, history: History) -> BookState
        decreases history.len(),
    {
        if history.len() == 0 {
            self
        } else {
            let (call, operation) = history.last();
            self.run(history.drop_last()).after(call, operation)
        }
    }

    /// Accrual answers with a line of the status that the stored line has.
    pub open spec fn accrual_keeps_status(self, operation: Operation) -> bool {
        operation.accrual() matches Some((borrower, line)) ==> self.status(borrower) == Some(
            line.status,
        )
    }

    /// Accrual does not lower the debt of the line.
    pub open spec fn accrual_keeps_debt(self, operation: Operation) -> bool {
        operation.accrual() matches Some((borrower, line)) ==> self.debt(borrower)
            <= line.utilized_amount
    }
}

} // verus!
