//! What each lifecycle call means.
//!
//! Every call is described by the first of its refusals that applies and, where none does, by
//! the state that it leaves. A refused call leaves the state as it was.

use crate::book::{BookState, CallState, SettlementKey};
use crate::events::{
    CreditLineEvent, DefaultLiquidationRequestedEvent, DefaultLiquidationSettledEvent, Event,
    LineTopic,
};
use crate::types::{
    Address, ContractError, CreditLineData, CreditStatus, RepaymentSchedule, Symbol,
};
use vstd::prelude::*;

verus! {

/// The highest interest rate that a line may be opened with, in basis points.
pub const MAX_INTEREST_RATE_BPS: u32 = 10_000;

/// A state, or the reason why there is none.
pub type Outcome = Result<BookState, ContractError>;

/// What interest accrual answers for a stored line.
pub type Accrued = Result<CreditLineData, ContractError>;

/// A call that started in `pre` ended as `outcome` says: it reached the state that `outcome`
/// holds, or it was refused for the reason that `outcome` holds and changed nothing.
pub open spec fn ends_as(
    pre: BookState,
    post: BookState,
    result: Result<(), ContractError>,
    outcome: Outcome,
) -> bool {
    match outcome {
        Ok(next) => result is Ok && post == next,
        Err(reason) => result == Err::<(), ContractError>(reason) && post == pre,
    }
}

/// The smaller of two numbers.
pub open spec fn min_of(x: int, y: int) -> int {
    if x <= y {
        x
    } else {
        y
    }
}

/// The number is one that an amount can hold.
pub open spec fn fits_i128(x: int) -> bool {
    i128::MIN <= x <= i128::MAX
}

/// The difference of two amounts, or zero where it does not fit.
pub open spec fn difference_or_zero(x: int, y: int) -> i128 {
    if fits_i128(x - y) {
        (x - y) as i128
    } else {
        0
    }
}

/// The key under which an applied settlement is recorded.
pub open spec fn settlement_key(borrower: Address, settlement_id: Symbol) -> SettlementKey {
    (liq_seen(), borrower, settlement_id)
}

/// The symbol `liq_seen`.
pub open spec fn liq_seen() -> Symbol {
    Symbol { hi: 0x6c69_715f_7365_656e_0000_0000_0000_0000, lo: 0 }
}

/// The event that a line has moved to `status`.
pub open spec fn line_event(
    topic: LineTopic,
    borrower: Address,
    status: CreditStatus,
    line: CreditLineData,
) -> Event {
    Event::CreditLine {
        topic,
        line: CreditLineEvent {
            borrower,
            status,
            credit_limit: line.credit_limit,
            interest_rate_bps: line.interest_rate_bps,
            risk_score: line.risk_score,
        },
    }
}

impl BookState {
    /// The line of `borrower`, if there is one.
    pub open spec fn line(self, borrower: Address) -> Option<CreditLineData> {
        if self.lines.contains_key(borrower) {
            Some(self.lines[borrower])
        } else {
            None
        }
    }

    /// The status of `borrower`'s line, if there is one.
    pub open spec fn status(self, borrower: Address) -> Option<CreditStatus> {
        match self.line(borrower) {
            Some(line) => Some(line.status),
            None => None,
        }
    }

    /// The recorded debt of `borrower`: none without a line.
    pub open spec fn debt(self, borrower: Address) -> int {
        match self.line(borrower) {
            Some(line) => line.utilized_amount as int,
            None => 0,
        }
    }

    /// `credit_limit` respects the bounds that are configured.
    pub open spec fn within_bounds(self, credit_limit: i128) -> bool {
        &&& self.min_credit_limit matches Some(min) ==> min <= credit_limit
        &&& self.max_credit_limit matches Some(max) ==> credit_limit <= max
    }

    /// The administrator authorized the call.
    pub open spec fn admin_signed(self, call: CallState) -> bool {
        self.admin matches Some(admin) && call.signers.contains(admin)
    }

    /// Why the administrator's consent is missing, if it is.
    pub open spec fn admin_auth_refusal(self, call: CallState) -> Option<ContractError> {
        match self.admin {
            None => Some(ContractError::AdminNotSet),
            Some(admin) => if call.signers.contains(admin) {
                None
            } else {
                Some(ContractError::MissingAuthorization)
            },
        }
    }

    /// Why a call that only the administrator may make is turned away, if it is.
    pub open spec fn admin_call_refusal(self, call: CallState) -> Option<ContractError> {
        match self.admin_auth_refusal(call) {
            Some(reason) => Some(reason),
            None => if self.paused {
                Some(ContractError::Paused)
            } else {
                None
            },
        }
    }

    /// Why a call that `party` makes on its own behalf is turned away, if it is.
    pub open spec fn own_call_refusal(self, call: CallState, party: Address) -> Option<
        ContractError,
    > {
        if !call.signers.contains(party) {
            Some(ContractError::MissingAuthorization)
        } else if self.paused {
            Some(ContractError::Paused)
        } else {
            None
        }
    }

    /// The debt of all lines together, once `borrower`'s debt is `utilized` in place of
    /// `previous`.
    pub open spec fn retotalled(self, previous: int, utilized: int) -> int {
        self.total_utilized - previous + utilized
    }

    /// Files `line` for `borrower` and moves the total by what its debt has changed since it was
    /// `previous`.
    pub open spec fn persisted(
        self,
        borrower: Address,
        line: CreditLineData,
        previous: i128,
    ) -> Outcome {
        let total = self.retotalled(previous as int, line.utilized_amount as int);
        if fits_i128(total) {
            Ok(
                BookState {
                    total_utilized: total as i128,
                    lines: self.lines.insert(borrower, line),
                    ..self
                },
            )
        } else {
            Err(ContractError::Overflow)
        }
    }

    /// Without a repayment schedule for `borrower`.
    pub open spec fn unscheduled(self, borrower: Address) -> BookState {
        BookState { schedules: self.schedules.remove(borrower), ..self }
    }

    /// With `event` announced.
    pub open spec fn announced(self, event: Event) -> BookState {
        BookState { events: self.events.push(event), ..self }
    }

    // ---- credit limit bounds ----

    /// The administrator sets the bounds of credit limits.
    pub open spec fn set_credit_limit_bounds(
        self,
        call: CallState,
        min: i128,
        max: i128,
    ) -> Outcome {
        match self.admin_call_refusal(call) {
            Some(reason) => Err(reason),
            None => if min < 0 {
                Err(ContractError::InvalidAmount)
            } else if max < min {
                Err(ContractError::LimitOutOfBounds)
            } else {
                Ok(BookState { min_credit_limit: Some(min), max_credit_limit: Some(max), ..self })
            },
        }
    }

    // ---- repayment schedule ----

    /// The administrator sets or replaces `borrower`'s schedule.
    pub open spec fn set_repayment_schedule(
        self,
        call: CallState,
        borrower: Address,
        amount_per_period: i128,
        period_seconds: u64,
        first_due_ts: u64,
    ) -> Outcome {
        match self.admin_call_refusal(call) {
            Some(reason) => Err(reason),
            None => if amount_per_period <= 0 || period_seconds == 0 {
                Err(ContractError::InvalidAmount)
            } else if self.line(borrower) is None {
                Err(ContractError::CreditLineNotFound)
            } else if self.lines[borrower].status is Closed {
                Err(ContractError::CreditLineClosed)
            } else {
                let schedule = RepaymentSchedule {
                    amount_per_period,
                    period_seconds,
                    next_due_ts: first_due_ts,
                };
                Ok(BookState { schedules: self.schedules.insert(borrower, schedule), ..self })
            },
        }
    }

    /// After a repayment of `amount`, the due date of a usable schedule lies as many periods
    /// later as the amount covers installments, but no later than the last moment that a
    /// timestamp can name.
    pub open spec fn advanced(self, borrower: Address, amount: i128) -> BookState {
        if amount > 0 && self.schedules.contains_key(borrower)
            && self.schedules[borrower].amount_per_period > 0
            && self.schedules[borrower].period_seconds > 0 {
            let schedule = self.schedules[borrower];
            BookState {
                schedules: self.schedules.insert(
                    borrower,
                    RepaymentSchedule {
                        next_due_ts: advanced_due_ts(schedule, amount) as u64,
                        ..schedule
                    },
                ),
                ..self
            }
        } else {
            self
        }
    }

    // ---- opening ----

    /// Why `borrower`'s line cannot be opened on these terms.
    pub open spec fn open_terms_refusal(
        self,
        borrower: Address,
        credit_limit: i128,
        interest_rate_bps: u32,
        risk_score: u32,
    ) -> Option<ContractError> {
        if credit_limit <= 0 {
            Some(ContractError::InvalidAmount)
        } else if interest_rate_bps > MAX_INTEREST_RATE_BPS {
            Some(ContractError::RateTooHigh)
        } else if risk_score > self.max_risk_score {
            Some(ContractError::ScoreTooHigh)
        } else if !self.within_bounds(credit_limit) {
            Some(ContractError::LimitOutOfBounds)
        } else if self.status(borrower) == Some(CreditStatus::Active) {
            Some(ContractError::AlreadyInitialized)
        } else {
            None
        }
    }

    /// The administrator opens `borrower`'s line, or replaces one that is not active.
    pub open spec fn open_credit_line(
        self,
        call: CallState,
        borrower: Address,
        credit_limit: i128,
        interest_rate_bps: u32,
        risk_score: u32,
    ) -> Outcome {
        match self.admin_call_refusal(call) {
            Some(reason) => Err(reason),
            None => match self.open_terms_refusal(
                borrower,
                credit_limit,
                interest_rate_bps,
                risk_score,
            ) {
                Some(reason) => Err(reason),
                None => {
                    let line = CreditLineData {
                        borrower,
                        credit_limit,
                        utilized_amount: 0,
                        interest_rate_bps,
                        risk_score,
                        status: CreditStatus::Active,
                        last_rate_update_ts: 0,
                        accrued_interest: 0,
                        last_accrual_ts: call.now,
                        suspension_ts: 0,
                    };
                    match self.persisted(borrower, line, self.debt(borrower) as i128) {
                        Err(reason) => Err(reason),
                        Ok(next) => Ok(
                            next.unscheduled(borrower).announced(
                                line_event(
                                    LineTopic::Opened,
                                    borrower,
                                    CreditStatus::Active,
                                    line,
                                ),
                            ),
                        ),
                    }
                },
            },
        }
    }

    // ---- suspending ----

    /// Suspends `borrower`'s line, which accrual brought to `accrued`.
    pub open spec fn suspended(
        self,
        call: CallState,
        borrower: Address,
        accrued: Accrued,
    ) -> Outcome {
        match accrued {
            Err(reason) => Err(reason),
            Ok(line) => if !(line.status is Active) {
                Err(ContractError::CreditLineSuspended)
            } else if call.now < line.suspension_ts {
                Err(ContractError::TimestampRegression)
            } else {
                let next_line = CreditLineData {
                    status: CreditStatus::Suspended,
                    suspension_ts: call.now,
                    ..line
                };
                match self.persisted(borrower, next_line, self.debt(borrower) as i128) {
                    Err(reason) => Err(reason),
                    Ok(next) => Ok(
                        next.announced(
                            line_event(
                                LineTopic::Suspend,
                                borrower,
                                CreditStatus::Suspended,
                                line,
                            ),
                        ),
                    ),
                }
            },
        }
    }

    /// Why the administrator's suspension is refused before interest accrues, if it is.
    pub open spec fn suspend_refusal(self, call: CallState, borrower: Address) -> Option<
        ContractError,
    > {
        match self.admin_call_refusal(call) {
            Some(reason) => Some(reason),
            None => self.missing_line_refusal(borrower),
        }
    }

    /// Why the borrower's own suspension is refused before interest accrues, if it is.
    pub open spec fn self_suspend_refusal(self, call: CallState, borrower: Address) -> Option<
        ContractError,
    > {
        match self.own_call_refusal(call, borrower) {
            Some(reason) => Some(reason),
            None => self.missing_line_refusal(borrower),
        }
    }

    /// Why a call on a line is refused where there is none.
    pub open spec fn missing_line_refusal(self, borrower: Address) -> Option<ContractError> {
        if self.line(borrower) is None {
            Some(ContractError::CreditLineNotFound)
        } else {
            None
        }
    }

    /// The administrator suspends `borrower`'s line.
    pub open spec fn suspend_credit_line(
        self,
        call: CallState,
        borrower: Address,
        accrued: Accrued,
    ) -> Outcome {
        match self.suspend_refusal(call, borrower) {
            Some(reason) => Err(reason),
            None => self.suspended(call, borrower, accrued),
        }
    }

    /// `borrower` suspends its own line.
    pub open spec fn self_suspend_credit_line(
        self,
        call: CallState,
        borrower: Address,
        accrued: Accrued,
    ) -> Outcome {
        match self.self_suspend_refusal(call, borrower) {
            Some(reason) => Err(reason),
            None => self.suspended(call, borrower, accrued),
        }
    }

    // ---- closing ----

    /// Why `closer` may not close `borrower`'s line, whatever is owed on it.
    pub open spec fn close_refusal(
        self,
        call: CallState,
        borrower: Address,
        closer: Address,
    ) -> Option<ContractError> {
        match self.own_call_refusal(call, closer) {
            Some(reason) => Some(reason),
            None => if self.admin is None {
                Some(ContractError::AdminNotSet)
            } else if self.line(borrower) is None {
                Some(ContractError::CreditLineNotFound)
            } else if !(self.lines[borrower].status is Closed) && self.admin != Some(closer)
                && closer != borrower {
                Some(ContractError::Unauthorized)
            } else {
                None
            },
        }
    }

    /// Closes `borrower`'s line, which accrual brought to `accrued`: the administrator closes
    /// it whatever is owed, anyone else only when nothing is.
    pub open spec fn closed(self, borrower: Address, closer: Address, accrued: Accrued) -> Outcome {
        match accrued {
            Err(reason) => Err(reason),
            Ok(line) => if self.admin != Some(closer) && line.utilized_amount != 0 {
                Err(ContractError::UtilizationNotZero)
            } else {
                let next_line = CreditLineData { status: CreditStatus::Closed, ..line };
                match self.persisted(borrower, next_line, self.debt(borrower) as i128) {
                    Err(reason) => Err(reason),
                    Ok(next) => Ok(
                        next.unscheduled(borrower).announced(
                            line_event(LineTopic::Closed, borrower, CreditStatus::Closed, line),
                        ),
                    ),
                }
            },
        }
    }

    /// `closer` closes `borrower`'s line: the administrator any, the borrower one without debt.
    /// A line that is closed already is left as it is.
    pub open spec fn close_credit_line(
        self,
        call: CallState,
        borrower: Address,
        closer: Address,
        accrued: Accrued,
    ) -> Outcome {
        match self.close_refusal(call, borrower, closer) {
            Some(reason) => Err(reason),
            None => if self.lines[borrower].status is Closed {
                Ok(self)
            } else {
                self.closed(borrower, closer, accrued)
            },
        }
    }

    /// The administrator closes one line of a batch, which accrual brought to `accrued`.
    pub open spec fn closed_in_batch(self, borrower: Address, accrued: Accrued) -> Outcome {
        match self.open_line_refusal(borrower) {
            Some(reason) => Err(reason),
            None => self.closed(borrower, self.admin->0, accrued),
        }
    }

    /// Closes the lines of a batch one after the other, up to the first that cannot be closed;
    /// `answers` holds what accrual answers for each.
    pub open spec fn closed_in_turn(
        self,
        borrowers: Seq<Address>,
        answers: Seq<Accrued>,
    ) -> Outcome
        decreases borrowers.len(),
    {
        if borrowers.len() == 0 {
            Ok(self)
        } else {
            match self.closed_in_turn(borrowers.drop_last(), answers) {
                Err(reason) => Err(reason),
                Ok(next) => next.closed_in_batch(
                    borrowers.last(),
                    answers[borrowers.len() - 1],
                ),
            }
        }
    }

    /// The batch gets to letting interest accrue on the line of the borrower at `at`: all lines
    /// before it could be closed, and this one is there and not closed.
    pub open spec fn batch_consults(
        self,
        borrowers: Seq<Address>,
        answers: Seq<Accrued>,
        at: int,
    ) -> bool {
        self.closed_in_turn(borrowers.take(at), answers) matches Ok(next)
            && next.open_line_refusal(borrowers[at]) is None
    }

    /// Why a batch is refused before any line of it is looked at, if it is.
    pub open spec fn batch_refusal(self, call: CallState, borrowers: Seq<Address>) -> Option<
        ContractError,
    > {
        match self.admin_call_refusal(call) {
            Some(reason) => Some(reason),
            None => if borrowers.len() > self.batch_close_max {
                Some(ContractError::BatchTooLarge)
            } else {
                None
            },
        }
    }

    /// The administrator closes the lines of `borrowers`, all or none.
    pub open spec fn close_credit_lines_batch(
        self,
        call: CallState,
        borrowers: Seq<Address>,
        answers: Seq<Accrued>,
    ) -> Outcome {
        match self.batch_refusal(call, borrowers) {
            Some(reason) => Err(reason),
            None => self.closed_in_turn(borrowers, answers),
        }
    }

    // ---- defaulting ----

    /// Why a call on an open line is refused before interest accrues, if it is.
    pub open spec fn open_line_refusal(self, borrower: Address) -> Option<ContractError> {
        if self.line(borrower) is None {
            Some(ContractError::CreditLineNotFound)
        } else if self.lines[borrower].status is Closed {
            Some(ContractError::CreditLineClosed)
        } else {
            None
        }
    }

    /// Why a default is refused before interest accrues, if it is.
    pub open spec fn default_refusal(self, call: CallState, borrower: Address) -> Option<
        ContractError,
    > {
        match self.admin_call_refusal(call) {
            Some(reason) => Some(reason),
            None => self.open_line_refusal(borrower),
        }
    }

    /// Puts `borrower`'s line, which accrual brought to `accrued`, into default.
    pub open spec fn defaulted(self, borrower: Address, accrued: Accrued) -> Outcome {
        match accrued {
            Err(reason) => Err(reason),
            Ok(line) => if line.status is Closed {
                Err(ContractError::CreditLineClosed)
            } else if line.status is Defaulted {
                Ok(self)
            } else {
                let next_line = CreditLineData { status: CreditStatus::Defaulted, ..line };
                match self.persisted(borrower, next_line, self.debt(borrower) as i128) {
                    Err(reason) => Err(reason),
                    Ok(next) => Ok(
                        next.announced(
                            line_event(
                                LineTopic::Default,
                                borrower,
                                CreditStatus::Defaulted,
                                line,
                            ),
                        ).announced(
                            Event::LiquidationRequested {
                                request: DefaultLiquidationRequestedEvent {
                                    borrower,
                                    utilized_amount: line.utilized_amount,
                                },
                            },
                        ),
                    ),
                }
            },
        }
    }

    /// The administrator puts `borrower`'s line into default.
    pub open spec fn default_credit_line(
        self,
        call: CallState,
        borrower: Address,
        accrued: Accrued,
    ) -> Outcome {
        match self.default_refusal(call, borrower) {
            Some(reason) => Err(reason),
            None => self.defaulted(borrower, accrued),
        }
    }

    // ---- forgiving ----

    /// Why a write-off is refused before interest accrues, if it is.
    pub open spec fn forgive_refusal(
        self,
        call: CallState,
        borrower: Address,
        amount: i128,
    ) -> Option<ContractError> {
        match self.admin_call_refusal(call) {
            Some(reason) => Some(reason),
            None => if amount <= 0 {
                Some(ContractError::InvalidAmount)
            } else {
                self.open_line_refusal(borrower)
            },
        }
    }

    /// Writes `amount`, but no more than is owed, off `borrower`'s line, which accrual brought
    /// to `accrued`; interest is forgiven first.
    pub open spec fn forgiven(self, borrower: Address, amount: i128, accrued: Accrued) -> Outcome {
        match accrued {
            Err(reason) => Err(reason),
            Ok(line) => self.persisted(
                borrower,
                written_off(line, amount),
                self.debt(borrower) as i128,
            ),
        }
    }

    /// The administrator writes debt off `borrower`'s line.
    pub open spec fn forgive_debt(
        self,
        call: CallState,
        borrower: Address,
        amount: i128,
        accrued: Accrued,
    ) -> Outcome {
        match self.forgive_refusal(call, borrower, amount) {
            Some(reason) => Err(reason),
            None => self.forgiven(borrower, amount, accrued),
        }
    }

    // ---- settling ----

    /// Why a settlement is refused before interest accrues, if it is.
    pub open spec fn settle_refusal(
        self,
        call: CallState,
        borrower: Address,
        recovered_amount: i128,
        settlement_id: Symbol,
    ) -> Option<ContractError> {
        match self.admin_call_refusal(call) {
            Some(reason) => Some(reason),
            None => if recovered_amount <= 0 {
                Some(ContractError::InvalidAmount)
            } else if self.settled.contains(settlement_key(borrower, settlement_id)) {
                Some(ContractError::AlreadyInitialized)
            } else {
                self.missing_line_refusal(borrower)
            },
        }
    }

    /// Applies liquidation proceeds to `borrower`'s line, which accrual brought to `accrued`,
    /// and closes the line where nothing is left to recover.
    pub open spec fn recovered(
        self,
        borrower: Address,
        recovered_amount: i128,
        settlement_id: Symbol,
        accrued: Accrued,
    ) -> Outcome {
        match accrued {
            Err(reason) => Err(reason),
            Ok(line) => if !(line.status is Defaulted) {
                Err(ContractError::CreditLineDefaulted)
            } else if recovered_amount > line.utilized_amount {
                Err(ContractError::OverLimit)
            } else {
                let remaining = (line.utilized_amount - recovered_amount) as i128;
                let status = if remaining == 0 {
                    CreditStatus::Closed
                } else {
                    CreditStatus::Defaulted
                };
                let next_line = CreditLineData { utilized_amount: remaining, status, ..line };
                match self.persisted(borrower, next_line, self.debt(borrower) as i128) {
                    Err(reason) => Err(reason),
                    Ok(filed) => {
                        let marked = BookState {
                            settled: filed.settled.insert(settlement_key(borrower, settlement_id)),
                            ..filed
                        };
                        let ended = if remaining == 0 {
                            marked.unscheduled(borrower).announced(
                                line_event(
                                    LineTopic::Closed,
                                    borrower,
                                    CreditStatus::Closed,
                                    line,
                                ),
                            )
                        } else {
                            marked
                        };
                        Ok(
                            ended.announced(
                                Event::LiquidationSettled {
                                    settlement: DefaultLiquidationSettledEvent {
                                        borrower,
                                        settlement_id,
                                        recovered_amount,
                                        remaining_utilized_amount: remaining,
                                        status,
                                    },
                                },
                            ),
                        )
                    },
                }
            },
        }
    }

    /// The administrator applies liquidation proceeds to `borrower`'s line.
    pub open spec fn settle_default_liquidation(
        self,
        call: CallState,
        borrower: Address,
        recovered_amount: i128,
        settlement_id: Symbol,
        accrued: Accrued,
    ) -> Outcome {
        match self.settle_refusal(call, borrower, recovered_amount, settlement_id) {
            Some(reason) => Err(reason),
            None => self.recovered(borrower, recovered_amount, settlement_id, accrued),
        }
    }

    // ---- reinstating ----

    /// Why a reinstatement is refused before interest accrues, if it is.
    pub open spec fn reinstate_refusal(
        self,
        call: CallState,
        borrower: Address,
        target_status: CreditStatus,
    ) -> Option<ContractError> {
        match self.admin_call_refusal(call) {
            Some(reason) => Some(reason),
            None => if !(target_status is Active || target_status is Restricted) {
                Some(ContractError::InvalidAmount)
            } else {
                self.missing_line_refusal(borrower)
            },
        }
    }

    /// Takes `borrower`'s line, which accrual brought to `accrued`, out of default.
    pub open spec fn reinstated(
        self,
        borrower: Address,
        target_status: CreditStatus,
        accrued: Accrued,
    ) -> Outcome {
        match accrued {
            Err(reason) => Err(reason),
            Ok(line) => if !(line.status is Defaulted) {
                Err(ContractError::CreditLineDefaulted)
            } else {
                let next_line = CreditLineData { status: target_status, suspension_ts: 0, ..line };
                match self.persisted(borrower, next_line, self.debt(borrower) as i128) {
                    Err(reason) => Err(reason),
                    Ok(next) => Ok(
                        next.announced(
                            line_event(LineTopic::Reinstate, borrower, target_status, line),
                        ),
                    ),
                }
            },
        }
    }

    /// The administrator takes `borrower`'s line out of default.
    pub open spec fn reinstate_credit_line(
        self,
        call: CallState,
        borrower: Address,
        target_status: CreditStatus,
        accrued: Accrued,
    ) -> Outcome {
        match self.reinstate_refusal(call, borrower, target_status) {
            Some(reason) => Err(reason),
            None => self.reinstated(borrower, target_status, accrued),
        }
    }
}

/// How many installments a repayment covers, as far as a 64-bit count can say.
pub open spec fn installments_paid(amount: i128, amount_per_period: i128) -> int {
    min_of(amount as int / amount_per_period as int, u64::MAX as int)
}

/// The due date of `schedule` after a repayment of `amount`: a period later for each installment
/// that the amount covers, as far as a timestamp can say.
pub open spec fn advanced_due_ts(schedule: RepaymentSchedule, amount: i128) -> int {
    min_of(
        schedule.next_due_ts + schedule.period_seconds * (amount as int
            / schedule.amount_per_period as int),
        u64::MAX as int,
    )
}

/// `line` once `amount`, but no more than is owed, has been written off; interest goes first.
pub open spec fn written_off(line: CreditLineData, amount: i128) -> CreditLineData {
    let forgiven = min_of(amount as int, line.utilized_amount as int);
    let interest = min_of(forgiven, line.accrued_interest as int);
    CreditLineData {
        accrued_interest: difference_or_zero(line.accrued_interest as int, interest),
        utilized_amount: difference_or_zero(line.utilized_amount as int, forgiven),
        ..line
    }
}

} // verus!
