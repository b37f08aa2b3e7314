//! The lifecycle calls.
//!
//! Each call takes the book that it works on and, where it matters who calls and when, the
//! invocation. A call that is refused returns the reason and leaves the book as it was.
//!
//! Calls that act on a line's debt first let interest accrue. They take the accrual as a
//! function from the stored line to the line brought up to date, consult it once for a line, and
//! only when nothing stands against the call before; whatever it answers, they go on from there.

use crate::auth::{require_admin, require_admin_auth, require_auth};
use crate::batch::{lemma_batch_fails_at, lemma_batch_goes_on, lemma_untouched_before_its_turn};
use crate::book::{BookState, Call, CreditBook, SettlementKey};
use crate::events::{
    publish_credit_line_event, publish_default_liquidation_requested_event,
    publish_default_liquidation_settled_event, CreditLineEvent, DefaultLiquidationSettledEvent,
    LineTopic,
};
use crate::model::{
    advanced_due_ts, difference_or_zero, ends_as, installments_paid, line_event, min_of,
    settlement_key, Accrued, MAX_INTEREST_RATE_BPS,
};
use crate::storage::{
    assert_not_paused, assert_ts_monotonic, clear_repayment_schedule, get_repayment_schedule,
    load_credit_line, persist_credit_line, store_repayment_schedule,
};
use crate::types::{
    Address, ContractError, CreditLineData, CreditStatus, RepaymentSchedule, Symbol,
};
use vstd::prelude::*;

verus! {

/// The key under which an applied settlement is recorded.
pub fn liquidation_settlement_key(borrower: Address, settlement_id: Symbol) -> (key: SettlementKey)
    ensures
        key == settlement_key(borrower, settlement_id),
{
    (Symbol { hi: 0x6c69_715f_7365_656e_0000_0000_0000_0000, lo: 0 }, borrower, settlement_id)
}

/// The administrator has authorized the call, and the protocol is not paused.
fn admit_admin_call(book: &CreditBook, call: &Call) -> (result: Result<Address, ContractError>)
    ensures
        result == (match book@.admin_call_refusal(call@) {
            None => Ok(book@.admin->0),
            Some(reason) => Err(reason),
        }),
{
    let admin = match require_admin_auth(book, call) {
        Err(reason) => return Err(reason),
        Ok(admin) => admin,
    };
    match assert_not_paused(book) {
        Err(reason) => Err(reason),
        Ok(_) => Ok(admin),
    }
}

/// `party` has authorized the call, and the protocol is not paused.
fn admit_own_call(book: &CreditBook, call: &Call, party: Address) -> (result: Result<
    (),
    ContractError,
>)
    ensures
        result == (match book@.own_call_refusal(call@, party) {
            None => Ok(()),
            Some(reason) => Err(reason),
        }),
{
    match require_auth(call, party) {
        Err(reason) => Err(reason),
        Ok(_) => assert_not_paused(book),
    }
}

/// Announces that `borrower`'s line has moved to `status`.
fn announce_line(
    book: &mut CreditBook,
    topic: LineTopic,
    borrower: Address,
    status: CreditStatus,
    line: CreditLineData,
)
    ensures
        final(book)@ == old(book)@.announced(
            line_event(topic, borrower, status, line),
        ),
{
    publish_credit_line_event(
        book,
        topic,
        CreditLineEvent {
            borrower,
            status,
            credit_limit: line.credit_limit,
            interest_rate_bps: line.interest_rate_bps,
            risk_score: line.risk_score,
        },
    );
}

/// Sets the bounds that the limits of newly opened lines have to respect (administrator only).
pub fn set_credit_limit_bounds(
    book: &mut CreditBook,
    call: &Call,
    min: i128,
    max: i128,
) -> (result: Result<(), ContractError>)
    ensures
        ends_as(
            old(book)@,
            final(book)@,
            result,
            old(book)@.set_credit_limit_bounds(call@, min, max),
        ),
{
    if let Err(reason) = admit_admin_call(book, call) {
        return Err(reason);
    }
    if min < 0 {
        return Err(ContractError::InvalidAmount);
    }
    if max < min {
        return Err(ContractError::LimitOutOfBounds);
    }
    book.min_credit_limit = Some(min);
    book.max_credit_limit = Some(max);
    Ok(())
}

/// The least and the greatest credit limit that are configured.
pub fn get_credit_limit_bounds(book: &CreditBook) -> (bounds: (Option<i128>, Option<i128>))
    ensures
        bounds == (book@.min_credit_limit, book@.max_credit_limit),
{
    (book.min_credit_limit, book.max_credit_limit)
}

/// Refuses a credit limit outside the bounds that are configured.
pub fn validate_credit_limit_bounds(book: &CreditBook, credit_limit: i128) -> (result: Result<
    (),
    ContractError,
>)
    ensures
        result == (if book@.within_bounds(credit_limit) {
            Ok(())
        } else {
            Err(ContractError::LimitOutOfBounds)
        }),
{
    if let Some(min_limit) = book.min_credit_limit {
        if credit_limit < min_limit {
            return Err(ContractError::LimitOutOfBounds);
        }
    }
    if let Some(max_limit) = book.max_credit_limit {
        if credit_limit > max_limit {
            return Err(ContractError::LimitOutOfBounds);
        }
    }
    Ok(())
}

/// Sets or replaces a borrower's installment plan (administrator only).
pub fn set_repayment_schedule(
    book: &mut CreditBook,
    call: &Call,
    borrower: Address,
    amount_per_period: i128,
    period_seconds: u64,
    first_due_ts: u64,
) -> (result: Result<(), ContractError>)
    ensures
        ends_as(
            old(book)@,
            final(book)@,
            result,
            old(book)@.set_repayment_schedule(
                call@,
                borrower,
                amount_per_period,
                period_seconds,
                first_due_ts,
            ),
        ),
{
    if let Err(reason) = admit_admin_call(book, call) {
        return Err(reason);
    }
    if amount_per_period <= 0 || period_seconds == 0 {
        return Err(ContractError::InvalidAmount);
    }
    let line = match load_credit_line(book, borrower) {
        Err(reason) => return Err(reason),
        Ok(line) => line,
    };
    if line.status == CreditStatus::Closed {
        return Err(ContractError::CreditLineClosed);
    }
    store_repayment_schedule(
        book,
        borrower,
        RepaymentSchedule { amount_per_period, period_seconds, next_due_ts: first_due_ts },
    );
    Ok(())
}

/// The number of installments that `amount` covers, as far as a 64-bit count can say.
fn count_installments(amount: i128, amount_per_period: i128) -> (count: u64)
    requires
        amount > 0,
        amount_per_period > 0,
    ensures
        count == installments_paid(amount, amount_per_period),
{
    let installments: i128 = amount / amount_per_period;
    assert(installments >= 0) by (nonlinear_arith)
        requires
            amount > 0,
            amount_per_period > 0,
            installments == amount as int / amount_per_period as int,
    ;
    if installments > u64::MAX as i128 {
        u64::MAX
    } else {
        installments as u64
    }
}

/// Capping the count of installments does not change the due date.
proof fn lemma_capped_count(schedule: RepaymentSchedule, amount: i128)
    requires
        amount > 0,
        schedule.amount_per_period > 0,
        schedule.period_seconds > 0,
    ensures
        0 <= schedule.period_seconds * installments_paid(amount, schedule.amount_per_period),
        advanced_due_ts(schedule, amount) == min_of(
            schedule.next_due_ts + schedule.period_seconds * installments_paid(
                amount,
                schedule.amount_per_period,
            ),
            u64::MAX as int,
        ),
{
    let period = schedule.period_seconds as int;
    let covered = amount as int / schedule.amount_per_period as int;
    let per = schedule.amount_per_period as int;
    assert(covered >= 0) by (nonlinear_arith)
        requires
            amount > 0,
            per > 0,
            covered == amount as int / per,
    ;
    assert(period * covered >= covered) by (nonlinear_arith)
        requires
            period >= 1,
            covered >= 0,
    ;
    let most = u64::MAX as int;
    assert(period * most >= most) by (nonlinear_arith)
        requires
            period >= 1,
            most >= 0,
    ;
}

/// Moves a borrower's due date on when a repayment covers one or more installments.
pub fn advance_repayment_schedule_after_repay(
    book: &mut CreditBook,
    borrower: Address,
    amount: i128,
)
    ensures
        final(book)@ == old(book)@.advanced(borrower, amount),
{
    if amount <= 0 {
        return;
    }
    let mut schedule = match get_repayment_schedule(book, borrower) {
        None => return,
        Some(schedule) => schedule,
    };
    if schedule.amount_per_period <= 0 || schedule.period_seconds == 0 {
        return;
    }
    let installments_paid: u64 = count_installments(amount, schedule.amount_per_period);
    proof {
        lemma_capped_count(schedule, amount);
    }
    if installments_paid == 0 {
        assert(book@.advanced(borrower, amount) =~= book@);
        return;
    }
    let advance_seconds: u64 = match schedule.period_seconds.checked_mul(installments_paid) {
        Some(seconds) => seconds,
        None => u64::MAX,
    };
    schedule.next_due_ts = schedule.next_due_ts.saturating_add(advance_seconds);
    store_repayment_schedule(book, borrower, schedule);
}

/// Opens a credit line, or replaces one that is not active (administrator only).
pub fn open_credit_line(
    book: &mut CreditBook,
    call: &Call,
    borrower: Address,
    credit_limit: i128,
    interest_rate_bps: u32,
    risk_score: u32,
) -> (result: Result<(), ContractError>)
    ensures
        ends_as(
            old(book)@,
            final(book)@,
            result,
            old(book)@.open_credit_line(
                call@,
                borrower,
                credit_limit,
                interest_rate_bps,
                risk_score,
            ),
        ),
{
    if let Err(reason) = admit_admin_call(book, call) {
        return Err(reason);
    }
    if credit_limit <= 0 {
        return Err(ContractError::InvalidAmount);
    }
    if interest_rate_bps > MAX_INTEREST_RATE_BPS {
        return Err(ContractError::RateTooHigh);
    }
    if risk_score > book.max_risk_score {
        return Err(ContractError::ScoreTooHigh);
    }
    if let Err(reason) = validate_credit_limit_bounds(book, credit_limit) {
        return Err(reason);
    }
    let previous_utilized: i128 = match book.lines.get(borrower) {
        Some(existing) => {
            if existing.status == CreditStatus::Active {
                return Err(ContractError::AlreadyInitialized);
            }
            existing.utilized_amount
        },
        None => 0,
    };
    let line = CreditLineData {
        borrower,
        credit_limit,
        utilized_amount: 0,
        interest_rate_bps,
        risk_score,
        status: CreditStatus::Active,
        last_rate_update_ts: 0,
        accrued_interest: 0,
        last_accrual_ts: call.now,
        suspension_ts: 0,
    };
    if let Err(reason) = persist_credit_line(book, borrower, line, previous_utilized) {
        return Err(reason);
    }
    clear_repayment_schedule(book, borrower);
    announce_line(book, LineTopic::Opened, borrower, CreditStatus::Active, line);
    Ok(())
}

/// Suspends an active line, whoever asked for it.
fn suspend_credit_line_internal<A: Fn(CreditLineData) -> Accrued>(
    book: &mut CreditBook,
    call: &Call,
    borrower: Address,
    accrue: A,
) -> (result: Result<(), ContractError>)
    requires
        old(book)@.lines.contains_key(borrower) ==> call_requires(
            accrue,
            (old(book)@.lines[borrower],),
        ),
    ensures
        match old(book)@.missing_line_refusal(borrower) {
            Some(reason) => ends_as(old(book)@, final(book)@, result, Err(reason)),
            None => exists|accrued: Accrued| #[trigger]
                call_ensures(accrue, (old(book)@.lines[borrower],), accrued) && ends_as(
                    old(book)@,
                    final(book)@,
                    result,
                    old(book)@.suspended(call@, borrower, accrued),
                ),
        },
{
    let stored_line = match load_credit_line(book, borrower) {
        Err(reason) => return Err(reason),
        Ok(line) => line,
    };
    let mut line = match accrue(stored_line) {
        Err(reason) => return Err(reason),
        Ok(line) => line,
    };
    if line.status != CreditStatus::Active {
        return Err(ContractError::CreditLineSuspended);
    }
    line.status = CreditStatus::Suspended;
    if let Err(reason) = assert_ts_monotonic(line.suspension_ts, call.now) {
        return Err(reason);
    }
    line.suspension_ts = call.now;
    if let Err(reason) = persist_credit_line(book, borrower, line, stored_line.utilized_amount) {
        return Err(reason);
    }
    announce_line(book, LineTopic::Suspend, borrower, CreditStatus::Suspended, line);
    Ok(())
}

/// Suspends an active line (administrator only).
pub fn suspend_credit_line<A: Fn(CreditLineData) -> Accrued>(
    book: &mut CreditBook,
    call: &Call,
    borrower: Address,
    accrue: A,
) -> (result: Result<(), ContractError>)
    requires
        old(book)@.lines.contains_key(borrower) ==> call_requires(
            accrue,
            (old(book)@.lines[borrower],),
        ),
    ensures
        match old(book)@.suspend_refusal(call@, borrower) {
            Some(reason) => ends_as(old(book)@, final(book)@, result, Err(reason)),
            None => exists|accrued: Accrued| #[trigger]
                call_ensures(accrue, (old(book)@.lines[borrower],), accrued) && ends_as(
                    old(book)@,
                    final(book)@,
                    result,
                    old(book)@.suspended(call@, borrower, accrued),
                ),
        },
{
    if let Err(reason) = admit_admin_call(book, call) {
        return Err(reason);
    }
    suspend_credit_line_internal(book, call, borrower, accrue)
}

/// Suspends the caller's own active line.
///
/// Draws are blocked from then on and repayments stay open; only the administrator can bring
/// the line back.
pub fn self_suspend_credit_line<A: Fn(CreditLineData) -> Accrued>(
    book: &mut CreditBook,
    call: &Call,
    borrower: Address,
    accrue: A,
) -> (result: Result<(), ContractError>)
    requires
        old(book)@.lines.contains_key(borrower) ==> call_requires(
            accrue,
            (old(book)@.lines[borrower],),
        ),
    ensures
        match old(book)@.self_suspend_refusal(call@, borrower) {
            Some(reason) => ends_as(old(book)@, final(book)@, result, Err(reason)),
            None => exists|accrued: Accrued| #[trigger]
                call_ensures(accrue, (old(book)@.lines[borrower],), accrued) && ends_as(
                    old(book)@,
                    final(book)@,
                    result,
                    old(book)@.suspended(call@, borrower, accrued),
                ),
        },
{
    if let Err(reason) = admit_own_call(book, call, borrower) {
        return Err(reason);
    }
    suspend_credit_line_internal(book, call, borrower, accrue)
}

/// Closes a line that accrual brought to `accrued`, the closer being allowed to.
fn close_accrued_line(
    book: &mut CreditBook,
    borrower: Address,
    closer: Address,
    previous_utilized: i128,
    accrued: CreditLineData,
) -> (result: Result<(), ContractError>)
    requires
        previous_utilized == old(book)@.debt(borrower),
    ensures
        ends_as(
            old(book)@,
            final(book)@,
            result,
            old(book)@.closed(borrower, closer, Ok(accrued)),
        ),
{
    let mut line = accrued;
    let closer_is_admin = match book.admin {
        Some(admin) => admin == closer,
        None => false,
    };
    if !closer_is_admin && line.utilized_amount != 0 {
        return Err(ContractError::UtilizationNotZero);
    }
    line.status = CreditStatus::Closed;
    if let Err(reason) = persist_credit_line(book, borrower, line, previous_utilized) {
        return Err(reason);
    }
    clear_repayment_schedule(book, borrower);
    announce_line(book, LineTopic::Closed, borrower, CreditStatus::Closed, line);
    Ok(())
}

/// Closes a line for good.
///
/// The administrator may close any line, the borrower only one without debt, interest that is
/// due included, and nobody else any. Closing a closed line does nothing.
pub fn close_credit_line<A: Fn(CreditLineData) -> Accrued>(
    book: &mut CreditBook,
    call: &Call,
    borrower: Address,
    closer: Address,
    accrue: A,
) -> (result: Result<(), ContractError>)
    requires
        old(book)@.lines.contains_key(borrower) ==> call_requires(
            accrue,
            (old(book)@.lines[borrower],),
        ),
    ensures
        match old(book)@.close_refusal(call@, borrower, closer) {
            Some(reason) => ends_as(old(book)@, final(book)@, result, Err(reason)),
            None => if old(book)@.lines[borrower].status is Closed {
                ends_as(old(book)@, final(book)@, result, Ok(old(book)@))
            } else {
                exists|accrued: Accrued| #[trigger]
                    call_ensures(accrue, (old(book)@.lines[borrower],), accrued) && ends_as(
                        old(book)@,
                        final(book)@,
                        result,
                        old(book)@.closed(borrower, closer, accrued),
                    )
            },
        },
{
    if let Err(reason) = admit_own_call(book, call, closer) {
        return Err(reason);
    }
    let admin = match require_admin(book) {
        Err(reason) => return Err(reason),
        Ok(admin) => admin,
    };
    let stored_line = match load_credit_line(book, borrower) {
        Err(reason) => return Err(reason),
        Ok(line) => line,
    };
    if stored_line.status == CreditStatus::Closed {
        return Ok(());
    }
    if closer != admin && closer != borrower {
        return Err(ContractError::Unauthorized);
    }
    let line = match accrue(stored_line) {
        Err(reason) => return Err(reason),
        Ok(line) => line,
    };
    close_accrued_line(book, borrower, closer, stored_line.utilized_amount, line)
}

/// Closes several lines, all or none (administrator only).
///
/// The batch is refused as a whole where it is too long, where a borrower has no line or one
/// that is closed already, or where interest cannot accrue on a line or the total cannot be
/// recorded.
pub fn close_credit_lines_batch<A: Fn(CreditLineData) -> Accrued>(
    book: &mut CreditBook,
    call: &Call,
    borrowers: &Vec<Address>,
    accrue: A,
) -> (result: Result<(), ContractError>)
    requires
        forall|i: int|
            0 <= i < borrowers@.len() && old(book)@.lines.contains_key(#[trigger] borrowers@[i])
                ==> call_requires(accrue, (old(book)@.lines[borrowers@[i]],)),
    ensures
        match old(book)@.batch_refusal(call@, borrowers@) {
            Some(reason) => ends_as(old(book)@, final(book)@, result, Err(reason)),
            None => exists|answers: Seq<Accrued>|
                {
                    &&& answers.len() == borrowers@.len()
                    &&& forall|i: int|
                        0 <= i < borrowers@.len() && old(book)@.batch_consults(
                            borrowers@,
                            answers,
                            i,
                        ) ==> call_ensures(
                            accrue,
                            (old(book)@.lines[borrowers@[i]],),
                            #[trigger] answers[i],
                        )
                    &&& ends_as(
                        old(book)@,
                        final(book)@,
                        result,
                        #[trigger] old(book)@.closed_in_turn(borrowers@, answers),
                    )
                },
        },
{
    let admin = match admit_admin_call(book, call) {
        Err(reason) => return Err(reason),
        Ok(admin) => admin,
    };
    if borrowers.len() > book.batch_close_max as usize {
        return Err(ContractError::BatchTooLarge);
    }
    let mut working = book.duplicate();
    let mut at: usize = 0;
    let ghost mut answers: Seq<Accrued> = Seq::empty();
    while at < borrowers.len()
        invariant
            at <= borrowers@.len(),
            book@ == old(book)@,
            book@.batch_refusal(call@, borrowers@) is None,
            book@.admin == Some(admin),
            working@.admin == book@.admin,
            answers.len() == at,
            book@.closed_in_turn(borrowers@.take(at as int), answers) == Ok::<
                BookState,
                ContractError,
            >(working@),
            forall|i: int|
                0 <= i < at ==> call_ensures(
                    accrue,
                    (book@.lines[borrowers@[i]],),
                    #[trigger] answers[i],
                ),
            forall|i: int|
                0 <= i < borrowers@.len() && book@.lines.contains_key(#[trigger] borrowers@[i])
                    ==> call_requires(accrue, (book@.lines[borrowers@[i]],)),
        decreases borrowers@.len() - at,
    {
        let borrower = borrowers[at];
        proof {
            lemma_untouched_before_its_turn(book@, borrowers@, answers, at as int);
        }
        let stored_line = match load_credit_line(&working, borrower) {
            Err(reason) => {
                proof {
                    lemma_batch_fails_at(
                        book@,
                        borrowers@,
                        answers,
                        at as int,
                        Err(reason),
                        reason,
                    );
                }
                return Err(reason);
            },
            Ok(line) => line,
        };
        if stored_line.status == CreditStatus::Closed {
            let reason = ContractError::CreditLineClosed;
            proof {
                lemma_batch_fails_at(book@, borrowers@, answers, at as int, Err(reason), reason);
            }
            return Err(reason);
        }
        let answer = accrue(stored_line);
        let line = match answer {
            Err(reason) => {
                proof {
                    lemma_batch_fails_at(book@, borrowers@, answers, at as int, answer, reason);
                }
                return Err(reason);
            },
            Ok(line) => line,
        };
        let utilized: i128 = stored_line.utilized_amount;
        let closed = close_accrued_line(&mut working, borrower, admin, utilized, line);
        if let Err(reason) = closed {
            proof {
                lemma_batch_fails_at(book@, borrowers@, answers, at as int, answer, reason);
            }
            return Err(reason);
        }
        proof {
            lemma_batch_goes_on(book@, borrowers@, answers, at as int, answer);
            answers = answers.push(answer);
        }
        at = at + 1;
    }
    assert(borrowers@.take(at as int) =~= borrowers@);
    *book = working;
    Ok(())
}

/// Puts a line into default (administrator only) and asks for the liquidation of its debt.
///
/// A line in default already is left as it is.
pub fn default_credit_line<A: Fn(CreditLineData) -> Accrued>(
    book: &mut CreditBook,
    call: &Call,
    borrower: Address,
    accrue: A,
) -> (result: Result<(), ContractError>)
    requires
        old(book)@.lines.contains_key(borrower) ==> call_requires(
            accrue,
            (old(book)@.lines[borrower],),
        ),
    ensures
        match old(book)@.default_refusal(call@, borrower) {
            Some(reason) => ends_as(old(book)@, final(book)@, result, Err(reason)),
            None => exists|accrued: Accrued| #[trigger]
                call_ensures(accrue, (old(book)@.lines[borrower],), accrued) && ends_as(
                    old(book)@,
                    final(book)@,
                    result,
                    old(book)@.defaulted(borrower, accrued),
                ),
        },
{
    if let Err(reason) = admit_admin_call(book, call) {
        return Err(reason);
    }
    let stored_line = match load_credit_line(book, borrower) {
        Err(reason) => return Err(reason),
        Ok(line) => line,
    };
    if stored_line.status == CreditStatus::Closed {
        return Err(ContractError::CreditLineClosed);
    }
    let mut line = match accrue(stored_line) {
        Err(reason) => return Err(reason),
        Ok(line) => line,
    };
    if line.status == CreditStatus::Closed {
        return Err(ContractError::CreditLineClosed);
    }
    if line.status == CreditStatus::Defaulted {
        return Ok(());
    }
    line.status = CreditStatus::Defaulted;
    if let Err(reason) = persist_credit_line(book, borrower, line, stored_line.utilized_amount) {
        return Err(reason);
    }
    announce_line(book, LineTopic::Default, borrower, CreditStatus::Defaulted, line);
    publish_default_liquidation_requested_event(book, borrower, line.utilized_amount);
    Ok(())
}

/// The smaller of two amounts.
fn lesser(x: i128, y: i128) -> (smaller: i128)
    ensures
        smaller == min_of(x as int, y as int),
{
    if x <= y {
        x
    } else {
        y
    }
}

/// The difference of two amounts, or zero where it does not fit.
fn minus_or_zero(x: i128, y: i128) -> (difference: i128)
    ensures
        difference == difference_or_zero(x as int, y as int),
{
    match x.checked_sub(y) {
        Some(difference) => difference,
        None => 0,
    }
}

/// Writes debt off without any payment (administrator only).
///
/// No more is forgiven than is owed, and interest is forgiven first.
pub fn forgive_debt<A: Fn(CreditLineData) -> Accrued>(
    book: &mut CreditBook,
    call: &Call,
    borrower: Address,
    amount: i128,
    accrue: A,
) -> (result: Result<(), ContractError>)
    requires
        old(book)@.lines.contains_key(borrower) ==> call_requires(
            accrue,
            (old(book)@.lines[borrower],),
        ),
    ensures
        match old(book)@.forgive_refusal(call@, borrower, amount) {
            Some(reason) => ends_as(old(book)@, final(book)@, result, Err(reason)),
            None => exists|accrued: Accrued| #[trigger]
                call_ensures(accrue, (old(book)@.lines[borrower],), accrued) && ends_as(
                    old(book)@,
                    final(book)@,
                    result,
                    old(book)@.forgiven(borrower, amount, accrued),
                ),
        },
{
    if let Err(reason) = admit_admin_call(book, call) {
        return Err(reason);
    }
    if amount <= 0 {
        return Err(ContractError::InvalidAmount);
    }
    let stored_line = match load_credit_line(book, borrower) {
        Err(reason) => return Err(reason),
        Ok(line) => line,
    };
    if stored_line.status == CreditStatus::Closed {
        return Err(ContractError::CreditLineClosed);
    }
    let mut line = match accrue(stored_line) {
        Err(reason) => return Err(reason),
        Ok(line) => line,
    };
    let effective_forgive: i128 = lesser(amount, line.utilized_amount);
    let interest_forgiven: i128 = lesser(effective_forgive, line.accrued_interest);
    line.accrued_interest = minus_or_zero(line.accrued_interest, interest_forgiven);
    line.utilized_amount = minus_or_zero(line.utilized_amount, effective_forgive);
    persist_credit_line(book, borrower, line, stored_line.utilized_amount)
}

/// Applies liquidation proceeds to a line in default (administrator only), once per settlement.
///
/// The line is closed when nothing is left to recover. No tokens move.
pub fn settle_default_liquidation<A: Fn(CreditLineData) -> Accrued>(
    book: &mut CreditBook,
    call: &Call,
    borrower: Address,
    recovered_amount: i128,
    settlement_id: Symbol,
    accrue: A,
) -> (result: Result<(), ContractError>)
    requires
        old(book)@.lines.contains_key(borrower) ==> call_requires(
            accrue,
            (old(book)@.lines[borrower],),
        ),
    ensures
        match old(book)@.settle_refusal(call@, borrower, recovered_amount, settlement_id) {
            Some(reason) => ends_as(old(book)@, final(book)@, result, Err(reason)),
            None => exists|accrued: Accrued| #[trigger]
                call_ensures(accrue, (old(book)@.lines[borrower],), accrued) && ends_as(
                    old(book)@,
                    final(book)@,
                    result,
                    old(book)@.recovered(borrower, recovered_amount, settlement_id, accrued),
                ),
        },
{
    if let Err(reason) = admit_admin_call(book, call) {
        return Err(reason);
    }
    if recovered_amount <= 0 {
        return Err(ContractError::InvalidAmount);
    }
    let key = liquidation_settlement_key(borrower, settlement_id);
    if book.is_settled(key) {
        return Err(ContractError::AlreadyInitialized);
    }
    let stored_line = match load_credit_line(book, borrower) {
        Err(reason) => return Err(reason),
        Ok(line) => line,
    };
    let mut line = match accrue(stored_line) {
        Err(reason) => return Err(reason),
        Ok(line) => line,
    };
    if line.status != CreditStatus::Defaulted {
        return Err(ContractError::CreditLineDefaulted);
    }
    if recovered_amount > line.utilized_amount {
        return Err(ContractError::OverLimit);
    }
    line.utilized_amount = line.utilized_amount - recovered_amount;
    if line.utilized_amount == 0 {
        line.status = CreditStatus::Closed;
    }
    if let Err(reason) = persist_credit_line(book, borrower, line, stored_line.utilized_amount) {
        return Err(reason);
    }
    book.mark_settled(key);
    if line.status == CreditStatus::Closed {
        clear_repayment_schedule(book, borrower);
        announce_line(book, LineTopic::Closed, borrower, CreditStatus::Closed, line);
    }
    publish_default_liquidation_settled_event(
        book,
        DefaultLiquidationSettledEvent {
            borrower,
            settlement_id,
            recovered_amount,
            remaining_utilized_amount: line.utilized_amount,
            status: line.status,
        },
    );
    Ok(())
}

/// Takes a line out of default, to active or restricted (administrator only).
pub fn reinstate_credit_line<A: Fn(CreditLineData) -> Accrued>(
    book: &mut CreditBook,
    call: &Call,
    borrower: Address,
    target_status: CreditStatus,
    accrue: A,
) -> (result: Result<(), ContractError>)
    requires
        old(book)@.lines.contains_key(borrower) ==> call_requires(
            accrue,
            (old(book)@.lines[borrower],),
        ),
    ensures
        match old(book)@.reinstate_refusal(call@, borrower, target_status) {
            Some(reason) => ends_as(old(book)@, final(book)@, result, Err(reason)),
            None => exists|accrued: Accrued| #[trigger]
                call_ensures(accrue, (old(book)@.lines[borrower],), accrued) && ends_as(
                    old(book)@,
                    final(book)@,
                    result,
                    old(book)@.reinstated(borrower, target_status, accrued),
                ),
        },
{
    if let Err(reason) = admit_admin_call(book, call) {
        return Err(reason);
    }
    if target_status != CreditStatus::Active && target_status != CreditStatus::Restricted {
        return Err(ContractError::InvalidAmount);
    }
    let stored_line = match load_credit_line(book, borrower) {
        Err(reason) => return Err(reason),
        Ok(line) => line,
    };
    let mut line = match accrue(stored_line) {
        Err(reason) => return Err(reason),
        Ok(line) => line,
    };
    if line.status != CreditStatus::Defaulted {
        return Err(ContractError::CreditLineDefaulted);
    }
    line.status = target_status;
    line.suspension_ts = 0;
    if let Err(reason) = persist_credit_line(book, borrower, line, stored_line.utilized_amount) {
        return Err(reason);
    }
    announce_line(book, LineTopic::Reinstate, borrower, target_status, line);
    Ok(())
}

} // verus!
