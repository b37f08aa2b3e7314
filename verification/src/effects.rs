//! What each call does: when it is accepted, for what reason it is refused otherwise, and what
//! has changed once it was accepted, said of the stored records alone.

use crate::batch::lemma_batch_closed;
use crate::book::{BookState, Call, CallState, CreditBook};
use crate::events::{
    CreditLineEvent, DefaultLiquidationRequestedEvent, DefaultLiquidationSettledEvent, Event,
    LineTopic,
};
use crate::history::Operation;
use crate::model::{ends_as, line_event, settlement_key, Accrued, Outcome};
use crate::types::{
    Address, ContractError, CreditLineData, CreditStatus, RepaymentSchedule, Symbol,
};
use vstd::arithmetic::div_mod::lemma_fundamental_div_mod_converse;
use vstd::prelude::*;

verus! {

// ---- the words of this module ----

/// The administrator has authorized the call, and the protocol is not paused.
pub open spec fn admin_may_act(state: BookState, call: CallState) -> bool {
    &&& !state.paused
    &&& state.admin matches Some(admin) && call.signers.contains(admin)
}

/// `party` has authorized the call, and the protocol is not paused.
pub open spec fn party_may_act(state: BookState, call: CallState, party: Address) -> bool {
    !state.paused && call.signers.contains(party)
}

/// `borrower` has a line that is not closed.
pub open spec fn has_open_line(state: BookState, borrower: Address) -> bool {
    state.lines.contains_key(borrower) && state.lines[borrower].status != CreditStatus::Closed
}

/// The recorded total once `borrower` owes `owed` in place of what is recorded.
pub open spec fn total_with(state: BookState, borrower: Address, owed: i128) -> int {
    if state.lines.contains_key(borrower) {
        state.total_utilized - state.lines[borrower].utilized_amount + owed
    } else {
        state.total_utilized + owed
    }
}

/// The total can be recorded.
pub open spec fn recordable(total: int) -> bool {
    i128::MIN <= total <= i128::MAX
}

/// `line` is now `borrower`'s, every other line is what it was, and the total counts the debt of
/// `line` in place of the debt that was recorded.
pub open spec fn refiled(
    state: BookState,
    next: BookState,
    borrower: Address,
    line: CreditLineData,
) -> bool {
    &&& next.lines.contains_key(borrower)
    &&& next.lines[borrower] == line
    &&& next.lines =~= state.lines.insert(borrower, line)
    &&& next.total_utilized == total_with(state, borrower, line.utilized_amount)
}

/// Both states hold the same lines and the same total.
pub open spec fn same_debts(state: BookState, next: BookState) -> bool {
    next.lines =~= state.lines && next.total_utilized == state.total_utilized
}

/// Administrator, pause switch, bounds and ceilings are the same in both states.
pub open spec fn same_settings(state: BookState, next: BookState) -> bool {
    &&& next.admin == state.admin
    &&& next.paused == state.paused
    &&& next.min_credit_limit == state.min_credit_limit
    &&& next.max_credit_limit == state.max_credit_limit
    &&& next.max_risk_score == state.max_risk_score
    &&& next.batch_close_max == state.batch_close_max
}

/// `borrower` has no schedule any more, and every other schedule is what it was.
pub open spec fn schedule_dropped(state: BookState, next: BookState, borrower: Address) -> bool {
    !next.schedules.contains_key(borrower) && next.schedules =~= state.schedules.remove(borrower)
}

/// The event under `topic` that `borrower`'s line is now `status`, on the terms of `line`.
pub open spec fn announcement(
    topic: LineTopic,
    borrower: Address,
    status: CreditStatus,
    line: CreditLineData,
) -> Event {
    Event::CreditLine {
        topic,
        line: CreditLineEvent {
            borrower,
            status,
            credit_limit: line.credit_limit,
            interest_rate_bps: line.interest_rate_bps,
            risk_score: line.risk_score,
        },
    }
}

/// The call was refused for `reason`.
pub open spec fn refused(outcome: Outcome, reason: ContractError) -> bool {
    outcome matches Err(given) && given == reason
}

// ---- what holds of every call ----

/// A call that reports an error has changed nothing, and one that succeeds has reached the state
/// that it was to reach.
pub proof fn law_refused_calls_change_nothing(
    pre: BookState,
    post: BookState,
    result: Result<(), ContractError>,
    outcome: Outcome,
)
    requires
        ends_as(pre, post, result, outcome),
    ensures
        result is Ok <==> outcome is Ok,
        result is Ok ==> post == outcome->Ok_0,
        result matches Err(reason) ==> post == pre && refused(outcome, reason),
{
}

/// Every call but a borrower's own suspension, a closing and the bookkeeping that follows a
/// repayment is the administrator's alone. It is refused where no administrator is configured,
/// then where the administrator has not authorized it, then while the protocol is paused, each
/// for its own reason and whatever else the call says.
pub proof fn law_admin_calls_are_turned_away(
    state: BookState,
    call: CallState,
    operation: Operation,
)
    requires
        !(operation is SelfSuspend),
        !(operation is Close),
        !(operation is AdvanceRepaymentSchedule),
    ensures
        state.admin is None ==> refused(state.step(call, operation), ContractError::AdminNotSet),
        state.admin matches Some(admin) && !call.signers.contains(admin) ==> refused(
            state.step(call, operation),
            ContractError::MissingAuthorization,
        ),
        state.admin matches Some(admin) && call.signers.contains(admin) && state.paused
            ==> refused(state.step(call, operation), ContractError::Paused),
{
}

/// The administrator's consent is missing exactly where none is configured or the call is not
/// authorized, and the administrator is turned away exactly where consent is missing or the
/// protocol is paused.
pub proof fn law_admin_is_admitted(state: BookState, call: CallState)
    ensures
        state.admin is None ==> {
            &&& state.admin_auth_refusal(call) == Some(ContractError::AdminNotSet)
            &&& state.admin_call_refusal(call) == Some(ContractError::AdminNotSet)
        },
        state.admin matches Some(admin) && !call.signers.contains(admin) ==> {
            &&& state.admin_auth_refusal(call) == Some(ContractError::MissingAuthorization)
            &&& state.admin_call_refusal(call) == Some(ContractError::MissingAuthorization)
        },
        state.admin matches Some(admin) && call.signers.contains(admin) ==> {
            &&& state.admin_auth_refusal(call) is None
            &&& state.paused ==> state.admin_call_refusal(call) == Some(ContractError::Paused)
        },
        state.admin_call_refusal(call) is None <==> admin_may_act(state, call),
        state.admin_signed(call) <==> state.admin is Some && call.signers.contains(state.admin->0),
{
}

/// What turns the administrator away is why each of the administrator's calls is refused, before
/// anything else about the call is looked at.
pub proof fn law_admission_comes_first(
    state: BookState,
    call: CallState,
    borrower: Address,
    amount: i128,
    limit: i128,
    rate: u32,
    score: u32,
    period: u64,
    due: u64,
    id: Symbol,
    status: CreditStatus,
    borrowers: Seq<Address>,
)
    ensures
        state.admin_call_refusal(call) matches Some(reason) ==> {
            &&& refused(state.set_credit_limit_bounds(call, amount, limit), reason)
            &&& refused(
                state.set_repayment_schedule(call, borrower, amount, period, due),
                reason,
            )
            &&& refused(state.open_credit_line(call, borrower, limit, rate, score), reason)
            &&& state.suspend_refusal(call, borrower) == Some(reason)
            &&& state.batch_refusal(call, borrowers) == Some(reason)
            &&& state.default_refusal(call, borrower) == Some(reason)
            &&& state.forgive_refusal(call, borrower, amount) == Some(reason)
            &&& state.settle_refusal(call, borrower, amount, id) == Some(reason)
            &&& state.reinstate_refusal(call, borrower, status) == Some(reason)
        },
{
}

/// A party that acts for itself is turned away without its own authorization, then while the
/// protocol is paused, and otherwise not.
pub proof fn law_party_is_admitted(state: BookState, call: CallState, party: Address)
    ensures
        !call.signers.contains(party) ==> state.own_call_refusal(call, party) == Some(
            ContractError::MissingAuthorization,
        ),
        call.signers.contains(party) && state.paused ==> state.own_call_refusal(call, party)
            == Some(ContractError::Paused),
        state.own_call_refusal(call, party) is None <==> party_may_act(state, call, party),
{
}

/// What a book and a call hold is what is seen of them: every setting, line, schedule,
/// settlement and event in its place, and as signers exactly those who are listed.
pub proof fn law_contents_are_seen(book: CreditBook, call: Call)
    ensures
        book@.admin == book.admin,
        book@.paused == book.paused,
        book@.min_credit_limit == book.min_credit_limit,
        book@.max_credit_limit == book.max_credit_limit,
        book@.max_risk_score == book.max_risk_score,
        book@.batch_close_max == book.batch_close_max,
        book@.total_utilized == book.total_utilized,
        book@.lines == book.lines@,
        book@.schedules == book.schedules@,
        book@.events == book.events@,
        forall|key: (Symbol, Address, Symbol)| #[trigger]
            book@.settled.contains(key) <==> book.settled@.contains(key),
        call@.now == call.now,
        forall|party: Address| #[trigger]
            call@.signers.contains(party) <==> call.signers@.contains(party),
{
}

/// A borrower's line, status and debt are those of the record that is filed for the borrower;
/// without a record there is no line, no status and no debt.
pub proof fn law_line_is_what_is_filed(state: BookState, borrower: Address)
    ensures
        state.lines.contains_key(borrower) ==> {
            &&& state.line(borrower) == Some(state.lines[borrower])
            &&& state.status(borrower) == Some(state.lines[borrower].status)
            &&& state.debt(borrower) == state.lines[borrower].utilized_amount
            &&& state.missing_line_refusal(borrower) is None
            &&& state.lines[borrower].status is Closed ==> state.open_line_refusal(borrower)
                == Some(ContractError::CreditLineClosed)
        },
        !state.lines.contains_key(borrower) ==> {
            &&& state.line(borrower) is None
            &&& state.status(borrower) is None
            &&& state.debt(borrower) == 0
            &&& state.missing_line_refusal(borrower) == Some(ContractError::CreditLineNotFound)
            &&& state.open_line_refusal(borrower) == Some(ContractError::CreditLineNotFound)
        },
        state.open_line_refusal(borrower) is None <==> has_open_line(state, borrower),
{
}

/// Filing a line replaces the borrower's line alone and moves the total from the previous debt
/// to that of the line; it fails exactly where that total cannot be recorded.
pub proof fn law_filing_a_line(
    state: BookState,
    borrower: Address,
    line: CreditLineData,
    previous: i128,
)
    ensures
        ({
            let total = state.total_utilized - previous + line.utilized_amount;
            let outcome = state.persisted(borrower, line, previous);
            &&& !recordable(total) ==> refused(outcome, ContractError::Overflow)
            &&& recordable(total) ==> outcome is Ok
            &&& outcome matches Ok(next) ==> {
                &&& next.total_utilized == total
                &&& next.lines =~= state.lines.insert(borrower, line)
                &&& next.schedules == state.schedules
                &&& next.settled == state.settled
                &&& next.events == state.events
                &&& same_settings(state, next)
            }
        }),
{
}

/// Announcing adds one event at the end and changes nothing else; taking a schedule away takes
/// that borrower's alone and changes nothing else.
pub proof fn law_bookkeeping(state: BookState, event: Event, borrower: Address)
    ensures
        state.announced(event).events.len() == state.events.len() + 1,
        state.announced(event).events.last() == event,
        state.announced(event).events.drop_last() =~= state.events,
        state.announced(event) == (BookState { events: state.announced(event).events, ..state }),
        schedule_dropped(state, state.unscheduled(borrower), borrower),
        state.unscheduled(borrower) == (BookState {
            schedules: state.unscheduled(borrower).schedules,
            ..state
        }),
{
}

/// The event of a transition names the borrower and the new status, and carries the limit, the
/// rate and the score of the line.
pub proof fn law_transition_event(
    topic: LineTopic,
    borrower: Address,
    status: CreditStatus,
    line: CreditLineData,
)
    ensures
        line_event(topic, borrower, status, line) == announcement(topic, borrower, status, line),
{
}

/// Every event is published under `credit` and the topic that listeners know it by.
pub proof fn law_topics(
    line: CreditLineEvent,
    request: DefaultLiquidationRequestedEvent,
    settlement: DefaultLiquidationSettledEvent,
)
    ensures
        ({
            let of = |topic: LineTopic| (Event::CreditLine { topic, line }).spec_topics();
            &&& of(LineTopic::Opened) == ("credit"@, "opened"@)
            &&& of(LineTopic::Suspend) == ("credit"@, "suspend"@)
            &&& of(LineTopic::Closed) == ("credit"@, "closed"@)
            &&& of(LineTopic::Default) == ("credit"@, "default"@)
            &&& of(LineTopic::Reinstate) == ("credit"@, "reinstate"@)
        }),
        (Event::LiquidationRequested { request }).spec_topics() == ("credit"@, "liq_req"@),
        (Event::LiquidationSettled { settlement }).spec_topics() == ("credit"@, "liq_setl"@),
{
}

/// Exactly three refusals are reported with a text: a missing line, a borrower's closing of a
/// line with debt, and a stranger's closing.
pub proof fn law_texts_of_refusals(reason: ContractError)
    ensures
        reason == ContractError::CreditLineNotFound ==> reason.spec_panic_message() == Some(
            "Credit line not found"@,
        ),
        reason == ContractError::UtilizationNotZero ==> reason.spec_panic_message() == Some(
            "cannot close: utilized amount not zero"@,
        ),
        reason == ContractError::Unauthorized ==> reason.spec_panic_message() == Some(
            "unauthorized"@,
        ),
        reason.spec_panic_message() is Some ==> reason == ContractError::CreditLineNotFound
            || reason == ContractError::UtilizationNotZero || reason == ContractError::Unauthorized,
{
}

// ---- bounds ----

/// A limit passes exactly when it is neither below a configured least limit nor above a
/// configured greatest limit.
pub proof fn law_bounds(state: BookState, credit_limit: i128)
    ensures
        !state.within_bounds(credit_limit) <==> {
            ||| state.min_credit_limit is Some && credit_limit < state.min_credit_limit->0
            ||| state.max_credit_limit is Some && state.max_credit_limit->0 < credit_limit
        },
{
}

/// The administrator sets any bounds that are in order and not negative; negative ones and ones
/// out of order are refused, each for its reason; and nothing but the bounds changes.
pub proof fn law_setting_bounds(state: BookState, call: CallState, min: i128, max: i128)
    requires
        admin_may_act(state, call),
    ensures
        ({
            let outcome = state.set_credit_limit_bounds(call, min, max);
            &&& min < 0 ==> refused(outcome, ContractError::InvalidAmount)
            &&& 0 <= min && max < min ==> refused(outcome, ContractError::LimitOutOfBounds)
            &&& 0 <= min <= max ==> outcome is Ok
            &&& outcome matches Ok(next) ==> {
                &&& next.min_credit_limit == Some(min)
                &&& next.max_credit_limit == Some(max)
                &&& next == (BookState {
                    min_credit_limit: next.min_credit_limit,
                    max_credit_limit: next.max_credit_limit,
                    ..state
                })
            }
        }),
{
}

// ---- schedules ----

/// The administrator sets a schedule with a positive installment and period on any line that is
/// not closed; afterwards the borrower's schedule is the one that was given, whether or not
/// there was one before, and nothing else has changed.
pub proof fn law_setting_a_schedule(
    state: BookState,
    call: CallState,
    borrower: Address,
    amount_per_period: i128,
    period_seconds: u64,
    first_due_ts: u64,
)
    requires
        admin_may_act(state, call),
    ensures
        ({
            let outcome = state.set_repayment_schedule(
                call,
                borrower,
                amount_per_period,
                period_seconds,
                first_due_ts,
            );
            let usable = amount_per_period > 0 && period_seconds > 0;
            &&& !usable ==> refused(outcome, ContractError::InvalidAmount)
            &&& usable && !state.lines.contains_key(borrower) ==> refused(
                outcome,
                ContractError::CreditLineNotFound,
            )
            &&& usable && state.lines.contains_key(borrower) && !has_open_line(state, borrower)
                ==> refused(outcome, ContractError::CreditLineClosed)
            &&& usable && has_open_line(state, borrower) ==> outcome is Ok
            &&& outcome matches Ok(next) ==> {
                &&& next.schedules.contains_key(borrower)
                &&& next.schedules[borrower].amount_per_period == amount_per_period
                &&& next.schedules[borrower].period_seconds == period_seconds
                &&& next.schedules[borrower].next_due_ts == first_due_ts
                &&& next.schedules.remove(borrower) =~= state.schedules.remove(borrower)
                &&& next == (BookState { schedules: next.schedules, ..state })
            }
        }),
{
}

/// Of two schedules that are set one after the other, the later one holds, as if the earlier had
/// never been set.
pub proof fn law_later_schedule_replaces_earlier(
    state: BookState,
    call: CallState,
    later_call: CallState,
    borrower: Address,
    first: RepaymentSchedule,
    second: RepaymentSchedule,
)
    requires
        admin_may_act(state, call),
        admin_may_act(state, later_call),
        has_open_line(state, borrower),
        first.amount_per_period > 0,
        first.period_seconds > 0,
    ensures
        ({
            let once = state.set_repayment_schedule(
                call,
                borrower,
                first.amount_per_period,
                first.period_seconds,
                first.next_due_ts,
            );
            &&& once is Ok
            &&& once->Ok_0.set_repayment_schedule(
                later_call,
                borrower,
                second.amount_per_period,
                second.period_seconds,
                second.next_due_ts,
            ) is Ok <==> second.amount_per_period > 0 && second.period_seconds > 0
            &&& second.amount_per_period > 0 && second.period_seconds > 0
                ==> once->Ok_0.set_repayment_schedule(
                later_call,
                borrower,
                second.amount_per_period,
                second.period_seconds,
                second.next_due_ts,
            ) == state.set_repayment_schedule(
                later_call,
                borrower,
                second.amount_per_period,
                second.period_seconds,
                second.next_due_ts,
            )
        }),
{
    let once = state.set_repayment_schedule(
        call,
        borrower,
        first.amount_per_period,
        first.period_seconds,
        first.next_due_ts,
    )->Ok_0;
    assert(once.schedules.insert(borrower, second) =~= state.schedules.insert(borrower, second));
}

/// A repayment touches nothing but the borrower's due date, and not even that where it is not
/// positive, where there is no schedule, or where the schedule has no positive installment and
/// period.
pub proof fn law_repayment_touches_the_due_date_alone(
    state: BookState,
    borrower: Address,
    amount: i128,
)
    ensures
        ({
            let next = state.advanced(borrower, amount);
            let before = state.schedules[borrower];
            let after = next.schedules[borrower];
            let usable = before.amount_per_period > 0 && before.period_seconds > 0;
            &&& next == (BookState { schedules: next.schedules, ..state })
            &&& !state.schedules.contains_key(borrower) || !usable || amount <= 0 ==> next == state
            &&& state.schedules.contains_key(borrower) ==> {
                &&& next.schedules.contains_key(borrower)
                &&& next.schedules.remove(borrower) =~= state.schedules.remove(borrower)
                &&& after.amount_per_period == before.amount_per_period
                &&& after.period_seconds == before.period_seconds
            }
        }),
{
}

/// A repayment that covers `count` installments and less than one more makes the due date later
/// by `count` periods, or the last moment that a timestamp can name where it cannot name that.
pub proof fn law_periods_per_installment(
    state: BookState,
    borrower: Address,
    amount: i128,
    count: int,
)
    requires
        state.schedules.contains_key(borrower),
        state.schedules[borrower].amount_per_period > 0,
        state.schedules[borrower].period_seconds > 0,
        amount > 0,
        count * state.schedules[borrower].amount_per_period <= amount,
        amount < count * state.schedules[borrower].amount_per_period
            + state.schedules[borrower].amount_per_period,
    ensures
        ({
            let before = state.schedules[borrower];
            let due = before.next_due_ts + before.period_seconds * count;
            let after = state.advanced(borrower, amount).schedules[borrower];
            &&& due <= u64::MAX ==> after.next_due_ts == due
            &&& due > u64::MAX ==> after.next_due_ts == u64::MAX
        }),
{
    let before = state.schedules[borrower];
    let per = before.amount_per_period as int;
    let period = before.period_seconds as int;
    lemma_fundamental_div_mod_converse(amount as int, per, count, amount - count * per);
    assert(count >= 0) by (nonlinear_arith)
        requires
            amount > 0,
            per > 0,
            amount < count * per + per,
    ;
    assert(period * count >= 0) by (nonlinear_arith)
        requires
            period > 0,
            count >= 0,
    ;
}

// ---- opening ----

/// The administrator opens a line exactly where the limit is positive and within the bounds, the
/// rate is at most a hundred percent, the score is at most its ceiling, the borrower has no
/// active line and the total without the old debt can be recorded; otherwise the first of these
/// that fails is the reason.
pub proof fn law_when_a_line_is_opened(
    state: BookState,
    call: CallState,
    borrower: Address,
    credit_limit: i128,
    interest_rate_bps: u32,
    risk_score: u32,
)
    requires
        admin_may_act(state, call),
    ensures
        ({
            let outcome = state.open_credit_line(
                call,
                borrower,
                credit_limit,
                interest_rate_bps,
                risk_score,
            );
            let positive = credit_limit > 0;
            let rated = interest_rate_bps <= 10_000;
            let scored = risk_score <= state.max_risk_score;
            let bounded = !(state.min_credit_limit is Some && credit_limit
                < state.min_credit_limit->0) && !(state.max_credit_limit is Some
                && state.max_credit_limit->0 < credit_limit);
            let vacant = !(state.lines.contains_key(borrower)
                && state.lines[borrower].status is Active);
            let counted = recordable(total_with(state, borrower, 0));
            &&& !positive ==> refused(outcome, ContractError::InvalidAmount)
            &&& positive && !rated ==> refused(outcome, ContractError::RateTooHigh)
            &&& positive && rated && !scored ==> refused(outcome, ContractError::ScoreTooHigh)
            &&& positive && rated && scored && !bounded ==> refused(
                outcome,
                ContractError::LimitOutOfBounds,
            )
            &&& positive && rated && scored && bounded && !vacant ==> refused(
                outcome,
                ContractError::AlreadyInitialized,
            )
            &&& positive && rated && scored && bounded && vacant && !counted ==> refused(
                outcome,
                ContractError::Overflow,
            )
            &&& positive && rated && scored && bounded && vacant && counted ==> outcome is Ok
        }),
{
}

/// An opened line is active, on the terms that were given, without debt, interest or any stamp
/// but the time of the call as the start of accrual; the old debt has left the total, the
/// schedule is gone, the opening is announced, and nothing else has changed.
pub proof fn law_what_opening_does(
    state: BookState,
    call: CallState,
    borrower: Address,
    credit_limit: i128,
    interest_rate_bps: u32,
    risk_score: u32,
)
    requires
        state.open_credit_line(call, borrower, credit_limit, interest_rate_bps, risk_score) is Ok,
    ensures
        ({
            let next = state.open_credit_line(
                call,
                borrower,
                credit_limit,
                interest_rate_bps,
                risk_score,
            )->Ok_0;
            let line = next.lines[borrower];
            &&& refiled(state, next, borrower, line)
            &&& line.borrower == borrower
            &&& line.credit_limit == credit_limit
            &&& line.interest_rate_bps == interest_rate_bps
            &&& line.risk_score == risk_score
            &&& line.status == CreditStatus::Active
            &&& line.utilized_amount == 0
            &&& line.accrued_interest == 0
            &&& line.last_accrual_ts == call.now
            &&& line.last_rate_update_ts == 0
            &&& line.suspension_ts == 0
            &&& schedule_dropped(state, next, borrower)
            &&& next.events == state.events.push(
                announcement(LineTopic::Opened, borrower, CreditStatus::Active, line),
            )
            &&& next.settled == state.settled
            &&& same_settings(state, next)
        }),
{
}

// ---- suspending ----

/// Who may suspend: the administrator any line and a borrower its own. Either way a missing line
/// is the next reason to refuse, what stops accrual stops the call, and otherwise both come to
/// the same.
pub proof fn law_who_suspends(
    state: BookState,
    call: CallState,
    borrower: Address,
    accrued: Accrued,
)
    ensures
        state.suspend_refusal(call, borrower) is None <==> admin_may_act(state, call)
            && state.lines.contains_key(borrower),
        state.suspend_refusal(call, borrower) matches Some(reason) ==> refused(
            state.suspend_credit_line(call, borrower, accrued),
            reason,
        ),
        admin_may_act(state, call) && !state.lines.contains_key(borrower) ==> refused(
            state.suspend_credit_line(call, borrower, accrued),
            ContractError::CreditLineNotFound,
        ),
        admin_may_act(state, call) && state.lines.contains_key(borrower)
            ==> state.suspend_credit_line(call, borrower, accrued) == state.suspended(
            call,
            borrower,
            accrued,
        ),
        state.self_suspend_refusal(call, borrower) is None <==> party_may_act(
            state,
            call,
            borrower,
        ) && state.lines.contains_key(borrower),
        state.self_suspend_refusal(call, borrower) matches Some(reason) ==> refused(
            state.self_suspend_credit_line(call, borrower, accrued),
            reason,
        ),
        !call.signers.contains(borrower) ==> refused(
            state.self_suspend_credit_line(call, borrower, accrued),
            ContractError::MissingAuthorization,
        ),
        call.signers.contains(borrower) && state.paused ==> refused(
            state.self_suspend_credit_line(call, borrower, accrued),
            ContractError::Paused,
        ),
        party_may_act(state, call, borrower) && !state.lines.contains_key(borrower) ==> refused(
            state.self_suspend_credit_line(call, borrower, accrued),
            ContractError::CreditLineNotFound,
        ),
        party_may_act(state, call, borrower) && state.lines.contains_key(borrower)
            ==> state.self_suspend_credit_line(call, borrower, accrued) == state.suspended(
            call,
            borrower,
            accrued,
        ),
        accrued matches Err(reason) ==> refused(state.suspended(call, borrower, accrued), reason),
{
}

/// A suspension, whoever asks for it, is accepted exactly where the accrued line is active, its
/// stamp does not lie ahead and the total can be recorded. Of the accrued line it changes the
/// status and the stamp alone: limit, rate, score and debt stay, the debt counts in the total,
/// the suspension is announced on the line's terms, and nothing else changes.
pub proof fn law_what_suspending_does(
    state: BookState,
    call: CallState,
    borrower: Address,
    line: CreditLineData,
)
    requires
        state.lines.contains_key(borrower),
    ensures
        ({
            let outcome = state.suspended(call, borrower, Ok(line));
            let active = line.status is Active;
            let timely = line.suspension_ts <= call.now;
            let counted = recordable(total_with(state, borrower, line.utilized_amount));
            &&& !active ==> refused(outcome, ContractError::CreditLineSuspended)
            &&& active && !timely ==> refused(outcome, ContractError::TimestampRegression)
            &&& active && timely && !counted ==> refused(outcome, ContractError::Overflow)
            &&& active && timely && counted ==> outcome is Ok
            &&& outcome matches Ok(next) ==> {
                &&& refiled(
                    state,
                    next,
                    borrower,
                    CreditLineData {
                        status: CreditStatus::Suspended,
                        suspension_ts: call.now,
                        ..line
                    },
                )
                &&& next.events == state.events.push(
                    announcement(LineTopic::Suspend, borrower, CreditStatus::Suspended, line),
                )
                &&& next.schedules == state.schedules
                &&& next.settled == state.settled
                &&& same_settings(state, next)
            }
        }),
{
}

// ---- closing ----

/// Who may close: the closer has to authorize the call, an administrator and a line have to be
/// there, and a line that is open can be closed by the administrator or its borrower only. A
/// line that is closed is left as it is, whoever asks and whatever accrual would answer.
pub proof fn law_who_closes(
    state: BookState,
    call: CallState,
    borrower: Address,
    closer: Address,
    accrued: Accrued,
)
    ensures
        ({
            let outcome = state.close_credit_line(call, borrower, closer, accrued);
            let refusal = state.close_refusal(call, borrower, closer);
            let there = state.admin is Some && state.lines.contains_key(borrower);
            let entitled = state.admin == Some(closer) || closer == borrower;
            let open = has_open_line(state, borrower);
            &&& !call.signers.contains(closer) ==> refused(
                outcome,
                ContractError::MissingAuthorization,
            )
            &&& call.signers.contains(closer) && state.paused ==> refused(
                outcome,
                ContractError::Paused,
            )
            &&& party_may_act(state, call, closer) && state.admin is None ==> refused(
                outcome,
                ContractError::AdminNotSet,
            )
            &&& party_may_act(state, call, closer) && state.admin is Some
                && !state.lines.contains_key(borrower) ==> refused(
                outcome,
                ContractError::CreditLineNotFound,
            )
            &&& party_may_act(state, call, closer) && there && open && !entitled ==> refused(
                outcome,
                ContractError::Unauthorized,
            )
            &&& party_may_act(state, call, closer) && there && !open ==> outcome == Ok::<
                BookState,
                ContractError,
            >(state)
            &&& party_may_act(state, call, closer) && there && open && entitled ==> outcome
                == state.closed(borrower, closer, accrued)
            &&& refusal is None <==> party_may_act(state, call, closer) && there && (!open
                || entitled)
            &&& refusal matches Some(reason) ==> refused(outcome, reason)
        }),
        accrued matches Err(reason) ==> refused(state.closed(borrower, closer, accrued), reason),
{
}

/// Closing an open line is accepted exactly where the administrator closes it or the accrued
/// line owes nothing, and the total can be recorded. Of the accrued line it changes the status
/// alone; its debt counts in the total, its schedule is gone, the closing is announced, and
/// nothing else changes.
pub proof fn law_what_closing_does(
    state: BookState,
    borrower: Address,
    closer: Address,
    line: CreditLineData,
)
    requires
        state.lines.contains_key(borrower),
    ensures
        ({
            let outcome = state.closed(borrower, closer, Ok(line));
            let free = state.admin == Some(closer) || line.utilized_amount == 0;
            let counted = recordable(total_with(state, borrower, line.utilized_amount));
            &&& !free ==> refused(outcome, ContractError::UtilizationNotZero)
            &&& free && !counted ==> refused(outcome, ContractError::Overflow)
            &&& free && counted ==> outcome is Ok
            &&& outcome matches Ok(next) ==> {
                &&& refiled(
                    state,
                    next,
                    borrower,
                    CreditLineData { status: CreditStatus::Closed, ..line },
                )
                &&& schedule_dropped(state, next, borrower)
                &&& next.events == state.events.push(
                    announcement(LineTopic::Closed, borrower, CreditStatus::Closed, line),
                )
                &&& next.settled == state.settled
                &&& same_settings(state, next)
            }
        }),
{
}

/// A batch is refused before any line is looked at exactly where the administrator may not act
/// or it is too long.
pub proof fn law_when_a_batch_is_looked_at(
    state: BookState,
    call: CallState,
    borrowers: Seq<Address>,
    answers: Seq<Accrued>,
)
    ensures
        state.batch_refusal(call, borrowers) is None <==> admin_may_act(state, call)
            && borrowers.len() <= state.batch_close_max,
        admin_may_act(state, call) && borrowers.len() > state.batch_close_max ==> {
            &&& state.batch_refusal(call, borrowers) == Some(ContractError::BatchTooLarge)
            &&& refused(
                state.close_credit_lines_batch(call, borrowers, answers),
                ContractError::BatchTooLarge,
            )
        },
        state.batch_refusal(call, borrowers) matches Some(reason) ==> refused(
            state.close_credit_lines_batch(call, borrowers, answers),
            reason,
        ),
        state.batch_refusal(call, borrowers) is None ==> state.close_credit_lines_batch(
            call,
            borrowers,
            answers,
        ) == state.closed_in_turn(borrowers, answers),
{
}

/// A batch is the administrator's single closings in a row: a batch of nobody changes nothing,
/// and one borrower more adds that borrower's closing by the administrator. The first that
/// fails, or that is closed already, decides why the batch is refused, and accrual is asked
/// about a borrower exactly where the batch gets to an open line.
pub proof fn law_a_batch_is_single_closings(
    state: BookState,
    call: CallState,
    earlier: Seq<Address>,
    borrower: Address,
    answers: Seq<Accrued>,
)
    requires
        admin_may_act(state, call),
    ensures
        state.closed_in_turn(Seq::empty(), answers) == Ok::<BookState, ContractError>(state),
        state.closed_in_turn(earlier, answers) matches Err(reason) ==> refused(
            state.closed_in_turn(earlier.push(borrower), answers),
            reason,
        ),
        state.closed_in_turn(earlier, answers) matches Ok(next) ==> {
            let outcome = state.closed_in_turn(earlier.push(borrower), answers);
            &&& next.lines.contains_key(borrower) && next.lines[borrower].status is Closed
                ==> refused(outcome, ContractError::CreditLineClosed)
            &&& !next.lines.contains_key(borrower) ==> refused(
                outcome,
                ContractError::CreditLineNotFound,
            )
            &&& has_open_line(next, borrower) ==> outcome == next.close_credit_line(
                call,
                borrower,
                state.admin->0,
                answers[earlier.len() as int],
            )
        },
        state.batch_consults(earlier.push(borrower), answers, earlier.len() as int) <==> (
        state.closed_in_turn(earlier, answers) is Ok && has_open_line(
            state.closed_in_turn(earlier, answers)->Ok_0,
            borrower,
        )),
{
    let whole = earlier.push(borrower);
    assert(whole.drop_last() =~= earlier);
    assert(whole.take(earlier.len() as int) =~= earlier);
    lemma_batch_closed(state, earlier, answers);
    lemma_batch_unpaused(state, earlier, answers);
}

/// Accrual is asked about the borrower at a position on account of the borrowers up to there,
/// whoever comes after.
pub proof fn law_batch_asks_in_order(
    state: BookState,
    borrowers: Seq<Address>,
    answers: Seq<Accrued>,
    at: int,
)
    requires
        0 <= at < borrowers.len(),
    ensures
        state.batch_consults(borrowers, answers, at) == state.batch_consults(
            borrowers.take(at).push(borrowers[at]),
            answers,
            at,
        ),
{
    assert(borrowers.take(at).push(borrowers[at]).take(at) =~= borrowers.take(at));
}

proof fn lemma_batch_unpaused(state: BookState, borrowers: Seq<Address>, answers: Seq<Accrued>)
    ensures
        state.closed_in_turn(borrowers, answers) matches Ok(next) ==> next.paused == state.paused,
    decreases borrowers.len(),
{
    if borrowers.len() > 0 {
        lemma_batch_unpaused(state, borrowers.drop_last(), answers);
    }
}

// ---- defaulting ----

/// The administrator's default is refused without a line, then on a closed one, and by what
/// stops accrual.
pub proof fn law_when_a_default_gets_to_accrual(
    state: BookState,
    call: CallState,
    borrower: Address,
    accrued: Accrued,
)
    ensures
        ({
            let may = admin_may_act(state, call);
            let outcome = state.default_credit_line(call, borrower, accrued);
            let refusal = state.default_refusal(call, borrower);
            &&& may && !state.lines.contains_key(borrower) ==> refused(
                outcome,
                ContractError::CreditLineNotFound,
            )
            &&& may && state.lines.contains_key(borrower) && state.lines[borrower].status is Closed
                ==> refused(outcome, ContractError::CreditLineClosed)
            &&& may && has_open_line(state, borrower) ==> outcome == state.defaulted(
                borrower,
                accrued,
            )
            &&& refusal is None <==> may && has_open_line(state, borrower)
            &&& refusal matches Some(reason) ==> refused(outcome, reason)
        }),
        accrued matches Err(reason) ==> refused(state.defaulted(borrower, accrued), reason),
{
}

/// Putting an open line into default leaves a line that is in default already as it is, is
/// refused where accrual answers with a closed one, and is accepted otherwise exactly where the
/// total can be recorded. Of the accrued line it changes the status alone; its debt counts in
/// the total, the default and then the request to liquidate exactly that debt are announced, and
/// nothing else changes.
pub proof fn law_what_defaulting_does(state: BookState, borrower: Address, line: CreditLineData)
    requires
        state.lines.contains_key(borrower),
    ensures
        ({
            let outcome = state.defaulted(borrower, Ok(line));
            let fresh = !(line.status is Closed) && !(line.status is Defaulted);
            let counted = recordable(total_with(state, borrower, line.utilized_amount));
            &&& line.status is Closed ==> refused(outcome, ContractError::CreditLineClosed)
            &&& line.status is Defaulted ==> outcome == Ok::<BookState, ContractError>(state)
            &&& fresh && !counted ==> refused(outcome, ContractError::Overflow)
            &&& fresh && counted ==> outcome is Ok
            &&& fresh && outcome is Ok ==> {
                let next = outcome->Ok_0;
                &&& refiled(
                    state,
                    next,
                    borrower,
                    CreditLineData { status: CreditStatus::Defaulted, ..line },
                )
                &&& next.events == state.events.push(
                    announcement(LineTopic::Default, borrower, CreditStatus::Defaulted, line),
                ).push(
                    Event::LiquidationRequested {
                        request: DefaultLiquidationRequestedEvent {
                            borrower,
                            utilized_amount: line.utilized_amount,
                        },
                    },
                )
                &&& next.schedules == state.schedules
                &&& next.settled == state.settled
                &&& same_settings(state, next)
            }
        }),
{
}

// ---- forgiving ----

/// The administrator's write-off is refused for an amount that is not positive, then without a
/// line, then on a closed one, and by what stops accrual.
pub proof fn law_when_a_write_off_gets_to_accrual(
    state: BookState,
    call: CallState,
    borrower: Address,
    amount: i128,
    accrued: Accrued,
)
    ensures
        ({
            let may = admin_may_act(state, call);
            let outcome = state.forgive_debt(call, borrower, amount, accrued);
            let refusal = state.forgive_refusal(call, borrower, amount);
            &&& may && amount <= 0 ==> refused(outcome, ContractError::InvalidAmount)
            &&& may && amount > 0 && !state.lines.contains_key(borrower) ==> refused(
                outcome,
                ContractError::CreditLineNotFound,
            )
            &&& may && amount > 0 && state.lines.contains_key(borrower)
                && state.lines[borrower].status is Closed ==> refused(
                outcome,
                ContractError::CreditLineClosed,
            )
            &&& may && amount > 0 && has_open_line(state, borrower) ==> outcome == state.forgiven(
                borrower,
                amount,
                accrued,
            )
            &&& refusal is None <==> may && amount > 0 && has_open_line(state, borrower)
            &&& refusal matches Some(reason) ==> refused(outcome, reason)
        }),
        accrued matches Err(reason) ==> refused(state.forgiven(borrower, amount, accrued), reason),
{
}

/// A write-off of a positive amount, whatever the status of the line, leaves what the accrued
/// line owes beyond the amount, and nothing where it owes no more; the interest goes down by
/// what was forgiven, and to nothing where that is no less. Everything else about the accrued
/// line stays, the remaining debt counts in the total, nothing is announced, and nothing else
/// changes. It is refused exactly where the total cannot be recorded.
pub proof fn law_what_forgiving_does(
    state: BookState,
    borrower: Address,
    amount: i128,
    line: CreditLineData,
)
    requires
        state.lines.contains_key(borrower),
        amount > 0,
    ensures
        ({
            let outcome = state.forgiven(borrower, amount, Ok(line));
            let forgiven: int = if amount <= line.utilized_amount {
                amount as int
            } else {
                line.utilized_amount as int
            };
            let owed: int = if amount < line.utilized_amount {
                line.utilized_amount - amount
            } else {
                0
            };
            let interest: int = if forgiven < line.accrued_interest && recordable(
                line.accrued_interest - forgiven,
            ) {
                line.accrued_interest - forgiven
            } else {
                0
            };
            let counted = recordable(total_with(state, borrower, owed as i128));
            &&& !counted ==> refused(outcome, ContractError::Overflow)
            &&& counted ==> outcome is Ok
            &&& outcome matches Ok(next) ==> {
                let after = next.lines[borrower];
                &&& after.utilized_amount == owed
                &&& after.accrued_interest == interest
                &&& after == (CreditLineData {
                    utilized_amount: after.utilized_amount,
                    accrued_interest: after.accrued_interest,
                    ..line
                })
                &&& refiled(state, next, borrower, after)
                &&& next.events == state.events
                &&& next.schedules == state.schedules
                &&& next.settled == state.settled
                &&& same_settings(state, next)
            }
        }),
{
}

// ---- settling ----

/// The administrator's settlement is refused for an amount that is not positive, then where the
/// same settlement of the same borrower has been applied, then without a line, and by what stops
/// accrual.
pub proof fn law_when_a_settlement_gets_to_accrual(
    state: BookState,
    call: CallState,
    borrower: Address,
    recovered_amount: i128,
    settlement_id: Symbol,
    accrued: Accrued,
)
    ensures
        ({
            let may = admin_may_act(state, call);
            let outcome = state.settle_default_liquidation(
                call,
                borrower,
                recovered_amount,
                settlement_id,
                accrued,
            );
            let refusal = state.settle_refusal(call, borrower, recovered_amount, settlement_id);
            let applied = state.settled.contains(
                (
                    Symbol { hi: 0x6c69_715f_7365_656e_0000_0000_0000_0000, lo: 0 },
                    borrower,
                    settlement_id,
                ),
            );
            &&& may && recovered_amount <= 0 ==> refused(outcome, ContractError::InvalidAmount)
            &&& may && recovered_amount > 0 && applied ==> refused(
                outcome,
                ContractError::AlreadyInitialized,
            )
            &&& may && recovered_amount > 0 && !applied && !state.lines.contains_key(borrower)
                ==> refused(outcome, ContractError::CreditLineNotFound)
            &&& may && recovered_amount > 0 && !applied && state.lines.contains_key(borrower)
                ==> outcome == state.recovered(borrower, recovered_amount, settlement_id, accrued)
            &&& refusal is None <==> may && recovered_amount > 0 && !applied
                && state.lines.contains_key(borrower)
            &&& refusal matches Some(reason) ==> refused(outcome, reason)
        }),
        accrued matches Err(reason) ==> refused(
            state.recovered(borrower, recovered_amount, settlement_id, accrued),
            reason,
        ),
{
}

/// A settlement of a positive amount is accepted exactly where the accrued line is in default,
/// owes at least the amount, interest that fell due included, and the total can be recorded. It
/// takes exactly the amount off the accrued debt; where that is all of it, the line is closed,
/// its schedule is gone and the closing is announced, and otherwise the line stays in default
/// with its schedule. Everything else about the accrued line stays, the settlement is recorded
/// and announced, and nothing else changes.
pub proof fn law_what_settling_does(
    state: BookState,
    borrower: Address,
    recovered_amount: i128,
    settlement_id: Symbol,
    line: CreditLineData,
)
    requires
        state.lines.contains_key(borrower),
        recovered_amount > 0,
    ensures
        ({
            let outcome = state.recovered(borrower, recovered_amount, settlement_id, Ok(line));
            let in_default = line.status is Defaulted;
            let covered = recovered_amount <= line.utilized_amount;
            let owed = line.utilized_amount - recovered_amount;
            let counted = recordable(total_with(state, borrower, owed as i128));
            let key = (
                Symbol { hi: 0x6c69_715f_7365_656e_0000_0000_0000_0000, lo: 0 },
                borrower,
                settlement_id,
            );
            let status = if recovered_amount == line.utilized_amount {
                CreditStatus::Closed
            } else {
                CreditStatus::Defaulted
            };
            let settlement = Event::LiquidationSettled {
                settlement: DefaultLiquidationSettledEvent {
                    borrower,
                    settlement_id,
                    recovered_amount,
                    remaining_utilized_amount: owed as i128,
                    status,
                },
            };
            &&& !in_default ==> refused(outcome, ContractError::CreditLineDefaulted)
            &&& in_default && !covered ==> refused(outcome, ContractError::OverLimit)
            &&& in_default && covered && !counted ==> refused(outcome, ContractError::Overflow)
            &&& in_default && covered && counted ==> outcome is Ok
            &&& outcome matches Ok(next) ==> {
                let after = next.lines[borrower];
                &&& after.utilized_amount == owed
                &&& after.status == status
                &&& after == (CreditLineData {
                    utilized_amount: after.utilized_amount,
                    status: after.status,
                    ..line
                })
                &&& refiled(state, next, borrower, after)
                &&& next.settled =~= state.settled.insert(key)
                &&& recovered_amount == line.utilized_amount ==> {
                    &&& schedule_dropped(state, next, borrower)
                    &&& next.events == state.events.push(
                        announcement(LineTopic::Closed, borrower, CreditStatus::Closed, line),
                    ).push(settlement)
                }
                &&& recovered_amount < line.utilized_amount ==> {
                    &&& next.schedules == state.schedules
                    &&& next.events == state.events.push(settlement)
                }
                &&& same_settings(state, next)
            }
        }),
{
}

/// A settlement is recorded under the tag `liq_seen`, the borrower and the settlement.
pub proof fn law_settlement_key(borrower: Address, settlement_id: Symbol)
    ensures
        settlement_key(borrower, settlement_id).0 == (Symbol {
            hi: 0x6c69_715f_7365_656e_0000_0000_0000_0000,
            lo: 0,
        }),
        settlement_key(borrower, settlement_id).1 == borrower,
        settlement_key(borrower, settlement_id).2 == settlement_id,
{
}

/// Recovering a debt in two settlements, with no interest accruing in between, leaves the line,
/// the total and the schedules as recovering it in one does.
pub proof fn law_settlements_add_up(
    state: BookState,
    borrower: Address,
    first: i128,
    second: i128,
    first_id: Symbol,
    second_id: Symbol,
    line: CreditLineData,
)
    requires
        state.lines.contains_key(borrower),
        line.status is Defaulted,
        first > 0,
        second > 0,
        first + second <= line.utilized_amount,
        state.recovered(borrower, first, first_id, Ok(line)) is Ok,
        state.recovered(borrower, (first + second) as i128, second_id, Ok(line)) is Ok,
    ensures
        ({
            let once = state.recovered(borrower, first, first_id, Ok(line))->Ok_0;
            let twice = once.recovered(borrower, second, second_id, Ok(once.lines[borrower]));
            let together = state.recovered(
                borrower,
                (first + second) as i128,
                second_id,
                Ok(line),
            )->Ok_0;
            &&& twice matches Ok(apart)
            &&& same_debts(together, apart)
            &&& apart.schedules =~= together.schedules
        }),
{
}

// ---- reinstating ----

/// The administrator's reinstatement is refused for a target that is neither active nor
/// restricted, then without a line, and by what stops accrual.
pub proof fn law_when_a_reinstatement_gets_to_accrual(
    state: BookState,
    call: CallState,
    borrower: Address,
    target_status: CreditStatus,
    accrued: Accrued,
)
    ensures
        ({
            let may = admin_may_act(state, call);
            let outcome = state.reinstate_credit_line(call, borrower, target_status, accrued);
            let refusal = state.reinstate_refusal(call, borrower, target_status);
            let target = target_status is Active || target_status is Restricted;
            &&& may && !target ==> refused(outcome, ContractError::InvalidAmount)
            &&& may && target && !state.lines.contains_key(borrower) ==> refused(
                outcome,
                ContractError::CreditLineNotFound,
            )
            &&& may && target && state.lines.contains_key(borrower) ==> outcome == state.reinstated(
                borrower,
                target_status,
                accrued,
            )
            &&& refusal is None <==> may && target && state.lines.contains_key(borrower)
            &&& refusal matches Some(reason) ==> refused(outcome, reason)
        }),
        accrued matches Err(reason) ==> refused(
            state.reinstated(borrower, target_status, accrued),
            reason,
        ),
{
}

/// A reinstatement is accepted exactly where the accrued line is in default and the total can be
/// recorded. Of the accrued line it changes the status, to the target, and clears the suspension
/// stamp: the debt is the accrued one and counts in the total, the reinstatement is announced on
/// the line's terms, and nothing else changes.
pub proof fn law_what_reinstating_does(
    state: BookState,
    borrower: Address,
    target_status: CreditStatus,
    line: CreditLineData,
)
    requires
        state.lines.contains_key(borrower),
    ensures
        ({
            let outcome = state.reinstated(borrower, target_status, Ok(line));
            let in_default = line.status is Defaulted;
            let counted = recordable(total_with(state, borrower, line.utilized_amount));
            &&& !in_default ==> refused(outcome, ContractError::CreditLineDefaulted)
            &&& in_default && !counted ==> refused(outcome, ContractError::Overflow)
            &&& in_default && counted ==> outcome is Ok
            &&& outcome matches Ok(next) ==> {
                &&& refiled(
                    state,
                    next,
                    borrower,
                    CreditLineData { status: target_status, suspension_ts: 0, ..line },
                )
                &&& next.events == state.events.push(
                    announcement(LineTopic::Reinstate, borrower, target_status, line),
                )
                &&& next.schedules == state.schedules
                &&& next.settled == state.settled
                &&& same_settings(state, next)
            }
        }),
{
}

} // verus!
