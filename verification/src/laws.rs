//! What holds of the lifecycle calls taken together.

use crate::batch::{
    all_accrued, all_open, batch_events, batch_total, batch_totals_fit, lemma_batch_closed,
    lemma_batch_succeeds, lemma_batch_totals_fit,
};
use crate::book::{BookState, CallState};
use crate::events::Event;
use crate::history::{History, Operation};
use crate::model::{
    fits_i128, min_of, settlement_key, written_off, Accrued, MAX_INTEREST_RATE_BPS,
};
use crate::totals::total_debt;
use crate::types::{
    Address, ContractError, CreditLineData, CreditStatus, RepaymentSchedule, Symbol,
};
use vstd::arithmetic::div_mod::{lemma_fundamental_div_mod, lemma_fundamental_div_mod_converse};
use vstd::prelude::*;

verus! {

// ---- what a batch comes to ----

/// Closing lines in turn leaves the configuration alone.
proof fn lemma_closed_in_turn_configuration(
    state: BookState,
    borrowers: Seq<Address>,
    answers: Seq<Accrued>,
)
    ensures
        state.closed_in_turn(borrowers, answers) matches Ok(next) ==> {
            &&& same_configuration(next, state)
            &&& same_bounds(next, state)
        },
    decreases borrowers.len(),
{
    if borrowers.len() > 0 {
        lemma_closed_in_turn_configuration(state, borrowers.drop_last(), answers);
    }
}

/// A batch is all or nothing: the administrator's batch of permitted length succeeds exactly
/// when it names nobody twice, everyone it names has a line that is not closed, accrual stops at
/// none of them and the total can be recorded after each; then exactly the named lines are
/// closed, with all else about them as accrual left it, their schedules are dropped, and they
/// are announced in the order in which they are named.
pub proof fn law_batch_closes_all_or_none(
    state: BookState,
    call: CallState,
    borrowers: Seq<Address>,
    answers: Seq<Accrued>,
)
    requires
        state.admin_call_refusal(call) is None,
        borrowers.len() <= state.batch_close_max,
    ensures
        state.close_credit_lines_batch(call, borrowers, answers) is Ok <==> {
            &&& borrowers.no_duplicates()
            &&& all_open(state, borrowers)
            &&& all_accrued(borrowers, answers)
            &&& batch_totals_fit(state, borrowers, answers)
        },
        state.close_credit_lines_batch(call, borrowers, answers) matches Ok(next) ==> {
            &&& forall|i: int|
                0 <= i < borrowers.len() ==> next.line(#[trigger] borrowers[i]) == Some(
                    CreditLineData { status: CreditStatus::Closed, ..answers[i]->Ok_0 },
                ) && !next.schedules.contains_key(borrowers[i])
            &&& next.total_utilized == batch_total(state, borrowers, answers)
            &&& next.events == state.events + batch_events(borrowers, answers)
        },
{
    lemma_batch_closed(state, borrowers, answers);
    if state.closed_in_turn(borrowers, answers) is Ok {
        lemma_batch_totals_fit(state, borrowers, answers);
        assert forall|i: int| 0 <= i < borrowers.len() implies borrowers.contains(
            #[trigger] borrowers[i],
        ) by {}
    }
    if borrowers.no_duplicates() && all_open(state, borrowers) && all_accrued(borrowers, answers)
        && batch_totals_fit(state, borrowers, answers) {
        lemma_batch_succeeds(state, borrowers, answers);
    }
}

// ---- what every call keeps ----

/// A call leaves the line, the schedule and the settlements of a borrower whom it does not name
/// as they were.
pub proof fn law_other_borrowers_untouched(
    state: BookState,
    call: CallState,
    operation: Operation,
    other: Address,
)
    requires
        !operation.concerns(other),
    ensures
        state.after(call, operation).line(other) == state.line(other),
        state.after(call, operation).schedules.contains_key(other)
            == state.schedules.contains_key(other),
        state.schedules.contains_key(other) ==> state.after(call, operation).schedules[other]
            == state.schedules[other],
        forall|id: Symbol|
            state.after(call, operation).settled.contains(#[trigger] settlement_key(other, id))
                == state.settled.contains(settlement_key(other, id)),
{
    if let Operation::CloseBatch { borrowers, answers } = operation {
        lemma_batch_closed(state, borrowers, answers);
    }
}

/// Administrator, pause switch and ceilings are the same in both states.
pub open spec fn same_configuration(one: BookState, other: BookState) -> bool {
    &&& one.admin == other.admin
    &&& one.paused == other.paused
    &&& one.max_risk_score == other.max_risk_score
    &&& one.batch_close_max == other.batch_close_max
}

/// The credit limit bounds are the same in both states.
pub open spec fn same_bounds(one: BookState, other: BookState) -> bool {
    &&& one.min_credit_limit == other.min_credit_limit
    &&& one.max_credit_limit == other.max_credit_limit
}

/// No call changes the administrator, the pause switch or the protocol's ceilings, and only the
/// call that sets the credit limit bounds changes those.
pub proof fn law_configuration_stands(state: BookState, call: CallState, operation: Operation)
    ensures
        same_configuration(state.after(call, operation), state),
        !(operation is SetCreditLimitBounds) ==> same_bounds(
            state.after(call, operation),
            state,
        ),
{
    let after = state.after(call, operation);
    match operation {
        Operation::CloseBatch { borrowers, answers } => {
            lemma_closed_in_turn_configuration(state, borrowers, answers);
        },
        Operation::Open { .. } => {
            assert(same_configuration(after, state));
        },
        Operation::Close { .. } => {
            assert(same_configuration(after, state));
        },
        Operation::Default { .. } => {
            assert(same_configuration(after, state));
        },
        Operation::Settle { .. } => {
            assert(same_configuration(after, state));
        },
        Operation::Reinstate { .. } => {
            assert(same_configuration(after, state));
        },
        _ => {
            assert(same_configuration(after, state));
        },
    }
}

/// Lines, applied settlements and announcements are never taken back.
pub proof fn law_records_are_kept(state: BookState, call: CallState, operation: Operation)
    ensures
        state.lines.dom().subset_of(state.after(call, operation).lines.dom()),
        state.settled.subset_of(state.after(call, operation).settled),
        state.events.is_prefix_of(state.after(call, operation).events),
{
    if let Operation::CloseBatch { borrowers, answers } = operation {
        lemma_batch_closed(state, borrowers, answers);
    }
}

/// The statuses between which an accepted call may move the line of a borrower whom it names,
/// `None` standing for no line.
pub open spec fn may_move(
    operation: Operation,
    from: Option<CreditStatus>,
    to: Option<CreditStatus>,
) -> bool {
    match operation {
        Operation::Open { .. } => from != Some(CreditStatus::Active) && to == Some(
            CreditStatus::Active,
        ),
        Operation::Suspend { .. } => from == Some(CreditStatus::Active) && to == Some(
            CreditStatus::Suspended,
        ),
        Operation::SelfSuspend { .. } => from == Some(CreditStatus::Active) && to == Some(
            CreditStatus::Suspended,
        ),
        Operation::Close { .. } => from is Some && to == Some(CreditStatus::Closed),
        Operation::CloseBatch { .. } => from is Some && from != Some(CreditStatus::Closed) && to
            == Some(CreditStatus::Closed),
        Operation::Default { .. } => from is Some && from != Some(CreditStatus::Closed) && to
            == Some(CreditStatus::Defaulted),
        Operation::Settle { .. } => from == Some(CreditStatus::Defaulted) && (to == Some(
            CreditStatus::Defaulted,
        ) || to == Some(CreditStatus::Closed)),
        Operation::Reinstate { .. } => from == Some(CreditStatus::Defaulted) && (to == Some(
            CreditStatus::Active,
        ) || to == Some(CreditStatus::Restricted)),
        _ => from == to,
    }
}

/// Every accepted call moves the lines that it names along the permitted transitions, and no
/// other line.
pub proof fn law_transitions(
    state: BookState,
    call: CallState,
    operation: Operation,
    borrower: Address,
)
    requires
        state.step(call, operation) is Ok,
        state.accrual_keeps_status(operation),
    ensures
        operation.concerns(borrower) ==> may_move(
            operation,
            state.status(borrower),
            state.after(call, operation).status(borrower),
        ),
        !operation.concerns(borrower) ==> state.after(call, operation).status(borrower)
            == state.status(borrower),
{
    if let Operation::CloseBatch { borrowers, answers } = operation {
        lemma_batch_closed(state, borrowers, answers);
        if borrowers.contains(borrower) {
            let i = choose|i: int| 0 <= i < borrowers.len() && borrowers[i] == borrower;
            assert(state.open_line_refusal(borrowers[i]) is None);
        } else {
            assert(state.after(call, operation).line(borrower) == state.line(borrower));
        }
    }
}

/// Whenever a call changes the status of a line, it announces the new status.
pub proof fn law_status_changes_are_announced(
    state: BookState,
    call: CallState,
    operation: Operation,
    borrower: Address,
)
    requires
        state.accrual_keeps_status(operation),
        state.after(call, operation).status(borrower) != state.status(borrower),
    ensures
        exists|at: int|
            state.events.len() <= at < state.after(call, operation).events.len() && announces(
                #[trigger] state.after(call, operation).events[at],
                borrower,
                state.after(call, operation).status(borrower),
            ),
{
    let after = state.after(call, operation);
    let first = state.events.len() as int;
    match operation {
        Operation::CloseBatch { borrowers, answers } => {
            lemma_batch_closed(state, borrowers, answers);
            assert(after.line(borrower) == state.line(borrower) || borrowers.contains(borrower));
            let i = choose|i: int| 0 <= i < borrowers.len() && borrowers[i] == borrower;
            assert(announces(after.events[first + i], borrower, after.status(borrower)));
        },
        _ => {
            assert(announces(after.events[first], borrower, after.status(borrower)));
        },
    }
}

/// `event` says that `borrower`'s line has moved to `status`.
pub open spec fn announces(event: Event, borrower: Address, status: Option<CreditStatus>) -> bool {
    event matches Event::CreditLine { line, .. } && line.borrower == borrower && status == Some(
        line.status,
    )
}

// ---- who may do what ----

/// While the protocol is paused every call is refused, but for the bookkeeping that follows a
/// repayment.
pub proof fn law_paused_refuses(state: BookState, call: CallState, operation: Operation)
    requires
        state.paused,
        !(operation is AdvanceRepaymentSchedule),
    ensures
        state.step(call, operation) is Err,
{
}

/// The calls that are the administrator's alone.
pub open spec fn is_admin_call(operation: Operation) -> bool {
    match operation {
        Operation::SetCreditLimitBounds { .. } => true,
        Operation::SetRepaymentSchedule { .. } => true,
        Operation::Open { .. } => true,
        Operation::Suspend { .. } => true,
        Operation::CloseBatch { .. } => true,
        Operation::Default { .. } => true,
        Operation::Forgive { .. } => true,
        Operation::Settle { .. } => true,
        Operation::Reinstate { .. } => true,
        _ => false,
    }
}

/// Without the administrator's authorization the administrator's calls are refused: nobody else
/// sets bounds or schedules, opens a line, suspends the line of another, closes lines in a
/// batch, or puts a line into default, forgives its debt, settles or reinstates it.
pub proof fn law_admin_calls_need_admin(state: BookState, call: CallState, operation: Operation)
    requires
        !state.admin_signed(call),
        is_admin_call(operation),
    ensures
        state.step(call, operation) is Err,
{
}

/// Without the administrator's authorization a line can only be suspended by its borrower, or
/// closed by its borrower when nothing is owed; it is never put into default, brought back, or
/// relieved of debt.
pub proof fn law_borrower_powers(
    state: BookState,
    call: CallState,
    operation: Operation,
    borrower: Address,
)
    requires
        !state.admin_signed(call),
        state.lines.contains_key(borrower),
        state.accrual_keeps_status(operation),
        state.accrual_keeps_debt(operation),
    ensures
        ({
            let before = state.lines[borrower];
            let after = state.after(call, operation).lines[borrower];
            &&& after.utilized_amount >= before.utilized_amount
            &&& after.status != before.status ==> {
                ||| before.status is Active && after.status is Suspended
                    && call.signers.contains(borrower)
                ||| after.status is Closed && after.utilized_amount == 0
                    && call.signers.contains(borrower)
            }
        }),
{
}

/// A line that is suspended, in default, restricted or closed never becomes active again
/// without the administrator's authorization.
pub proof fn law_no_self_reinstatement(
    state: BookState,
    call: CallState,
    operation: Operation,
    borrower: Address,
)
    requires
        !state.admin_signed(call),
        state.lines.contains_key(borrower),
        !(state.lines[borrower].status is Active),
        state.accrual_keeps_status(operation),
    ensures
        !(state.after(call, operation).lines[borrower].status is Active),
{
}

/// Through any calls that the administrator did not authorize, a line that is not active stays
/// not active.
pub proof fn law_no_self_reinstatement_ever(
    state: BookState,
    history: History,
    borrower: Address,
)
    requires
        state.lines.contains_key(borrower),
        !(state.lines[borrower].status is Active),
        forall|i: int|
            0 <= i < history.len() ==> !state.admin_signed((#[trigger] history[i]).0)
                && state.run(history.take(i)).accrual_keeps_status(history[i].1),
    ensures
        state.run(history).admin == state.admin,
        state.run(history).lines.contains_key(borrower),
        !(state.run(history).lines[borrower].status is Active),
    decreases history.len(),
{
    if history.len() > 0 {
        let earlier = history.drop_last();
        let last = history.len() - 1;
        assert forall|i: int| 0 <= i < earlier.len() implies !state.admin_signed(
            (#[trigger] earlier[i]).0,
        ) && state.run(earlier.take(i)).accrual_keeps_status(earlier[i].1) by {
            assert(history[i] == earlier[i]);
            assert(history.take(i) =~= earlier.take(i));
        }
        law_no_self_reinstatement_ever(state, earlier, borrower);
        assert(history.take(last) =~= earlier);
        let (call, operation) = history[last];
        let before = state.run(earlier);
        law_no_self_reinstatement(before, call, operation, borrower);
        law_configuration_stands(before, call, operation);
        law_records_are_kept(before, call, operation);
    }
}

// ---- settlements ----

/// Settlements of different borrowers, and different settlements of one borrower, are recorded
/// under different keys.
pub proof fn law_settlement_keys_do_not_collide(
    borrower: Address,
    settlement_id: Symbol,
    other_borrower: Address,
    other_id: Symbol,
)
    ensures
        settlement_key(borrower, settlement_id) == settlement_key(other_borrower, other_id)
            <==> borrower == other_borrower && settlement_id == other_id,
{
}

/// An applied settlement stays applied through any calls.
proof fn lemma_settled_for_good(state: BookState, history: History)
    ensures
        state.settled.subset_of(state.run(history).settled),
        state.run(history).admin == state.admin,
        state.run(history).paused == state.paused,
    decreases history.len(),
{
    if history.len() > 0 {
        lemma_settled_for_good(state, history.drop_last());
        let (call, operation) = history.last();
        law_records_are_kept(state.run(history.drop_last()), call, operation);
        law_configuration_stands(state.run(history.drop_last()), call, operation);
    }
}

/// A settlement is applied at most once: once it has been, and whatever calls are made in
/// between, the administrator's attempt to apply it again is refused as already applied,
/// whatever positive amount it names.
pub proof fn law_settlement_applies_once(
    state: BookState,
    call: CallState,
    borrower: Address,
    amount: i128,
    settlement_id: Symbol,
    accrued: Accrued,
    between: History,
    later_call: CallState,
    later_amount: i128,
    later_accrued: Accrued,
)
    requires
        state.settle_default_liquidation(call, borrower, amount, settlement_id, accrued) is Ok,
        state.admin_signed(later_call),
        later_amount > 0,
    ensures
        ({
            let settled = state.settle_default_liquidation(
                call,
                borrower,
                amount,
                settlement_id,
                accrued,
            )->Ok_0;
            settled.run(between).settle_default_liquidation(
                later_call,
                borrower,
                later_amount,
                settlement_id,
                later_accrued,
            ) == Err::<BookState, ContractError>(ContractError::AlreadyInitialized)
        }),
{
    let settled = state.settle_default_liquidation(
        call,
        borrower,
        amount,
        settlement_id,
        accrued,
    )->Ok_0;
    assert(settled.settled.contains(settlement_key(borrower, settlement_id)));
    lemma_settled_for_good(settled, between);
}

/// A settlement takes exactly the recovered amount off the debt, and closes the line exactly
/// when nothing is left; a line that it leaves in default still owes something.
pub proof fn law_settlement_accounts_for_recovery(
    state: BookState,
    call: CallState,
    borrower: Address,
    amount: i128,
    settlement_id: Symbol,
    line: CreditLineData,
)
    requires
        state.settle_default_liquidation(call, borrower, amount, settlement_id, Ok(line)) is Ok,
    ensures
        ({
            let after = state.settle_default_liquidation(
                call,
                borrower,
                amount,
                settlement_id,
                Ok(line),
            )->Ok_0.lines[borrower];
            &&& after.utilized_amount + amount == line.utilized_amount
            &&& after.utilized_amount >= 0
            &&& after.status is Closed <==> after.utilized_amount == 0
            &&& after.status is Defaulted <==> after.utilized_amount > 0
        }),
{
}

// ---- closing and opening ----

/// Closing a line that is closed already changes nothing and announces nothing, whoever closes
/// it again.
pub proof fn law_close_is_idempotent(
    state: BookState,
    call: CallState,
    borrower: Address,
    closer: Address,
    accrued: Accrued,
    later_call: CallState,
    later_closer: Address,
    later_accrued: Accrued,
)
    requires
        state.close_credit_line(call, borrower, closer, accrued) is Ok,
        later_call.signers.contains(later_closer),
    ensures
        ({
            let once = state.close_credit_line(call, borrower, closer, accrued)->Ok_0;
            &&& once.lines[borrower].status is Closed
            &&& once.close_credit_line(later_call, borrower, later_closer, later_accrued) == Ok::<
                BookState,
                ContractError,
            >(once)
        }),
{
}

/// Putting a line into default that is in default already changes nothing and announces
/// nothing, provided accrual is not what stops it.
pub proof fn law_default_is_idempotent(
    state: BookState,
    call: CallState,
    borrower: Address,
    accrued: Accrued,
    later: CreditLineData,
)
    requires
        state.default_credit_line(call, borrower, accrued) is Ok,
        state.accrual_keeps_status(Operation::Default { borrower, accrued }),
        later.status is Defaulted,
    ensures
        ({
            let once = state.default_credit_line(call, borrower, accrued)->Ok_0;
            &&& once.lines[borrower].status is Defaulted
            &&& once.default_credit_line(call, borrower, Ok(later)) == Ok::<
                BookState,
                ContractError,
            >(once)
        }),
{
}

/// The administrator can put any line into default that is not closed, one that its borrower has
/// suspended included, as long as the total with the accrued debt can be recorded; nothing about
/// the line that accrual answered with changes but its status.
pub proof fn law_admin_can_default(
    state: BookState,
    call: CallState,
    borrower: Address,
    line: CreditLineData,
)
    requires
        state.admin_call_refusal(call) is None,
        state.lines.contains_key(borrower),
        !(state.lines[borrower].status is Closed),
        !(line.status is Closed),
        !(line.status is Defaulted),
    ensures
        ({
            let outcome = state.default_credit_line(call, borrower, Ok(line));
            let total = state.total_utilized - state.debt(borrower) + line.utilized_amount;
            &&& outcome is Ok <==> fits_i128(total)
            &&& outcome matches Ok(next) ==> {
                &&& next.lines[borrower] == (CreditLineData {
                    status: CreditStatus::Defaulted,
                    ..line
                })
                &&& next.total_utilized == total
                &&& next.schedules == state.schedules
            }
        }),
{
}

/// The administrator can close any line, whatever its status and its debt, as long as the total
/// with the accrued debt can be recorded; nothing about the line that accrual answered with
/// changes but its status, and its debt counts in the total.
pub proof fn law_admin_can_close(
    state: BookState,
    call: CallState,
    borrower: Address,
    line: CreditLineData,
)
    requires
        state.admin_call_refusal(call) is None,
        state.lines.contains_key(borrower),
        !(state.lines[borrower].status is Closed),
    ensures
        ({
            let outcome = state.close_credit_line(call, borrower, state.admin->0, Ok(line));
            let total = state.total_utilized - state.debt(borrower) + line.utilized_amount;
            &&& outcome is Ok <==> fits_i128(total)
            &&& line.utilized_amount == state.debt(borrower) ==> outcome is Ok
            &&& outcome matches Ok(next) ==> {
                &&& next.lines[borrower] == (CreditLineData {
                    status: CreditStatus::Closed,
                    ..line
                })
                &&& next.total_utilized == total
                &&& !next.schedules.contains_key(borrower)
            }
        }),
{
}

/// A borrower can close a line on which nothing is owed once interest has accrued, and no other;
/// a third party can close no line that is open.
pub proof fn law_who_else_can_close(
    state: BookState,
    call: CallState,
    borrower: Address,
    closer: Address,
    accrued: Accrued,
)
    requires
        state.own_call_refusal(call, closer) is None,
        state.admin is Some,
        state.admin != Some(closer),
        state.lines.contains_key(borrower),
        !(state.lines[borrower].status is Closed),
    ensures
        state.close_credit_line(call, borrower, closer, accrued) is Ok <==> {
            &&& closer == borrower
            &&& accrued matches Ok(line) && line.utilized_amount == 0
            &&& fits_i128(state.total_utilized - state.debt(borrower))
        },
{
}

/// A line that has just been opened carries the terms it was opened with, no debt, no schedule,
/// and respects every ceiling and bound; its borrower can close it as long as nothing has accrued
/// on it.
pub proof fn law_opened_line(
    state: BookState,
    call: CallState,
    borrower: Address,
    credit_limit: i128,
    interest_rate_bps: u32,
    risk_score: u32,
    later_call: CallState,
    later: CreditLineData,
)
    requires
        state.open_credit_line(call, borrower, credit_limit, interest_rate_bps, risk_score) is Ok,
        later_call.signers.contains(borrower),
        later.utilized_amount == 0,
    ensures
        ({
            let opened = state.open_credit_line(
                call,
                borrower,
                credit_limit,
                interest_rate_bps,
                risk_score,
            )->Ok_0;
            let line = opened.lines[borrower];
            &&& line.status is Active
            &&& line.credit_limit == credit_limit > 0
            &&& opened.within_bounds(line.credit_limit)
            &&& line.interest_rate_bps == interest_rate_bps <= MAX_INTEREST_RATE_BPS
            &&& line.risk_score == risk_score <= state.max_risk_score
            &&& line.utilized_amount == 0
            &&& line.accrued_interest == 0
            &&& !opened.schedules.contains_key(borrower)
            &&& opened.close_credit_line(later_call, borrower, borrower, Ok(later)) is Ok
        }),
{
}

/// After a line has been closed, the administrator can open it anew on any acceptable terms,
/// provided the total without the old debt can be recorded; the new line owes nothing.
pub proof fn law_closed_line_can_be_reopened(
    state: BookState,
    call: CallState,
    borrower: Address,
    closer: Address,
    accrued: Accrued,
    later_call: CallState,
    credit_limit: i128,
    interest_rate_bps: u32,
    risk_score: u32,
)
    requires
        state.close_credit_line(call, borrower, closer, accrued) is Ok,
        state.admin_signed(later_call),
        credit_limit > 0,
        interest_rate_bps <= MAX_INTEREST_RATE_BPS,
        risk_score <= state.max_risk_score,
        state.within_bounds(credit_limit),
        fits_i128(state.total_utilized - state.debt(borrower)),
    ensures
        ({
            let closed = state.close_credit_line(call, borrower, closer, accrued)->Ok_0;
            let outcome = closed.open_credit_line(
                later_call,
                borrower,
                credit_limit,
                interest_rate_bps,
                risk_score,
            );
            &&& outcome is Ok
            &&& outcome->Ok_0.lines[borrower].status is Active
            &&& outcome->Ok_0.lines[borrower].utilized_amount == 0
        }),
{
}

/// Bounds that have been set are the bounds that hold: they are in order and not negative, and
/// a limit passes exactly when it lies between them.
pub proof fn law_bounds_hold_once_set(
    state: BookState,
    call: CallState,
    min: i128,
    max: i128,
    credit_limit: i128,
)
    requires
        state.set_credit_limit_bounds(call, min, max) is Ok,
    ensures
        0 <= min <= max,
        ({
            let bounded = state.set_credit_limit_bounds(call, min, max)->Ok_0;
            &&& (bounded.min_credit_limit, bounded.max_credit_limit) == (Some(min), Some(max))
            &&& bounded.within_bounds(credit_limit) <==> min <= credit_limit <= max
        }),
{
}

// ---- lines, debts and schedules ----

/// A line as it should be found under `borrower`: it is that borrower's, its debt and its
/// interest are not negative, and its rate respects the ceiling.
pub open spec fn sound_line(borrower: Address, line: CreditLineData) -> bool {
    &&& line.borrower == borrower
    &&& line.utilized_amount >= 0
    &&& line.accrued_interest >= 0
    &&& line.interest_rate_bps <= MAX_INTEREST_RATE_BPS
}

/// All lines are as they should be.
pub open spec fn sound_lines(state: BookState) -> bool {
    forall|borrower: Address| #[trigger]
        state.lines.contains_key(borrower) ==> sound_line(borrower, state.lines[borrower])
}

/// A book without lines and schedules is sound, and its total of zero is the sum of its debts.
pub proof fn law_empty_book_is_sound(state: BookState)
    requires
        state.lines == Map::<Address, CreditLineData>::empty(),
        state.schedules == Map::<Address, RepaymentSchedule>::empty(),
        state.total_utilized == 0,
    ensures
        sound_lines(state),
        sound_schedules(state),
        state.lines.dom().finite(),
        state.total_utilized == total_debt(state.lines),
{
}

/// All lines that accrual answers the call with are as they should be.
pub open spec fn sound_answers(operation: Operation) -> bool {
    &&& operation.accrual() matches Some((borrower, line)) ==> sound_line(borrower, line)
    &&& operation matches Operation::CloseBatch { borrowers, answers } ==> forall|i: int|
        0 <= i < borrowers.len() ==> ((#[trigger] answers[i]) matches Ok(line) ==> sound_line(
            borrowers[i],
            line,
        ))
}

/// Calls keep lines sound as long as accrual answers with sound lines: no call makes a debt
/// negative, files a line under another borrower or lets a rate exceed its ceiling.
pub proof fn law_lines_stay_sound(state: BookState, call: CallState, operation: Operation)
    requires
        sound_lines(state),
        sound_answers(operation),
    ensures
        sound_lines(state.after(call, operation)),
{
    let after = state.after(call, operation);
    if let Operation::CloseBatch { borrowers, answers } = operation {
        lemma_batch_closed(state, borrowers, answers);
        if state.step(call, operation) is Ok {
            assert forall|b: Address| #[trigger] after.lines.contains_key(b) implies sound_line(
                b,
                after.lines[b],
            ) by {
                assert(state.lines.contains_key(b));
                if borrowers.contains(b) {
                    let i = choose|i: int| 0 <= i < borrowers.len() && borrowers[i] == b;
                    assert(sound_line(borrowers[i], answers[i]->Ok_0));
                    assert(after.line(borrowers[i]) is Some);
                } else {
                    assert(after.line(b) == state.line(b));
                }
            }
        }
    }
}

/// Only lines that are not closed have schedules, and every schedule is usable: it has a
/// positive installment and a positive period.
pub open spec fn sound_schedules(state: BookState) -> bool {
    forall|borrower: Address| #[trigger]
        state.schedules.contains_key(borrower) ==> {
            &&& state.lines.contains_key(borrower)
            &&& !(state.lines[borrower].status is Closed)
            &&& state.schedules[borrower].amount_per_period > 0
            &&& state.schedules[borrower].period_seconds > 0
        }
}

/// Calls keep schedules sound: a line that is closed, by whichever call, loses its schedule.
pub proof fn law_schedules_stay_sound(state: BookState, call: CallState, operation: Operation)
    requires
        sound_schedules(state),
        state.accrual_keeps_status(operation),
    ensures
        sound_schedules(state.after(call, operation)),
{
    let after = state.after(call, operation);
    if let Operation::CloseBatch { borrowers, answers } = operation {
        lemma_batch_closed(state, borrowers, answers);
        if state.step(call, operation) is Ok {
            assert forall|b: Address| #[trigger] after.schedules.contains_key(b) implies {
                &&& after.lines.contains_key(b)
                &&& !(after.lines[b].status is Closed)
                &&& after.schedules[b].amount_per_period > 0
                &&& after.schedules[b].period_seconds > 0
            } by {
                assert(state.schedules.contains_key(b) && !borrowers.contains(b));
                assert(after.line(b) == state.line(b));
                assert(after.schedules[b] == state.schedules[b]);
            }
        }
    }
}

/// A write-off lowers the debt by the amount, but not below zero; the interest goes down by what
/// was forgiven of the debt, but not below zero; and nothing else about the line changes.
pub proof fn law_write_off(line: CreditLineData, amount: i128)
    requires
        line.utilized_amount >= 0,
        line.accrued_interest >= 0,
        amount > 0,
    ensures
        ({
            let after = written_off(line, amount);
            let forgiven = line.utilized_amount - after.utilized_amount;
            &&& after.utilized_amount == (if amount < line.utilized_amount {
                line.utilized_amount - amount
            } else {
                0
            })
            &&& after.accrued_interest == (if forgiven < line.accrued_interest {
                line.accrued_interest - forgiven
            } else {
                0
            })
            &&& after == (CreditLineData {
                utilized_amount: after.utilized_amount,
                accrued_interest: after.accrued_interest,
                ..line
            })
            &&& line.accrued_interest <= line.utilized_amount ==> after.accrued_interest
                <= after.utilized_amount
        }),
{
}

/// Two write-offs in a row come to one of both amounts together.
pub proof fn law_write_offs_add_up(line: CreditLineData, first: i128, second: i128)
    requires
        line.utilized_amount >= 0,
        line.accrued_interest >= 0,
        first > 0,
        second > 0,
        first + second <= i128::MAX,
    ensures
        written_off(written_off(line, first), second) == written_off(
            line,
            (first + second) as i128,
        ),
{
}

/// Writing debt off twice, with no interest accruing in between, comes to writing off both
/// amounts at once, the total included.
pub proof fn law_forgiving_twice_adds_up(
    state: BookState,
    call: CallState,
    later_call: CallState,
    borrower: Address,
    first: i128,
    second: i128,
    line: CreditLineData,
)
    requires
        line.utilized_amount >= 0,
        line.accrued_interest >= 0,
        !(line.status is Closed),
        state.admin_signed(later_call),
        second > 0,
        first + second <= i128::MAX,
        state.forgive_debt(call, borrower, first, Ok(line)) is Ok,
    ensures
        ({
            let once = state.forgive_debt(call, borrower, first, Ok(line))->Ok_0;
            once.forgive_debt(later_call, borrower, second, Ok(once.lines[borrower]))
                == state.forgive_debt(call, borrower, (first + second) as i128, Ok(line))
        }),
{
    law_write_offs_add_up(line, first, second);
    let once = state.forgive_debt(call, borrower, first, Ok(line))->Ok_0;
    let written = written_off(line, (first + second) as i128);
    assert(once.lines.insert(borrower, written) =~= state.lines.insert(borrower, written));
}

/// Taking a line out of default undoes putting it there, where no interest accrues in between: a
/// line that was active or restricted, and carried no suspension time, is again what it was in
/// every field, and so are the total, the schedules and all else but the announcements.
pub proof fn law_reinstating_undoes_default(
    state: BookState,
    call: CallState,
    later_call: CallState,
    borrower: Address,
)
    requires
        state.admin_call_refusal(call) is None,
        state.admin_signed(later_call),
        state.lines.contains_key(borrower),
        state.lines[borrower].status is Active || state.lines[borrower].status is Restricted,
        state.lines[borrower].suspension_ts == 0,
    ensures
        ({
            let line = state.lines[borrower];
            let outcome = state.default_credit_line(call, borrower, Ok(line));
            let defaulted = outcome->Ok_0;
            let later = defaulted.reinstate_credit_line(
                later_call,
                borrower,
                line.status,
                Ok(defaulted.lines[borrower]),
            );
            &&& outcome is Ok
            &&& defaulted.lines[borrower].status is Defaulted
            &&& later matches Ok(back)
            &&& back.line(borrower) == Some(line)
            &&& back.total_utilized == state.total_utilized
            &&& back.schedules == state.schedules
            &&& back == (BookState { events: back.events, ..state })
        }),
{
    let line = state.lines[borrower];
    let defaulted = state.default_credit_line(call, borrower, Ok(line))->Ok_0;
    let back = defaulted.reinstate_credit_line(
        later_call,
        borrower,
        line.status,
        Ok(defaulted.lines[borrower]),
    )->Ok_0;
    assert(back.lines =~= state.lines);
}

/// Suspending a line stamps it with the time of the call, which never lies before the stamp
/// that the line carried.
pub proof fn law_suspension_time_moves_forward(
    state: BookState,
    call: CallState,
    borrower: Address,
    line: CreditLineData,
)
    requires
        state.suspended(call, borrower, Ok(line)) is Ok,
    ensures
        line.suspension_ts <= call.now,
        state.suspended(call, borrower, Ok(line))->Ok_0.lines[borrower].suspension_ts == call.now,
{
}

/// Putting a line into default asks for the liquidation of exactly the debt that the line is
/// recorded with.
pub proof fn law_default_requests_recorded_debt(
    state: BookState,
    call: CallState,
    borrower: Address,
    line: CreditLineData,
)
    requires
        state.default_credit_line(call, borrower, Ok(line)) is Ok,
        !(line.status is Defaulted),
    ensures
        ({
            let after = state.default_credit_line(call, borrower, Ok(line))->Ok_0;
            &&& after.events.last() matches Event::LiquidationRequested { request }
            &&& request.borrower == borrower
            &&& request.utilized_amount == after.lines[borrower].utilized_amount
        }),
{
}

/// A repayment never makes a due date earlier; it makes the date later by a period for each
/// installment that it covers, as far as a timestamp can say.
pub proof fn law_repayment_defers_due_date(state: BookState, borrower: Address, amount: i128)
    requires
        state.schedules.contains_key(borrower),
        state.schedules[borrower].amount_per_period > 0,
        state.schedules[borrower].period_seconds > 0,
    ensures
        ({
            let before = state.schedules[borrower];
            let after = state.advanced(borrower, amount).schedules[borrower];
            let covered = amount as int / before.amount_per_period as int;
            &&& after.amount_per_period == before.amount_per_period
            &&& after.period_seconds == before.period_seconds
            &&& before.next_due_ts <= after.next_due_ts
            &&& amount < before.amount_per_period ==> after.next_due_ts == before.next_due_ts
            &&& 0 < amount ==> after.next_due_ts == min_of(
                before.next_due_ts + before.period_seconds * covered,
                u64::MAX as int,
            )
            &&& before.amount_per_period <= amount && before.next_due_ts < u64::MAX
                ==> before.next_due_ts < after.next_due_ts
        }),
{
    let before = state.schedules[borrower];
    if amount > 0 {
        lemma_periods_covered(before, amount);
    }
}

/// The periods by which a repayment defers the due date: none for less than an installment, and
/// some for an installment or more.
proof fn lemma_periods_covered(schedule: RepaymentSchedule, amount: i128)
    requires
        schedule.amount_per_period > 0,
        schedule.period_seconds > 0,
        amount > 0,
    ensures
        ({
            let covered = amount as int / schedule.amount_per_period as int;
            &&& covered >= 0
            &&& schedule.period_seconds * covered >= 0
            &&& amount < schedule.amount_per_period ==> schedule.period_seconds * covered == 0
            &&& schedule.amount_per_period <= amount ==> schedule.period_seconds * covered >= 1
        }),
{
    let per = schedule.amount_per_period as int;
    let period = schedule.period_seconds as int;
    let covered = amount as int / per;
    assert(covered >= 0 && (amount < per ==> covered == 0) && (per <= amount ==> covered >= 1))
        by (nonlinear_arith)
        requires
            amount > 0,
            per > 0,
            covered == amount as int / per,
    ;
    assert(period * covered >= 0 && (covered == 0 ==> period * covered == 0) && (covered >= 1
        ==> period * covered >= 1)) by (nonlinear_arith)
        requires
            period > 0,
            covered >= 0,
    ;
}

/// Where the first of two repayments is of whole installments, the two move the due date as far
/// as one repayment of both amounts together.
pub proof fn law_repayments_add_up(
    state: BookState,
    borrower: Address,
    first: i128,
    second: i128,
)
    requires
        state.schedules.contains_key(borrower),
        state.schedules[borrower].amount_per_period > 0,
        state.schedules[borrower].period_seconds > 0,
        first > 0,
        second > 0,
        first + second <= i128::MAX,
        first as int % state.schedules[borrower].amount_per_period as int == 0,
    ensures
        state.advanced(borrower, first).advanced(borrower, second) == state.advanced(
            borrower,
            (first + second) as i128,
        ),
{
    let before = state.schedules[borrower];
    let per = before.amount_per_period as int;
    let period = before.period_seconds as int;
    let one = first as int / per;
    let two = second as int / per;
    lemma_periods_covered(before, first);
    lemma_periods_covered(before, second);
    lemma_fundamental_div_mod(first as int, per);
    lemma_fundamental_div_mod(second as int, per);
    assert(per * (one + two) == per * one + per * two) by (nonlinear_arith);
    assert((one + two) * per == per * (one + two)) by (nonlinear_arith);
    lemma_fundamental_div_mod_converse(first + second, per, one + two, second as int % per);
    assert(period * (one + two) == period * one + period * two) by (nonlinear_arith);
    let apart = state.advanced(borrower, first).advanced(borrower, second);
    let together = state.advanced(borrower, (first + second) as i128);
    assert(apart.schedules[borrower] == together.schedules[borrower]);
    assert(apart.schedules =~= together.schedules);
}

/// Two repayments never move the due date further than one of both amounts together, and fall
/// behind it by one period at most.
pub proof fn law_split_repayments_move_no_further(
    state: BookState,
    borrower: Address,
    first: i128,
    second: i128,
)
    requires
        state.schedules.contains_key(borrower),
        state.schedules[borrower].amount_per_period > 0,
        state.schedules[borrower].period_seconds > 0,
        first > 0,
        second > 0,
        first + second <= i128::MAX,
    ensures
        ({
            let apart = state.advanced(borrower, first).advanced(borrower, second);
            let together = state.advanced(borrower, (first + second) as i128);
            &&& apart.schedules[borrower].next_due_ts <= together.schedules[borrower].next_due_ts
            &&& together.schedules[borrower].next_due_ts
                <= apart.schedules[borrower].next_due_ts + state.schedules[borrower].period_seconds
        }),
{
    let before = state.schedules[borrower];
    let per = before.amount_per_period as int;
    let period = before.period_seconds as int;
    let one = first as int / per;
    let two = second as int / per;
    let both = (first + second) / per;
    lemma_periods_covered(before, first);
    lemma_periods_covered(before, second);
    lemma_fundamental_div_mod(first as int, per);
    lemma_fundamental_div_mod(second as int, per);
    lemma_fundamental_div_mod(first + second, per);
    assert(one + two <= both <= one + two + 1) by (nonlinear_arith)
        requires
            per > 0,
            first == per * one + first as int % per,
            second == per * two + second as int % per,
            first + second == per * both + (first + second) % per,
            0 <= first as int % per < per,
            0 <= second as int % per < per,
            0 <= (first + second) % per < per,
    ;
    assert(period * one + period * two <= period * both <= period * one + period * two + period)
        by (nonlinear_arith)
        requires
            period > 0,
            one + two <= both <= one + two + 1,
    ;
}

} // verus!
