//! The total of all debts is kept call by call.

use crate::book::{BookState, CallState};
use crate::history::{History, Operation};
use crate::model::Accrued;
use crate::types::{Address, CreditLineData};
use vstd::prelude::*;

verus! {

/// The debts of all lines, added up.
pub open spec fn total_debt(lines: Map<Address, CreditLineData>) -> int
    decreases lines.dom().len(),
{
    if lines.dom().finite() && lines.dom().len() > 0 {
        let borrower = lines.dom().choose();
        lines[borrower].utilized_amount + total_debt(lines.remove(borrower))
    } else {
        0
    }
}

/// Any line can be counted first.
proof fn lemma_total_debt_remove(lines: Map<Address, CreditLineData>, borrower: Address)
    requires
        lines.dom().finite(),
        lines.contains_key(borrower),
    ensures
        total_debt(lines) == lines[borrower].utilized_amount + total_debt(lines.remove(borrower)),
    decreases lines.dom().len(),
{
    let first = lines.dom().choose();
    assert(lines.dom().contains(first));
    if first != borrower {
        lemma_total_debt_remove(lines.remove(first), borrower);
        assert(lines.remove(borrower).dom().contains(first));
        lemma_total_debt_remove(lines.remove(borrower), first);
        assert(lines.remove(first).remove(borrower) =~= lines.remove(borrower).remove(first));
    }
}

/// Filing a line moves the total by the change of the borrower's debt.
proof fn lemma_total_debt_insert(state: BookState, borrower: Address, line: CreditLineData)
    requires
        state.lines.dom().finite(),
    ensures
        total_debt(state.lines.insert(borrower, line)) == total_debt(state.lines) - state.debt(
            borrower,
        ) + line.utilized_amount,
{
    let after = state.lines.insert(borrower, line);
    lemma_total_debt_remove(after, borrower);
    if state.lines.contains_key(borrower) {
        lemma_total_debt_remove(state.lines, borrower);
        assert(after.remove(borrower) =~= state.lines.remove(borrower));
    } else {
        assert(after.remove(borrower) =~= state.lines);
    }
}

/// How far the recorded total lies above the debts of the lines.
pub open spec fn total_gap(state: BookState) -> int {
    state.total_utilized - total_debt(state.lines)
}

/// Closing lines in turn does not change how far the total lies above the debts.
proof fn lemma_closed_in_turn_keeps_gap(
    state: BookState,
    borrowers: Seq<Address>,
    answers: Seq<Accrued>,
)
    requires
        state.lines.dom().finite(),
    ensures
        state.closed_in_turn(borrowers, answers) matches Ok(next) ==> next.lines.dom().finite()
            && total_gap(next) == total_gap(state),
    decreases borrowers.len(),
{
    if state.closed_in_turn(borrowers, answers) is Ok && borrowers.len() > 0 {
        let last = borrowers.last();
        lemma_closed_in_turn_keeps_gap(state, borrowers.drop_last(), answers);
        let middle = state.closed_in_turn(borrowers.drop_last(), answers)->Ok_0;
        let next = state.closed_in_turn(borrowers, answers)->Ok_0;
        lemma_total_debt_insert(middle, last, next.lines[last]);
    }
}

/// No call changes how far the recorded total lies above the debts of the lines, whatever
/// interest accrual answers; and only finitely many borrowers have lines.
pub proof fn law_call_keeps_total(state: BookState, call: CallState, operation: Operation)
    requires
        state.lines.dom().finite(),
    ensures
        state.after(call, operation).lines.dom().finite(),
        total_gap(state.after(call, operation)) == total_gap(state),
{
    let after = state.after(call, operation);
    if state.step(call, operation) is Ok {
        match operation {
            Operation::CloseBatch { borrowers, answers } => {
                lemma_closed_in_turn_keeps_gap(state, borrowers, answers);
            },
            Operation::Close { borrower, .. } => {
                lemma_total_debt_insert(state, borrower, after.lines[borrower]);
            },
            Operation::Open { borrower, .. } => {
                lemma_total_debt_insert(state, borrower, after.lines[borrower]);
            },
            Operation::Suspend { borrower, .. } => {
                lemma_total_debt_insert(state, borrower, after.lines[borrower]);
            },
            Operation::SelfSuspend { borrower, .. } => {
                lemma_total_debt_insert(state, borrower, after.lines[borrower]);
            },
            Operation::Default { borrower, .. } => {
                lemma_total_debt_insert(state, borrower, after.lines[borrower]);
            },
            Operation::Forgive { borrower, .. } => {
                lemma_total_debt_insert(state, borrower, after.lines[borrower]);
            },
            Operation::Settle { borrower, .. } => {
                lemma_total_debt_insert(state, borrower, after.lines[borrower]);
            },
            Operation::Reinstate { borrower, .. } => {
                lemma_total_debt_insert(state, borrower, after.lines[borrower]);
            },
            _ => {},
        }
    }
}

/// Where the recorded total is the sum of all debts, it is so after any calls.
pub proof fn law_total_is_sum_of_debts(state: BookState, history: History)
    requires
        state.lines.dom().finite(),
        state.total_utilized == total_debt(state.lines),
    ensures
        state.run(history).lines.dom().finite(),
        state.run(history).total_utilized == total_debt(state.run(history).lines),
    decreases history.len(),
{
    if history.len() > 0 {
        law_total_is_sum_of_debts(state, history.drop_last());
        let (call, operation) = history.last();
        law_call_keeps_total(state.run(history.drop_last()), call, operation);
    }
}

} // verus!
