//! Reads and writes of the book that several calls share.

use crate::book::{BookState, CreditBook};
use crate::model::ends_as;
use crate::types::{Address, ContractError, CreditLineData, RepaymentSchedule};
use vstd::prelude::*;

verus! {

/// Refuses while the protocol is paused.
pub fn assert_not_paused(book: &CreditBook) -> (result: Result<(), ContractError>)
    ensures
        result == (if book@.paused {
            Err(ContractError::Paused)
        } else {
            Ok(())
        }),
{
    if book.paused {
        Err(ContractError::Paused)
    } else {
        Ok(())
    }
}

/// Refuses to move a timestamp backwards.
pub fn assert_ts_monotonic(old_ts: u64, new_ts: u64) -> (result: Result<(), ContractError>)
    ensures
        result == (if new_ts < old_ts {
            Err(ContractError::TimestampRegression)
        } else {
            Ok(())
        }),
{
    if new_ts < old_ts {
        Err(ContractError::TimestampRegression)
    } else {
        Ok(())
    }
}

/// The line of `borrower`.
pub fn load_credit_line(book: &CreditBook, borrower: Address) -> (result: Result<
    CreditLineData,
    ContractError,
>)
    ensures
        result == (match book@.line(borrower) {
            Some(line) => Ok(line),
            None => Err(ContractError::CreditLineNotFound),
        }),
{
    match book.lines.get(borrower) {
        Some(line) => Ok(line),
        None => Err(ContractError::CreditLineNotFound),
    }
}

/// `total - previous + utilized`, where it fits.
fn retotal(total: i128, previous: i128, utilized: i128) -> (result: Option<i128>)
    ensures
        result == (if i128::MIN <= total - previous + utilized <= i128::MAX {
            Some((total - previous + utilized) as i128)
        } else {
            None
        }),
{
    match total.checked_sub(previous) {
        Some(rest) => rest.checked_add(utilized),
        None => match total.checked_add(utilized) {
            Some(sum) => sum.checked_sub(previous),
            None => None,
        },
    }
}

/// Files `line` for `borrower` and moves the total by what the debt has changed since it was
/// `previous_utilized`.
pub fn persist_credit_line(
    book: &mut CreditBook,
    borrower: Address,
    line: CreditLineData,
    previous_utilized: i128,
) -> (result: Result<(), ContractError>)
    ensures
        ends_as(
            old(book)@,
            final(book)@,
            result,
            old(book)@.persisted(borrower, line, previous_utilized),
        ),
{
    match retotal(book.total_utilized, previous_utilized, line.utilized_amount) {
        None => Err(ContractError::Overflow),
        Some(total) => {
            book.total_utilized = total;
            book.lines.insert(borrower, line);
            Ok(())
        },
    }
}

/// The repayment schedule of `borrower`, if there is one.
pub fn get_repayment_schedule(book: &CreditBook, borrower: Address) -> (schedule: Option<
    RepaymentSchedule,
>)
    ensures
        schedule == (if book@.schedules.contains_key(borrower) {
            Some(book@.schedules[borrower])
        } else {
            None
        }),
{
    book.schedules.get(borrower)
}

/// Files `schedule` for `borrower`, in place of any schedule filed there.
pub fn store_repayment_schedule(
    book: &mut CreditBook,
    borrower: Address,
    schedule: RepaymentSchedule,
)
    ensures
        final(book)@ == (BookState {
            schedules: old(book)@.schedules.insert(borrower, schedule),
            ..old(book)@
        }),
{
    book.schedules.insert(borrower, schedule);
}

/// Takes the repayment schedule of `borrower` away, if there is one.
pub fn clear_repayment_schedule(book: &mut CreditBook, borrower: Address)
    ensures
        final(book)@ == old(book)@.unscheduled(borrower),
{
    book.schedules.remove(borrower);
}

} // verus!
