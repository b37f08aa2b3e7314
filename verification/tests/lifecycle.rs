//! Opening, suspending, defaulting, forgiving, settling and reinstating.

use creditra_credit::book::{Call, CreditBook};
use creditra_credit::events::{Event, LineTopic};
use creditra_credit::lifecycle::{
    advance_repayment_schedule_after_repay, close_credit_line, close_credit_lines_batch,
    default_credit_line, forgive_debt, get_credit_limit_bounds, liquidation_settlement_key,
    open_credit_line, reinstate_credit_line, self_suspend_credit_line, set_credit_limit_bounds,
    set_repayment_schedule, settle_default_liquidation, suspend_credit_line,
    validate_credit_limit_bounds,
};
use creditra_credit::types::{
    Address, AddressKind, ContractError, CreditLineData, CreditStatus, RepaymentSchedule, Symbol,
};

fn party(lo: u128) -> Address {
    Address { kind: AddressKind::Account, hi: 0, lo }
}

const NOW: u64 = 1_000;

fn admin() -> Address {
    party(1)
}

fn borrower() -> Address {
    party(2)
}

fn call_of(signers: &[Address]) -> Call {
    Call { now: NOW, signers: signers.to_vec() }
}

fn symbol(text: &str) -> Symbol {
    let mut bytes = [0u8; 32];
    bytes[..text.len()].copy_from_slice(text.as_bytes());
    let mut hi = [0u8; 16];
    let mut lo = [0u8; 16];
    hi.copy_from_slice(&bytes[..16]);
    lo.copy_from_slice(&bytes[16..]);
    Symbol { hi: u128::from_be_bytes(hi), lo: u128::from_be_bytes(lo) }
}

fn as_stored(line: CreditLineData) -> Result<CreditLineData, ContractError> {
    Ok(line)
}

/// Ten units of interest fall due.
fn with_interest(line: CreditLineData) -> Result<CreditLineData, ContractError> {
    Ok(CreditLineData {
        utilized_amount: line.utilized_amount + 10,
        accrued_interest: line.accrued_interest + 10,
        last_accrual_ts: NOW,
        ..line
    })
}

fn overflowing(_line: CreditLineData) -> Result<CreditLineData, ContractError> {
    Err(ContractError::Overflow)
}

fn line_with(status: CreditStatus, utilized: i128, interest: i128) -> CreditLineData {
    CreditLineData {
        borrower: borrower(),
        credit_limit: 1_000,
        utilized_amount: utilized,
        interest_rate_bps: 300,
        risk_score: 70,
        status,
        last_rate_update_ts: 0,
        accrued_interest: interest,
        last_accrual_ts: 0,
        suspension_ts: 0,
    }
}

fn book_with(status: CreditStatus, utilized: i128, interest: i128) -> CreditBook {
    let mut book = CreditBook::new(Some(admin()), 100, 3);
    book.lines.insert(borrower(), line_with(status, utilized, interest));
    book.total_utilized = utilized;
    book
}

fn line(book: &CreditBook) -> CreditLineData {
    book.lines.get(borrower()).unwrap()
}

#[test]
fn opening_records_the_terms() {
    let mut book = CreditBook::new(Some(admin()), 100, 3);
    let call = call_of(&[admin()]);
    assert_eq!(open_credit_line(&mut book, &call, borrower(), 1_000, 300, 70), Ok(()));
    assert_eq!(
        line(&book),
        CreditLineData {
            last_accrual_ts: NOW,
            ..line_with(CreditStatus::Active, 0, 0)
        }
    );
    assert_eq!(book.events.len(), 1);
    assert_eq!(book.events[0].topics(), ("credit", "opened"));
}

#[test]
fn opening_is_refused_for_each_reason() {
    let mut book = CreditBook::new(Some(admin()), 100, 3);
    let call = call_of(&[admin()]);
    let b = borrower();
    book.paused = true;
    assert_eq!(open_credit_line(&mut book, &call, b, 0, 1, 1), Err(ContractError::Paused));
    book.paused = false;
    assert_eq!(
        open_credit_line(&mut book, &call, b, 0, 10_001, 101),
        Err(ContractError::InvalidAmount)
    );
    assert_eq!(
        open_credit_line(&mut book, &call, b, 1, 10_001, 101),
        Err(ContractError::RateTooHigh)
    );
    assert_eq!(
        open_credit_line(&mut book, &call, b, 1, 10_000, 101),
        Err(ContractError::ScoreTooHigh)
    );
    assert_eq!(set_credit_limit_bounds(&mut book, &call, 10, 20), Ok(()));
    assert_eq!(
        open_credit_line(&mut book, &call, b, 9, 10_000, 100),
        Err(ContractError::LimitOutOfBounds)
    );
    assert_eq!(
        open_credit_line(&mut book, &call, b, 21, 10_000, 100),
        Err(ContractError::LimitOutOfBounds)
    );
    assert_eq!(open_credit_line(&mut book, &call, b, 20, 10_000, 100), Ok(()));
    assert_eq!(
        open_credit_line(&mut book, &call, b, 15, 1, 1),
        Err(ContractError::AlreadyInitialized)
    );
}

#[test]
fn reopening_needs_the_administrator() {
    let b = borrower();
    for status in [
        CreditStatus::Suspended,
        CreditStatus::Defaulted,
        CreditStatus::Closed,
        CreditStatus::Restricted,
    ] {
        let mut book = book_with(status, 40, 4);
        let own = call_of(&[b]);
        assert_eq!(
            open_credit_line(&mut book, &own, b, 500, 200, 50),
            Err(ContractError::MissingAuthorization)
        );
        assert_eq!(line(&book).status, status);
        let by_admin = call_of(&[admin()]);
        assert_eq!(open_credit_line(&mut book, &by_admin, b, 500, 200, 50), Ok(()));
        assert_eq!(line(&book).status, CreditStatus::Active);
        assert_eq!(line(&book).utilized_amount, 0);
        assert_eq!(book.total_utilized, 0);
    }
}

#[test]
fn opening_a_first_line_needs_the_administrator() {
    let b = borrower();
    for signers in [vec![], vec![b], vec![party(9)]] {
        let mut book = CreditBook::new(Some(admin()), 100, 3);
        assert_eq!(
            open_credit_line(&mut book, &call_of(&signers), b, 500, 200, 50),
            Err(ContractError::MissingAuthorization)
        );
        assert_eq!(book.lines.get(b), None);
        assert_eq!(book.events.len(), 0);
    }
    let mut unconfigured = CreditBook::new(None, 100, 3);
    assert_eq!(
        open_credit_line(&mut unconfigured, &call_of(&[b]), b, 500, 200, 50),
        Err(ContractError::AdminNotSet)
    );
    assert_eq!(unconfigured.lines.get(b), None);
}

#[test]
fn bounds_are_set_read_and_enforced() {
    let mut book = CreditBook::new(Some(admin()), 100, 3);
    let call = call_of(&[admin()]);
    assert_eq!(get_credit_limit_bounds(&book), (None, None));
    assert_eq!(validate_credit_limit_bounds(&book, i128::MIN), Ok(()));
    assert_eq!(
        set_credit_limit_bounds(&mut book, &call, -1, 5),
        Err(ContractError::InvalidAmount)
    );
    assert_eq!(
        set_credit_limit_bounds(&mut book, &call, 6, 5),
        Err(ContractError::LimitOutOfBounds)
    );
    assert_eq!(
        set_credit_limit_bounds(&mut book, &call_of(&[borrower()]), 1, 5),
        Err(ContractError::MissingAuthorization)
    );
    assert_eq!(set_credit_limit_bounds(&mut book, &call, 1_000, 1_000_000_000), Ok(()));
    assert_eq!(get_credit_limit_bounds(&book), (Some(1_000), Some(1_000_000_000)));
    assert_eq!(validate_credit_limit_bounds(&book, 999), Err(ContractError::LimitOutOfBounds));
    assert_eq!(validate_credit_limit_bounds(&book, 1_000), Ok(()));
    assert_eq!(validate_credit_limit_bounds(&book, 1_000_000_000), Ok(()));
    assert_eq!(
        validate_credit_limit_bounds(&book, 1_000_000_001),
        Err(ContractError::LimitOutOfBounds)
    );
    book.min_credit_limit = None;
    assert_eq!(validate_credit_limit_bounds(&book, -5), Ok(()));
}

#[test]
fn suspension_acts_on_accrued_debt() {
    let mut book = book_with(CreditStatus::Active, 100, 0);
    let call = call_of(&[admin()]);
    assert_eq!(suspend_credit_line(&mut book, &call, borrower(), with_interest), Ok(()));
    let suspended = line(&book);
    assert_eq!(suspended.status, CreditStatus::Suspended);
    assert_eq!(suspended.suspension_ts, NOW);
    assert_eq!(suspended.utilized_amount, 110);
    assert_eq!(suspended.accrued_interest, 10);
    assert_eq!(book.total_utilized, 110);
    assert_eq!(book.events[0].topics(), ("credit", "suspend"));
    assert_eq!(
        suspend_credit_line(&mut book, &call, borrower(), as_stored),
        Err(ContractError::CreditLineSuspended)
    );
}

#[test]
fn suspension_never_moves_time_backwards() {
    let mut book = book_with(CreditStatus::Active, 0, 0);
    let mut stored = line(&book);
    stored.suspension_ts = NOW + 1;
    book.lines.insert(borrower(), stored);
    let call = call_of(&[admin()]);
    assert_eq!(
        suspend_credit_line(&mut book, &call, borrower(), as_stored),
        Err(ContractError::TimestampRegression)
    );
    assert_eq!(line(&book), stored);
    assert_eq!(book.events.len(), 0);
    stored.suspension_ts = NOW;
    book.lines.insert(borrower(), stored);
    assert_eq!(suspend_credit_line(&mut book, &call, borrower(), as_stored), Ok(()));
}

#[test]
fn a_borrower_suspends_only_their_own_line() {
    let mut book = book_with(CreditStatus::Active, 0, 0);
    let by_other = call_of(&[party(9)]);
    assert_eq!(
        self_suspend_credit_line(&mut book, &by_other, borrower(), as_stored),
        Err(ContractError::MissingAuthorization)
    );
    let own = call_of(&[borrower()]);
    assert_eq!(
        suspend_credit_line(&mut book, &own, borrower(), as_stored),
        Err(ContractError::MissingAuthorization)
    );
    assert_eq!(self_suspend_credit_line(&mut book, &own, borrower(), as_stored), Ok(()));
    assert_eq!(line(&book).status, CreditStatus::Suspended);
    assert_eq!(
        reinstate_credit_line(&mut book, &own, borrower(), CreditStatus::Active, as_stored),
        Err(ContractError::MissingAuthorization)
    );
}

#[test]
fn a_failed_accrual_reverts_the_call() {
    let mut book = book_with(CreditStatus::Active, 7, 0);
    let call = call_of(&[admin()]);
    assert_eq!(
        default_credit_line(&mut book, &call, borrower(), overflowing),
        Err(ContractError::Overflow)
    );
    assert_eq!(line(&book), line_with(CreditStatus::Active, 7, 0));
    assert_eq!(book.total_utilized, 7);
}

#[test]
fn a_total_that_does_not_fit_reverts_the_call() {
    let mut book = book_with(CreditStatus::Active, 7, 0);
    book.total_utilized = i128::MAX;
    let call = call_of(&[admin()]);
    assert_eq!(
        suspend_credit_line(&mut book, &call, borrower(), with_interest),
        Err(ContractError::Overflow)
    );
    assert_eq!(book.total_utilized, i128::MAX);
    assert_eq!(line(&book).status, CreditStatus::Active);
}

#[test]
fn default_asks_for_liquidation_of_the_debt() {
    for status in [CreditStatus::Active, CreditStatus::Suspended, CreditStatus::Restricted] {
        let mut book = book_with(status, 100, 0);
        let call = call_of(&[admin()]);
        assert_eq!(default_credit_line(&mut book, &call, borrower(), with_interest), Ok(()));
        assert_eq!(line(&book).status, CreditStatus::Defaulted);
        assert_eq!(book.events.len(), 2);
        assert_eq!(book.events[0].topics(), ("credit", "default"));
        assert_eq!(book.events[1].topics(), ("credit", "liq_req"));
        match book.events[1] {
            Event::LiquidationRequested { request } => {
                assert_eq!(request.borrower, borrower());
                assert_eq!(request.utilized_amount, 110);
            }
            other => panic!("unexpected event {:?}", other),
        }
        let stored = line(&book);
        assert_eq!(default_credit_line(&mut book, &call, borrower(), with_interest), Ok(()));
        assert_eq!(line(&book), stored);
        assert_eq!(book.events.len(), 2);
    }
    let mut closed = book_with(CreditStatus::Closed, 0, 0);
    assert_eq!(
        default_credit_line(&mut closed, &call_of(&[admin()]), borrower(), as_stored),
        Err(ContractError::CreditLineClosed)
    );
}

#[test]
fn forgiveness_takes_interest_first_and_stops_at_the_debt() {
    let call = call_of(&[admin()]);
    let mut book = book_with(CreditStatus::Active, 100, 30);
    assert_eq!(forgive_debt(&mut book, &call, borrower(), 20, as_stored), Ok(()));
    assert_eq!((line(&book).utilized_amount, line(&book).accrued_interest), (80, 10));
    assert_eq!(book.total_utilized, 80);
    assert_eq!(forgive_debt(&mut book, &call, borrower(), 25, as_stored), Ok(()));
    assert_eq!((line(&book).utilized_amount, line(&book).accrued_interest), (55, 0));
    assert_eq!(forgive_debt(&mut book, &call, borrower(), 1_000, as_stored), Ok(()));
    assert_eq!((line(&book).utilized_amount, line(&book).accrued_interest), (0, 0));
    assert_eq!(book.total_utilized, 0);
    assert_eq!(line(&book).status, CreditStatus::Active);
    assert_eq!(book.events.len(), 0);
    for amount in [0, -1] {
        assert_eq!(
            forgive_debt(&mut book, &call, borrower(), amount, as_stored),
            Err(ContractError::InvalidAmount)
        );
    }
    assert_eq!(
        forgive_debt(&mut book, &call, party(8), 1, as_stored),
        Err(ContractError::CreditLineNotFound)
    );
    let mut closed = book_with(CreditStatus::Closed, 5, 0);
    assert_eq!(
        forgive_debt(&mut closed, &call, borrower(), 1, as_stored),
        Err(ContractError::CreditLineClosed)
    );
}

#[test]
fn two_write_offs_come_to_one() {
    let call = call_of(&[admin()]);
    let mut apart = book_with(CreditStatus::Active, 100, 30);
    let mut together = book_with(CreditStatus::Active, 100, 30);
    forgive_debt(&mut apart, &call, borrower(), 20, as_stored).unwrap();
    forgive_debt(&mut apart, &call, borrower(), 35, as_stored).unwrap();
    forgive_debt(&mut together, &call, borrower(), 55, as_stored).unwrap();
    assert_eq!(line(&apart), line(&together));
    assert_eq!(line(&apart).utilized_amount, 45);
    assert_eq!(line(&apart).accrued_interest, 0);
    assert_eq!(apart.total_utilized, 45);
    assert_eq!(together.total_utilized, 45);
}

#[test]
fn self_suspension_does_not_stop_default() {
    let mut book = book_with(CreditStatus::Active, 100, 0);
    let own = call_of(&[borrower()]);
    self_suspend_credit_line(&mut book, &own, borrower(), as_stored).unwrap();
    assert_eq!(
        default_credit_line(&mut book, &own, borrower(), as_stored),
        Err(ContractError::MissingAuthorization)
    );
    let suspended = line(&book);
    let call = call_of(&[admin()]);
    assert_eq!(default_credit_line(&mut book, &call, borrower(), with_interest), Ok(()));
    assert_eq!(
        line(&book),
        CreditLineData {
            status: CreditStatus::Defaulted,
            utilized_amount: 110,
            accrued_interest: 10,
            last_accrual_ts: NOW,
            ..suspended
        }
    );
    assert_eq!(book.total_utilized, 110);
}

#[test]
fn reinstatement_undoes_default() {
    let call = call_of(&[admin()]);
    for status in [CreditStatus::Active, CreditStatus::Restricted] {
        let mut book = book_with(status, 100, 30);
        let schedule = RepaymentSchedule {
            amount_per_period: 7,
            period_seconds: 30,
            next_due_ts: 1,
        };
        book.schedules.insert(borrower(), schedule);
        default_credit_line(&mut book, &call, borrower(), as_stored).unwrap();
        assert_eq!(line(&book).status, CreditStatus::Defaulted);
        reinstate_credit_line(&mut book, &call, borrower(), status, as_stored).unwrap();
        assert_eq!(line(&book), line_with(status, 100, 30));
        assert_eq!(book.total_utilized, 100);
        assert_eq!(book.schedules.get(borrower()), Some(schedule));
        assert_eq!(book.events.len(), 3);
    }
}

#[test]
fn settlement_reduces_then_closes() {
    let call = call_of(&[admin()]);
    let mut book = book_with(CreditStatus::Defaulted, 100, 0);
    book.schedules.insert(
        borrower(),
        RepaymentSchedule { amount_per_period: 1, period_seconds: 1, next_due_ts: 1 },
    );
    let first = symbol("setl1");
    let second = symbol("setl2");
    assert_eq!(
        settle_default_liquidation(&mut book, &call, borrower(), 60, first, as_stored),
        Ok(())
    );
    assert_eq!(line(&book).utilized_amount, 40);
    assert_eq!(line(&book).status, CreditStatus::Defaulted);
    assert_eq!(book.total_utilized, 40);
    assert_eq!(book.events.len(), 1);
    assert_eq!(book.events[0].topics(), ("credit", "liq_setl"));
    assert!(book.schedules.get(borrower()).is_some());
    assert_eq!(
        settle_default_liquidation(&mut book, &call, borrower(), 40, second, as_stored),
        Ok(())
    );
    assert_eq!(line(&book).utilized_amount, 0);
    assert_eq!(line(&book).status, CreditStatus::Closed);
    assert_eq!(book.schedules.get(borrower()), None);
    assert_eq!(book.events.len(), 3);
    assert_eq!(book.events[1].topics(), ("credit", "closed"));
    match book.events[2] {
        Event::LiquidationSettled { settlement } => {
            assert_eq!(settlement.settlement_id, second);
            assert_eq!(settlement.recovered_amount, 40);
            assert_eq!(settlement.remaining_utilized_amount, 0);
            assert_eq!(settlement.status, CreditStatus::Closed);
        }
        other => panic!("unexpected event {:?}", other),
    }
}

#[test]
fn a_settlement_is_applied_once() {
    let call = call_of(&[admin()]);
    let mut book = book_with(CreditStatus::Defaulted, 100, 0);
    let id = symbol("setl1");
    settle_default_liquidation(&mut book, &call, borrower(), 60, id, as_stored).unwrap();
    for amount in [60, 1] {
        assert_eq!(
            settle_default_liquidation(&mut book, &call, borrower(), amount, id, as_stored),
            Err(ContractError::AlreadyInitialized)
        );
    }
    close_credit_line(&mut book, &call, borrower(), admin(), as_stored).unwrap();
    open_credit_line(&mut book, &call, borrower(), 10, 1, 1).unwrap();
    assert_eq!(
        settle_default_liquidation(&mut book, &call, borrower(), 1, id, as_stored),
        Err(ContractError::AlreadyInitialized)
    );
    let key = liquidation_settlement_key(borrower(), id);
    assert_eq!(key, (symbol("liq_seen"), borrower(), id));
    assert!(book.is_settled(key));
    assert!(!book.is_settled(liquidation_settlement_key(party(5), id)));
}

#[test]
fn settlement_is_refused_for_each_reason() {
    let call = call_of(&[admin()]);
    let id = symbol("setl1");
    let mut book = book_with(CreditStatus::Active, 100, 0);
    assert_eq!(
        settle_default_liquidation(&mut book, &call_of(&[]), borrower(), 1, id, as_stored),
        Err(ContractError::MissingAuthorization)
    );
    assert_eq!(
        settle_default_liquidation(&mut book, &call, borrower(), 0, id, as_stored),
        Err(ContractError::InvalidAmount)
    );
    assert_eq!(
        settle_default_liquidation(&mut book, &call, party(6), 1, id, as_stored),
        Err(ContractError::CreditLineNotFound)
    );
    assert_eq!(
        settle_default_liquidation(&mut book, &call, borrower(), 1, id, as_stored),
        Err(ContractError::CreditLineDefaulted)
    );
    let mut defaulted = book_with(CreditStatus::Defaulted, 100, 0);
    assert_eq!(
        settle_default_liquidation(&mut defaulted, &call, borrower(), 101, id, as_stored),
        Err(ContractError::OverLimit)
    );
    defaulted.paused = true;
    assert_eq!(
        settle_default_liquidation(&mut defaulted, &call, borrower(), 1, id, as_stored),
        Err(ContractError::Paused)
    );
}

#[test]
fn reinstatement_leaves_default_only() {
    let call = call_of(&[admin()]);
    for target in [CreditStatus::Active, CreditStatus::Restricted] {
        let mut book = book_with(CreditStatus::Defaulted, 10, 0);
        let mut stored = line(&book);
        stored.suspension_ts = 77;
        book.lines.insert(borrower(), stored);
        assert_eq!(
            reinstate_credit_line(&mut book, &call, borrower(), target, as_stored),
            Ok(())
        );
        assert_eq!(line(&book).status, target);
        assert_eq!(line(&book).suspension_ts, 0);
        match book.events[0] {
            Event::CreditLine { topic, line } => {
                assert_eq!(topic, LineTopic::Reinstate);
                assert_eq!(line.status, target);
            }
            other => panic!("unexpected event {:?}", other),
        }
        assert_eq!(book.events[0].topics(), ("credit", "reinstate"));
    }
    let mut book = book_with(CreditStatus::Suspended, 10, 0);
    assert_eq!(
        reinstate_credit_line(&mut book, &call, borrower(), CreditStatus::Active, as_stored),
        Err(ContractError::CreditLineDefaulted)
    );
    for target in [CreditStatus::Suspended, CreditStatus::Defaulted, CreditStatus::Closed] {
        assert_eq!(
            reinstate_credit_line(&mut book, &call, borrower(), target, as_stored),
            Err(ContractError::InvalidAmount)
        );
    }
}

#[test]
fn a_batch_closes_all_or_none() {
    let call = call_of(&[admin()]);
    let mut book = CreditBook::new(Some(admin()), 100, 3);
    for lo in [10u128, 11, 12, 13] {
        open_credit_line(&mut book, &call, party(lo), 100, 1, 1).unwrap();
    }
    book.events.clear();
    assert_eq!(
        close_credit_lines_batch(
            &mut book,
            &call,
            &vec![party(10), party(11), party(12), party(13)],
            as_stored
        ),
        Err(ContractError::BatchTooLarge)
    );
    assert_eq!(
        close_credit_lines_batch(&mut book, &call, &vec![party(10), party(99)], as_stored),
        Err(ContractError::CreditLineNotFound)
    );
    assert_eq!(
        close_credit_lines_batch(&mut book, &call, &vec![party(10), party(10)], as_stored),
        Err(ContractError::CreditLineClosed)
    );
    assert_eq!(
        close_credit_lines_batch(&mut book, &call_of(&[party(10)]), &vec![party(10)], as_stored),
        Err(ContractError::MissingAuthorization)
    );
    assert_eq!(book.lines.get(party(10)).unwrap().status, CreditStatus::Active);
    assert_eq!(book.events.len(), 0);
    assert_eq!(
        close_credit_lines_batch(
            &mut book,
            &call,
            &vec![party(12), party(10), party(11)],
            as_stored
        ),
        Ok(())
    );
    for lo in [10u128, 11, 12] {
        assert_eq!(book.lines.get(party(lo)).unwrap().status, CreditStatus::Closed);
    }
    assert_eq!(book.lines.get(party(13)).unwrap().status, CreditStatus::Active);
    assert_eq!(book.events.len(), 3);
    match book.events[0] {
        Event::CreditLine { line, .. } => assert_eq!(line.borrower, party(12)),
        other => panic!("unexpected event {:?}", other),
    }
    assert_eq!(close_credit_lines_batch(&mut book, &call, &vec![], as_stored), Ok(()));
}

#[test]
fn a_batch_closes_on_accrued_debt() {
    let call = call_of(&[admin()]);
    let mut book = book_with(CreditStatus::Active, 100, 0);
    let other = CreditLineData {
        borrower: party(3),
        ..line_with(CreditStatus::Suspended, 40, 0)
    };
    book.lines.insert(party(3), other);
    book.total_utilized = 140;
    let both = vec![party(3), borrower()];
    let only_one = |line: CreditLineData| -> Result<CreditLineData, ContractError> {
        if line.borrower == borrower() {
            overflowing(line)
        } else {
            with_interest(line)
        }
    };
    assert_eq!(
        close_credit_lines_batch(&mut book, &call, &both, only_one),
        Err(ContractError::Overflow)
    );
    assert_eq!(book.lines.get(party(3)), Some(other));
    assert_eq!(line(&book), line_with(CreditStatus::Active, 100, 0));
    assert_eq!(book.total_utilized, 140);
    assert_eq!(book.events.len(), 0);
    assert_eq!(close_credit_lines_batch(&mut book, &call, &both, with_interest), Ok(()));
    assert_eq!(line(&book).status, CreditStatus::Closed);
    assert_eq!(line(&book).utilized_amount, 110);
    assert_eq!(book.lines.get(party(3)).unwrap().status, CreditStatus::Closed);
    assert_eq!(book.lines.get(party(3)).unwrap().utilized_amount, 50);
    assert_eq!(book.total_utilized, 160);
    assert_eq!(book.events.len(), 2);
}

#[test]
fn schedules_are_set_and_advanced() {
    let call = call_of(&[admin()]);
    let mut book = book_with(CreditStatus::Active, 500, 0);
    assert_eq!(
        set_repayment_schedule(&mut book, &call, borrower(), 0, 60, 1_000),
        Err(ContractError::InvalidAmount)
    );
    assert_eq!(
        set_repayment_schedule(&mut book, &call, borrower(), 100, 0, 1_000),
        Err(ContractError::InvalidAmount)
    );
    assert_eq!(
        set_repayment_schedule(&mut book, &call, party(4), 100, 60, 1_000),
        Err(ContractError::CreditLineNotFound)
    );
    assert_eq!(set_repayment_schedule(&mut book, &call, borrower(), 100, 60, 1_000), Ok(()));
    let due = |book: &CreditBook| book.schedules.get(borrower()).unwrap().next_due_ts;
    for (amount, expected) in [(-5, 1_000), (0, 1_000), (99, 1_000), (100, 1_060), (250, 1_180)] {
        advance_repayment_schedule_after_repay(&mut book, borrower(), amount);
        assert_eq!(due(&book), expected);
    }
    advance_repayment_schedule_after_repay(&mut book, borrower(), i128::from(u64::MAX) * 100);
    assert_eq!(due(&book), u64::MAX);
    let mut closed = book_with(CreditStatus::Closed, 0, 0);
    assert_eq!(
        set_repayment_schedule(&mut closed, &call, borrower(), 100, 60, 1_000),
        Err(ContractError::CreditLineClosed)
    );
    advance_repayment_schedule_after_repay(&mut closed, borrower(), 100);
    assert_eq!(closed.schedules.get(borrower()), None);
}

#[test]
fn a_huge_repayment_defers_the_due_date_as_far_as_possible() {
    let count: i128 = 0x1_0000_0000_0000_0000;
    for (amount, period, due) in [(count, 10, 1_000), (count, 60, 5), (count + 2, 60, 5)] {
        let mut book = book_with(CreditStatus::Active, 0, 0);
        book.schedules.insert(
            borrower(),
            RepaymentSchedule { amount_per_period: 1, period_seconds: period, next_due_ts: due },
        );
        advance_repayment_schedule_after_repay(&mut book, borrower(), amount);
        assert_eq!(book.schedules.get(borrower()).unwrap().next_due_ts, u64::MAX);
    }
}

#[test]
fn repayments_of_whole_installments_add_up() {
    let schedule = RepaymentSchedule { amount_per_period: 7, period_seconds: 30, next_due_ts: 1 };
    let mut apart = book_with(CreditStatus::Active, 0, 0);
    apart.schedules.insert(borrower(), schedule);
    let mut together = book_with(CreditStatus::Active, 0, 0);
    together.schedules.insert(borrower(), schedule);
    advance_repayment_schedule_after_repay(&mut apart, borrower(), 14);
    advance_repayment_schedule_after_repay(&mut apart, borrower(), 21);
    advance_repayment_schedule_after_repay(&mut together, borrower(), 35);
    assert_eq!(apart.schedules.get(borrower()), together.schedules.get(borrower()));
    assert_eq!(apart.schedules.get(borrower()).unwrap().next_due_ts, 151);
    advance_repayment_schedule_after_repay(&mut apart, borrower(), 14);
    advance_repayment_schedule_after_repay(&mut apart, borrower(), 9);
    advance_repayment_schedule_after_repay(&mut together, borrower(), 23);
    assert_eq!(apart.schedules.get(borrower()), together.schedules.get(borrower()));
    assert_eq!(apart.schedules.get(borrower()).unwrap().next_due_ts, 241);
}

#[test]
fn broken_installments_move_the_due_date_less_far() {
    let schedule = RepaymentSchedule { amount_per_period: 7, period_seconds: 30, next_due_ts: 1 };
    let mut apart = book_with(CreditStatus::Active, 0, 0);
    apart.schedules.insert(borrower(), schedule);
    let mut together = book_with(CreditStatus::Active, 0, 0);
    together.schedules.insert(borrower(), schedule);
    advance_repayment_schedule_after_repay(&mut apart, borrower(), 10);
    advance_repayment_schedule_after_repay(&mut apart, borrower(), 12);
    advance_repayment_schedule_after_repay(&mut together, borrower(), 22);
    assert_eq!(apart.schedules.get(borrower()).unwrap().next_due_ts, 61);
    assert_eq!(together.schedules.get(borrower()).unwrap().next_due_ts, 91);
}

#[test]
fn a_paused_protocol_refuses() {
    let call = call_of(&[admin(), borrower()]);
    let b = borrower();
    let paused = Err(ContractError::Paused);
    let mut book = book_with(CreditStatus::Active, 0, 0);
    book.paused = true;
    assert_eq!(set_credit_limit_bounds(&mut book, &call, 1, 2), paused);
    assert_eq!(set_repayment_schedule(&mut book, &call, b, 1, 1, 1), paused);
    assert_eq!(open_credit_line(&mut book, &call, party(3), 1, 1, 1), paused);
    assert_eq!(suspend_credit_line(&mut book, &call, b, as_stored), paused);
    assert_eq!(self_suspend_credit_line(&mut book, &call, b, as_stored), paused);
    assert_eq!(close_credit_line(&mut book, &call, b, admin(), as_stored), paused);
    assert_eq!(close_credit_lines_batch(&mut book, &call, &vec![b], as_stored), paused);
    assert_eq!(default_credit_line(&mut book, &call, b, as_stored), paused);
    assert_eq!(forgive_debt(&mut book, &call, b, 1, as_stored), paused);
    assert_eq!(
        settle_default_liquidation(&mut book, &call, b, 1, symbol("s"), as_stored),
        paused
    );
    assert_eq!(
        reinstate_credit_line(&mut book, &call, b, CreditStatus::Active, as_stored),
        paused
    );
}

#[test]
fn the_total_follows_the_debts() {
    let call = call_of(&[admin()]);
    let mut book = book_with(CreditStatus::Active, 100, 0);
    let other = CreditLineData {
        borrower: party(3),
        ..line_with(CreditStatus::Active, 40, 0)
    };
    book.lines.insert(party(3), other);
    book.total_utilized = 140;
    default_credit_line(&mut book, &call, borrower(), with_interest).unwrap();
    assert_eq!(book.total_utilized, 150);
    settle_default_liquidation(&mut book, &call, borrower(), 30, symbol("s"), as_stored).unwrap();
    assert_eq!(book.total_utilized, 120);
    forgive_debt(&mut book, &call, party(3), 15, as_stored).unwrap();
    assert_eq!(book.total_utilized, 105);
    assert_eq!(book.lines.get(party(3)).unwrap().utilized_amount, 25);
    close_credit_line(&mut book, &call, borrower(), admin(), as_stored).unwrap();
    open_credit_line(&mut book, &call, borrower(), 10, 1, 1).unwrap();
    assert_eq!(book.total_utilized, 25);
}

#[test]
fn an_unconfigured_administrator_is_reported() {
    let mut book = book_with(CreditStatus::Suspended, 0, 0);
    book.admin = None;
    let call = call_of(&[admin(), borrower()]);
    assert_eq!(
        set_credit_limit_bounds(&mut book, &call, 1, 2),
        Err(ContractError::AdminNotSet)
    );
    assert_eq!(
        open_credit_line(&mut book, &call, borrower(), 1, 1, 1),
        Err(ContractError::AdminNotSet)
    );
}
