//! Who may close a line, and what closing does.

use creditra_credit::book::{Call, CreditBook};
use creditra_credit::events::{Event, LineTopic};
use creditra_credit::lifecycle::{
    close_credit_line, default_credit_line, open_credit_line, suspend_credit_line,
};
use creditra_credit::types::{
    Address, AddressKind, ContractError, CreditLineData, CreditStatus,
};

const ADMIN: Address = Address { kind: AddressKind::Account, hi: 0, lo: 1 };
const BORROWER: Address = Address { kind: AddressKind::Account, hi: 0, lo: 2 };
const STRANGER: Address = Address { kind: AddressKind::Contract, hi: 7, lo: 3 };

/// A protocol in which everyone authorizes every call.
struct Client {
    book: CreditBook,
}

fn everyone() -> Call {
    Call { now: 0, signers: vec![ADMIN, BORROWER, STRANGER] }
}

fn setup() -> Client {
    Client { book: CreditBook::new(Some(ADMIN), 100, 50) }
}

impl Client {
    fn open(&mut self, borrower: Address, limit: i128, rate: u32, score: u32) {
        self.book.events.clear();
        open_credit_line(&mut self.book, &everyone(), borrower, limit, rate, score).unwrap();
    }

    fn draw(&mut self, borrower: Address, amount: i128) {
        let mut line = self.get(borrower).unwrap();
        line.utilized_amount += amount;
        self.book.total_utilized += amount;
        self.book.lines.insert(borrower, line);
    }

    fn suspend(&mut self, borrower: Address) {
        suspend_credit_line(&mut self.book, &everyone(), borrower, |line| Ok(line)).unwrap();
    }

    fn default_line(&mut self, borrower: Address) {
        default_credit_line(&mut self.book, &everyone(), borrower, |line| Ok(line)).unwrap();
    }

    fn try_close(&mut self, borrower: Address, closer: Address) -> Result<(), ContractError> {
        self.book.events.clear();
        close_credit_line(&mut self.book, &everyone(), borrower, closer, |line| Ok(line))
    }

    fn close(&mut self, borrower: Address, closer: Address) {
        if let Err(reason) = self.try_close(borrower, closer) {
            panic!("{}", reason.panic_message().unwrap_or("refused"));
        }
    }

    fn get(&self, borrower: Address) -> Option<CreditLineData> {
        self.book.lines.get(borrower)
    }
}

fn open_line(client: &mut Client, borrower: Address) {
    client.open(borrower, 1_000, 300, 70);
}

#[test]
fn borrower_can_close_when_utilization_is_zero() {
    let mut client = setup();
    open_line(&mut client, BORROWER);
    client.close(BORROWER, BORROWER);
    let line = client.get(BORROWER).unwrap();
    assert_eq!(line.status, CreditStatus::Closed);
    assert_eq!(line.utilized_amount, 0);
}

#[test]
fn admin_can_force_close_with_non_zero_utilization() {
    let mut client = setup();
    open_line(&mut client, BORROWER);
    client.draw(BORROWER, 400);
    assert_eq!(client.get(BORROWER).unwrap().utilized_amount, 400);
    client.close(BORROWER, ADMIN);
    assert_eq!(client.get(BORROWER).unwrap().status, CreditStatus::Closed);
    assert_eq!(client.get(BORROWER).unwrap().utilized_amount, 400);
    assert_eq!(client.book.total_utilized, 400);
}

#[test]
fn admin_can_close_with_zero_utilization() {
    let mut client = setup();
    open_line(&mut client, BORROWER);
    client.close(BORROWER, ADMIN);
    assert_eq!(client.get(BORROWER).unwrap().status, CreditStatus::Closed);
}

#[test]
fn borrower_cannot_close_with_non_zero_utilization() {
    let mut client = setup();
    open_line(&mut client, BORROWER);
    client.draw(BORROWER, 1);
    let reason = client.try_close(BORROWER, BORROWER).unwrap_err();
    assert_eq!(reason.panic_message(), Some("cannot close: utilized amount not zero"));
}

#[test]
fn stranger_cannot_close_credit_line() {
    let mut client = setup();
    open_line(&mut client, BORROWER);
    let reason = client.try_close(BORROWER, STRANGER).unwrap_err();
    assert_eq!(reason.panic_message(), Some("unauthorized"));
}

#[test]
fn stranger_cannot_close_even_with_zero_utilization() {
    let mut client = setup();
    open_line(&mut client, BORROWER);
    let reason = client.try_close(BORROWER, STRANGER).unwrap_err();
    assert_eq!(reason.panic_message(), Some("unauthorized"));
}

#[test]
fn close_is_idempotent_when_already_closed() {
    let mut client = setup();
    open_line(&mut client, BORROWER);
    client.close(BORROWER, ADMIN);
    client.close(BORROWER, ADMIN);
    assert_eq!(client.get(BORROWER).unwrap().status, CreditStatus::Closed);
}

#[test]
fn closed_line_has_closed_status_preventing_draws() {
    let mut client = setup();
    open_line(&mut client, BORROWER);
    client.close(BORROWER, ADMIN);
    assert_eq!(client.get(BORROWER).unwrap().status, CreditStatus::Closed);
}

#[test]
fn admin_can_close_suspended_line() {
    let mut client = setup();
    open_line(&mut client, BORROWER);
    client.suspend(BORROWER);
    assert_eq!(client.get(BORROWER).unwrap().status, CreditStatus::Suspended);
    client.close(BORROWER, ADMIN);
    assert_eq!(client.get(BORROWER).unwrap().status, CreditStatus::Closed);
}

#[test]
fn admin_can_close_defaulted_line() {
    let mut client = setup();
    open_line(&mut client, BORROWER);
    client.default_line(BORROWER);
    assert_eq!(client.get(BORROWER).unwrap().status, CreditStatus::Defaulted);
    client.close(BORROWER, ADMIN);
    assert_eq!(client.get(BORROWER).unwrap().status, CreditStatus::Closed);
}

#[test]
fn borrower_can_close_suspended_line_with_zero_utilization() {
    let mut client = setup();
    open_line(&mut client, BORROWER);
    client.suspend(BORROWER);
    client.close(BORROWER, BORROWER);
    assert_eq!(client.get(BORROWER).unwrap().status, CreditStatus::Closed);
}

#[test]
fn close_emits_closed_event_with_correct_topics_and_status() {
    let mut client = setup();
    open_line(&mut client, BORROWER);
    client.close(BORROWER, ADMIN);
    let event = client.book.events.last().unwrap();
    assert_eq!(event.topics(), ("credit", "closed"));
    match event {
        Event::CreditLine { topic, line } => {
            assert_eq!(*topic, LineTopic::Closed);
            assert_eq!(line.status, CreditStatus::Closed);
            assert_eq!(line.borrower, BORROWER);
        }
        other => panic!("unexpected event {:?}", other),
    }
}

#[test]
fn idempotent_close_emits_no_additional_event() {
    let mut client = setup();
    open_line(&mut client, BORROWER);
    client.close(BORROWER, ADMIN);
    client.close(BORROWER, ADMIN);
    let event_count_after_second = client.book.events.len();
    assert_eq!(
        event_count_after_second, 0,
        "idempotent close must not emit a second event"
    );
}

#[test]
fn close_nonexistent_line_reverts() {
    let mut client = setup();
    let reason = client.try_close(BORROWER, ADMIN).unwrap_err();
    assert_eq!(reason.panic_message(), Some("Credit line not found"));
}

#[test]
fn close_sets_status_to_closed_and_does_not_mutate_other_fields() {
    let mut client = setup();
    open_line(&mut client, BORROWER);
    let before = client.get(BORROWER).unwrap();
    client.close(BORROWER, ADMIN);
    let after = client.get(BORROWER).unwrap();
    assert_eq!(after.status, CreditStatus::Closed);
    assert_eq!(after.borrower, before.borrower);
    assert_eq!(after.credit_limit, before.credit_limit);
    assert_eq!(after.utilized_amount, before.utilized_amount);
    assert_eq!(after.interest_rate_bps, before.interest_rate_bps);
    assert_eq!(after.risk_score, before.risk_score);
}

#[test]
fn open_credit_line_succeeds_after_close() {
    let mut client = setup();
    open_line(&mut client, BORROWER);
    client.close(BORROWER, ADMIN);
    client.open(BORROWER, 2_000, 400, 60);
    let line = client.get(BORROWER).unwrap();
    assert_eq!(line.status, CreditStatus::Active);
    assert_eq!(line.credit_limit, 2_000);
    assert_eq!(line.utilized_amount, 0);
}

#[test]
fn borrower_close_at_exact_zero_utilization_boundary() {
    let mut client = setup();
    client.open(BORROWER, 1, 300, 70);
    client.close(BORROWER, BORROWER);
    assert_eq!(client.get(BORROWER).unwrap().status, CreditStatus::Closed);
}

#[test]
fn close_records_closer_auth_requirement() {
    let mut client = setup();
    open_line(&mut client, BORROWER);
    let unsigned = Call { now: 0, signers: vec![BORROWER] };
    assert_eq!(
        close_credit_line(&mut client.book, &unsigned, BORROWER, ADMIN, |line| Ok(line)),
        Err(ContractError::MissingAuthorization),
        "close_credit_line must require closer authorization"
    );
    let signed = Call { now: 0, signers: vec![ADMIN] };
    assert_eq!(
        close_credit_line(&mut client.book, &signed, BORROWER, ADMIN, |line| Ok(line)),
        Ok(())
    );
}

#[test]
fn refusals_to_close_are_told_apart() {
    let mut client = setup();
    assert_eq!(
        client.try_close(BORROWER, ADMIN),
        Err(ContractError::CreditLineNotFound)
    );
    open_line(&mut client, BORROWER);
    client.draw(BORROWER, 5);
    assert_eq!(
        client.try_close(BORROWER, BORROWER),
        Err(ContractError::UtilizationNotZero)
    );
    assert_eq!(client.try_close(BORROWER, STRANGER), Err(ContractError::Unauthorized));
    client.book.paused = true;
    assert_eq!(client.try_close(BORROWER, ADMIN), Err(ContractError::Paused));
    client.book.paused = false;
    client.book.admin = None;
    assert_eq!(client.try_close(BORROWER, BORROWER), Err(ContractError::AdminNotSet));
    assert_eq!(ContractError::Paused.panic_message(), None);
}

#[test]
fn closing_drops_the_schedule() {
    let mut client = setup();
    open_line(&mut client, BORROWER);
    client.book.schedules.insert(
        BORROWER,
        creditra_credit::types::RepaymentSchedule {
            amount_per_period: 10,
            period_seconds: 60,
            next_due_ts: 100,
        },
    );
    client.close(BORROWER, BORROWER);
    assert_eq!(client.book.schedules.get(BORROWER), None);
}

/// Ten units of interest fall due.
fn with_interest(line: CreditLineData) -> Result<CreditLineData, ContractError> {
    Ok(CreditLineData {
        utilized_amount: line.utilized_amount + 10,
        accrued_interest: line.accrued_interest + 10,
        last_accrual_ts: 9,
        ..line
    })
}

#[test]
fn the_administrator_closes_on_accrued_debt() {
    let mut client = setup();
    open_line(&mut client, BORROWER);
    client.draw(BORROWER, 400);
    let before = client.get(BORROWER).unwrap();
    assert_eq!(
        close_credit_line(&mut client.book, &everyone(), BORROWER, ADMIN, with_interest),
        Ok(())
    );
    assert_eq!(
        client.get(BORROWER),
        Some(CreditLineData {
            status: CreditStatus::Closed,
            utilized_amount: 410,
            accrued_interest: 10,
            last_accrual_ts: 9,
            ..before
        })
    );
    assert_eq!(client.book.total_utilized, 410);
}

#[test]
fn a_borrower_cannot_close_while_interest_falls_due() {
    let mut client = setup();
    open_line(&mut client, BORROWER);
    let before = client.get(BORROWER);
    assert_eq!(
        close_credit_line(&mut client.book, &everyone(), BORROWER, BORROWER, with_interest),
        Err(ContractError::UtilizationNotZero)
    );
    assert_eq!(client.get(BORROWER), before);
    assert_eq!(client.book.total_utilized, 0);
    client.close(BORROWER, BORROWER);
    assert_eq!(client.get(BORROWER).unwrap().status, CreditStatus::Closed);
}

#[test]
fn closing_stops_where_accrual_does() {
    let stuck = |_line: CreditLineData| -> Result<CreditLineData, ContractError> {
        Err(ContractError::TimestampRegression)
    };
    let mut client = setup();
    open_line(&mut client, BORROWER);
    assert_eq!(
        close_credit_line(&mut client.book, &everyone(), BORROWER, ADMIN, stuck),
        Err(ContractError::TimestampRegression)
    );
    assert_eq!(client.get(BORROWER).unwrap().status, CreditStatus::Active);
    client.close(BORROWER, ADMIN);
    assert_eq!(
        close_credit_line(&mut client.book, &everyone(), BORROWER, STRANGER, stuck),
        Ok(()),
        "a closed line is left alone without asking for interest"
    );
}

#[test]
fn closing_reports_a_total_that_does_not_fit() {
    let mut client = setup();
    open_line(&mut client, BORROWER);
    client.book.total_utilized = i128::MAX - 5;
    assert_eq!(
        close_credit_line(&mut client.book, &everyone(), BORROWER, ADMIN, with_interest),
        Err(ContractError::Overflow)
    );
    assert_eq!(client.get(BORROWER).unwrap().status, CreditStatus::Active);
    assert_eq!(client.book.total_utilized, i128::MAX - 5);
}
