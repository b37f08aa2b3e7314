//! What an accepted call announces.

use crate::book::CreditBook;
use crate::types::{Address, CreditStatus, Symbol};
use vstd::prelude::*;

verus! {

/// Which transition a credit-line event announces.
#[derive(Clone, Copy, Debug, PartialEq, Eq, Structural)]
pub enum LineTopic {
    Opened,
    Suspend,
    Closed,
    Default,
    Reinstate,
}

/// A credit line has moved to another status.
#[derive(Clone, Copy, Debug, PartialEq, Eq, Structural)]
pub struct CreditLineEvent {
    pub borrower: Address,
    pub status: CreditStatus,
    pub credit_limit: i128,
    pub interest_rate_bps: u32,
    pub risk_score: u32,
}

/// A line has defaulted and its debt is to be liquidated.
#[derive(Clone, Copy, Debug, PartialEq, Eq, Structural)]
pub struct DefaultLiquidationRequestedEvent {
    pub borrower: Address,
    pub utilized_amount: i128,
}

/// Liquidation proceeds have been applied to a defaulted line.
#[derive(Clone, Copy, Debug, PartialEq, Eq, Structural)]
pub struct DefaultLiquidationSettledEvent {
    pub borrower: Address,
    pub settlement_id: Symbol,
    pub recovered_amount: i128,
    pub remaining_utilized_amount: i128,
    pub status: CreditStatus,
}

/// One announcement.
#[derive(Clone, Copy, Debug, PartialEq, Eq, Structural)]
pub enum Event {
    CreditLine { topic: LineTopic, line: CreditLineEvent },
    LiquidationRequested { request: DefaultLiquidationRequestedEvent },
    LiquidationSettled { settlement: DefaultLiquidationSettledEvent },
}

impl Event {
    /// The two topics under which the event is published.
    pub open spec fn spec_topics(self) -> (Seq<char>, Seq<char>) {
        let second = match self {
            Event::CreditLine { topic: LineTopic::Opened, .. } => "opened"@,
            Event::CreditLine { topic: LineTopic::Suspend, .. } => "suspend"@,
            Event::CreditLine { topic: LineTopic::Closed, .. } => "closed"@,
            Event::CreditLine { topic: LineTopic::Default, .. } => "default"@,
            Event::CreditLine { topic: LineTopic::Reinstate, .. } => "reinstate"@,
            Event::LiquidationRequested { .. } => "liq_req"@,
            Event::LiquidationSettled { .. } => "liq_setl"@,
        };
        ("credit"@, second)
    }

    /// Returns the two topics under which the event is published.
    pub fn topics(&self) -> (topics: (&'static str, &'static str))
        ensures
            (topics.0@, topics.1@) == self.spec_topics(),
    {
        let second = match self {
            Event::CreditLine { topic, .. } => match topic {
                LineTopic::Opened => "opened",
                LineTopic::Suspend => "suspend",
                LineTopic::Closed => "closed",
                LineTopic::Default => "default",
                LineTopic::Reinstate => "reinstate",
            },
            Event::LiquidationRequested { .. } => "liq_req",
            Event::LiquidationSettled { .. } => "liq_setl",
        };
        ("credit", second)
    }
}

/// Announces that a line has moved to another status.
pub fn publish_credit_line_event(book: &mut CreditBook, topic: LineTopic, line: CreditLineEvent)
    ensures
        final(book)@ == old(book)@.announced(Event::CreditLine { topic, line }),
{
    book.events.push(Event::CreditLine { topic, line });
}

/// Announces that the debt of a defaulted line is to be liquidated.
pub fn publish_default_liquidation_requested_event(
    book: &mut CreditBook,
    borrower: Address,
    utilized_amount: i128,
)
    ensures
        final(book)@ == old(book)@.announced(
            Event::LiquidationRequested {
                request: DefaultLiquidationRequestedEvent { borrower, utilized_amount },
            },
        ),
{
    book.events.push(
        Event::LiquidationRequested {
            request: DefaultLiquidationRequestedEvent { borrower, utilized_amount },
        },
    );
}

/// Announces that liquidation proceeds have been applied.
pub fn publish_default_liquidation_settled_event(
    book: &mut CreditBook,
    settlement: DefaultLiquidationSettledEvent,
)
    ensures
        final(book)@ == old(book)@.announced(Event::LiquidationSettled { settlement }),
{
    book.events.push(Event::LiquidationSettled { settlement });
}

} // verus!
