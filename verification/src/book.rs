//! The stored state that the lifecycle rules work on, and the call that reaches them.

use crate::address_map::AddressMap;
use crate::events::Event;
use crate::types::{Address, CreditLineData, RepaymentSchedule, Symbol};
use vstd::prelude::*;

verus! {

/// What identifies an applied settlement: the marker's tag, the borrower and the settlement.
pub type SettlementKey = (Symbol, Address, Symbol);

/// Everything that the lifecycle calls read from storage and write to it.
///
/// A book may hold all lines of the protocol or only those that a call touches: a call reads
/// and writes nothing of a borrower that it does not name.
pub struct CreditBook {
    pub admin: Option<Address>,
    pub paused: bool,
    pub min_credit_limit: Option<i128>,
    pub max_credit_limit: Option<i128>,
    /// The highest risk score that a line may be opened with.
    pub max_risk_score: u32,
    /// The largest number of lines that one batch may close.
    pub batch_close_max: u32,
    /// The debt of all lines together.
    pub total_utilized: i128,
    pub lines: AddressMap<CreditLineData>,
    pub schedules: AddressMap<RepaymentSchedule>,
    /// The settlements that have been applied.
    pub settled: Vec<SettlementKey>,
    /// What has been announced, oldest first.
    pub events: Vec<Event>,
}

/// The mathematical contents of a [`CreditBook`].
#[verifier::ext_equal]
pub struct BookState {
    pub admin: Option<Address>,
    pub paused: bool,
    pub min_credit_limit: Option<i128>,
    pub max_credit_limit: Option<i128>,
    pub max_risk_score: u32,
    pub batch_close_max: u32,
    pub total_utilized: i128,
    pub lines: Map<Address, CreditLineData>,
    pub schedules: Map<Address, RepaymentSchedule>,
    pub settled: Set<SettlementKey>,
    pub events: Seq<Event>,
}

impl View for CreditBook {
    type V = BookState;

    open spec fn view(&self) -> BookState {
        BookState {
            admin: self.admin,
            paused: self.paused,
            min_credit_limit: self.min_credit_limit,
            max_credit_limit: self.max_credit_limit,
            max_risk_score: self.max_risk_score,
            batch_close_max: self.batch_close_max,
            total_utilized: self.total_utilized,
            lines: self.lines@,
            schedules: self.schedules@,
            settled: self.settled@.to_set(),
            events: self.events@,
        }
    }
}

/// One invocation: the ledger time at which it runs and the parties that authorized it.
pub struct Call {
    pub now: u64,
    pub signers: Vec<Address>,
}

/// The mathematical contents of a [`Call`].
pub struct CallState {
    pub now: u64,
    pub signers: Set<Address>,
}

impl View for Call {
    type V = CallState;

    open spec fn view(&self) -> CallState {
        CallState { now: self.now, signers: self.signers@.to_set() }
    }
}

impl CreditBook {
    /// A book without lines, of an unpaused protocol without limit bounds.
    pub fn new(admin: Option<Address>, max_risk_score: u32, batch_close_max: u32) -> (book: Self)
        ensures
            book@ == (BookState {
                admin,
                paused: false,
                min_credit_limit: None,
                max_credit_limit: None,
                max_risk_score,
                batch_close_max,
                total_utilized: 0,
                lines: Map::empty(),
                schedules: Map::empty(),
                settled: Set::empty(),
                events: Seq::empty(),
            }),
    {
        let book = CreditBook {
            admin,
            paused: false,
            min_credit_limit: None,
            max_credit_limit: None,
            max_risk_score,
            batch_close_max,
            total_utilized: 0,
            lines: AddressMap::new(),
            schedules: AddressMap::new(),
            settled: Vec::new(),
            events: Vec::new(),
        };
        assert(book.settled@.to_set() =~= Set::empty());
        book
    }

    /// Another book with the same contents.
    pub fn duplicate(&self) -> (copy: Self)
        ensures
            copy@ == self@,
    {
        CreditBook {
            admin: self.admin,
            paused: self.paused,
            min_credit_limit: self.min_credit_limit,
            max_credit_limit: self.max_credit_limit,
            max_risk_score: self.max_risk_score,
            batch_close_max: self.batch_close_max,
            total_utilized: self.total_utilized,
            lines: self.lines.duplicate(),
            schedules: self.schedules.duplicate(),
            settled: copied(&self.settled),
            events: copied(&self.events),
        }
    }

    /// Whether the settlement that `key` identifies has been applied.
    pub fn is_settled(&self, key: SettlementKey) -> (applied: bool)
        ensures
            applied == self@.settled.contains(key),
    {
        let mut at: usize = 0;
        while at < self.settled.len()
            invariant
                at <= self.settled@.len(),
                forall|i: int| 0 <= i < at ==> self.settled@[i] != key,
            decreases self.settled@.len() - at,
        {
            let seen = self.settled[at];
            if seen.0 == key.0 && seen.1 == key.1 && seen.2 == key.2 {
                assert(self.settled@[at as int] == key);
                return true;
            }
            at = at + 1;
        }
        false
    }

    /// Records that the settlement that `key` identifies has been applied.
    pub fn mark_settled(&mut self, key: SettlementKey)
        ensures
            final(self)@ == (BookState { settled: old(self)@.settled.insert(key), ..old(self)@ }),
    {
        self.settled.push(key);
        proof {
            let before = old(self).settled@;
            let after = self.settled@;
            assert forall|k: SettlementKey| after.to_set().contains(k)
                == before.to_set().insert(key).contains(k) by {
                if before.contains(k) {
                    let i = choose|i: int| 0 <= i < before.len() && before[i] == k;
                    assert(after[i] == k);
                }
                assert(after[before.len() as int] == key);
            }
            assert(after.to_set() =~= before.to_set().insert(key));
        }
    }
}

impl Call {
    /// Whether `party` authorized the call.
    pub fn is_authorized_by(&self, party: Address) -> (authorized: bool)
        ensures
            authorized == self@.signers.contains(party),
    {
        let mut at: usize = 0;
        while at < self.signers.len()
            invariant
                at <= self.signers@.len(),
                forall|i: int| 0 <= i < at ==> self.signers@[i] != party,
            decreases self.signers@.len() - at,
        {
            if self.signers[at] == party {
                assert(self.signers@[at as int] == party);
                return true;
            }
            at = at + 1;
        }
        false
    }
}

/// Another vector with the same items.
fn copied<T: Copy>(items: &Vec<T>) -> (copy: Vec<T>)
    ensures
        copy@ == items@,
{
    let mut copy: Vec<T> = Vec::new();
    let mut at: usize = 0;
    while at < items.len()
        invariant
            at <= items@.len(),
            copy@ == items@.take(at as int),
        decreases items@.len() - at,
    {
        let item = items[at];
        copy.push(item);
        at = at + 1;
        assert(items@.take(at as int) == items@.take(at - 1).push(item));
    }
    assert(copy@ == items@);
    copy
}

} // verus!
