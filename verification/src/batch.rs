//! What closing lines in turn comes to.

use crate::book::BookState;
use crate::events::{Event, LineTopic};
use crate::model::{fits_i128, line_event, Accrued};
use crate::types::{Address, ContractError, CreditLineData, CreditStatus};
use vstd::prelude::*;

verus! {

/// Everyone in the batch has a line that is not closed.
pub open spec fn all_open(state: BookState, borrowers: Seq<Address>) -> bool {
    forall|i: int|
        0 <= i < borrowers.len() ==> state.open_line_refusal(#[trigger] borrowers[i]) is None
}

/// Accrual answers with a line for everyone in the batch.
pub open spec fn all_accrued(borrowers: Seq<Address>, answers: Seq<Accrued>) -> bool {
    forall|i: int| 0 <= i < borrowers.len() ==> (#[trigger] answers[i]) is Ok
}

/// The total once the stored debts of the batch have become the accrued ones.
pub open spec fn batch_total(
    state: BookState,
    borrowers: Seq<Address>,
    answers: Seq<Accrued>,
) -> int
    decreases borrowers.len(),
{
    if borrowers.len() == 0 {
        state.total_utilized as int
    } else {
        batch_total(state, borrowers.drop_last(), answers) - state.debt(borrowers.last())
            + answers[borrowers.len() - 1]->Ok_0.utilized_amount
    }
}

/// The total can be recorded after each line of the batch.
pub open spec fn batch_totals_fit(
    state: BookState,
    borrowers: Seq<Address>,
    answers: Seq<Accrued>,
) -> bool {
    forall|n: int|
        0 <= n <= borrowers.len() ==> fits_i128(
            #[trigger] batch_total(state, borrowers.take(n), answers),
        )
}

/// The announcements of a batch: one for each line, in the order in which they are named.
pub open spec fn batch_events(borrowers: Seq<Address>, answers: Seq<Accrued>) -> Seq<Event> {
    Seq::new(
        borrowers.len(),
        |i: int|
            line_event(
                LineTopic::Closed,
                borrowers[i],
                CreditStatus::Closed,
                answers[i]->Ok_0,
            ),
    )
}

/// The lines of a batch that closed, and what else it changed.
pub open spec fn batch_closed(
    state: BookState,
    borrowers: Seq<Address>,
    answers: Seq<Accrued>,
    next: BookState,
) -> bool {
    &&& borrowers.no_duplicates()
    &&& all_open(state, borrowers)
    &&& all_accrued(borrowers, answers)
    &&& forall|i: int|
        0 <= i < borrowers.len() ==> next.line(#[trigger] borrowers[i]) == Some(
            CreditLineData { status: CreditStatus::Closed, ..answers[i]->Ok_0 },
        )
    &&& forall|b: Address| !borrowers.contains(b) ==> #[trigger] next.line(b) == state.line(b)
    &&& next.lines.dom() == state.lines.dom()
    &&& forall|b: Address| #[trigger]
        next.schedules.contains_key(b) <==> state.schedules.contains_key(b) && !borrowers.contains(
            b,
        )
    &&& forall|b: Address|
        next.schedules.contains_key(b) ==> #[trigger] next.schedules[b] == state.schedules[b]
    &&& next.settled == state.settled
    &&& next.total_utilized == batch_total(state, borrowers, answers)
    &&& next.events == state.events + batch_events(borrowers, answers)
}

/// What a batch that succeeds comes to.
pub proof fn lemma_batch_closed(state: BookState, borrowers: Seq<Address>, answers: Seq<Accrued>)
    ensures
        state.closed_in_turn(borrowers, answers) matches Ok(next) ==> batch_closed(
            state,
            borrowers,
            answers,
            next,
        ) && next.admin == state.admin,
    decreases borrowers.len(),
{
    if borrowers.len() == 0 {
        assert(state.events + batch_events(borrowers, answers) =~= state.events);
    } else if state.closed_in_turn(borrowers, answers) is Ok {
        let earlier = borrowers.drop_last();
        let last = borrowers.last();
        let count = earlier.len() as int;
        lemma_batch_closed(state, earlier, answers);
        let middle = state.closed_in_turn(earlier, answers)->Ok_0;
        let next = state.closed_in_turn(borrowers, answers)->Ok_0;
        let line = answers[count]->Ok_0;
        assert(borrowers =~= earlier.push(last));
        assert(!earlier.contains(last)) by {
            if earlier.contains(last) {
                let i = choose|i: int| 0 <= i < earlier.len() && earlier[i] == last;
                assert(middle.line(earlier[i]) is Some);
            }
        }
        assert(middle.line(last) == state.line(last));
        assert forall|b: Address| #[trigger] borrowers.contains(b) <==> earlier.contains(b) || b
            == last by {
            if earlier.contains(b) {
                let i = choose|i: int| 0 <= i < earlier.len() && earlier[i] == b;
                assert(borrowers[i] == b);
            }
            if borrowers.contains(b) {
                let i = choose|i: int| 0 <= i < borrowers.len() && borrowers[i] == b;
                if i < count {
                    assert(earlier[i] == b);
                }
            }
            assert(borrowers[count] == last);
        }
        assert forall|i: int, j: int|
            0 <= i < borrowers.len() && 0 <= j < borrowers.len() && i != j implies borrowers[i]
            != borrowers[j] by {
            if i < count && j < count {
                assert(earlier[i] != earlier[j]);
            } else if i < count {
                assert(earlier[i] == borrowers[i]);
                assert(earlier.contains(borrowers[i]));
            } else {
                assert(earlier[j] == borrowers[j]);
                assert(earlier.contains(borrowers[j]));
            }
        }
        assert forall|i: int| 0 <= i < borrowers.len() implies state.open_line_refusal(
            #[trigger] borrowers[i],
        ) is None by {
            if i < count {
                assert(earlier[i] == borrowers[i]);
            }
        }
        assert forall|i: int| 0 <= i < borrowers.len() implies next.line(#[trigger] borrowers[i])
            == Some(
            CreditLineData { status: CreditStatus::Closed, ..answers[i]->Ok_0 },
        ) by {
            if i < count {
                assert(earlier[i] == borrowers[i]);
                assert(middle.line(earlier[i]) == next.line(borrowers[i]));
            }
        }
        assert forall|b: Address| !borrowers.contains(b) implies #[trigger] next.line(b)
            == state.line(b) by {
            assert(middle.line(b) == state.line(b));
        }
        assert(next.lines.dom() =~= state.lines.dom());
        assert(next.events =~= state.events + batch_events(borrowers, answers));
    }
}

/// A batch that can be closed is closed.
pub proof fn lemma_batch_succeeds(
    state: BookState,
    borrowers: Seq<Address>,
    answers: Seq<Accrued>,
)
    requires
        state.admin is Some,
        borrowers.no_duplicates(),
        all_open(state, borrowers),
        all_accrued(borrowers, answers),
        batch_totals_fit(state, borrowers, answers),
    ensures
        state.closed_in_turn(borrowers, answers) is Ok,
    decreases borrowers.len(),
{
    if borrowers.len() > 0 {
        let earlier = borrowers.drop_last();
        let last = borrowers.last();
        let count = earlier.len() as int;
        assert forall|i: int| 0 <= i < earlier.len() implies state.open_line_refusal(
            #[trigger] earlier[i],
        ) is None by {
            assert(borrowers[i] == earlier[i]);
        }
        assert forall|n: int| 0 <= n <= earlier.len() implies fits_i128(
            #[trigger] batch_total(state, earlier.take(n), answers),
        ) by {
            assert(earlier.take(n) =~= borrowers.take(n));
        }
        lemma_batch_succeeds(state, earlier, answers);
        lemma_batch_closed(state, earlier, answers);
        let middle = state.closed_in_turn(earlier, answers)->Ok_0;
        assert(borrowers[count] == last);
        assert(!earlier.contains(last)) by {
            if earlier.contains(last) {
                let i = choose|i: int| 0 <= i < earlier.len() && earlier[i] == last;
                assert(borrowers[i] == borrowers[count]);
            }
        }
        assert(middle.line(last) == state.line(last));
        assert(answers[count] is Ok);
        assert(borrowers.take(borrowers.len() as int) =~= borrowers);
        assert(fits_i128(batch_total(state, borrowers, answers)));
    }
}

/// Where a batch succeeds, the total could be recorded after each of its lines.
pub proof fn lemma_batch_totals_fit(
    state: BookState,
    borrowers: Seq<Address>,
    answers: Seq<Accrued>,
)
    requires
        state.closed_in_turn(borrowers, answers) is Ok,
    ensures
        batch_totals_fit(state, borrowers, answers),
    decreases borrowers.len(),
{
    lemma_batch_closed(state, borrowers, answers);
    let whole = borrowers.len() as int;
    assert(borrowers.take(whole) =~= borrowers);
    if borrowers.len() > 0 {
        let earlier = borrowers.drop_last();
        lemma_batch_totals_fit(state, earlier, answers);
        assert forall|n: int| 0 <= n <= borrowers.len() implies fits_i128(
            #[trigger] batch_total(state, borrowers.take(n), answers),
        ) by {
            if n < whole {
                assert(earlier.take(n) =~= borrowers.take(n));
            }
        }
    }
}

/// What closing in turn comes to depends on the answers for the named lines only.
proof fn lemma_answers_that_count(
    state: BookState,
    borrowers: Seq<Address>,
    answers: Seq<Accrued>,
    others: Seq<Accrued>,
)
    requires
        forall|i: int| 0 <= i < borrowers.len() ==> answers[i] == #[trigger] others[i],
    ensures
        state.closed_in_turn(borrowers, answers) == state.closed_in_turn(borrowers, others),
    decreases borrowers.len(),
{
    if borrowers.len() > 0 {
        lemma_answers_that_count(state, borrowers.drop_last(), answers, others);
        assert(answers[borrowers.len() - 1] == others[borrowers.len() - 1]);
    }
}

/// When its turn comes, a line that can still be closed is as it was before the batch.
pub proof fn lemma_untouched_before_its_turn(
    state: BookState,
    borrowers: Seq<Address>,
    answers: Seq<Accrued>,
    at: int,
)
    requires
        0 <= at < borrowers.len(),
    ensures
        state.closed_in_turn(borrowers.take(at), answers) matches Ok(next) ==> {
            &&& next.admin == state.admin
            &&& next.open_line_refusal(borrowers[at]) is None ==> next.line(borrowers[at])
                == state.line(borrowers[at])
        },
{
    let earlier = borrowers.take(at);
    lemma_batch_closed(state, earlier, answers);
    if state.closed_in_turn(earlier, answers) is Ok {
        let next = state.closed_in_turn(earlier, answers)->Ok_0;
        if earlier.contains(borrowers[at]) {
            let i = choose|i: int| 0 <= i < earlier.len() && earlier[i] == borrowers[at];
            assert(next.line(earlier[i]) is Some);
        } else {
            assert(next.line(borrowers[at]) == state.line(borrowers[at]));
        }
    }
}

/// One more line of the batch is closed, with one more answer.
pub proof fn lemma_batch_goes_on(
    state: BookState,
    borrowers: Seq<Address>,
    answers: Seq<Accrued>,
    at: int,
    answer: Accrued,
)
    requires
        0 <= at < borrowers.len(),
        answers.len() == at,
        state.closed_in_turn(borrowers.take(at), answers) is Ok,
    ensures
        state.closed_in_turn(borrowers.take(at + 1), answers.push(answer))
            == state.closed_in_turn(borrowers.take(at), answers)->Ok_0.closed_in_batch(
            borrowers[at],
            answer,
        ),
{
    assert(borrowers.take(at + 1).drop_last() =~= borrowers.take(at));
    lemma_answers_that_count(state, borrowers.take(at), answers, answers.push(answer));
}

/// A batch that fails on its first `count` borrowers fails for the same reason on any more.
proof fn lemma_first_failure_stands(
    state: BookState,
    borrowers: Seq<Address>,
    answers: Seq<Accrued>,
    count: int,
    more: int,
    reason: ContractError,
)
    requires
        0 <= count <= more <= borrowers.len(),
        state.closed_in_turn(borrowers.take(count), answers) == Err::<BookState, ContractError>(
            reason,
        ),
    ensures
        state.closed_in_turn(borrowers.take(more), answers) == Err::<BookState, ContractError>(
            reason,
        ),
    decreases more,
{
    if count < more {
        lemma_first_failure_stands(state, borrowers, answers, count, more - 1, reason);
        assert(borrowers.take(more).drop_last() =~= borrowers.take(more - 1));
    }
}

/// A batch that fails at `at` fails as a whole for the same reason, whatever accrual would have
/// answered for the lines after it, and accrual is not asked about those.
pub proof fn lemma_batch_fails_at(
    state: BookState,
    borrowers: Seq<Address>,
    answers: Seq<Accrued>,
    at: int,
    answer: Accrued,
    reason: ContractError,
) -> (all: Seq<Accrued>)
    requires
        0 <= at < borrowers.len(),
        answers.len() == at,
        state.closed_in_turn(borrowers.take(at), answers) matches Ok(next)
            && next.closed_in_batch(borrowers[at], answer) == Err::<BookState, ContractError>(
            reason,
        ),
    ensures
        all.len() == borrowers.len(),
        forall|i: int| 0 <= i < at ==> #[trigger] all[i] == answers[i],
        all[at] == answer,
        state.batch_consults(borrowers, all, at) <==> state.closed_in_turn(
            borrowers.take(at),
            answers,
        )->Ok_0.open_line_refusal(borrowers[at]) is None,
        forall|i: int| at < i < borrowers.len() ==> !state.batch_consults(borrowers, all, i),
        state.closed_in_turn(borrowers, all) == Err::<BookState, ContractError>(reason),
{
    let all = Seq::new(
        borrowers.len(),
        |i: int|
            if i < at {
                answers[i]
            } else {
                answer
            },
    );
    lemma_batch_goes_on(state, borrowers, answers, at, answer);
    lemma_answers_that_count(state, borrowers.take(at), answers, all);
    lemma_answers_that_count(state, borrowers.take(at + 1), answers.push(answer), all);
    assert forall|i: int| at < i <= borrowers.len() implies #[trigger] state.closed_in_turn(
        borrowers.take(i),
        all,
    ) == Err::<BookState, ContractError>(reason) by {
        lemma_first_failure_stands(state, borrowers, all, at + 1, i, reason);
    }
    assert(borrowers.take(borrowers.len() as int) =~= borrowers);
    all
}

} // verus!
