# creditra_credit

Lifecycle rules of on-chain credit lines, verified with Verus.

A credit line is opened, suspended, closed, defaulted, reinstated, written off and settled after
liquidation. The library decides each of those calls on a `CreditBook`: which calls are refused
and for what reason, and what an accepted call leaves in storage and announces.

| Module | What it holds |
|---|---|
| `types`, `events` | plain values: lines, schedules, reasons for refusal, announcements |
| `address_map`, `book` | the stored state and the invocation, with their mathematical views |
| `model` | what each call means |
| `batch` | what closing lines in turn comes to |
| `auth`, `storage`, `lifecycle` | the calls |
| `history` | any call as a value, and sequences of calls |
| `totals`, `laws` | what holds of the calls taken together |

`app/` is the Soroban side: it asks the host for authorizations, loads and stores ledger entries,
and publishes events.

Every call that acts on the debt of a line, closing included, takes interest accrual as a function
from the stored line to the line brought up to date, and its contract holds whatever that function
answers. The ceilings on risk scores and on the length of a batch are settings of the book.
