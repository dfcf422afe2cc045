# escrow_contract

Milestone escrow and token-holder governance, written as verified state
machines.

Each contract is a plain Rust value (`EscrowContract`, `GovernanceContract`)
with an abstract view. Every entry point takes the ledger time, returns its
result, and appends the token transfers (and, for governance, the events) it
asks the host to carry out to an outbox. A refused call changes nothing. Every
public function's contract describes its outcome exactly, through a `*_spec`
function over the views, and keeps the well-formedness invariant (`wf`).

## Layout

- `src/` — the verified library
  - `escrow.rs`: state, views, invariant, lazy rent settlement
  - `escrow_lifecycle.rs`, `escrow_milestones.rs`, `escrow_batch.rs`,
    `escrow_recurring.rs`, `escrow_cancel.rs`, `escrow_slash.rs`,
    `escrow_reputation.rs`, `escrow_admin.rs`, `escrow_views.rs`: entry points
  - `rent.rs`, `schedule.rs`: storage-rent and schedule arithmetic
  - `storage.rs`: layout versions and the migration of version 1 escrows
  - `governance.rs`, `gov_types.rs`, `gov_errors.rs`, `gov_events.rs`:
    proposals, voting, quorum and approval, timelocked execution
  - `escrow_laws.rs`, `gov_laws.rs`: properties that span entry points,
    stated and proved as proof functions
  - `guards.rs`: executable tests of the integer-range conditions that some
    entry points require, for callers outside the verified code
- `tests/` — scenarios run against the library with a small token ledger
- `app/` — the host side on a Soroban environment: authorization, ledger
  time, token balances and transfers, events, code upgrades
