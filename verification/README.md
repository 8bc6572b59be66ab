# lana_core

The verified core of a lending platform, written in Verus. Each function
states what it does in `requires` / `ensures` clauses over mathematical
models (sequences of events, decimal values, sets of plan entries), and Verus
proves the code against them.

## Layout

- `src/primitives.rs` – identifiers, money, time, audit information, the
  outcome of idempotent commands; the clock and UUID calls.
- `src/decimal.rs` – fixed-point decimals (mantissa and scale) and the
  `rust_decimal` arithmetic on them, behind trusted wrappers.
- `src/cvl.rs` – the collateral-value-to-loan ratio.
- `src/credit_proposal.rs`, `src/credit.rs`, `src/repayment_plan.rs` –
  credit facility proposals, the checks made before lending, the repayment
  plan of a facility.
- `src/publisher.rs` – what the credit module announces when an obligation
  records new events.
- `src/customer.rs`, `src/deposit_account.rs`, `src/deposit.rs`,
  `src/withdrawal.rs`, `src/document.rs`, `src/custody.rs`, `src/report.rs`,
  `src/public_id.rs`, `src/access.rs` – the event-sourced entities of the
  other modules and the events they announce.
- `src/freeze_account.rs` – the ledger template that freezes an account.
- `src/dependency_dag.rs` – the workspace's dependency-tier rule.
- `tests/` – tests of the library, run against the real outside crates.
- `app/main.rs` – the command that checks a workspace's dependency tiers:
  it reads the cargo metadata and prints what the library finds.

Entities keep their history as a `Vec` of events; every command's contract
says which events it appends, and, where replaying the history rebuilds the
entity's fields, that the command keeps them consistent. Laws that relate
several calls (idempotency of commands, the sort order of the repayment plan,
uniqueness of public identifiers, ...) are public proof functions.
