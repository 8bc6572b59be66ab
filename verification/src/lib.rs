//! Verified core of a lending platform: event-sourced entities (customers,
//! deposit accounts, deposits, withdrawals, documents, wallets, reports,
//! credit facility proposals), collateral-value-to-loan arithmetic, the
//! repayment plan projection, public identifiers and the workspace
//! dependency-tier rule.

pub mod primitives;
pub mod decimal;
pub mod cvl;
pub mod credit_proposal;
pub mod repayment_plan;
pub mod publisher;
pub mod credit;
pub mod freeze_account;
pub mod public_id;
pub mod deposit_account;
pub mod customer;
pub mod deposit;
pub mod withdrawal;
pub mod document;
pub mod custody;
pub mod report;
pub mod access;
pub mod dependency_dag;
