//! A ledger-deposit accounting service: a custody account holds a running
//! total of deposited value, a deposit gateway validates each deposit
//! request, moves value from the requester into custody, credits the total
//! with overflow-checked arithmetic, and appends an audit record to a
//! bounded append-only log — all as one atomic, all-or-nothing operation.

pub mod audit;
pub mod balances;
pub mod custody;
pub mod errors;
pub mod gateway;
