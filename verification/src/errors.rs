//! The error taxonomy of the deposit service. Every failure is reported to
//! the immediate caller as a value of this enum; no error is retried or
//! swallowed, and every failure leaves the custody total, the balances and
//! the audit log exactly as they were before the call began.

use vstd::prelude::*;

verus! {

/// Why a custody or deposit operation failed.
#[derive(Clone, Copy, Debug, PartialEq, Eq, Structural)]
pub enum DepositError {
    /// `initialize_custody` was called on a gateway whose custody account
    /// already exists; initialization is a one-time setup.
    AlreadyInitialized,
    /// The requested amount is out of policy (zero).
    InvalidAmount,
    /// The requester's balance cannot cover the requested amount.
    InsufficientFunds,
    /// Crediting the amount would exceed the representable 64-bit capacity,
    /// either of the custody total or of the receiving balance.
    Overflow,
    /// The audit log is at capacity and rejected the record; the whole
    /// deposit is rolled back.
    AuditAppendFailed,
    /// The requester lacks authority to initiate the transfer. Reserved for
    /// forward compatibility; no operation of this crate produces it.
    Unauthorized,
}

} // verus!
