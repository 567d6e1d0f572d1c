//! The deposit gateway: validates a deposit request, moves value from the
//! requester into the custody account's holdings, credits the running total
//! with overflow-checked arithmetic, and appends an audit record — as one
//! atomic unit of work. Every precondition of the three effects is checked
//! before the first effect is applied, so either all three effects are
//! visible after a call or none is; no intermediate state is ever
//! observable.

use vstd::prelude::*;

use crate::audit::AuditLog;
use crate::audit::AuditRecord;
use crate::balances::Balances;
use crate::custody::CustodyAccount;
use crate::errors::DepositError;

verus! {

/// Orchestrates one deposit: `requester` sends `amount` into the custody
/// account's holdings (held under the well-known key `custody_key`), the
/// custody total is credited, and the record `{requester, to, amount}` is
/// appended to the audit log.
///
/// Exactly one error is possible for each way a request can fail, checked
/// in this order: a zero amount is `InvalidAmount`; a requester balance
/// below `amount` is `InsufficientFunds`; a credit that would wrap either
/// the custody holdings or the custody total is `Overflow`; an audit log at
/// capacity is `AuditAppendFailed`. On every failure the balances, the
/// custody total and the audit log are all left exactly as they were.
pub fn process_deposit(
    requester: u64,
    to: u64,
    amount: u64,
    custody_account: &mut CustodyAccount,
    balances: &mut Balances,
    audit: &mut AuditLog,
    custody_key: u64,
) -> (result: Result<(), DepositError>)
    ensures
        final(audit).capacity() == old(audit).capacity(),
        match result {
            Ok(()) => {
                &&& amount > 0
                &&& old(balances).balance_of(requester) >= amount
                &&& requester != custody_key ==> old(balances).balance_of(custody_key) + amount
                    <= u64::MAX
                &&& old(custody_account).total_deposits + amount <= u64::MAX
                &&& old(audit)@.len() < old(audit).capacity()
                &&& final(custody_account).total_deposits == old(custody_account).total_deposits
                    + amount
                &&& final(audit)@ == old(audit)@.push(
                    AuditRecord { from: requester, to, amount },
                )
                &&& if requester == custody_key {
                    forall|p: u64| final(balances).balance_of(p) == old(balances).balance_of(p)
                } else {
                    &&& final(balances).balance_of(requester) == old(balances).balance_of(
                        requester,
                    ) - amount
                    &&& final(balances).balance_of(custody_key) == old(balances).balance_of(
                        custody_key,
                    ) + amount
                    &&& forall|p: u64|
                        p != requester && p != custody_key ==> final(balances).balance_of(p) == old(
                            balances,
                        ).balance_of(p)
                }
            },
            Err(e) => {
                &&& final(custody_account).total_deposits == old(custody_account).total_deposits
                &&& final(balances)@ == old(balances)@
                &&& final(audit)@ == old(audit)@
                &&& match e {
                    DepositError::InvalidAmount => amount == 0,
                    DepositError::InsufficientFunds => amount > 0 && old(balances).balance_of(
                        requester,
                    ) < amount,
                    DepositError::Overflow => {
                        &&& amount > 0
                        &&& old(balances).balance_of(requester) >= amount
                        &&& (requester != custody_key && old(balances).balance_of(custody_key)
                            + amount > u64::MAX) || old(custody_account).total_deposits + amount
                            > u64::MAX
                    },
                    DepositError::AuditAppendFailed => {
                        &&& amount > 0
                        &&& old(balances).balance_of(requester) >= amount
                        &&& requester != custody_key ==> old(balances).balance_of(custody_key)
                            + amount <= u64::MAX
                        &&& old(custody_account).total_deposits + amount <= u64::MAX
                        &&& old(audit)@.len() >= old(audit).capacity()
                    },
                    _ => false,
                }
            },
        },
{
    if amount == 0 {
        return Err(DepositError::InvalidAmount);
    }
    let requester_balance = balances.balance(requester);
    if requester_balance < amount {
        return Err(DepositError::InsufficientFunds);
    }
    if requester != custody_key {
        let custody_balance = balances.balance(custody_key);
        if custody_balance > u64::MAX - amount {
            return Err(DepositError::Overflow);
        }
    }
    if custody_account.total_deposits > u64::MAX - amount {
        return Err(DepositError::Overflow);
    }
    if audit.len() >= audit.max_records() {
        return Err(DepositError::AuditAppendFailed);
    }
    // Every failure condition has been ruled out: the three effects below
    // are proved to succeed, so the unit of work commits as a whole.
    match balances.transfer(requester, custody_key, amount) {
        Ok(()) => {},
        Err(e) => {
            return Err(e);
        },
    }
    match custody_account.credit(amount) {
        Ok(()) => {},
        Err(e) => {
            return Err(e);
        },
    }
    match audit.append(AuditRecord { from: requester, to, amount }) {
        Ok(_) => {},
        Err(e) => {
            return Err(e);
        },
    }
    Ok(())
}

/// The deposit service: one custody account per deployment, looked up under
/// a well-known key, together with the balances ledger it draws from and
/// the audit log it appends to.
pub struct DepositGateway {
    custody: Option<CustodyAccount>,
    balances: Balances,
    audit: AuditLog,
    custody_key: u64,
}

impl DepositGateway {
    /// Whether the custody account has been created.
    pub closed spec fn is_initialized(self) -> bool {
        self.custody is Some
    }

    /// The running total of all credited deposits (zero before
    /// initialization).
    pub closed spec fn total_deposits(self) -> u64 {
        match self.custody {
            Some(account) => account.total_deposits,
            None => 0,
        }
    }

    /// The balance principal `p` holds in the gateway's ledger.
    pub closed spec fn balance_of(self, p: u64) -> u64 {
        self.balances.balance_of(p)
    }

    /// The audit records committed so far, in append order.
    pub closed spec fn audit_log(self) -> Seq<AuditRecord> {
        self.audit@
    }

    /// The most records the audit log will accept.
    pub closed spec fn audit_capacity(self) -> usize {
        self.audit.capacity()
    }

    /// The well-known key under which the custody holdings are kept.
    pub closed spec fn custody_key(self) -> u64 {
        self.custody_key
    }

    /// The parts of the gateway that no deposit may move: the custody key
    /// and the audit log's capacity.
    pub open spec fn same_deployment(self, other: DepositGateway) -> bool {
        &&& other.custody_key() == self.custody_key()
        &&& other.audit_capacity() == self.audit_capacity()
    }

    /// No observable state differs between `self` and `other`: every
    /// failure of an operation leaves the gateway in this relation to its
    /// pre-call state.
    pub open spec fn same_state(self, other: DepositGateway) -> bool {
        &&& self.same_deployment(other)
        &&& other.is_initialized() == self.is_initialized()
        &&& other.total_deposits() == self.total_deposits()
        &&& other.audit_log() == self.audit_log()
        &&& forall|p: u64| other.balance_of(p) == self.balance_of(p)
    }

    /// A gateway for a fresh deployment: custody not yet created, every
    /// balance zero, audit log empty with the given capacity.
    pub fn new(custody_key: u64, audit_capacity: usize) -> (gateway: DepositGateway)
        ensures
            !gateway.is_initialized(),
            gateway.total_deposits() == 0,
            gateway.audit_log() == Seq::<AuditRecord>::empty(),
            gateway.audit_capacity() == audit_capacity,
            gateway.custody_key() == custody_key,
            forall|p: u64| gateway.balance_of(p) == 0,
    {
        DepositGateway {
            custody: None,
            balances: Balances::new(),
            audit: AuditLog::new(audit_capacity),
            custody_key,
        }
    }

    /// Creates the custody account with a total of zero. A second call
    /// fails with `AlreadyInitialized` and changes nothing: initialization
    /// is not idempotent, it is a one-time setup.
    pub fn initialize_custody(&mut self) -> (result: Result<(), DepositError>)
        ensures
            old(self).same_deployment(*final(self)),
            final(self).audit_log() == old(self).audit_log(),
            forall|p: u64| final(self).balance_of(p) == old(self).balance_of(p),
            match result {
                Ok(()) => {
                    &&& !old(self).is_initialized()
                    &&& final(self).is_initialized()
                    &&& final(self).total_deposits() == 0
                },
                Err(e) => {
                    &&& e == DepositError::AlreadyInitialized
                    &&& old(self).is_initialized()
                    &&& old(self).same_state(*final(self))
                },
            },
    {
        match &self.custody {
            Some(_) => Err(DepositError::AlreadyInitialized),
            None => {
                self.custody = Some(CustodyAccount::initialize());
                Ok(())
            },
        }
    }

    /// Accepts one deposit: `from` sends `amount` into custody, the total
    /// is credited, and `{from, to, amount}` is appended to the audit log —
    /// all three effects or none, as `process_deposit` promises.
    pub fn deposit(&mut self, from: u64, to: u64, amount: u64) -> (result: Result<
        (),
        DepositError,
    >)
        requires
            old(self).is_initialized(),
        ensures
            old(self).same_deployment(*final(self)),
            final(self).is_initialized(),
            match result {
                Ok(()) => {
                    &&& amount > 0
                    &&& old(self).balance_of(from) >= amount
                    &&& from != old(self).custody_key() ==> old(self).balance_of(
                        old(self).custody_key(),
                    ) + amount <= u64::MAX
                    &&& old(self).total_deposits() + amount <= u64::MAX
                    &&& old(self).audit_log().len() < old(self).audit_capacity()
                    &&& final(self).total_deposits() == old(self).total_deposits() + amount
                    &&& final(self).audit_log() == old(self).audit_log().push(
                        AuditRecord { from, to, amount },
                    )
                    &&& if from == old(self).custody_key() {
                        forall|p: u64| final(self).balance_of(p) == old(self).balance_of(p)
                    } else {
                        &&& final(self).balance_of(from) == old(self).balance_of(from) - amount
                        &&& final(self).balance_of(old(self).custody_key()) == old(
                            self,
                        ).balance_of(old(self).custody_key()) + amount
                        &&& forall|p: u64|
                            p != from && p != old(self).custody_key() ==> final(self).balance_of(
                                p,
                            ) == old(self).balance_of(p)
                    }
                },
                Err(e) => {
                    &&& old(self).same_state(*final(self))
                    &&& match e {
                        DepositError::InvalidAmount => amount == 0,
                        DepositError::InsufficientFunds => amount > 0 && old(self).balance_of(from)
                            < amount,
                        DepositError::Overflow => {
                            &&& amount > 0
                            &&& old(self).balance_of(from) >= amount
                            &&& (from != old(self).custody_key() && old(self).balance_of(
                                old(self).custody_key(),
                            ) + amount > u64::MAX) || old(self).total_deposits() + amount
                                > u64::MAX
                        },
                        DepositError::AuditAppendFailed => {
                            &&& amount > 0
                            &&& old(self).balance_of(from) >= amount
                            &&& from != old(self).custody_key() ==> old(self).balance_of(
                                old(self).custody_key(),
                            ) + amount <= u64::MAX
                            &&& old(self).total_deposits() + amount <= u64::MAX
                            &&& old(self).audit_log().len() >= old(self).audit_capacity()
                        },
                        _ => false,
                    }
                },
            },
    {
        let custody_key = self.custody_key;
        match &mut self.custody {
            Some(account) => process_deposit(
                from,
                to,
                amount,
                account,
                &mut self.balances,
                &mut self.audit,
                custody_key,
            ),
            None => Err(DepositError::Unauthorized),
        }
    }

    /// Reads whether the custody account exists yet.
    pub fn initialized(&self) -> (yes: bool)
        ensures
            yes == self.is_initialized(),
    {
        match &self.custody {
            Some(_) => true,
            None => false,
        }
    }

    /// Reads the running custody total.
    pub fn custody_total(&self) -> (total: u64)
        ensures
            total == self.total_deposits(),
    {
        match &self.custody {
            Some(account) => account.total_deposits,
            None => 0,
        }
    }

    /// Reads principal `p`'s balance.
    pub fn balance(&self, p: u64) -> (value: u64)
        ensures
            value == self.balance_of(p),
    {
        self.balances.balance(p)
    }

    /// Sets principal `p`'s balance — the hook by which the host
    /// environment funds accounts; deposits themselves never use it.
    pub fn set_balance(&mut self, p: u64, value: u64)
        ensures
            old(self).same_deployment(*final(self)),
            final(self).is_initialized() == old(self).is_initialized(),
            final(self).total_deposits() == old(self).total_deposits(),
            final(self).audit_log() == old(self).audit_log(),
            final(self).balance_of(p) == value,
            forall|q: u64| q != p ==> final(self).balance_of(q) == old(self).balance_of(q),
    {
        self.balances.set_balance(p, value);
    }

    /// Reads how many audit records have been committed.
    pub fn audit_len(&self) -> (n: usize)
        ensures
            n == self.audit_log().len(),
    {
        self.audit.len()
    }

    /// Reads the audit record with sequence number `sequence`.
    pub fn audit_record(&self, sequence: usize) -> (record: AuditRecord)
        requires
            sequence < self.audit_log().len(),
        ensures
            record == self.audit_log()[sequence as int],
    {
        self.audit.record_at(sequence)
    }

    /// Reads the most recently committed audit record.
    pub fn last_audit_record(&self) -> (record: AuditRecord)
        requires
            self.audit_log().len() > 0,
        ensures
            record == self.audit_log().last(),
    {
        self.audit.last()
    }
}

} // verus!
