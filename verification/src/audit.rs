//! The audit log: an append-only record of every committed deposit, with a
//! fixed capacity chosen at construction. Appending at capacity fails
//! discretely — the record is rejected whole and the log is unchanged.
//! Records are ordered by append sequence; a successful append returns the
//! record's sequence number.

use vstd::prelude::*;

use crate::errors::DepositError;

verus! {

/// One committed deposit: who sent the value, who it is destined for, and
/// how much was moved.
#[derive(Clone, Copy, Debug, PartialEq, Eq, Structural)]
pub struct AuditRecord {
    pub from: u64,
    pub to: u64,
    pub amount: u64,
}

/// The bounded append-only log of audit records.
pub struct AuditLog {
    records: Vec<AuditRecord>,
    capacity: usize,
}

impl View for AuditLog {
    type V = Seq<AuditRecord>;

    closed spec fn view(&self) -> Seq<AuditRecord> {
        self.records@
    }
}

impl AuditLog {
    /// The most records the log will ever accept.
    pub closed spec fn capacity(self) -> usize {
        self.capacity
    }

    /// An empty log that will accept up to `capacity` records.
    pub fn new(capacity: usize) -> (log: AuditLog)
        ensures
            log@ == Seq::<AuditRecord>::empty(),
            log.capacity() == capacity,
    {
        AuditLog { records: Vec::new(), capacity }
    }

    /// How many records have been appended.
    pub fn len(&self) -> (n: usize)
        ensures
            n == self@.len(),
    {
        self.records.len()
    }

    /// Reads the maximum number of records.
    pub fn max_records(&self) -> (n: usize)
        ensures
            n == self.capacity(),
    {
        self.capacity
    }

    /// Appends `record` and returns its sequence number (records are
    /// numbered from zero in append order). Fails with `AuditAppendFailed`,
    /// leaving the log unchanged, exactly when the log is at capacity.
    pub fn append(&mut self, record: AuditRecord) -> (result: Result<usize, DepositError>)
        ensures
            final(self).capacity() == old(self).capacity(),
            match result {
                Ok(sequence) => {
                    &&& old(self)@.len() < old(self).capacity()
                    &&& sequence == old(self)@.len()
                    &&& final(self)@ == old(self)@.push(record)
                },
                Err(e) => {
                    &&& e == DepositError::AuditAppendFailed
                    &&& old(self)@.len() >= old(self).capacity()
                    &&& final(self)@ == old(self)@
                },
            },
    {
        if self.records.len() >= self.capacity {
            return Err(DepositError::AuditAppendFailed);
        }
        let sequence = self.records.len();
        self.records.push(record);
        Ok(sequence)
    }

    /// Reads the record with sequence number `sequence`.
    pub fn record_at(&self, sequence: usize) -> (record: AuditRecord)
        requires
            sequence < self@.len(),
        ensures
            record == self@[sequence as int],
    {
        self.records[sequence]
    }

    /// Reads the most recently appended record.
    pub fn last(&self) -> (record: AuditRecord)
        requires
            self@.len() > 0,
        ensures
            record == self@.last(),
    {
        self.records[self.records.len() - 1]
    }
}

} // verus!
