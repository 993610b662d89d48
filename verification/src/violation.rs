//! Append-only audit record of rejected spend attempts.

use vstd::prelude::*;

verus! {

/// Which spend ceiling a rejected attempt ran against.
#[derive(Clone, Copy, Debug, PartialEq, Eq, Structural)]
pub enum SpendViolationType {
    DailyLimit,
    MonthlyLimit,
    TransactionLimit,
    CategoryLimit,
}

/// Review state of a recorded violation. A violation is written once with
/// status `Open`; advancing the status is an external review operation.
#[derive(Clone, Copy, Debug, PartialEq, Eq, Structural)]
pub enum ViolationStatus {
    Open,
    UnderReview,
    Resolved,
    Dismissed,
}

/// One rejected spend attempt, written once at rejection time.
#[derive(Clone, Copy, Debug, PartialEq, Eq, Structural)]
pub struct SpendViolation {
    /// The user whose attempt was rejected.
    pub user: u64,
    /// Identity of the spend limit that rejected the attempt.
    pub limit_ref: u64,
    /// The amount the user tried to spend.
    pub attempted_amount: u64,
    /// The ceiling the attempt was measured against.
    pub limit_amount: u64,
    /// How far the attempt exceeded the ceiling, clamped at zero.
    pub excess_amount: u64,
    pub violation_type: SpendViolationType,
    pub occurred_at: u64,
    pub status: ViolationStatus,
}

/// Append-only log of spend violations.
pub struct ViolationLog {
    pub entries: Vec<SpendViolation>,
}

/// The violation that recording an attempt appends: `excess_amount` is
/// `attempted_amount - limit_amount` clamped at zero, and the entry opens
/// in status `Open`.
pub open spec fn spec_violation(
    user: u64,
    limit_ref: u64,
    attempted_amount: u64,
    limit_amount: u64,
    violation_type: SpendViolationType,
    now: u64,
) -> SpendViolation {
    SpendViolation {
        user,
        limit_ref,
        attempted_amount,
        limit_amount,
        excess_amount: if attempted_amount >= limit_amount {
            (attempted_amount - limit_amount) as u64
        } else {
            0u64
        },
        violation_type,
        occurred_at: now,
        status: ViolationStatus::Open,
    }
}

impl ViolationLog {
    pub fn new() -> (log: ViolationLog)
        ensures
            log.entries@ =~= Seq::<SpendViolation>::empty(),
    {
        ViolationLog { entries: Vec::new() }
    }

    /// Append one rejected attempt. The log is append-only: every entry
    /// already present is kept, unchanged and in place.
    pub fn record(
        &mut self,
        user: u64,
        limit_ref: u64,
        attempted_amount: u64,
        limit_amount: u64,
        violation_type: SpendViolationType,
        now: u64,
    ) -> (v: SpendViolation)
        ensures
            v == spec_violation(user, limit_ref, attempted_amount, limit_amount, violation_type, now),
            final(self).entries@ == old(self).entries@.push(v),
    {
        let excess: u64 = if attempted_amount >= limit_amount {
            attempted_amount - limit_amount
        } else {
            0
        };
        let v = SpendViolation {
            user,
            limit_ref,
            attempted_amount,
            limit_amount,
            excess_amount: excess,
            violation_type,
            occurred_at: now,
            status: ViolationStatus::Open,
        };
        self.entries.push(v);
        v
    }

    /// How many violations have been recorded.
    pub fn len(&self) -> (n: usize)
        ensures
            n == self.entries@.len(),
    {
        self.entries.len()
    }
}

} // verus!
