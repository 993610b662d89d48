//! Rolling spend-limit tracker: per-user daily/monthly/per-transaction
//! ceilings with lazily reset window counters.
//!
//! Buckets are fixed windows computed as `now / 86400` (a day) and
//! `now / (86400 * 30)` (a thirty-day block, not a calendar month; this
//! exact arithmetic is kept deliberately). A counter whose stored bucket is
//! behind the current one is treated as zero before any comparison, and is
//! zeroed before any addition.

use vstd::prelude::*;
use crate::violation::SpendViolationType;

verus! {

/// Seconds in one day bucket.
pub const SECONDS_PER_DAY: u64 = 86400;

/// Seconds in one thirty-day month bucket.
pub const SECONDS_PER_MONTH: u64 = 86400 * 30;

/// The outcome of checking an attempt against a spend limit.
#[derive(Clone, Copy, Debug, PartialEq, Eq, Structural)]
pub enum Decision {
    Allow,
    Deny(SpendViolationType),
}

/// Per-user spend ceilings and rolling counters. The counters are only
/// meaningful relative to their stored bucket indices.
#[derive(Clone, Copy, Debug, PartialEq, Eq, Structural)]
pub struct SpendLimit {
    pub user: u64,
    pub daily_limit: u64,
    pub monthly_limit: u64,
    pub transaction_limit: u64,
    pub daily_spent: u64,
    pub monthly_spent: u64,
    pub last_reset_day: u64,
    pub last_reset_month: u64,
    /// An inactive limit enforces nothing.
    pub is_active: bool,
}

/// The day bucket that `now` falls in.
pub open spec fn day_of(now: u64) -> u64 {
    now / 86400
}

/// The thirty-day month bucket that `now` falls in.
pub open spec fn month_of(now: u64) -> u64 {
    now / 2592000
}

impl SpendLimit {
    /// The daily counter as it stands at `now`: zero once the day bucket
    /// has advanced past the stored one.
    pub open spec fn effective_daily_spent(self, now: u64) -> u64 {
        if day_of(now) > self.last_reset_day {
            0u64
        } else {
            self.daily_spent
        }
    }

    /// The monthly counter as it stands at `now`.
    pub open spec fn effective_monthly_spent(self, now: u64) -> u64 {
        if month_of(now) > self.last_reset_month {
            0u64
        } else {
            self.monthly_spent
        }
    }

    /// The authorization decision for spending `amount` at `now`. Checks
    /// short-circuit in a fixed order, first failing check wins: an
    /// inactive limit allows everything; then the per-transaction ceiling;
    /// then the daily ceiling against the effective daily counter; then the
    /// monthly ceiling against the effective monthly counter.
    pub open spec fn spec_authorize(self, amount: u64, now: u64) -> Decision {
        if !self.is_active {
            Decision::Allow
        } else if amount > self.transaction_limit {
            Decision::Deny(SpendViolationType::TransactionLimit)
        } else if self.effective_daily_spent(now) + amount > self.daily_limit {
            Decision::Deny(SpendViolationType::DailyLimit)
        } else if self.effective_monthly_spent(now) + amount > self.monthly_limit {
            Decision::Deny(SpendViolationType::MonthlyLimit)
        } else {
            Decision::Allow
        }
    }

    /// The limit as it stands after committing `amount` at `now`: stale
    /// buckets are rolled forward and zeroed, then `amount` is added to
    /// both counters.
    pub open spec fn spec_commit(self, amount: u64, now: u64) -> SpendLimit {
        let rolled = SpendLimit {
            daily_spent: self.effective_daily_spent(now),
            monthly_spent: self.effective_monthly_spent(now),
            last_reset_day: if day_of(now) > self.last_reset_day {
                day_of(now)
            } else {
                self.last_reset_day
            },
            last_reset_month: if month_of(now) > self.last_reset_month {
                month_of(now)
            } else {
                self.last_reset_month
            },
            ..self
        };
        SpendLimit {
            daily_spent: (rolled.daily_spent + amount) as u64,
            monthly_spent: (rolled.monthly_spent + amount) as u64,
            ..rolled
        }
    }

    /// Check an attempt against this limit. Pure: mutates nothing.
    pub fn authorize(&self, amount: u64, now: u64) -> (d: Decision)
        ensures
            d == self.spec_authorize(amount, now),
    {
        if !self.is_active {
            return Decision::Allow;
        }
        if amount > self.transaction_limit {
            return Decision::Deny(SpendViolationType::TransactionLimit);
        }
        let current_day = now / SECONDS_PER_DAY;
        let daily_spent: u64 = if current_day > self.last_reset_day {
            0
        } else {
            self.daily_spent
        };
        if amount > self.daily_limit || daily_spent > self.daily_limit - amount {
            return Decision::Deny(SpendViolationType::DailyLimit);
        }
        let current_month = now / SECONDS_PER_MONTH;
        let monthly_spent: u64 = if current_month > self.last_reset_month {
            0
        } else {
            self.monthly_spent
        };
        if amount > self.monthly_limit || monthly_spent > self.monthly_limit - amount {
            return Decision::Deny(SpendViolationType::MonthlyLimit);
        }
        Decision::Allow
    }

    /// Commit an authorized spend: roll stale buckets forward, zeroing
    /// their counters, then add `amount` to both counters.
    ///
    /// This must only follow a successful `authorize` for the same
    /// `(amount, now)`, with no other commit against this limit in
    /// between; a host treats the pair as one critical section. (Holding
    /// the limit exclusively across both calls is exactly that.) The two
    /// arithmetic bounds are implied by the authorization whenever the
    /// limit is active.
    pub fn commit(&mut self, amount: u64, now: u64)
        requires
            old(self).spec_authorize(amount, now) is Allow,
            old(self).effective_daily_spent(now) + amount <= u64::MAX,
            old(self).effective_monthly_spent(now) + amount <= u64::MAX,
        ensures
            *final(self) == old(self).spec_commit(amount, now),
            final(self).last_reset_day == day_of(now) || final(self).last_reset_day
                == old(self).last_reset_day,
            final(self).daily_spent == old(self).effective_daily_spent(now) + amount,
            final(self).monthly_spent == old(self).effective_monthly_spent(now) + amount,
            final(self).user == old(self).user,
            final(self).is_active == old(self).is_active,
    {
        let current_day = now / SECONDS_PER_DAY;
        let current_month = now / SECONDS_PER_MONTH;
        if current_day > self.last_reset_day {
            self.daily_spent = 0;
            self.last_reset_day = current_day;
        }
        if current_month > self.last_reset_month {
            self.monthly_spent = 0;
            self.last_reset_month = current_month;
        }
        self.daily_spent = self.daily_spent + amount;
        self.monthly_spent = self.monthly_spent + amount;
    }
}

/// Install spend ceilings for a user: counters start at zero and both
/// bucket indices start at the buckets that `now` falls in.
pub fn set_spend_limits(
    user: u64,
    daily_limit: u64,
    monthly_limit: u64,
    transaction_limit: u64,
    now: u64,
) -> (l: SpendLimit)
    ensures
        l == (SpendLimit {
            user,
            daily_limit,
            monthly_limit,
            transaction_limit,
            daily_spent: 0u64,
            monthly_spent: 0u64,
            last_reset_day: day_of(now),
            last_reset_month: month_of(now),
            is_active: true,
        }),
{
    SpendLimit {
        user,
        daily_limit,
        monthly_limit,
        transaction_limit,
        daily_spent: 0,
        monthly_spent: 0,
        last_reset_day: now / SECONDS_PER_DAY,
        last_reset_month: now / SECONDS_PER_MONTH,
        is_active: true,
    }
}

} // verus!
