//! Dual-provider treasury ledger: per-owner balances held with two
//! interchangeable settlement providers, credited by settled payments and
//! rebalanced by inter-provider swaps.

use vstd::prelude::*;
use crate::errors::LedgerError;

verus! {

/// One of the two settlement providers a balance can sit with.
#[derive(Clone, Copy, Debug, PartialEq, Eq, Structural)]
pub enum Provider {
    /// The primary, low-latency channel.
    Fast,
    /// The secondary channel, kept for reliability.
    Fallback,
}

/// A per-owner treasury account.
#[derive(Clone, Copy, Debug, PartialEq, Eq, Structural)]
pub struct TreasuryAccount {
    pub owner: u64,
    pub fast_balance: u64,
    pub fallback_balance: u64,
    pub total_invoices_issued: u64,
}

impl TreasuryAccount {
    /// The value held across both providers.
    pub open spec fn total(self) -> int {
        self.fast_balance + self.fallback_balance
    }

    /// The combined holdings always fit in one balance word, so a swap can
    /// never overflow the balance it credits.
    pub open spec fn wf(self) -> bool {
        self.total() <= u64::MAX
    }

    /// Decide `wf`, for hosts that must test it on data they did not
    /// build themselves.
    pub fn is_well_formed(&self) -> (b: bool)
        ensures
            b == self.wf(),
    {
        self.fast_balance <= u64::MAX - self.fallback_balance
    }

    /// The balance sitting with `provider`.
    pub open spec fn spec_balance(self, provider: Provider) -> u64 {
        match provider {
            Provider::Fast => self.fast_balance,
            Provider::Fallback => self.fallback_balance,
        }
    }

    /// Open an empty treasury for `owner`.
    pub fn new(owner: u64) -> (t: TreasuryAccount)
        ensures
            t == (TreasuryAccount {
                owner,
                fast_balance: 0u64,
                fallback_balance: 0u64,
                total_invoices_issued: 0u64,
            }),
            t.wf(),
    {
        TreasuryAccount { owner, fast_balance: 0, fallback_balance: 0, total_invoices_issued: 0 }
    }

    /// Read the balance sitting with `provider`.
    pub fn balance(&self, provider: Provider) -> (b: u64)
        ensures
            b == self.spec_balance(provider),
    {
        match provider {
            Provider::Fast => self.fast_balance,
            Provider::Fallback => self.fallback_balance,
        }
    }

    /// The account as it stands after crediting `amount` to `provider`.
    pub open spec fn spec_credit(self, provider: Provider, amount: u64) -> TreasuryAccount {
        match provider {
            Provider::Fast => TreasuryAccount {
                fast_balance: (self.fast_balance + amount) as u64,
                ..self
            },
            Provider::Fallback => TreasuryAccount {
                fallback_balance: (self.fallback_balance + amount) as u64,
                ..self
            },
        }
    }

    /// Credit a settled amount to exactly one provider's balance. This is
    /// the only operation that increases the combined holdings.
    pub fn credit(&mut self, provider: Provider, amount: u64)
        requires
            old(self).wf(),
            old(self).total() + amount <= u64::MAX,
        ensures
            *final(self) == old(self).spec_credit(provider, amount),
            final(self).spec_balance(provider) == old(self).spec_balance(provider) + amount,
            final(self).spec_balance(other(provider)) == old(self).spec_balance(other(provider)),
            final(self).total() == old(self).total() + amount,
            final(self).owner == old(self).owner,
            final(self).total_invoices_issued == old(self).total_invoices_issued,
            final(self).wf(),
    {
        match provider {
            Provider::Fast => {
                self.fast_balance = self.fast_balance + amount;
            }
            Provider::Fallback => {
                self.fallback_balance = self.fallback_balance + amount;
            }
        }
    }

    /// Move `amount` from one provider's balance to the other's.
    ///
    /// Fails with `InvalidSwap` when both providers are the same and with
    /// `InsufficientBalance` when the source balance cannot cover the
    /// amount; either failure leaves the account unchanged. A successful
    /// swap conserves the combined holdings exactly.
    pub fn swap_treasury_balance(
        &mut self,
        from: Provider,
        to: Provider,
        amount: u64,
    ) -> (r: Result<(), LedgerError>)
        requires
            old(self).wf(),
        ensures
            from == to ==> r == Err::<(), LedgerError>(LedgerError::InvalidSwap),
            from != to && old(self).spec_balance(from) < amount ==> r == Err::<(), LedgerError>(
                LedgerError::InsufficientBalance,
            ),
            from != to && old(self).spec_balance(from) >= amount ==> r == Ok::<(), LedgerError>(()),
            r is Err ==> *final(self) == *old(self),
            r is Ok ==> final(self).spec_balance(from) == old(self).spec_balance(from) - amount
                && final(self).spec_balance(to) == old(self).spec_balance(to) + amount,
            final(self).total() == old(self).total(),
            final(self).owner == old(self).owner,
            final(self).total_invoices_issued == old(self).total_invoices_issued,
            final(self).wf(),
    {
        match (from, to) {
            (Provider::Fast, Provider::Fallback) => {
                if self.fast_balance < amount {
                    return Err(LedgerError::InsufficientBalance);
                }
                self.fast_balance = self.fast_balance - amount;
                self.fallback_balance = self.fallback_balance + amount;
                Ok(())
            }
            (Provider::Fallback, Provider::Fast) => {
                if self.fallback_balance < amount {
                    return Err(LedgerError::InsufficientBalance);
                }
                self.fallback_balance = self.fallback_balance - amount;
                self.fast_balance = self.fast_balance + amount;
                Ok(())
            }
            _ => Err(LedgerError::InvalidSwap),
        }
    }

    /// Count one more invoice issued against this treasury.
    pub fn record_issued(&mut self)
        requires
            old(self).total_invoices_issued < u64::MAX,
        ensures
            *final(self) == (TreasuryAccount {
                total_invoices_issued: (old(self).total_invoices_issued + 1) as u64,
                ..*old(self)
            }),
    {
        self.total_invoices_issued = self.total_invoices_issued + 1;
    }
}

/// The provider that is not `p`.
pub open spec fn other(p: Provider) -> Provider {
    match p {
        Provider::Fast => Provider::Fallback,
        Provider::Fallback => Provider::Fast,
    }
}

} // verus!
