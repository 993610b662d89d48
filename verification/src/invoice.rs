//! Invoice lifecycle state machine: created pending, mutated only by
//! applying payments, terminal once paid or cancelled. Overpayment is kept
//! as customer credit, never refunded automatically. `Overdue` is a derived
//! read-time classification, not a stored transition.

use vstd::prelude::*;
use crate::errors::LedgerError;

verus! {

/// Lifecycle state of an invoice. `Paid` and `Cancelled` are terminal.
#[derive(Clone, Copy, Debug, PartialEq, Eq, Structural)]
pub enum InvoiceStatus {
    Pending,
    PartiallyPaid,
    Paid,
    Overdue,
    Cancelled,
}

/// A tokenized invoice, identified by issuer, recipient and a monotonic
/// invoice number.
#[derive(Clone, Copy, Debug, PartialEq, Eq)]
pub struct Invoice {
    pub issuer: u64,
    pub recipient: u64,
    pub invoice_number: u64,
    /// Face value of the invoice.
    pub amount: u64,
    /// Everything paid against the invoice so far.
    pub paid_amount: u64,
    /// The part of `paid_amount` beyond the face value, carried as credit.
    pub customer_credit: u64,
    pub due_date: u64,
    pub created_at: u64,
    /// When the invoice became fully paid.
    pub paid_at: Option<u64>,
    /// When the latest partial payment landed.
    pub last_payment_at: Option<u64>,
    pub status: InvoiceStatus,
    /// Whether anyone, not just the recipient, may pay this invoice.
    pub allow_anyone_to_pay: bool,
}

impl Invoice {
    /// Structural soundness of an invoice: a positive face value, a status
    /// that matches what has been paid, credit equal to the overpayment
    /// clamped at zero, and `Overdue` never stored (it is derived at read
    /// time by `status_at`).
    pub open spec fn wf(self) -> bool {
        &&& self.amount > 0
        &&& self.status is Paid ==> self.paid_amount >= self.amount
        &&& self.status is PartiallyPaid ==> 0 < self.paid_amount < self.amount
        &&& self.status is Pending ==> self.paid_amount == 0
        &&& !(self.status is Overdue)
        &&& self.customer_credit == if self.paid_amount >= self.amount {
            self.paid_amount - self.amount
        } else {
            0
        }
    }

    /// Decide `wf`, for hosts that must test it on data they did not
    /// build themselves.
    pub fn is_well_formed(&self) -> (b: bool)
        ensures
            b == self.wf(),
    {
        if self.amount == 0 {
            return false;
        }
        let status_ok = match self.status {
            InvoiceStatus::Paid => self.paid_amount >= self.amount,
            InvoiceStatus::PartiallyPaid => 0 < self.paid_amount && self.paid_amount < self.amount,
            InvoiceStatus::Pending => self.paid_amount == 0,
            InvoiceStatus::Overdue => false,
            InvoiceStatus::Cancelled => true,
        };
        if !status_ok {
            return false;
        }
        let expected_credit: u64 = if self.paid_amount >= self.amount {
            self.paid_amount - self.amount
        } else {
            0
        };
        self.customer_credit == expected_credit
    }

    /// Whether a payment of `amount` would be accepted, and if not, why
    /// not. Checked in a fixed order: a settled invoice first, then a
    /// cancelled one, then a zero amount.
    pub open spec fn spec_payment_check(self, amount: u64) -> Result<u64, LedgerError> {
        if self.status is Paid {
            Err(LedgerError::AlreadyPaid)
        } else if self.status is Cancelled {
            Err(LedgerError::InvalidInvoiceStatus)
        } else if amount == 0 {
            Err(LedgerError::InvalidAmount)
        } else {
            Ok(amount)
        }
    }

    /// The invoice as it stands after a payment of `amount` at `now` is
    /// accepted: the paid total grows by the full amount; reaching the face
    /// value settles the invoice, stamps `paid_at` and books the
    /// overpayment as credit, while falling short marks it partially paid
    /// and stamps `last_payment_at`.
    pub open spec fn spec_apply_payment(self, amount: u64, now: u64) -> Invoice {
        let paid = (self.paid_amount + amount) as u64;
        if paid >= self.amount {
            Invoice {
                paid_amount: paid,
                status: InvoiceStatus::Paid,
                paid_at: Some(now),
                customer_credit: (paid - self.amount) as u64,
                ..self
            }
        } else {
            Invoice {
                paid_amount: paid,
                status: InvoiceStatus::PartiallyPaid,
                last_payment_at: Some(now),
                ..self
            }
        }
    }

    /// Apply a payment. Fails with `AlreadyPaid` on a settled invoice,
    /// `InvalidInvoiceStatus` on a cancelled one and `InvalidAmount` on a
    /// zero amount, each failure leaving every field unchanged. On success
    /// returns the applied amount, which is always the full payment.
    /// Accumulation past the face value is a fatal overflow, never a wrap,
    /// so an accepted payment must fit; rejected ones need not.
    pub fn apply_payment(&mut self, amount: u64, now: u64) -> (r: Result<u64, LedgerError>)
        requires
            old(self).wf(),
            old(self).spec_payment_check(amount) is Ok ==> old(self).paid_amount + amount
                <= u64::MAX,
        ensures
            r == old(self).spec_payment_check(amount),
            r is Err ==> *final(self) == *old(self),
            r is Ok ==> *final(self) == old(self).spec_apply_payment(amount, now),
            final(self).wf(),
            final(self).paid_amount >= old(self).paid_amount,
    {
        if matches!(self.status, InvoiceStatus::Paid) {
            return Err(LedgerError::AlreadyPaid);
        }
        if matches!(self.status, InvoiceStatus::Cancelled) {
            return Err(LedgerError::InvalidInvoiceStatus);
        }
        if amount == 0 {
            return Err(LedgerError::InvalidAmount);
        }
        self.paid_amount = self.paid_amount + amount;
        if self.paid_amount >= self.amount {
            self.status = InvoiceStatus::Paid;
            self.paid_at = Some(now);
            self.customer_credit = self.paid_amount - self.amount;
        } else {
            self.status = InvoiceStatus::PartiallyPaid;
            self.last_payment_at = Some(now);
        }
        Ok(amount)
    }

    /// The read-time classification at `now`: an invoice past its due date
    /// that is neither settled nor cancelled reads as `Overdue`, whatever
    /// partial-payment state it stores.
    pub open spec fn spec_status_at(self, now: u64) -> InvoiceStatus {
        if now > self.due_date && !(self.status is Paid) && !(self.status is Cancelled) {
            InvoiceStatus::Overdue
        } else {
            self.status
        }
    }

    /// Classify the invoice as of `now`. Pure: the stored status is not
    /// touched; `Overdue` can co-occur with a partially paid balance and
    /// goes away again if the due date moves.
    pub fn status_at(&self, now: u64) -> (s: InvoiceStatus)
        ensures
            s == self.spec_status_at(now),
    {
        if now > self.due_date
            && !matches!(self.status, InvoiceStatus::Paid)
            && !matches!(self.status, InvoiceStatus::Cancelled)
        {
            InvoiceStatus::Overdue
        } else {
            self.status
        }
    }
}

/// Issue a new invoice: it starts pending with nothing paid and no credit.
/// Fails with `InvalidAmount` on a zero face value.
pub fn create_invoice(
    issuer: u64,
    recipient: u64,
    invoice_number: u64,
    amount: u64,
    due_date: u64,
    allow_anyone_to_pay: bool,
    now: u64,
) -> (r: Result<Invoice, LedgerError>)
    ensures
        amount == 0 ==> r == Err::<Invoice, LedgerError>(LedgerError::InvalidAmount),
        amount > 0 ==> r == Ok::<Invoice, LedgerError>(Invoice {
            issuer,
            recipient,
            invoice_number,
            amount,
            paid_amount: 0u64,
            customer_credit: 0u64,
            due_date,
            created_at: now,
            paid_at: None,
            last_payment_at: None,
            status: InvoiceStatus::Pending,
            allow_anyone_to_pay,
        }),
        r is Ok ==> r->Ok_0.wf(),
{
    if amount == 0 {
        return Err(LedgerError::InvalidAmount);
    }
    Ok(
        Invoice {
            issuer,
            recipient,
            invoice_number,
            amount,
            paid_amount: 0,
            customer_credit: 0,
            due_date,
            created_at: now,
            paid_at: None,
            last_payment_at: None,
            status: InvoiceStatus::Pending,
            allow_anyone_to_pay,
        },
    )
}

/// The sum of a sequence of payment amounts.
pub open spec fn sum_of(amounts: Seq<u64>) -> int
    decreases amounts.len(),
{
    if amounts.len() == 0 {
        0
    } else {
        amounts[0] + sum_of(amounts.drop_first())
    }
}

/// Whether every payment in `amounts`, applied in order at the matching
/// times, would be accepted without overflowing the paid total.
pub open spec fn all_payments_accepted(inv: Invoice, amounts: Seq<u64>, times: Seq<u64>) -> bool
    decreases amounts.len(),
{
    if amounts.len() == 0 {
        true
    } else {
        &&& inv.spec_payment_check(amounts[0]) is Ok
        &&& inv.paid_amount + amounts[0] <= u64::MAX
        &&& all_payments_accepted(
            inv.spec_apply_payment(amounts[0], times[0]),
            amounts.drop_first(),
            times.drop_first(),
        )
    }
}

/// The invoice after applying every payment in `amounts` in order.
pub open spec fn apply_payments(inv: Invoice, amounts: Seq<u64>, times: Seq<u64>) -> Invoice
    decreases amounts.len(),
{
    if amounts.len() == 0 {
        inv
    } else {
        apply_payments(
            inv.spec_apply_payment(amounts[0], times[0]),
            amounts.drop_first(),
            times.drop_first(),
        )
    }
}

/// Accepted payments accumulate: after any sequence of successful payment
/// applications against one invoice, the paid total equals the starting
/// total plus the sum of the applied amounts, and the invoice stays
/// structurally sound — in particular, whenever it reads `Paid` its paid
/// total covers its face value. Since every prefix of such a sequence is
/// itself such a sequence, the soundness holds at every intermediate state
/// as well.
pub proof fn lemma_payments_accumulate(inv: Invoice, amounts: Seq<u64>, times: Seq<u64>)
    requires
        inv.wf(),
        amounts.len() == times.len(),
        all_payments_accepted(inv, amounts, times),
    ensures
        apply_payments(inv, amounts, times).paid_amount == inv.paid_amount + sum_of(amounts),
        apply_payments(inv, amounts, times).wf(),
    decreases amounts.len(),
{
    if amounts.len() > 0 {
        let next = inv.spec_apply_payment(amounts[0], times[0]);
        assert(next.wf());
        lemma_payments_accumulate(next, amounts.drop_first(), times.drop_first());
    }
}

} // verus!
