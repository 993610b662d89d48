//! The settlement coordinator: composes the KYC gate, the spend-limit
//! tracker, the invoice ledger, the treasury ledger and the violation log
//! into one payment attempt. It owns no state of its own. A payment
//! attempt passes its checks in a fixed order — payer authorization, payer
//! KYC, recipient KYC, spend limits, invoice state — and either settles
//! everything or changes nothing, except that a spend-limit rejection is
//! recorded in the violation log. Attempts are single-pass: a rejected
//! attempt is over, and retrying is the caller's affair.

use vstd::prelude::*;
use crate::errors::LedgerError;
use crate::invoice::Invoice;
use crate::kyc::KycProfile;
use crate::spend::{Decision, SpendLimit};
use crate::treasury::{Provider, TreasuryAccount};
use crate::violation::{SpendViolationType, ViolationLog, spec_violation};

verus! {

/// Whether `payer` may pay this invoice at all: the recipient always may,
/// anyone may if the issuer allowed it.
pub open spec fn payer_authorized(invoice: Invoice, payer: u64) -> bool {
    payer == invoice.recipient || invoice.allow_anyone_to_pay
}

/// The ceiling that a denial of `kind` was measured against.
pub open spec fn ceiling_of(limit: SpendLimit, kind: SpendViolationType) -> u64 {
    match kind {
        SpendViolationType::TransactionLimit => limit.transaction_limit,
        SpendViolationType::DailyLimit => limit.daily_limit,
        SpendViolationType::MonthlyLimit => limit.monthly_limit,
        SpendViolationType::CategoryLimit => 0u64,
    }
}

/// The outcome of a payment attempt, decided from the state before it:
/// the first failing check names the error, and an attempt that passes
/// them all settles the full amount.
pub open spec fn pay_decision(
    invoice: Invoice,
    payer: u64,
    payer_kyc: KycProfile,
    recipient_kyc: Option<KycProfile>,
    limit: SpendLimit,
    amount: u64,
    now: u64,
) -> Result<u64, LedgerError> {
    if !payer_authorized(invoice, payer) {
        Err(LedgerError::Unauthorized)
    } else if !payer_kyc.spec_is_eligible(now) {
        Err(LedgerError::KycNotEligible)
    } else if recipient_kyc matches Some(k) && !k.spec_is_eligible(now) {
        Err(LedgerError::RecipientKycNotEligible)
    } else {
        match limit.spec_authorize(amount, now) {
            Decision::Deny(kind) => Err(LedgerError::SpendLimitExceeded(kind)),
            Decision::Allow => invoice.spec_payment_check(amount),
        }
    }
}

/// The view of an optional recipient profile reference as an optional
/// profile.
pub open spec fn profile_of(p: Option<&KycProfile>) -> Option<KycProfile> {
    match p {
        Some(k) => Some(*k),
        None => None,
    }
}

/// One complete payment attempt against an invoice.
///
/// The checks run in order: payer authorization, payer KYC, recipient KYC
/// (absence of a recipient profile means no check is required), spend
/// limits, invoice state. The first failure decides the error, and every
/// failure leaves the invoice, the spend limit and the treasury untouched;
/// only a spend-limit rejection leaves a trace, one violation appended to
/// the log. On success — and exactly when `pay_decision` says so — the
/// payment is applied to the invoice, the settled amount is credited to
/// the chosen provider's treasury balance, the spend counters are
/// committed, the log is untouched, and the applied amount comes back.
///
/// The arithmetic bounds are demanded only where the attempt would settle:
/// accumulation beyond a counter or balance word is a fatal overflow, and
/// the two counter bounds are implied by authorization whenever the limit
/// is active.
pub fn pay_invoice(
    invoice: &mut Invoice,
    payer: u64,
    payer_kyc: &KycProfile,
    recipient_kyc: Option<&KycProfile>,
    limit: &mut SpendLimit,
    treasury: &mut TreasuryAccount,
    provider: Provider,
    log: &mut ViolationLog,
    amount: u64,
    now: u64,
) -> (r: Result<u64, LedgerError>)
    requires
        old(invoice).wf(),
        old(treasury).wf(),
        pay_decision(
            *old(invoice),
            payer,
            *payer_kyc,
            profile_of(recipient_kyc),
            *old(limit),
            amount,
            now,
        ) is Ok ==> {
            &&& old(invoice).paid_amount + amount <= u64::MAX
            &&& old(treasury).total() + amount <= u64::MAX
            &&& old(limit).effective_daily_spent(now) + amount <= u64::MAX
            &&& old(limit).effective_monthly_spent(now) + amount <= u64::MAX
        },
    ensures
        r == pay_decision(
            *old(invoice),
            payer,
            *payer_kyc,
            profile_of(recipient_kyc),
            *old(limit),
            amount,
            now,
        ),
        r is Ok ==> {
            &&& *final(invoice) == old(invoice).spec_apply_payment(amount, now)
            &&& *final(limit) == old(limit).spec_commit(amount, now)
            &&& *final(treasury) == old(treasury).spec_credit(provider, amount)
            &&& final(log).entries@ == old(log).entries@
        },
        r is Err ==> {
            &&& *final(invoice) == *old(invoice)
            &&& *final(limit) == *old(limit)
            &&& *final(treasury) == *old(treasury)
        },
        (match r {
            Err(LedgerError::SpendLimitExceeded(kind)) => final(log).entries@
                == old(log).entries@.push(
                spec_violation(
                    payer,
                    old(limit).user,
                    amount,
                    ceiling_of(*old(limit), kind),
                    kind,
                    now,
                ),
            ),
            Err(_) => final(log).entries@ == old(log).entries@,
            Ok(_) => true,
        }),
        final(invoice).wf(),
        final(treasury).wf(),
{
    if !(payer == invoice.recipient || invoice.allow_anyone_to_pay) {
        return Err(LedgerError::Unauthorized);
    }
    if !payer_kyc.is_eligible(now) {
        return Err(LedgerError::KycNotEligible);
    }
    match recipient_kyc {
        Some(k) => {
            if !k.is_eligible(now) {
                return Err(LedgerError::RecipientKycNotEligible);
            }
        }
        None => {}
    }
    match limit.authorize(amount, now) {
        Decision::Deny(kind) => {
            let ceiling: u64 = match kind {
                SpendViolationType::TransactionLimit => limit.transaction_limit,
                SpendViolationType::DailyLimit => limit.daily_limit,
                SpendViolationType::MonthlyLimit => limit.monthly_limit,
                SpendViolationType::CategoryLimit => 0,
            };
            log.record(payer, limit.user, amount, ceiling, kind, now);
            return Err(LedgerError::SpendLimitExceeded(kind));
        }
        Decision::Allow => {}
    }
    let applied = match invoice.apply_payment(amount, now) {
        Ok(a) => a,
        Err(e) => {
            return Err(e);
        }
    };
    treasury.credit(provider, amount);
    limit.commit(amount, now);
    Ok(applied)
}

/// The outcome of a bare rule-gated transfer: payer KYC, recipient KYC,
/// then spend limits; no invoice is involved.
pub open spec fn transfer_decision(
    sender_kyc: KycProfile,
    recipient_kyc: Option<KycProfile>,
    limit: SpendLimit,
    amount: u64,
    now: u64,
) -> Result<(), LedgerError> {
    if !sender_kyc.spec_is_eligible(now) {
        Err(LedgerError::KycNotEligible)
    } else if recipient_kyc matches Some(k) && !k.spec_is_eligible(now) {
        Err(LedgerError::RecipientKycNotEligible)
    } else {
        match limit.spec_authorize(amount, now) {
            Decision::Deny(kind) => Err(LedgerError::SpendLimitExceeded(kind)),
            Decision::Allow => Ok(()),
        }
    }
}

/// Gate a bare transfer of `amount` through the sender's KYC profile, the
/// recipient's where one is present, and the sender's spend limit, and
/// commit the spend counters exactly when every gate passes. The moving of
/// the transferred value itself is the host's affair, to be done only
/// after this returns successfully. An error commits nothing.
pub fn transfer_with_rules(
    sender_kyc: &KycProfile,
    recipient_kyc: Option<&KycProfile>,
    limit: &mut SpendLimit,
    amount: u64,
    now: u64,
) -> (r: Result<(), LedgerError>)
    requires
        transfer_decision(
            *sender_kyc,
            profile_of(recipient_kyc),
            *old(limit),
            amount,
            now,
        ) is Ok ==> {
            &&& old(limit).effective_daily_spent(now) + amount <= u64::MAX
            &&& old(limit).effective_monthly_spent(now) + amount <= u64::MAX
        },
    ensures
        r == transfer_decision(
            *sender_kyc,
            profile_of(recipient_kyc),
            *old(limit),
            amount,
            now,
        ),
        r is Ok ==> *final(limit) == old(limit).spec_commit(amount, now),
        r is Err ==> *final(limit) == *old(limit),
{
    if !sender_kyc.is_eligible(now) {
        return Err(LedgerError::KycNotEligible);
    }
    match recipient_kyc {
        Some(k) => {
            if !k.is_eligible(now) {
                return Err(LedgerError::RecipientKycNotEligible);
            }
        }
        None => {}
    }
    match limit.authorize(amount, now) {
        Decision::Deny(kind) => {
            return Err(LedgerError::SpendLimitExceeded(kind));
        }
        Decision::Allow => {}
    }
    limit.commit(amount, now);
    Ok(())
}

/// Issue an invoice against a treasury: on success the invoice starts
/// pending and the treasury's issuance count grows by one; a zero face
/// value is refused and counts nothing.
pub fn issue_invoice(
    treasury: &mut TreasuryAccount,
    issuer: u64,
    recipient: u64,
    invoice_number: u64,
    amount: u64,
    due_date: u64,
    allow_anyone_to_pay: bool,
    now: u64,
) -> (r: Result<Invoice, LedgerError>)
    requires
        amount > 0 ==> old(treasury).total_invoices_issued < u64::MAX,
    ensures
        amount == 0 ==> r == Err::<Invoice, LedgerError>(LedgerError::InvalidAmount)
            && *final(treasury) == *old(treasury),
        amount > 0 ==> {
            &&& r == Ok::<Invoice, LedgerError>(Invoice {
                issuer,
                recipient,
                invoice_number,
                amount,
                paid_amount: 0u64,
                customer_credit: 0u64,
                due_date,
                created_at: now,
                paid_at: None,
                last_payment_at: None,
                status: crate::invoice::InvoiceStatus::Pending,
                allow_anyone_to_pay,
            })
            &&& *final(treasury) == (TreasuryAccount {
                total_invoices_issued: (old(treasury).total_invoices_issued + 1) as u64,
                ..*old(treasury)
            })
        },
        r is Ok ==> r->Ok_0.wf(),
{
    let invoice = match crate::invoice::create_invoice(
        issuer,
        recipient,
        invoice_number,
        amount,
        due_date,
        allow_anyone_to_pay,
        now,
    ) {
        Ok(inv) => inv,
        Err(e) => {
            return Err(e);
        }
    };
    treasury.record_issued();
    Ok(invoice)
}

} // verus!
