//! Typed errors of the ledger. Every error is reported synchronously and
//! leaves all entities unchanged; none is silently swallowed.

use vstd::prelude::*;
use crate::violation::SpendViolationType;

verus! {

/// Why an operation was refused.
#[derive(Clone, Copy, Debug, PartialEq, Eq, Structural)]
pub enum LedgerError {
    /// The invoice is already fully settled; no further payment is accepted.
    AlreadyPaid,
    /// A zero amount where a positive one is required.
    InvalidAmount,
    /// The invoice is in a state (cancelled) that admits no payment.
    InvalidInvoiceStatus,
    /// The source provider balance cannot cover the requested swap.
    InsufficientBalance,
    /// A swap from a provider to itself.
    InvalidSwap,
    /// The invoice is past its due date.
    Overdue,
    /// The payer is neither the invoice recipient nor allowed by the issuer.
    Unauthorized,
    /// The payer's KYC profile is not eligible at this time.
    KycNotEligible,
    /// The recipient's KYC profile is not eligible at this time.
    RecipientKycNotEligible,
    /// A spend ceiling rejected the attempt; the payload says which one.
    SpendLimitExceeded(SpendViolationType),
    /// An identifier that is already taken.
    Conflict,
    /// An effective window that ends before it starts.
    InvalidTimeRange,
}

impl LedgerError {
    /// A short stable name for the error, for hosts that print or log it.
    pub fn name(&self) -> (s: &'static str)
    {
        match self {
            LedgerError::AlreadyPaid => "already_paid",
            LedgerError::InvalidAmount => "invalid_amount",
            LedgerError::InvalidInvoiceStatus => "invalid_invoice_status",
            LedgerError::InsufficientBalance => "insufficient_balance",
            LedgerError::InvalidSwap => "invalid_swap",
            LedgerError::Overdue => "overdue",
            LedgerError::Unauthorized => "unauthorized",
            LedgerError::KycNotEligible => "kyc_not_eligible",
            LedgerError::RecipientKycNotEligible => "recipient_kyc_not_eligible",
            LedgerError::SpendLimitExceeded(_) => "spend_limit_exceeded",
            LedgerError::Conflict => "conflict",
            LedgerError::InvalidTimeRange => "invalid_time_range",
        }
    }
}

} // verus!
