//! Peer-to-peer payment requests, written once at creation and settled or
//! declined by later, external operations.

use vstd::prelude::*;

verus! {

/// Lifecycle state of a payment request.
#[derive(Clone, Copy, Debug, PartialEq, Eq, Structural)]
pub enum RequestStatus {
    Pending,
    Approved,
    Paid,
    Declined,
    Expired,
}

/// A request from `requester` asking `payer` for `amount`.
#[derive(Clone, Debug)]
pub struct PaymentRequest {
    pub requester: u64,
    pub payer: u64,
    pub amount: u64,
    pub description: String,
    pub status: RequestStatus,
    pub created_at: u64,
    pub paid_at: Option<u64>,
}

/// Open a payment request: it starts pending, stamped with its creation
/// time, and not yet paid.
pub fn create_payment_request(
    requester: u64,
    payer: u64,
    amount: u64,
    description: String,
    now: u64,
) -> (r: PaymentRequest)
    ensures
        r.requester == requester,
        r.payer == payer,
        r.amount == amount,
        r.description@ == description@,
        r.status == RequestStatus::Pending,
        r.created_at == now,
        r.paid_at is None,
{
    PaymentRequest {
        requester,
        payer,
        amount,
        description,
        status: RequestStatus::Pending,
        created_at: now,
        paid_at: None,
    }
}

} // verus!
