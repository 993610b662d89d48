use settlement_ledger::errors::LedgerError;
use settlement_ledger::invoice::{create_invoice, Invoice, InvoiceStatus};

fn fresh_invoice(amount: u64) -> Invoice {
    create_invoice(1, 2, 7, amount, 1_000_000, false, 100).unwrap()
}

#[test]
fn create_starts_pending_with_nothing_paid() {
    let inv = create_invoice(10, 20, 1, 500, 7777, true, 42).unwrap();
    assert_eq!(inv.issuer, 10);
    assert_eq!(inv.recipient, 20);
    assert_eq!(inv.invoice_number, 1);
    assert_eq!(inv.amount, 500);
    assert_eq!(inv.paid_amount, 0);
    assert_eq!(inv.customer_credit, 0);
    assert_eq!(inv.due_date, 7777);
    assert_eq!(inv.created_at, 42);
    assert_eq!(inv.paid_at, None);
    assert_eq!(inv.last_payment_at, None);
    assert_eq!(inv.status, InvoiceStatus::Pending);
    assert!(inv.allow_anyone_to_pay);
}

#[test]
fn create_rejects_zero_amount() {
    assert_eq!(
        create_invoice(1, 2, 3, 0, 100, false, 0).unwrap_err(),
        LedgerError::InvalidAmount
    );
}

#[test]
fn overpayment_becomes_customer_credit() {
    let mut inv = fresh_invoice(1000);
    let applied = inv.apply_payment(400, 200).unwrap();
    assert_eq!(applied, 400);
    assert_eq!(inv.status, InvoiceStatus::PartiallyPaid);
    assert_eq!(inv.paid_amount, 400);
    assert_eq!(inv.customer_credit, 0);
    assert_eq!(inv.last_payment_at, Some(200));

    let applied = inv.apply_payment(700, 300).unwrap();
    assert_eq!(applied, 700);
    assert_eq!(inv.paid_amount, 1100);
    assert_eq!(inv.status, InvoiceStatus::Paid);
    assert_eq!(inv.customer_credit, 100);
    assert_eq!(inv.paid_at, Some(300));
}

#[test]
fn exact_payment_settles_without_credit() {
    let mut inv = fresh_invoice(250);
    inv.apply_payment(250, 9).unwrap();
    assert_eq!(inv.status, InvoiceStatus::Paid);
    assert_eq!(inv.paid_amount, 250);
    assert_eq!(inv.customer_credit, 0);
    assert_eq!(inv.paid_at, Some(9));
}

#[test]
fn paying_a_paid_invoice_fails_and_changes_nothing() {
    let mut inv = fresh_invoice(100);
    inv.apply_payment(100, 5).unwrap();
    let before = inv;
    assert_eq!(inv.apply_payment(50, 6).unwrap_err(), LedgerError::AlreadyPaid);
    assert_eq!(inv, before);
}

#[test]
fn paying_a_cancelled_invoice_fails_and_changes_nothing() {
    let mut inv = fresh_invoice(100);
    inv.status = InvoiceStatus::Cancelled;
    let before = inv;
    assert_eq!(
        inv.apply_payment(50, 6).unwrap_err(),
        LedgerError::InvalidInvoiceStatus
    );
    assert_eq!(inv, before);
}

#[test]
fn zero_payment_is_rejected() {
    let mut inv = fresh_invoice(100);
    let before = inv;
    assert_eq!(inv.apply_payment(0, 6).unwrap_err(), LedgerError::InvalidAmount);
    assert_eq!(inv, before);
}

#[test]
fn many_partial_payments_accumulate() {
    let mut inv = fresh_invoice(1000);
    for step in 0..9 {
        inv.apply_payment(100, step).unwrap();
        assert_eq!(inv.status, InvoiceStatus::PartiallyPaid);
        assert_eq!(inv.paid_amount, 100 * (step + 1));
    }
    inv.apply_payment(100, 9).unwrap();
    assert_eq!(inv.paid_amount, 1000);
    assert_eq!(inv.status, InvoiceStatus::Paid);
    assert_eq!(inv.customer_credit, 0);
}

#[test]
fn overdue_is_a_read_time_classification() {
    let mut inv = fresh_invoice(100);
    assert_eq!(inv.status_at(1_000_000), InvoiceStatus::Pending);
    assert_eq!(inv.status_at(1_000_001), InvoiceStatus::Overdue);
    assert_eq!(inv.status, InvoiceStatus::Pending);

    inv.apply_payment(40, 50).unwrap();
    assert_eq!(inv.status_at(1_000_001), InvoiceStatus::Overdue);
    assert_eq!(inv.status, InvoiceStatus::PartiallyPaid);

    inv.apply_payment(60, 60).unwrap();
    assert_eq!(inv.status_at(1_000_001), InvoiceStatus::Paid);
}
