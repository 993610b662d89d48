use settlement_ledger::errors::LedgerError;
use settlement_ledger::invoice::{create_invoice, Invoice, InvoiceStatus};
use settlement_ledger::kyc::{update_kyc_data, KycLevel, KycProfile};
use settlement_ledger::request::{create_payment_request, RequestStatus};
use settlement_ledger::settlement::{issue_invoice, pay_invoice, transfer_with_rules};
use settlement_ledger::spend::{set_spend_limits, SpendLimit};
use settlement_ledger::treasury::{Provider, TreasuryAccount};
use settlement_ledger::violation::{SpendViolationType, ViolationLog, ViolationStatus};

const PAYER: u64 = 2;

fn good_kyc(user: u64) -> KycProfile {
    update_kyc_data(user, KycLevel::Enhanced, true, None, 10, 0)
}

fn setting() -> (Invoice, KycProfile, SpendLimit, TreasuryAccount, ViolationLog) {
    let invoice = create_invoice(1, PAYER, 7, 1000, 1_000_000, false, 0).unwrap();
    let kyc = good_kyc(PAYER);
    let limit = set_spend_limits(PAYER, 5000, 50_000, 2000, 0);
    let treasury = TreasuryAccount::new(1);
    let log = ViolationLog::new();
    (invoice, kyc, limit, treasury, log)
}

#[test]
fn successful_payment_settles_everything_at_once() {
    let (mut invoice, kyc, mut limit, mut treasury, mut log) = setting();
    let applied = pay_invoice(
        &mut invoice,
        PAYER,
        &kyc,
        None,
        &mut limit,
        &mut treasury,
        Provider::Fast,
        &mut log,
        400,
        100,
    )
    .unwrap();
    assert_eq!(applied, 400);
    assert_eq!(invoice.paid_amount, 400);
    assert_eq!(invoice.status, InvoiceStatus::PartiallyPaid);
    assert_eq!(treasury.fast_balance, 400);
    assert_eq!(treasury.fallback_balance, 0);
    assert_eq!(limit.daily_spent, 400);
    assert_eq!(limit.monthly_spent, 400);
    assert_eq!(log.len(), 0);
}

#[test]
fn fallback_provider_is_credited_when_chosen() {
    let (mut invoice, kyc, mut limit, mut treasury, mut log) = setting();
    pay_invoice(
        &mut invoice,
        PAYER,
        &kyc,
        None,
        &mut limit,
        &mut treasury,
        Provider::Fallback,
        &mut log,
        1000,
        100,
    )
    .unwrap();
    assert_eq!(invoice.status, InvoiceStatus::Paid);
    assert_eq!(treasury.fallback_balance, 1000);
    assert_eq!(treasury.fast_balance, 0);
}

#[test]
fn stranger_cannot_pay_unless_the_invoice_allows_it() {
    let (mut invoice, _, mut limit, mut treasury, mut log) = setting();
    let stranger = 999;
    let kyc = good_kyc(stranger);
    let err = pay_invoice(
        &mut invoice,
        stranger,
        &kyc,
        None,
        &mut limit,
        &mut treasury,
        Provider::Fast,
        &mut log,
        100,
        100,
    )
    .unwrap_err();
    assert_eq!(err, LedgerError::Unauthorized);
    assert_eq!(invoice.paid_amount, 0);
    assert_eq!(log.len(), 0);

    invoice.allow_anyone_to_pay = true;
    pay_invoice(
        &mut invoice,
        stranger,
        &kyc,
        None,
        &mut limit,
        &mut treasury,
        Provider::Fast,
        &mut log,
        100,
        100,
    )
    .unwrap();
    assert_eq!(invoice.paid_amount, 100);
}

#[test]
fn ineligible_payer_kyc_stops_the_attempt() {
    let (mut invoice, _, mut limit, mut treasury, mut log) = setting();
    let kyc = update_kyc_data(PAYER, KycLevel::Basic, true, None, 85, 0);
    let err = pay_invoice(
        &mut invoice,
        PAYER,
        &kyc,
        None,
        &mut limit,
        &mut treasury,
        Provider::Fast,
        &mut log,
        100,
        100,
    )
    .unwrap_err();
    assert_eq!(err, LedgerError::KycNotEligible);
    assert_eq!(invoice.paid_amount, 0);
    assert_eq!(treasury.fast_balance, 0);
    assert_eq!(limit.daily_spent, 0);
    assert_eq!(log.len(), 0);
}

#[test]
fn ineligible_recipient_kyc_stops_the_attempt() {
    let (mut invoice, kyc, mut limit, mut treasury, mut log) = setting();
    let recipient_kyc = update_kyc_data(1, KycLevel::Basic, false, None, 0, 0);
    let err = pay_invoice(
        &mut invoice,
        PAYER,
        &kyc,
        Some(&recipient_kyc),
        &mut limit,
        &mut treasury,
        Provider::Fast,
        &mut log,
        100,
        100,
    )
    .unwrap_err();
    assert_eq!(err, LedgerError::RecipientKycNotEligible);
    assert_eq!(invoice.paid_amount, 0);
}

#[test]
fn limit_rejection_writes_one_violation_and_touches_nothing_else() {
    let (mut invoice, kyc, mut limit, mut treasury, mut log) = setting();
    limit.transaction_limit = 300;
    let before_limit = limit;
    let err = pay_invoice(
        &mut invoice,
        PAYER,
        &kyc,
        None,
        &mut limit,
        &mut treasury,
        Provider::Fast,
        &mut log,
        350,
        123,
    )
    .unwrap_err();
    assert_eq!(
        err,
        LedgerError::SpendLimitExceeded(SpendViolationType::TransactionLimit)
    );
    assert_eq!(invoice.paid_amount, 0);
    assert_eq!(treasury.fast_balance, 0);
    assert_eq!(limit, before_limit);
    assert_eq!(log.len(), 1);
    let v = log.entries[0];
    assert_eq!(v.user, PAYER);
    assert_eq!(v.attempted_amount, 350);
    assert_eq!(v.limit_amount, 300);
    assert_eq!(v.excess_amount, 50);
    assert_eq!(v.violation_type, SpendViolationType::TransactionLimit);
    assert_eq!(v.occurred_at, 123);
    assert_eq!(v.status, ViolationStatus::Open);
}

#[test]
fn invoice_errors_do_not_commit_spend_or_credit() {
    let (mut invoice, kyc, mut limit, mut treasury, mut log) = setting();
    invoice.apply_payment(1000, 50).unwrap();
    let before_invoice = invoice;
    let err = pay_invoice(
        &mut invoice,
        PAYER,
        &kyc,
        None,
        &mut limit,
        &mut treasury,
        Provider::Fast,
        &mut log,
        100,
        100,
    )
    .unwrap_err();
    assert_eq!(err, LedgerError::AlreadyPaid);
    assert_eq!(invoice, before_invoice);
    assert_eq!(treasury.fast_balance, 0);
    assert_eq!(limit.daily_spent, 0);
    assert_eq!(log.len(), 0);
}

#[test]
fn zero_amount_attempt_fails_late_with_invalid_amount() {
    let (mut invoice, kyc, mut limit, mut treasury, mut log) = setting();
    let err = pay_invoice(
        &mut invoice,
        PAYER,
        &kyc,
        None,
        &mut limit,
        &mut treasury,
        Provider::Fast,
        &mut log,
        0,
        100,
    )
    .unwrap_err();
    assert_eq!(err, LedgerError::InvalidAmount);
    assert_eq!(log.len(), 0);
}

#[test]
fn transfer_with_rules_commits_only_on_success() {
    let kyc = good_kyc(PAYER);
    let mut limit = set_spend_limits(PAYER, 500, 50_000, 2000, 0);
    transfer_with_rules(&kyc, None, &mut limit, 450, 10).unwrap();
    assert_eq!(limit.daily_spent, 450);

    let err = transfer_with_rules(&kyc, None, &mut limit, 100, 20).unwrap_err();
    assert_eq!(
        err,
        LedgerError::SpendLimitExceeded(SpendViolationType::DailyLimit)
    );
    assert_eq!(limit.daily_spent, 450);
}

#[test]
fn transfer_with_rules_checks_both_profiles() {
    let kyc = good_kyc(PAYER);
    let bad = update_kyc_data(8, KycLevel::Basic, false, None, 0, 0);
    let mut limit = set_spend_limits(PAYER, 500, 50_000, 2000, 0);
    assert_eq!(
        transfer_with_rules(&bad, None, &mut limit, 10, 10).unwrap_err(),
        LedgerError::KycNotEligible
    );
    assert_eq!(
        transfer_with_rules(&kyc, Some(&bad), &mut limit, 10, 10).unwrap_err(),
        LedgerError::RecipientKycNotEligible
    );
    transfer_with_rules(&kyc, Some(&kyc), &mut limit, 10, 10).unwrap();
    assert_eq!(limit.daily_spent, 10);
}

#[test]
fn issue_invoice_counts_issuance_on_the_treasury() {
    let mut treasury = TreasuryAccount::new(1);
    let inv = issue_invoice(&mut treasury, 1, 2, 7, 1000, 500, false, 42).unwrap();
    assert_eq!(inv.amount, 1000);
    assert_eq!(inv.status, InvoiceStatus::Pending);
    assert_eq!(treasury.total_invoices_issued, 1);

    let err = issue_invoice(&mut treasury, 1, 2, 8, 0, 500, false, 43).unwrap_err();
    assert_eq!(err, LedgerError::InvalidAmount);
    assert_eq!(treasury.total_invoices_issued, 1);
}

#[test]
fn payment_request_starts_pending() {
    let r = create_payment_request(11, 22, 75, String::from("lunch"), 900);
    assert_eq!(r.requester, 11);
    assert_eq!(r.payer, 22);
    assert_eq!(r.amount, 75);
    assert_eq!(r.description, "lunch");
    assert_eq!(r.status, RequestStatus::Pending);
    assert_eq!(r.created_at, 900);
    assert_eq!(r.paid_at, None);
}
