//! A policy-gated settlement ledger: invoice lifecycle, rolling spend limits,
//! KYC eligibility, time-bounded business rules, dual-provider treasury
//! bookkeeping, and an append-only violation log, composed by a settlement
//! coordinator. Every operation is all-or-nothing: an error leaves every
//! entity unchanged.

pub mod errors;
pub mod kyc;
pub mod violation;
pub mod spend;
pub mod invoice;
pub mod treasury;
pub mod rules;
pub mod request;
pub mod settlement;
