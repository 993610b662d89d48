//! KYC eligibility gate: a pure function of a verification record and a
//! point in time. The settlement path never mutates a profile; profiles are
//! written only by the external KYC-update operation.

use vstd::prelude::*;

verus! {

/// How far a user's identity has been verified.
#[derive(Clone, Copy, Debug, PartialEq, Eq, Structural)]
pub enum KycLevel {
    Unverified,
    Basic,
    Enhanced,
    Premium,
}

/// A user's verification record. `risk_score` ranges over 0..=100.
#[derive(Clone, Copy, Debug, PartialEq, Eq)]
pub struct KycProfile {
    pub user: u64,
    pub kyc_level: KycLevel,
    pub is_verified: bool,
    pub verified_at: u64,
    /// When the verification lapses; `None` means it does not expire.
    pub expires_at: Option<u64>,
    pub risk_score: u8,
}

impl KycProfile {
    /// A profile's risk score never exceeds 100.
    pub open spec fn wf(self) -> bool {
        self.risk_score <= 100
    }

    /// Eligibility at time `now`: the profile must be verified, must not
    /// have expired before `now` (an expiry exactly at `now` still counts),
    /// and its risk score must not exceed 80.
    pub open spec fn spec_is_eligible(self, now: u64) -> bool {
        &&& self.is_verified
        &&& match self.expires_at {
            Some(t) => t >= now,
            None => true,
        }
        &&& self.risk_score <= 80
    }

    /// Decide eligibility at `now`. Pure: no side effects, no mutation.
    pub fn is_eligible(&self, now: u64) -> (r: bool)
        ensures
            r == self.spec_is_eligible(now),
    {
        if !self.is_verified {
            return false;
        }
        match self.expires_at {
            Some(expires_at) => {
                if expires_at < now {
                    return false;
                }
            }
            None => {}
        }
        if self.risk_score > 80 {
            return false;
        }
        true
    }
}

/// Build or replace a user's verification record; `verified_at` is stamped
/// with the time of the update.
pub fn update_kyc_data(
    user: u64,
    kyc_level: KycLevel,
    is_verified: bool,
    expires_at: Option<u64>,
    risk_score: u8,
    now: u64,
) -> (p: KycProfile)
    requires
        risk_score <= 100,
    ensures
        p == (KycProfile {
            user,
            kyc_level,
            is_verified,
            verified_at: now,
            expires_at,
            risk_score,
        }),
        p.wf(),
{
    KycProfile { user, kyc_level, is_verified, verified_at: now, expires_at, risk_score }
}

} // verus!
