//! The project's aggregate record and its lifecycle records.

use vstd::prelude::*;
use crate::env::Timestamp;
use crate::math::Decimal;

verus! {

/// The aggregate record of a carbon credit project: what identifies it, who
/// holds which role, and the running totals of credits.
#[derive(Debug, PartialEq, Eq)]
pub struct CarbonCreditInfo {
    pub project_id: String,
    pub project_name: String,
    pub project_type: String,
    pub verification_standard: String,
    pub vintage_year: u32,
    pub country: String,
    /// The credits verified so far.
    pub total_credits_issued: u128,
    /// The credits taken out of circulation for good.
    pub credits_retired: u128,
    /// The credits verified and not retired.
    pub credits_available: u128,
    /// Tons of carbon dioxide that one credit stands for.
    pub co2_equivalent_per_credit: Decimal,
    pub verification_body: String,
    pub project_developer: String,
}

impl Clone for CarbonCreditInfo {
    fn clone(&self) -> (r: Self)
        ensures
            r == *self,
    {
        CarbonCreditInfo {
            project_id: self.project_id.clone(),
            project_name: self.project_name.clone(),
            project_type: self.project_type.clone(),
            verification_standard: self.verification_standard.clone(),
            vintage_year: self.vintage_year,
            country: self.country.clone(),
            total_credits_issued: self.total_credits_issued,
            credits_retired: self.credits_retired,
            credits_available: self.credits_available,
            co2_equivalent_per_credit: self.co2_equivalent_per_credit,
            verification_body: self.verification_body.clone(),
            project_developer: self.project_developer.clone(),
        }
    }
}

/// The steps of a verification: pending, then verified, rejected or expired.
#[derive(Clone, Copy, Debug, PartialEq, Eq, Structural)]
pub enum VerificationStatus {
    Pending,
    Verified,
    Rejected,
    Expired,
}

impl VerificationStatus {
    /// The status as it is written.
    pub open spec fn spec_name(self) -> Seq<char> {
        match self {
            VerificationStatus::Pending => "Pending"@,
            VerificationStatus::Verified => "Verified"@,
            VerificationStatus::Rejected => "Rejected"@,
            VerificationStatus::Expired => "Expired"@,
        }
    }

    /// The status as it is written.
    pub fn name(&self) -> (r: String)
        ensures
            r@ == self.spec_name(),
    {
        match self {
            VerificationStatus::Pending => "Pending".to_string(),
            VerificationStatus::Verified => "Verified".to_string(),
            VerificationStatus::Rejected => "Rejected".to_string(),
            VerificationStatus::Expired => "Expired".to_string(),
        }
    }
}

/// The evidence of one verification of credits.
#[derive(Debug, PartialEq, Eq)]
pub struct VerificationRecord {
    pub verification_id: String,
    pub verification_date: Timestamp,
    pub credits_verified: u128,
    pub verification_body: String,
    pub verification_report_url: String,
    pub status: VerificationStatus,
}

impl Clone for VerificationRecord {
    fn clone(&self) -> (r: Self)
        ensures
            r == *self,
    {
        VerificationRecord {
            verification_id: self.verification_id.clone(),
            verification_date: self.verification_date,
            credits_verified: self.credits_verified,
            verification_body: self.verification_body.clone(),
            verification_report_url: self.verification_report_url.clone(),
            status: self.status,
        }
    }
}

/// The evidence of one retirement of credits.
#[derive(Debug, PartialEq, Eq)]
pub struct RetirementRecord {
    pub retirement_id: String,
    pub retirement_date: Timestamp,
    pub credits_retired: u128,
    pub retirement_purpose: String,
    /// The holder who retired the credits.
    pub retirement_entity: String,
    pub retirement_certificate_url: String,
}

impl Clone for RetirementRecord {
    fn clone(&self) -> (r: Self)
        ensures
            r == *self,
    {
        RetirementRecord {
            retirement_id: self.retirement_id.clone(),
            retirement_date: self.retirement_date,
            credits_retired: self.credits_retired,
            retirement_purpose: self.retirement_purpose.clone(),
            retirement_entity: self.retirement_entity.clone(),
            retirement_certificate_url: self.retirement_certificate_url.clone(),
        }
    }
}

} // verus!
