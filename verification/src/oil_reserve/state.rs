//! The reserve's aggregate record and its lifecycle records.

use vstd::prelude::*;
use crate::env::Timestamp;
use crate::math::Decimal;

verus! {

#[derive(Clone, Copy, Debug, PartialEq, Eq, Structural)]
pub enum OilType {
    LightSweet,
    LightSour,
    HeavySweet,
    HeavySour,
    ExtraHeavy,
    Condensate,
}

/// The aggregate record of an oil reserve: what identifies it, who holds
/// which role, and the running totals of barrels.
#[derive(Debug, PartialEq, Eq)]
pub struct OilReserveInfo {
    pub reserve_id: String,
    pub reserve_name: String,
    pub location: String,
    pub field_name: String,
    pub oil_type: OilType,
    pub api_gravity: Decimal,
    /// The sulfur content, in per cent.
    pub sulfur_content: Decimal,
    pub total_reserves_barrels: u128,
    /// The barrels taken out of the ground so far.
    pub extracted_barrels: u128,
    /// The barrels still in the ground.
    pub available_barrels: u128,
    /// The tokens minted for one extracted barrel.
    pub barrels_per_token: Decimal,
    pub extraction_company: String,
    pub reserve_auditor: String,
    pub government_authority: String,
    pub extraction_start_date: Timestamp,
    pub estimated_extraction_end_date: Timestamp,
}

impl Clone for OilReserveInfo {
    fn clone(&self) -> (r: Self)
        ensures
            r == *self,
    {
        OilReserveInfo {
            reserve_id: self.reserve_id.clone(),
            reserve_name: self.reserve_name.clone(),
            location: self.location.clone(),
            field_name: self.field_name.clone(),
            oil_type: self.oil_type,
            api_gravity: self.api_gravity,
            sulfur_content: self.sulfur_content,
            total_reserves_barrels: self.total_reserves_barrels,
            extracted_barrels: self.extracted_barrels,
            available_barrels: self.available_barrels,
            barrels_per_token: self.barrels_per_token,
            extraction_company: self.extraction_company.clone(),
            reserve_auditor: self.reserve_auditor.clone(),
            government_authority: self.government_authority.clone(),
            extraction_start_date: self.extraction_start_date,
            estimated_extraction_end_date: self.estimated_extraction_end_date,
        }
    }
}

#[derive(Clone, Copy, Debug, PartialEq, Eq, Structural)]
pub enum ExtractionMethod {
    ConventionalDrilling,
    HydraulicFracturing,
    SteamInjection,
    HorizontalDrilling,
    OffshoreDrilling,
    EnhancedOilRecovery,
}

/// The evidence of one extraction.
#[derive(Debug, PartialEq, Eq)]
pub struct ExtractionRecord {
    pub extraction_id: String,
    pub extraction_date: Timestamp,
    pub barrels_extracted: u128,
    pub extraction_method: ExtractionMethod,
    pub extraction_company: String,
    /// On a scale from 0 to 100.
    pub environmental_impact_score: Decimal,
    pub carbon_footprint_per_barrel: Decimal,
    pub extraction_cost_per_barrel: Decimal,
    pub quality_certificate_url: String,
}

impl Clone for ExtractionRecord {
    fn clone(&self) -> (r: Self)
        ensures
            r == *self,
    {
        ExtractionRecord {
            extraction_id: self.extraction_id.clone(),
            extraction_date: self.extraction_date,
            barrels_extracted: self.barrels_extracted,
            extraction_method: self.extraction_method,
            extraction_company: self.extraction_company.clone(),
            environmental_impact_score: self.environmental_impact_score,
            carbon_footprint_per_barrel: self.carbon_footprint_per_barrel,
            extraction_cost_per_barrel: self.extraction_cost_per_barrel,
            quality_certificate_url: self.quality_certificate_url.clone(),
        }
    }
}

/// The steps of an audit: pending, then approved, rejected or up for review.
#[derive(Clone, Copy, Debug, PartialEq, Eq, Structural)]
pub enum AuditStatus {
    Pending,
    Approved,
    Rejected,
    RequiresReview,
}

impl AuditStatus {
    /// The status as it is written.
    pub open spec fn spec_name(self) -> Seq<char> {
        match self {
            AuditStatus::Pending => "Pending"@,
            AuditStatus::Approved => "Approved"@,
            AuditStatus::Rejected => "Rejected"@,
            AuditStatus::RequiresReview => "RequiresReview"@,
        }
    }

    /// The status as it is written.
    pub fn name(&self) -> (r: String)
        ensures
            r@ == self.spec_name(),
    {
        match self {
            AuditStatus::Pending => "Pending".to_string(),
            AuditStatus::Approved => "Approved".to_string(),
            AuditStatus::Rejected => "Rejected".to_string(),
            AuditStatus::RequiresReview => "RequiresReview".to_string(),
        }
    }
}

/// The evidence of one audit of the reserve.
#[derive(Debug, PartialEq, Eq)]
pub struct ReserveAudit {
    pub audit_id: String,
    pub audit_date: Timestamp,
    pub auditor: String,
    pub audited_reserves: u128,
    pub audit_report_url: String,
    pub audit_status: AuditStatus,
    pub reserve_quality_grade: String,
    /// On a scale from 0 to 100.
    pub extraction_feasibility_score: Decimal,
}

impl Clone for ReserveAudit {
    fn clone(&self) -> (r: Self)
        ensures
            r == *self,
    {
        ReserveAudit {
            audit_id: self.audit_id.clone(),
            audit_date: self.audit_date,
            auditor: self.auditor.clone(),
            audited_reserves: self.audited_reserves,
            audit_report_url: self.audit_report_url.clone(),
            audit_status: self.audit_status,
            reserve_quality_grade: self.reserve_quality_grade.clone(),
            extraction_feasibility_score: self.extraction_feasibility_score,
        }
    }
}

#[derive(Clone, Copy, Debug, PartialEq, Eq, Structural)]
pub enum TradeType {
    Spot,
    Forward,
    Futures,
    Swap,
}

/// The steps of a trade: pending, executed, settled; or cancelled.
#[derive(Clone, Copy, Debug, PartialEq, Eq, Structural)]
pub enum TradeStatus {
    Pending,
    Executed,
    Settled,
    Cancelled,
}

impl TradeStatus {
    /// The status as it is written.
    pub open spec fn spec_name(self) -> Seq<char> {
        match self {
            TradeStatus::Pending => "Pending"@,
            TradeStatus::Executed => "Executed"@,
            TradeStatus::Settled => "Settled"@,
            TradeStatus::Cancelled => "Cancelled"@,
        }
    }

    /// The status as it is written.
    pub fn name(&self) -> (r: String)
        ensures
            r@ == self.spec_name(),
    {
        match self {
            TradeStatus::Pending => "Pending".to_string(),
            TradeStatus::Executed => "Executed".to_string(),
            TradeStatus::Settled => "Settled".to_string(),
            TradeStatus::Cancelled => "Cancelled".to_string(),
        }
    }
}

/// The evidence of one trade of tokens.
#[derive(Debug, PartialEq, Eq)]
pub struct TradingRecord {
    pub trade_id: String,
    pub trade_date: Timestamp,
    pub seller: String,
    pub buyer: String,
    pub tokens_traded: u128,
    pub price_per_token: Decimal,
    /// The tokens traded at their price.
    pub total_value: Decimal,
    pub trade_type: TradeType,
    pub settlement_date: Timestamp,
    pub trade_status: TradeStatus,
}

impl Clone for TradingRecord {
    fn clone(&self) -> (r: Self)
        ensures
            r == *self,
    {
        TradingRecord {
            trade_id: self.trade_id.clone(),
            trade_date: self.trade_date,
            seller: self.seller.clone(),
            buyer: self.buyer.clone(),
            tokens_traded: self.tokens_traded,
            price_per_token: self.price_per_token,
            total_value: self.total_value,
            trade_type: self.trade_type,
            settlement_date: self.settlement_date,
            trade_status: self.trade_status,
        }
    }
}

} // verus!
