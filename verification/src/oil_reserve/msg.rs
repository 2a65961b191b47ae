//! The commands and questions that an oil reserve instance takes, and its
//! answers.

use vstd::prelude::*;
use crate::env::Timestamp;
pub use crate::ledger::LogoInfo;
use crate::ledger::{Cw20InstantiateMsg, Cw20QueryMsg, Expiration};
use crate::math::Decimal;
use crate::oil_reserve::state::{
    AuditStatus, ExtractionMethod, ExtractionRecord, OilReserveInfo, OilType, ReserveAudit,
    TradeStatus, TradeType, TradingRecord,
};

verus! {

/// What an oil reserve instance is set up with: the ledger's own setup,
/// which is handed on to the ledger, and the aggregate record.
#[derive(Debug, PartialEq, Eq)]
pub struct InstantiateMsg {
    pub cw20_base: Cw20InstantiateMsg,
    pub oil_reserve_info: OilReserveInfo,
}

/// A command. The first eleven are the ledger's and are handed on to it as
/// they are; the others are transitions of the reserve.
#[derive(Debug, PartialEq, Eq)]
pub enum ExecuteMsg {
    Transfer { recipient: String, amount: u128 },
    Burn { amount: u128 },
    Send { contract: String, amount: u128, msg: Vec<u8> },
    IncreaseAllowance { spender: String, amount: u128, expires: Option<Expiration> },
    DecreaseAllowance { spender: String, amount: u128, expires: Option<Expiration> },
    TransferFrom { owner: String, recipient: String, amount: u128 },
    SendFrom { owner: String, contract: String, amount: u128, msg: Vec<u8> },
    Mint { recipient: String, amount: u128 },
    UpdateMinter { new_minter: Option<String> },
    UpdateMarketing { project: Option<String>, description: Option<String>, marketing: Option<String> },
    UploadLogo(LogoInfo),
    RecordExtraction {
        extraction_id: String,
        barrels_extracted: u128,
        extraction_method: ExtractionMethod,
        environmental_impact_score: Decimal,
        carbon_footprint_per_barrel: Decimal,
        extraction_cost_per_barrel: Decimal,
        quality_certificate_url: String,
    },
    ConductReserveAudit {
        audit_id: String,
        audited_reserves: u128,
        audit_report_url: String,
        reserve_quality_grade: String,
        extraction_feasibility_score: Decimal,
    },
    UpdateAuditStatus { audit_id: String, status: AuditStatus },
    RecordTrade {
        trade_id: String,
        seller: String,
        buyer: String,
        tokens_traded: u128,
        price_per_token: Decimal,
        trade_type: TradeType,
        settlement_date: Timestamp,
    },
    UpdateTradeStatus { trade_id: String, status: TradeStatus },
}

/// A question. The first eight are the ledger's; the others are answered
/// from the reserve's own state.
#[derive(Debug, PartialEq, Eq)]
pub enum QueryMsg {
    Balance { address: String },
    TokenInfo {},
    Minter {},
    Allowance { owner: String, spender: String },
    AllAllowances { owner: String, start_after: Option<String>, limit: Option<u32> },
    AllAccounts { start_after: Option<String>, limit: Option<u32> },
    MarketingInfo {},
    DownloadLogo {},
    OilReserveInfo {},
    ExtractionRecord { extraction_id: String },
    AllExtractionRecords { start_after: Option<String>, limit: Option<u32> },
    ReserveAudit { audit_id: String },
    AllReserveAudits { start_after: Option<String>, limit: Option<u32> },
    TradingRecord { trade_id: String },
    AllTradingRecords { start_after: Option<String>, limit: Option<u32> },
    AvailableBarrels {},
    ExtractedBarrels {},
    ReserveQualityMetrics {},
}

/// The quality of the reserve's oil. The feasibility score is zero: no
/// audit is read for it.
#[derive(Clone, Copy, Debug, PartialEq, Eq, Structural)]
pub struct QualityMetrics {
    pub api_gravity: Decimal,
    pub sulfur_content: Decimal,
    pub oil_type: OilType,
    pub extraction_feasibility_score: Decimal,
}

/// The answer to a question.
#[derive(Debug, PartialEq, Eq)]
pub enum QueryResponse {
    /// The question is the ledger's to answer.
    Ledger(Cw20QueryMsg),
    OilReserveInfo(OilReserveInfo),
    ExtractionRecord(ExtractionRecord),
    ExtractionRecords(Vec<(String, ExtractionRecord)>),
    ReserveAudit(ReserveAudit),
    ReserveAudits(Vec<(String, ReserveAudit)>),
    TradingRecord(TradingRecord),
    TradingRecords(Vec<(String, TradingRecord)>),
    AvailableBarrels(u128),
    ExtractedBarrels(u128),
    ReserveQualityMetrics(QualityMetrics),
}

} // verus!
