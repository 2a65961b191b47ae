//! The commands and questions that a carbon credit instance takes, and its
//! answers.

use vstd::prelude::*;
use crate::carbon_credit::state::{CarbonCreditInfo, RetirementRecord, VerificationRecord, VerificationStatus};
pub use crate::ledger::LogoInfo;
use crate::ledger::{Cw20InstantiateMsg, Cw20QueryMsg, Expiration};

verus! {

/// What a carbon credit instance is set up with: the ledger's own setup,
/// which is handed on to the ledger, and the aggregate record.
#[derive(Debug, PartialEq, Eq)]
pub struct InstantiateMsg {
    pub cw20_base: Cw20InstantiateMsg,
    pub carbon_credit_info: CarbonCreditInfo,
}

/// A command. The first eleven are the ledger's and are handed on to it as
/// they are; the others are transitions of the project.
#[derive(Debug, PartialEq, Eq)]
pub enum ExecuteMsg {
    Transfer { recipient: String, amount: u128 },
    Burn { amount: u128 },
    Send { contract: String, amount: u128, msg: Vec<u8> },
    IncreaseAllowance { spender: String, amount: u128, expires: Option<Expiration> },
    DecreaseAllowance { spender: String, amount: u128, expires: Option<Expiration> },
    TransferFrom { owner: String, recipient: String, amount: u128 },
    SendFrom { owner: String, contract: String, amount: u128, msg: Vec<u8> },
    Mint { recipient: String, amount: u128 },
    UpdateMinter { new_minter: Option<String> },
    UpdateMarketing { project: Option<String>, description: Option<String>, marketing: Option<String> },
    UploadLogo(LogoInfo),
    VerifyCredits { verification_id: String, credits_to_verify: u128, verification_report_url: String },
    RetireCredits {
        retirement_id: String,
        credits_to_retire: u128,
        retirement_purpose: String,
        retirement_certificate_url: String,
    },
    UpdateVerificationStatus { verification_id: String, status: VerificationStatus },
}

/// A question. The first eight are the ledger's; the others are answered
/// from the project's own state.
#[derive(Debug, PartialEq, Eq)]
pub enum QueryMsg {
    Balance { address: String },
    TokenInfo {},
    Minter {},
    Allowance { owner: String, spender: String },
    AllAllowances { owner: String, start_after: Option<String>, limit: Option<u32> },
    AllAccounts { start_after: Option<String>, limit: Option<u32> },
    MarketingInfo {},
    DownloadLogo {},
    CarbonCreditInfo {},
    VerificationRecord { verification_id: String },
    AllVerificationRecords { start_after: Option<String>, limit: Option<u32> },
    RetirementRecord { retirement_id: String },
    AllRetirementRecords { start_after: Option<String>, limit: Option<u32> },
    AvailableCredits {},
    RetiredCredits {},
}

/// The answer to a question.
#[derive(Debug, PartialEq, Eq)]
pub enum QueryResponse {
    /// The question is the ledger's to answer.
    Ledger(Cw20QueryMsg),
    CarbonCreditInfo(CarbonCreditInfo),
    VerificationRecord(VerificationRecord),
    VerificationRecords(Vec<(String, VerificationRecord)>),
    RetirementRecord(RetirementRecord),
    RetirementRecords(Vec<(String, RetirementRecord)>),
    AvailableCredits(u128),
    RetiredCredits(u128),
}

} // verus!
