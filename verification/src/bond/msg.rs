//! The commands and questions that a bond instance takes, and its answers.

use vstd::prelude::*;
use crate::bond::state::{
    BondInfo, BondRating, BondTransfer, CalculationMethod, CouponPayment, InterestCalculation,
    PaymentMethod, PaymentStatus, RedemptionRecord, RedemptionType, TransferType,
};
use crate::env::Timestamp;
pub use crate::ledger::LogoInfo;
use crate::ledger::{Cw20InstantiateMsg, Cw20QueryMsg, Expiration};
use crate::math::Decimal;

verus! {

/// What a bond instance is set up with: the ledger's own setup, which is
/// handed on to the ledger, and the aggregate record.
#[derive(Debug, PartialEq, Eq)]
pub struct InstantiateMsg {
    pub cw20_base: Cw20InstantiateMsg,
    pub bond_info: BondInfo,
}

/// A command. The first eleven are the ledger's and are handed on to it as
/// they are; the others are transitions of the bond.
#[derive(Debug, PartialEq, Eq)]
pub enum ExecuteMsg {
    Transfer { recipient: String, amount: u128 },
    Burn { amount: u128 },
    Send { contract: String, amount: u128, msg: Vec<u8> },
    IncreaseAllowance { spender: String, amount: u128, expires: Option<Expiration> },
    DecreaseAllowance { spender: String, amount: u128, expires: Option<Expiration> },
    TransferFrom { owner: String, recipient: String, amount: u128 },
    SendFrom { owner: String, contract: String, amount: u128, msg: Vec<u8> },
    Mint { recipient: String, amount: u128 },
    UpdateMinter { new_minter: Option<String> },
    UpdateMarketing { project: Option<String>, description: Option<String>, marketing: Option<String> },
    UploadLogo(LogoInfo),
    PayCoupon {
        payment_id: String,
        coupon_period_start: Timestamp,
        coupon_period_end: Timestamp,
        coupon_amount: Decimal,
        principal_amount: Decimal,
        payment_method: PaymentMethod,
    },
    RedeemBonds {
        redemption_id: String,
        bondholder: String,
        bonds_to_redeem: u128,
        redemption_type: RedemptionType,
        redemption_reason: String,
    },
    RecordTransfer {
        transfer_id: String,
        from: String,
        to: String,
        bonds_transferred: u128,
        transfer_price: Decimal,
        transfer_type: TransferType,
        transfer_reason: String,
    },
    CalculateInterest {
        calculation_id: String,
        bondholder: String,
        bonds_held: u128,
        days_held: u32,
        calculation_method: CalculationMethod,
    },
    UpdatePaymentStatus { payment_id: String, status: PaymentStatus, transaction_hash: Option<String> },
    UpdateBondRating { new_rating: BondRating },
    UpdateCollateralValue { new_collateral_value: Decimal },
}

/// A question. The first eight are the ledger's; the others are answered
/// from the bond's own state.
#[derive(Debug, PartialEq, Eq)]
pub enum QueryMsg {
    Balance { address: String },
    TokenInfo {},
    Minter {},
    Allowance { owner: String, spender: String },
    AllAllowances { owner: String, start_after: Option<String>, limit: Option<u32> },
    AllAccounts { start_after: Option<String>, limit: Option<u32> },
    MarketingInfo {},
    DownloadLogo {},
    BondInfo {},
    CouponPayment { payment_id: String },
    AllCouponPayments { start_after: Option<String>, limit: Option<u32> },
    RedemptionRecord { redemption_id: String },
    AllRedemptionRecords { start_after: Option<String>, limit: Option<u32> },
    BondTransfer { transfer_id: String },
    AllBondTransfers { start_after: Option<String>, limit: Option<u32> },
    InterestCalculation { calculation_id: String },
    AllInterestCalculations { start_after: Option<String>, limit: Option<u32> },
    BondholderInfo { bondholder: String },
    OutstandingPrincipal {},
    AccruedInterest { bondholder: String },
    NextCouponDate {},
    BondYield {},
}

/// What one holder has of the issue.
#[derive(Debug, PartialEq, Eq)]
pub struct BondholderInfo {
    pub address: String,
    pub bond_balance: u128,
    /// The holder's bonds at face value.
    pub face_value_held: Decimal,
}

/// The yields of the bond. All three are the coupon rate: no pricing model
/// stands behind them.
#[derive(Clone, Copy, Debug, PartialEq, Eq, Structural)]
pub struct BondYield {
    pub coupon_rate: Decimal,
    pub current_yield: Decimal,
    pub yield_to_maturity: Decimal,
}

/// The answer to a question.
#[derive(Debug, PartialEq, Eq)]
pub enum QueryResponse {
    /// The question is the ledger's to answer.
    Ledger(Cw20QueryMsg),
    BondInfo(BondInfo),
    CouponPayment(CouponPayment),
    CouponPayments(Vec<(String, CouponPayment)>),
    RedemptionRecord(RedemptionRecord),
    RedemptionRecords(Vec<(String, RedemptionRecord)>),
    BondTransfer(BondTransfer),
    BondTransfers(Vec<(String, BondTransfer)>),
    InterestCalculation(InterestCalculation),
    InterestCalculations(Vec<(String, InterestCalculation)>),
    BondholderInfo(BondholderInfo),
    OutstandingPrincipal(Decimal),
    AccruedInterest(Decimal),
    NextCouponDate(Timestamp),
    BondYield(BondYield),
}

} // verus!
