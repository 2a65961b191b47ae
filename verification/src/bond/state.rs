//! The bond's aggregate record and its lifecycle records.

use vstd::prelude::*;
use crate::env::Timestamp;
use crate::math::Decimal;

verus! {

#[derive(Clone, Copy, Debug, PartialEq, Eq, Structural)]
pub enum BondType {
    Corporate,
    Government,
    Municipal,
    AssetBacked,
    Convertible,
    ZeroCoupon,
    FloatingRate,
    Perpetual,
}

/// How often a coupon falls due.
#[derive(Clone, Copy, Debug, PartialEq, Eq, Structural)]
pub enum CouponFrequency {
    Monthly,
    Quarterly,
    SemiAnnually,
    Annually,
    AtMaturity,
}

#[derive(Clone, Copy, Debug, PartialEq, Eq, Structural)]
pub enum BondRating {
    AAA,
    AA,
    A,
    BBB,
    BB,
    B,
    CCC,
    CC,
    C,
    D,
    Unrated,
}

impl BondRating {
    /// The rating as it is written.
    pub open spec fn spec_name(self) -> Seq<char> {
        match self {
            BondRating::AAA => "AAA"@,
            BondRating::AA => "AA"@,
            BondRating::A => "A"@,
            BondRating::BBB => "BBB"@,
            BondRating::BB => "BB"@,
            BondRating::B => "B"@,
            BondRating::CCC => "CCC"@,
            BondRating::CC => "CC"@,
            BondRating::C => "C"@,
            BondRating::D => "D"@,
            BondRating::Unrated => "Unrated"@,
        }
    }

    /// The rating as it is written.
    pub fn name(&self) -> (r: String)
        ensures
            r@ == self.spec_name(),
    {
        match self {
            BondRating::AAA => "AAA".to_string(),
            BondRating::AA => "AA".to_string(),
            BondRating::A => "A".to_string(),
            BondRating::BBB => "BBB".to_string(),
            BondRating::BB => "BB".to_string(),
            BondRating::B => "B".to_string(),
            BondRating::CCC => "CCC".to_string(),
            BondRating::CC => "CC".to_string(),
            BondRating::C => "C".to_string(),
            BondRating::D => "D".to_string(),
            BondRating::Unrated => "Unrated".to_string(),
        }
    }
}

#[derive(Clone, Copy, Debug, PartialEq, Eq, Structural)]
pub enum CollateralType {
    RealEstate,
    Equipment,
    Inventory,
    AccountsReceivable,
    Cash,
    Securities,
    Commodities,
    IntellectualProperty,
    /// The bond has no collateral.
    Unsecured,
}

/// The aggregate record of a bond issue: what identifies it, who holds which
/// role, and the running totals.
#[derive(Debug, PartialEq, Eq)]
pub struct BondInfo {
    pub bond_id: String,
    pub bond_name: String,
    pub issuer: String,
    pub bond_type: BondType,
    /// The face value of one bond token.
    pub face_value: Decimal,
    /// The number of bond tokens issued.
    pub total_issue_amount: u128,
    /// The yearly rate of interest: 0.05 for five per cent.
    pub coupon_rate: Decimal,
    pub coupon_frequency: CouponFrequency,
    pub maturity_date: Timestamp,
    pub issue_date: Timestamp,
    pub currency: String,
    pub bond_rating: BondRating,
    pub collateral_type: CollateralType,
    pub collateral_value: Decimal,
    pub trustee: String,
    pub paying_agent: String,
    pub total_coupons_paid: Decimal,
    /// The principal handed back so far, by coupon payments and redemptions.
    pub total_principal_repaid: Decimal,
    /// The principal still owed.
    pub outstanding_principal: Decimal,
    pub next_coupon_date: Timestamp,
    pub accrued_interest: Decimal,
}

impl Clone for BondInfo {
    fn clone(&self) -> (r: Self)
        ensures
            r == *self,
    {
        BondInfo {
            bond_id: self.bond_id.clone(),
            bond_name: self.bond_name.clone(),
            issuer: self.issuer.clone(),
            bond_type: self.bond_type,
            face_value: self.face_value,
            total_issue_amount: self.total_issue_amount,
            coupon_rate: self.coupon_rate,
            coupon_frequency: self.coupon_frequency,
            maturity_date: self.maturity_date,
            issue_date: self.issue_date,
            currency: self.currency.clone(),
            bond_rating: self.bond_rating,
            collateral_type: self.collateral_type,
            collateral_value: self.collateral_value,
            trustee: self.trustee.clone(),
            paying_agent: self.paying_agent.clone(),
            total_coupons_paid: self.total_coupons_paid,
            total_principal_repaid: self.total_principal_repaid,
            outstanding_principal: self.outstanding_principal,
            next_coupon_date: self.next_coupon_date,
            accrued_interest: self.accrued_interest,
        }
    }
}

/// The steps of a payment: pending, then paid, failed or cancelled.
#[derive(Clone, Copy, Debug, PartialEq, Eq, Structural)]
pub enum PaymentStatus {
    Pending,
    Paid,
    Failed,
    Cancelled,
}

impl PaymentStatus {
    /// The status as it is written.
    pub open spec fn spec_name(self) -> Seq<char> {
        match self {
            PaymentStatus::Pending => "Pending"@,
            PaymentStatus::Paid => "Paid"@,
            PaymentStatus::Failed => "Failed"@,
            PaymentStatus::Cancelled => "Cancelled"@,
        }
    }

    /// The status as it is written.
    pub fn name(&self) -> (r: String)
        ensures
            r@ == self.spec_name(),
    {
        match self {
            PaymentStatus::Pending => "Pending".to_string(),
            PaymentStatus::Paid => "Paid".to_string(),
            PaymentStatus::Failed => "Failed".to_string(),
            PaymentStatus::Cancelled => "Cancelled".to_string(),
        }
    }
}

#[derive(Clone, Copy, Debug, PartialEq, Eq, Structural)]
pub enum PaymentMethod {
    BankTransfer,
    CryptoTransfer,
    TokenTransfer,
    Escrow,
}

/// The evidence of one coupon payment.
#[derive(Debug, PartialEq, Eq)]
pub struct CouponPayment {
    pub payment_id: String,
    pub payment_date: Timestamp,
    pub coupon_period_start: Timestamp,
    pub coupon_period_end: Timestamp,
    pub coupon_amount: Decimal,
    pub principal_amount: Decimal,
    /// The coupon and the principal together.
    pub total_payment: Decimal,
    pub payment_status: PaymentStatus,
    pub payment_method: PaymentMethod,
    /// A reference to the settlement; it is stored and never checked.
    pub transaction_hash: Option<String>,
}

impl Clone for CouponPayment {
    fn clone(&self) -> (r: Self)
        ensures
            r == *self,
    {
        CouponPayment {
            payment_id: self.payment_id.clone(),
            payment_date: self.payment_date,
            coupon_period_start: self.coupon_period_start,
            coupon_period_end: self.coupon_period_end,
            coupon_amount: self.coupon_amount,
            principal_amount: self.principal_amount,
            total_payment: self.total_payment,
            payment_status: self.payment_status,
            payment_method: self.payment_method,
            transaction_hash: match &self.transaction_hash {
                Some(hash) => Some(hash.clone()),
                None => None,
            },
        }
    }
}

#[derive(Clone, Copy, Debug, PartialEq, Eq, Structural)]
pub enum RedemptionType {
    Maturity,
    EarlyRedemption,
    CallOption,
    PutOption,
    Default,
    Conversion,
}

/// The evidence of one redemption.
#[derive(Debug, PartialEq, Eq)]
pub struct RedemptionRecord {
    pub redemption_id: String,
    pub redemption_date: Timestamp,
    pub bondholder: String,
    pub bonds_redeemed: u128,
    /// The redeemed bonds at face value.
    pub redemption_value: Decimal,
    pub redemption_type: RedemptionType,
    pub redemption_reason: String,
    pub transaction_hash: Option<String>,
}

impl Clone for RedemptionRecord {
    fn clone(&self) -> (r: Self)
        ensures
            r == *self,
    {
        RedemptionRecord {
            redemption_id: self.redemption_id.clone(),
            redemption_date: self.redemption_date,
            bondholder: self.bondholder.clone(),
            bonds_redeemed: self.bonds_redeemed,
            redemption_value: self.redemption_value,
            redemption_type: self.redemption_type,
            redemption_reason: self.redemption_reason.clone(),
            transaction_hash: match &self.transaction_hash {
                Some(hash) => Some(hash.clone()),
                None => None,
            },
        }
    }
}

#[derive(Clone, Copy, Debug, PartialEq, Eq, Structural)]
pub enum TransferType {
    Sale,
    Gift,
    Inheritance,
    CollateralAssignment,
    Pledge,
    Repo,
}

/// The evidence of one transfer of bonds between holders.
#[derive(Debug, PartialEq, Eq)]
pub struct BondTransfer {
    pub transfer_id: String,
    pub transfer_date: Timestamp,
    pub from: String,
    pub to: String,
    pub bonds_transferred: u128,
    pub transfer_price: Decimal,
    pub transfer_type: TransferType,
    pub transfer_reason: String,
}

impl Clone for BondTransfer {
    fn clone(&self) -> (r: Self)
        ensures
            r == *self,
    {
        BondTransfer {
            transfer_id: self.transfer_id.clone(),
            transfer_date: self.transfer_date,
            from: self.from.clone(),
            to: self.to.clone(),
            bonds_transferred: self.bonds_transferred,
            transfer_price: self.transfer_price,
            transfer_type: self.transfer_type,
            transfer_reason: self.transfer_reason.clone(),
        }
    }
}

/// How accrued interest is counted.
#[derive(Clone, Copy, Debug, PartialEq, Eq, Structural)]
pub enum CalculationMethod {
    SimpleInterest,
    CompoundInterest,
    Actual365,
    Actual360,
    Thirty360,
}

/// The evidence of one interest calculation.
#[derive(Debug, PartialEq, Eq)]
pub struct InterestCalculation {
    pub calculation_id: String,
    pub calculation_date: Timestamp,
    pub bondholder: String,
    pub bonds_held: u128,
    pub days_held: u32,
    pub accrued_interest: Decimal,
    pub coupon_rate: Decimal,
    pub calculation_method: CalculationMethod,
}

impl Clone for InterestCalculation {
    fn clone(&self) -> (r: Self)
        ensures
            r == *self,
    {
        InterestCalculation {
            calculation_id: self.calculation_id.clone(),
            calculation_date: self.calculation_date,
            bondholder: self.bondholder.clone(),
            bonds_held: self.bonds_held,
            days_held: self.days_held,
            accrued_interest: self.accrued_interest,
            coupon_rate: self.coupon_rate,
            calculation_method: self.calculation_method,
        }
    }
}

} // verus!
