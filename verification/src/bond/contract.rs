//! The bond's state and its transitions.
//!
//! Every transition reads the aggregate record, checks the caller's role and
//! the preconditions, computes what is to be written, and only then writes.
//! A transition that is refused has written nothing.

use vstd::prelude::*;
use crate::bond::state::{
    BondInfo, BondRating, BondTransfer, CalculationMethod, CouponFrequency, CouponPayment,
    InterestCalculation, PaymentMethod, PaymentStatus, RedemptionRecord, RedemptionType,
    TransferType,
};
use crate::env::{Env, MessageInfo, Timestamp, NANOS_PER_SECOND};
use crate::error::ContractError;
use crate::bond::msg::{BondYield, BondholderInfo, ExecuteMsg, InstantiateMsg, QueryMsg, QueryResponse};
use crate::ledger::{balance_in, burn_outcome, Cw20ExecuteMsg, Cw20QueryMsg, Ledger};
use crate::math::{
    amount_text, amount_to_text, checked_mul_floor_spec, checked_ratio_spec, checked_units_spec,
    decimal_text, Decimal,
};
use crate::response::{forward, forwards, Response};
use crate::store::{loaded, owned_cursor, owned_page_view, page_of, saved, Item, RecordStore};

verus! {

/// The number of seconds in a day.
pub const SECONDS_PER_DAY: u64 = 86_400u64;

/// Everything a bond instance stores.
#[derive(Clone, Debug, PartialEq, Eq)]
pub struct BondContract {
    /// The aggregate record.
    pub bond_info: Item<BondInfo>,
    pub coupon_payments: RecordStore<CouponPayment>,
    pub redemption_records: RecordStore<RedemptionRecord>,
    pub bond_transfers: RecordStore<BondTransfer>,
    pub interest_calculations: RecordStore<InterestCalculation>,
    /// The account book of the ledger that the bond tokens live in.
    pub ledger: Ledger,
}

impl BondContract {
    /// The state of an instance before it is set up: no aggregate record, no
    /// lifecycle records, an empty account book.
    pub fn new() -> (r: BondContract)
        ensures
            r.bond_info@ is None,
            r.coupon_payments@ == Map::<Seq<char>, CouponPayment>::empty(),
            r.redemption_records@ == Map::<Seq<char>, RedemptionRecord>::empty(),
            r.bond_transfers@ == Map::<Seq<char>, BondTransfer>::empty(),
            r.interest_calculations@ == Map::<Seq<char>, InterestCalculation>::empty(),
            r.ledger.balances@ == Map::<Seq<char>, u128>::empty(),
            r.ledger.total_supply == 0,
    {
        BondContract {
            bond_info: Item::new(),
            coupon_payments: RecordStore::new(),
            redemption_records: RecordStore::new(),
            bond_transfers: RecordStore::new(),
            interest_calculations: RecordStore::new(),
            ledger: Ledger::new(),
        }
    }
}

/// The days by which a coupon of the given frequency moves the schedule on:
/// a fixed count, not a calendar month or year.
pub open spec fn coupon_offset_days(frequency: CouponFrequency) -> int {
    match frequency {
        CouponFrequency::Monthly => 30,
        CouponFrequency::Quarterly => 90,
        CouponFrequency::SemiAnnually => 180,
        CouponFrequency::Annually => 365,
        CouponFrequency::AtMaturity => 0,
    }
}

/// The coupon date that follows `current`. A bond that pays at maturity
/// keeps its date. Any other moves on by [`coupon_offset_days`] from the
/// whole second of `current`; there is none where that is later than the
/// latest time that can be held.
pub open spec fn next_coupon_date(current: Timestamp, frequency: CouponFrequency) -> Option<Timestamp> {
    if frequency == CouponFrequency::AtMaturity {
        Some(current)
    } else {
        let seconds = current.spec_seconds() + coupon_offset_days(frequency) * SECONDS_PER_DAY;
        if seconds * NANOS_PER_SECOND <= u64::MAX {
            Some(Timestamp { nanos: (seconds * NANOS_PER_SECOND) as u64 })
        } else {
            None
        }
    }
}

/// The coupon date that follows `current_date`; `Overflow` where there is none.
pub fn calculate_next_coupon_date(current_date: Timestamp, frequency: &CouponFrequency) -> (r: Result<Timestamp, ContractError>)
    ensures
        r == match next_coupon_date(current_date, *frequency) {
            Some(next) => Ok::<Timestamp, ContractError>(next),
            None => Err::<Timestamp, ContractError>(ContractError::Overflow),
        },
{
    let days: u64 = match frequency {
        CouponFrequency::Monthly => 30,
        CouponFrequency::Quarterly => 90,
        CouponFrequency::SemiAnnually => 180,
        CouponFrequency::Annually => 365,
        CouponFrequency::AtMaturity => {
            return Ok(current_date);
        },
    };
    let seconds = current_date.seconds() + days * SECONDS_PER_DAY;
    match Timestamp::from_seconds(seconds) {
        Some(next) => Ok(next),
        None => Err(ContractError::Overflow),
    }
}

/// The aggregate after a payment of `coupon` and `principal`: the coupon
/// total and the repaid principal grow, the outstanding principal shrinks by
/// the principal paid, and the schedule moves on. `Overflow` where a total
/// would leave its range or more principal is paid than is outstanding.
pub open spec fn coupon_update(info: BondInfo, coupon: Decimal, principal: Decimal) -> Result<BondInfo, ContractError> {
    if coupon.atomics + principal.atomics > u128::MAX
        || info.total_coupons_paid.atomics + coupon.atomics > u128::MAX
        || info.total_principal_repaid.atomics + principal.atomics > u128::MAX
        || principal.atomics > info.outstanding_principal.atomics
        || next_coupon_date(info.next_coupon_date, info.coupon_frequency) is None {
        Err(ContractError::Overflow)
    } else {
        Ok(BondInfo {
            total_coupons_paid: Decimal { atomics: (info.total_coupons_paid.atomics + coupon.atomics) as u128 },
            total_principal_repaid: Decimal { atomics: (info.total_principal_repaid.atomics + principal.atomics) as u128 },
            outstanding_principal: Decimal { atomics: (info.outstanding_principal.atomics - principal.atomics) as u128 },
            next_coupon_date: next_coupon_date(info.next_coupon_date, info.coupon_frequency)->Some_0,
            ..info
        })
    }
}

/// What a coupon payment decides: the aggregate and the record to be
/// written, or why it is refused. Only the paying agent may pay.
pub open spec fn pay_coupon_outcome(
    stored: Option<BondInfo>,
    env: Env,
    sender: Seq<char>,
    payment_id: String,
    coupon_period_start: Timestamp,
    coupon_period_end: Timestamp,
    coupon_amount: Decimal,
    principal_amount: Decimal,
    payment_method: PaymentMethod,
) -> Result<(BondInfo, CouponPayment), ContractError> {
    match stored {
        None => Err(ContractError::NotInitialized),
        Some(info) => if sender != info.paying_agent@ {
            Err(ContractError::Unauthorized)
        } else {
            match coupon_update(info, coupon_amount, principal_amount) {
                Err(e) => Err(e),
                Ok(updated) => Ok((updated, CouponPayment {
                    payment_id,
                    payment_date: env.block.time,
                    coupon_period_start,
                    coupon_period_end,
                    coupon_amount,
                    principal_amount,
                    total_payment: Decimal { atomics: (coupon_amount.atomics + principal_amount.atomics) as u128 },
                    payment_status: PaymentStatus::Paid,
                    payment_method,
                    transaction_hash: None,
                })),
            }
        },
    }
}

/// What [`pay_coupon`] does to the state and what it returns.
pub open spec fn pay_coupon_post(
    pre: BondContract,
    post: BondContract,
    res: Result<Response, ContractError>,
    env: Env,
    info: MessageInfo,
    payment_id: String,
    coupon_period_start: Timestamp,
    coupon_period_end: Timestamp,
    coupon_amount: Decimal,
    principal_amount: Decimal,
    payment_method: PaymentMethod,
) -> bool {
    match pay_coupon_outcome(pre.bond_info@, env, info.sender@, payment_id, coupon_period_start,
        coupon_period_end, coupon_amount, principal_amount, payment_method) {
        Err(e) => res == Err::<Response, ContractError>(e) && post == pre,
        Ok((updated, record)) => {
            &&& res is Ok
            &&& res->Ok_0.summary() =~= seq![
                ("action"@, "pay_coupon"@),
                ("payment_id"@, payment_id@),
                ("total_payment"@, decimal_text(record.total_payment.atomics)),
            ]
            &&& res->Ok_0.messages@.len() == 0
            &&& post.bond_info@ == Some(updated)
            &&& post.coupon_payments@ == saved(pre.coupon_payments@, payment_id@, record)
            &&& post.redemption_records == pre.redemption_records
            &&& post.bond_transfers == pre.bond_transfers
            &&& post.interest_calculations == pre.interest_calculations
            &&& post.ledger == pre.ledger
        },
    }
}

/// Pays a coupon, with or without a part of the principal. Only the paying
/// agent may do so. Writes a paid [`CouponPayment`] under `payment_id`, adds
/// to the totals of the aggregate and moves its schedule on.
pub fn pay_coupon(
    state: &mut BondContract,
    env: Env,
    info: MessageInfo,
    payment_id: String,
    coupon_period_start: Timestamp,
    coupon_period_end: Timestamp,
    coupon_amount: Decimal,
    principal_amount: Decimal,
    payment_method: PaymentMethod,
) -> (res: Result<Response, ContractError>)
    ensures
        pay_coupon_post(*old(state), *final(state), res, env, info, payment_id, coupon_period_start,
            coupon_period_end, coupon_amount, principal_amount, payment_method),
{
    let bond_info = match state.bond_info.load() {
        Ok(bond_info) => bond_info,
        Err(e) => {
            return Err(e);
        },
    };
    if info.sender != bond_info.paying_agent {
        return Err(ContractError::Unauthorized);
    }
    let total_payment = match coupon_amount.checked_add(principal_amount) {
        Some(total) => total,
        None => {
            return Err(ContractError::Overflow);
        },
    };
    let total_coupons_paid = match bond_info.total_coupons_paid.checked_add(coupon_amount) {
        Some(total) => total,
        None => {
            return Err(ContractError::Overflow);
        },
    };
    let total_principal_repaid = match bond_info.total_principal_repaid.checked_add(principal_amount) {
        Some(total) => total,
        None => {
            return Err(ContractError::Overflow);
        },
    };
    let outstanding_principal = match bond_info.outstanding_principal.checked_sub(principal_amount) {
        Some(rest) => rest,
        None => {
            return Err(ContractError::Overflow);
        },
    };
    let next = match calculate_next_coupon_date(bond_info.next_coupon_date, &bond_info.coupon_frequency) {
        Ok(next) => next,
        Err(e) => {
            return Err(e);
        },
    };
    let mut updated_info = bond_info.clone();
    updated_info.total_coupons_paid = total_coupons_paid;
    updated_info.total_principal_repaid = total_principal_repaid;
    updated_info.outstanding_principal = outstanding_principal;
    updated_info.next_coupon_date = next;
    let coupon_payment = CouponPayment {
        payment_id: payment_id.clone(),
        payment_date: env.block.time,
        coupon_period_start,
        coupon_period_end,
        coupon_amount,
        principal_amount,
        total_payment,
        payment_status: PaymentStatus::Paid,
        payment_method,
        transaction_hash: None,
    };
    state.coupon_payments.save(payment_id.clone(), coupon_payment);
    state.bond_info.save(updated_info);
    Ok(Response::new()
        .add_attribute("action", "pay_coupon".to_string())
        .add_attribute("payment_id", payment_id)
        .add_attribute("total_payment", total_payment.to_text()))
}

/// The aggregate after bonds worth `value` are redeemed: the outstanding
/// principal shrinks and the repaid principal grows by that value.
/// `Overflow` where more would be redeemed than is outstanding, or the repaid
/// total would leave its range.
pub open spec fn redemption_update(info: BondInfo, value: Decimal) -> Result<BondInfo, ContractError> {
    if value.atomics > info.outstanding_principal.atomics
        || info.total_principal_repaid.atomics + value.atomics > u128::MAX {
        Err(ContractError::Overflow)
    } else {
        Ok(BondInfo {
            total_principal_repaid: Decimal { atomics: (info.total_principal_repaid.atomics + value.atomics) as u128 },
            outstanding_principal: Decimal { atomics: (info.outstanding_principal.atomics - value.atomics) as u128 },
            ..info
        })
    }
}

/// What a redemption decides: the aggregate, the record, and the balances
/// and total supply of the account book after the bonds are burnt; or why it
/// is refused. The bonds are redeemed at face value, exactly.
pub open spec fn redeem_bonds_outcome(
    stored: Option<BondInfo>,
    balances: Map<Seq<char>, u128>,
    total_supply: u128,
    env: Env,
    redemption_id: String,
    bondholder: String,
    bonds_to_redeem: u128,
    redemption_type: RedemptionType,
    redemption_reason: String,
) -> Result<(BondInfo, RedemptionRecord, Map<Seq<char>, u128>, u128), ContractError> {
    match stored {
        None => Err(ContractError::NotInitialized),
        Some(info) => match burn_outcome(balances, total_supply, bondholder@, bonds_to_redeem) {
            Err(e) => Err(e),
            Ok((burnt_balances, burnt_supply)) => match checked_units_spec(bonds_to_redeem, info.face_value.atomics) {
                None => Err(ContractError::Overflow),
                Some(value) => match redemption_update(info, Decimal { atomics: value }) {
                    Err(e) => Err(e),
                    Ok(updated) => Ok((updated, RedemptionRecord {
                        redemption_id,
                        redemption_date: env.block.time,
                        bondholder,
                        bonds_redeemed: bonds_to_redeem,
                        redemption_value: Decimal { atomics: value },
                        redemption_type,
                        redemption_reason,
                        transaction_hash: None,
                    }, burnt_balances, burnt_supply)),
                },
            },
        },
    }
}

/// What [`redeem_bonds`] does to the state and what it returns.
pub open spec fn redeem_bonds_post(
    pre: BondContract,
    post: BondContract,
    res: Result<Response, ContractError>,
    env: Env,
    info: MessageInfo,
    redemption_id: String,
    bondholder: String,
    bonds_to_redeem: u128,
    redemption_type: RedemptionType,
    redemption_reason: String,
) -> bool {
    match redeem_bonds_outcome(pre.bond_info@, pre.ledger.balances@, pre.ledger.total_supply, env,
        redemption_id, bondholder, bonds_to_redeem, redemption_type, redemption_reason) {
        Err(e) => res == Err::<Response, ContractError>(e) && post == pre,
        Ok((updated, record, balances, total_supply)) => {
            &&& res is Ok
            &&& res->Ok_0.summary() =~= seq![
                ("action"@, "redeem_bonds"@),
                ("redemption_id"@, redemption_id@),
                ("bonds_redeemed"@, amount_text(bonds_to_redeem)),
                ("redemption_value"@, decimal_text(record.redemption_value.atomics)),
            ]
            &&& res->Ok_0.messages@.len() == 0
            &&& post.bond_info@ == Some(updated)
            &&& post.redemption_records@ == saved(pre.redemption_records@, redemption_id@, record)
            &&& post.ledger.balances@ == balances
            &&& post.ledger.total_supply == total_supply
            &&& post.coupon_payments == pre.coupon_payments
            &&& post.bond_transfers == pre.bond_transfers
            &&& post.interest_calculations == pre.interest_calculations
        },
    }
}

/// Redeems bonds of `bondholder` at face value. The bonds are burnt in the
/// account book, a [`RedemptionRecord`] is written under `redemption_id`, and
/// in the aggregate their value moves from the outstanding principal to the
/// repaid principal.
pub fn redeem_bonds(
    state: &mut BondContract,
    env: Env,
    info: MessageInfo,
    redemption_id: String,
    bondholder: String,
    bonds_to_redeem: u128,
    redemption_type: RedemptionType,
    redemption_reason: String,
) -> (res: Result<Response, ContractError>)
    ensures
        redeem_bonds_post(*old(state), *final(state), res, env, info, redemption_id, bondholder,
            bonds_to_redeem, redemption_type, redemption_reason),
{
    let bond_info = match state.bond_info.load() {
        Ok(bond_info) => bond_info,
        Err(e) => {
            return Err(e);
        },
    };
    let balance = state.ledger.balance_of(&bondholder);
    if balance < bonds_to_redeem {
        return Err(ContractError::InsufficientFunds { needed: bonds_to_redeem, available: balance });
    }
    if state.ledger.total_supply() < bonds_to_redeem {
        return Err(ContractError::Overflow);
    }
    let redemption_value = match bond_info.face_value.checked_mul_units(bonds_to_redeem) {
        Some(value) => value,
        None => {
            return Err(ContractError::Overflow);
        },
    };
    let outstanding_principal = match bond_info.outstanding_principal.checked_sub(redemption_value) {
        Some(rest) => rest,
        None => {
            return Err(ContractError::Overflow);
        },
    };
    let total_principal_repaid = match bond_info.total_principal_repaid.checked_add(redemption_value) {
        Some(total) => total,
        None => {
            return Err(ContractError::Overflow);
        },
    };
    let mut updated_info = bond_info.clone();
    updated_info.outstanding_principal = outstanding_principal;
    updated_info.total_principal_repaid = total_principal_repaid;
    match state.ledger.burn(&bondholder, bonds_to_redeem) {
        Ok(()) => {},
        Err(e) => {
            return Err(e);
        },
    }
    let redemption_record = RedemptionRecord {
        redemption_id: redemption_id.clone(),
        redemption_date: env.block.time,
        bondholder,
        bonds_redeemed: bonds_to_redeem,
        redemption_value,
        redemption_type,
        redemption_reason,
        transaction_hash: None,
    };
    state.redemption_records.save(redemption_id.clone(), redemption_record);
    state.bond_info.save(updated_info);
    Ok(Response::new()
        .add_attribute("action", "redeem_bonds".to_string())
        .add_attribute("redemption_id", redemption_id)
        .add_attribute("bonds_redeemed", amount_to_text(bonds_to_redeem))
        .add_attribute("redemption_value", redemption_value.to_text()))
}

/// The record that [`record_transfer`] writes.
pub open spec fn transfer_record(
    env: Env,
    transfer_id: String,
    from: String,
    to: String,
    bonds_transferred: u128,
    transfer_price: Decimal,
    transfer_type: TransferType,
    transfer_reason: String,
) -> BondTransfer {
    BondTransfer {
        transfer_id,
        transfer_date: env.block.time,
        from,
        to,
        bonds_transferred,
        transfer_price,
        transfer_type,
        transfer_reason,
    }
}

/// What [`record_transfer`] does to the state and what it returns.
pub open spec fn record_transfer_post(
    pre: BondContract,
    post: BondContract,
    res: Result<Response, ContractError>,
    env: Env,
    info: MessageInfo,
    transfer_id: String,
    from: String,
    to: String,
    bonds_transferred: u128,
    transfer_price: Decimal,
    transfer_type: TransferType,
    transfer_reason: String,
) -> bool {
    &&& res is Ok
    &&& res->Ok_0.summary() =~= seq![
        ("action"@, "record_transfer"@),
        ("transfer_id"@, transfer_id@),
        ("bonds_transferred"@, amount_text(bonds_transferred)),
    ]
    &&& res->Ok_0.messages@.len() == 0
    &&& post.bond_transfers@ == saved(pre.bond_transfers@, transfer_id@, transfer_record(env, transfer_id,
        from, to, bonds_transferred, transfer_price, transfer_type, transfer_reason))
    &&& post.bond_info == pre.bond_info
    &&& post.coupon_payments == pre.coupon_payments
    &&& post.redemption_records == pre.redemption_records
    &&& post.interest_calculations == pre.interest_calculations
    &&& post.ledger == pre.ledger
}

/// Writes down a transfer of bonds between two holders as evidence, under
/// `transfer_id`. Anyone may do so; neither the aggregate nor the account
/// book changes.
pub fn record_transfer(
    state: &mut BondContract,
    env: Env,
    info: MessageInfo,
    transfer_id: String,
    from: String,
    to: String,
    bonds_transferred: u128,
    transfer_price: Decimal,
    transfer_type: TransferType,
    transfer_reason: String,
) -> (res: Result<Response, ContractError>)
    ensures
        record_transfer_post(*old(state), *final(state), res, env, info, transfer_id, from, to,
            bonds_transferred, transfer_price, transfer_type, transfer_reason),
{
    let transfer_record = BondTransfer {
        transfer_id: transfer_id.clone(),
        transfer_date: env.block.time,
        from,
        to,
        bonds_transferred,
        transfer_price,
        transfer_type,
        transfer_reason,
    };
    state.bond_transfers.save(transfer_id.clone(), transfer_record);
    Ok(Response::new()
        .add_attribute("action", "record_transfer".to_string())
        .add_attribute("transfer_id", transfer_id)
        .add_attribute("bonds_transferred", amount_to_text(bonds_transferred)))
}

/// The days in a year under a counting method; none for compound interest,
/// which is not computed.
pub open spec fn day_count_basis(method: CalculationMethod) -> Option<u128> {
    match method {
        CalculationMethod::SimpleInterest => Some(365u128),
        CalculationMethod::Actual365 => Some(365u128),
        CalculationMethod::Actual360 => Some(360u128),
        CalculationMethod::Thirty360 => Some(360u128),
        CalculationMethod::CompoundInterest => None,
    }
}

/// The interest accrued on `bonds_held` bonds over `days_held` days: the
/// bonds at face value, times the coupon rate, times the part of the year,
/// each product rounded down to the eighteenth digit. Compound interest is
/// zero. `Overflow` where a product exceeds the largest decimal.
pub open spec fn accrued_interest_spec(
    face_value: Decimal,
    coupon_rate: Decimal,
    bonds_held: u128,
    days_held: u32,
    method: CalculationMethod,
) -> Result<Decimal, ContractError> {
    match day_count_basis(method) {
        None => Ok(Decimal { atomics: 0 }),
        Some(basis) => match yearly_interest_spec(face_value, coupon_rate, bonds_held) {
            Err(e) => Err(e),
            Ok(yearly) => match checked_ratio_spec(days_held as u128, basis) {
                None => Err(ContractError::Overflow),
                Some(part) => match checked_mul_floor_spec(yearly.atomics, part) {
                    None => Err(ContractError::Overflow),
                    Some(atomics) => Ok(Decimal { atomics }),
                },
            },
        },
    }
}

/// The interest of one year on `bonds_held` bonds: the bonds at face value,
/// times the coupon rate, rounded down to the eighteenth digit. `Overflow`
/// where a product exceeds the largest decimal.
pub open spec fn yearly_interest_spec(face_value: Decimal, coupon_rate: Decimal, bonds_held: u128) -> Result<Decimal, ContractError> {
    match checked_units_spec(bonds_held, face_value.atomics) {
        None => Err(ContractError::Overflow),
        Some(held) => match checked_mul_floor_spec(held, coupon_rate.atomics) {
            None => Err(ContractError::Overflow),
            Some(atomics) => Ok(Decimal { atomics }),
        },
    }
}

/// The interest of one year on `bonds_held` bonds.
pub fn yearly_interest(face_value: Decimal, coupon_rate: Decimal, bonds_held: u128) -> (r: Result<Decimal, ContractError>)
    ensures
        r == yearly_interest_spec(face_value, coupon_rate, bonds_held),
{
    let held = match face_value.checked_mul_units(bonds_held) {
        Some(held) => held,
        None => {
            return Err(ContractError::Overflow);
        },
    };
    match held.checked_mul(coupon_rate) {
        Some(yearly) => Ok(yearly),
        None => Err(ContractError::Overflow),
    }
}

/// The interest accrued on `bonds_held` bonds over `days_held` days.
pub fn accrued_interest(
    face_value: Decimal,
    coupon_rate: Decimal,
    bonds_held: u128,
    days_held: u32,
    method: CalculationMethod,
) -> (r: Result<Decimal, ContractError>)
    ensures
        r == accrued_interest_spec(face_value, coupon_rate, bonds_held, days_held, method),
{
    let basis: u128 = match method {
        CalculationMethod::SimpleInterest => 365,
        CalculationMethod::Actual365 => 365,
        CalculationMethod::Actual360 => 360,
        CalculationMethod::Thirty360 => 360,
        CalculationMethod::CompoundInterest => {
            return Ok(Decimal::zero());
        },
    };
    let yearly = match yearly_interest(face_value, coupon_rate, bonds_held) {
        Ok(yearly) => yearly,
        Err(e) => {
            return Err(e);
        },
    };
    let part = match Decimal::checked_from_ratio(days_held as u128, basis) {
        Some(part) => part,
        None => {
            return Err(ContractError::Overflow);
        },
    };
    match yearly.checked_mul(part) {
        Some(accrued) => Ok(accrued),
        None => Err(ContractError::Overflow),
    }
}

/// What an interest calculation decides: the record to be written, or why
/// it is refused.
pub open spec fn calculate_interest_outcome(
    stored: Option<BondInfo>,
    env: Env,
    calculation_id: String,
    bondholder: String,
    bonds_held: u128,
    days_held: u32,
    calculation_method: CalculationMethod,
) -> Result<InterestCalculation, ContractError> {
    match stored {
        None => Err(ContractError::NotInitialized),
        Some(info) => match accrued_interest_spec(info.face_value, info.coupon_rate, bonds_held, days_held,
            calculation_method) {
            Err(e) => Err(e),
            Ok(accrued) => Ok(InterestCalculation {
                calculation_id,
                calculation_date: env.block.time,
                bondholder,
                bonds_held,
                days_held,
                accrued_interest: accrued,
                coupon_rate: info.coupon_rate,
                calculation_method,
            }),
        },
    }
}

/// What [`calculate_interest`] does to the state and what it returns.
pub open spec fn calculate_interest_post(
    pre: BondContract,
    post: BondContract,
    res: Result<Response, ContractError>,
    env: Env,
    info: MessageInfo,
    calculation_id: String,
    bondholder: String,
    bonds_held: u128,
    days_held: u32,
    calculation_method: CalculationMethod,
) -> bool {
    match calculate_interest_outcome(pre.bond_info@, env, calculation_id, bondholder, bonds_held, days_held,
        calculation_method) {
        Err(e) => res == Err::<Response, ContractError>(e) && post == pre,
        Ok(record) => {
            &&& res is Ok
            &&& res->Ok_0.summary() =~= seq![
                ("action"@, "calculate_interest"@),
                ("calculation_id"@, calculation_id@),
                ("accrued_interest"@, decimal_text(record.accrued_interest.atomics)),
            ]
            &&& res->Ok_0.messages@.len() == 0
            &&& post.interest_calculations@ == saved(pre.interest_calculations@, calculation_id@, record)
            &&& post.bond_info == pre.bond_info
            &&& post.coupon_payments == pre.coupon_payments
            &&& post.redemption_records == pre.redemption_records
            &&& post.bond_transfers == pre.bond_transfers
            &&& post.ledger == pre.ledger
        },
    }
}

/// Computes the interest accrued on a holding and writes the calculation
/// down under `calculation_id`. The aggregate does not change.
pub fn calculate_interest(
    state: &mut BondContract,
    env: Env,
    info: MessageInfo,
    calculation_id: String,
    bondholder: String,
    bonds_held: u128,
    days_held: u32,
    calculation_method: CalculationMethod,
) -> (res: Result<Response, ContractError>)
    ensures
        calculate_interest_post(*old(state), *final(state), res, env, info, calculation_id, bondholder,
            bonds_held, days_held, calculation_method),
{
    let bond_info = match state.bond_info.load() {
        Ok(bond_info) => bond_info,
        Err(e) => {
            return Err(e);
        },
    };
    let accrued = match accrued_interest(bond_info.face_value, bond_info.coupon_rate, bonds_held, days_held,
        calculation_method) {
        Ok(accrued) => accrued,
        Err(e) => {
            return Err(e);
        },
    };
    let interest_calculation = InterestCalculation {
        calculation_id: calculation_id.clone(),
        calculation_date: env.block.time,
        bondholder,
        bonds_held,
        days_held,
        accrued_interest: accrued,
        coupon_rate: bond_info.coupon_rate,
        calculation_method,
    };
    state.interest_calculations.save(calculation_id.clone(), interest_calculation);
    Ok(Response::new()
        .add_attribute("action", "calculate_interest".to_string())
        .add_attribute("calculation_id", calculation_id)
        .add_attribute("accrued_interest", accrued.to_text()))
}

/// The payment record `record` with a new status and settlement reference;
/// everything else stays.
pub open spec fn payment_with_status(record: CouponPayment, status: PaymentStatus, transaction_hash: Option<String>) -> CouponPayment {
    CouponPayment { payment_status: status, transaction_hash, ..record }
}

/// What [`update_payment_status`] does to the state and what it returns.
pub open spec fn update_payment_status_post(
    pre: BondContract,
    post: BondContract,
    res: Result<Response, ContractError>,
    env: Env,
    info: MessageInfo,
    payment_id: String,
    status: PaymentStatus,
    transaction_hash: Option<String>,
) -> bool {
    match loaded(pre.coupon_payments@, payment_id@) {
        Err(e) => res == Err::<Response, ContractError>(e) && post == pre,
        Ok(record) => {
            &&& res is Ok
            &&& res->Ok_0.summary() =~= seq![
                ("action"@, "update_payment_status"@),
                ("payment_id"@, payment_id@),
                ("status"@, status.spec_name()),
            ]
            &&& res->Ok_0.messages@.len() == 0
            &&& post.coupon_payments@ == saved(pre.coupon_payments@, payment_id@, payment_with_status(record, status,
                transaction_hash))
            &&& post.bond_info == pre.bond_info
            &&& post.redemption_records == pre.redemption_records
            &&& post.bond_transfers == pre.bond_transfers
            &&& post.interest_calculations == pre.interest_calculations
            &&& post.ledger == pre.ledger
        },
    }
}

/// Sets the status and the settlement reference of the payment stored under
/// `payment_id`; `NotFound` where there is none. Nothing else of the record
/// changes, and the aggregate is not touched.
pub fn update_payment_status(
    state: &mut BondContract,
    env: Env,
    info: MessageInfo,
    payment_id: String,
    status: PaymentStatus,
    transaction_hash: Option<String>,
) -> (res: Result<Response, ContractError>)
    ensures
        update_payment_status_post(*old(state), *final(state), res, env, info, payment_id, status,
            transaction_hash),
{
    let mut payment_record = match state.coupon_payments.load(&payment_id) {
        Ok(record) => record.clone(),
        Err(e) => {
            return Err(e);
        },
    };
    payment_record.payment_status = status;
    payment_record.transaction_hash = transaction_hash;
    state.coupon_payments.save(payment_id.clone(), payment_record);
    Ok(Response::new()
        .add_attribute("action", "update_payment_status".to_string())
        .add_attribute("payment_id", payment_id)
        .add_attribute("status", status.name()))
}

/// What a change of the rating decides: the aggregate to be written, or why
/// it is refused. Only the issuer or the trustee may rate.
pub open spec fn update_bond_rating_outcome(stored: Option<BondInfo>, sender: Seq<char>, new_rating: BondRating) -> Result<BondInfo, ContractError> {
    match stored {
        None => Err(ContractError::NotInitialized),
        Some(info) => if sender != info.issuer@ && sender != info.trustee@ {
            Err(ContractError::Unauthorized)
        } else {
            Ok(BondInfo { bond_rating: new_rating, ..info })
        },
    }
}

/// What [`update_bond_rating`] does to the state and what it returns.
pub open spec fn update_bond_rating_post(
    pre: BondContract,
    post: BondContract,
    res: Result<Response, ContractError>,
    env: Env,
    info: MessageInfo,
    new_rating: BondRating,
) -> bool {
    match update_bond_rating_outcome(pre.bond_info@, info.sender@, new_rating) {
        Err(e) => res == Err::<Response, ContractError>(e) && post == pre,
        Ok(updated) => {
            &&& res is Ok
            &&& res->Ok_0.summary() =~= seq![
                ("action"@, "update_bond_rating"@),
                ("new_rating"@, new_rating.spec_name()),
            ]
            &&& res->Ok_0.messages@.len() == 0
            &&& post.bond_info@ == Some(updated)
            &&& post.coupon_payments == pre.coupon_payments
            &&& post.redemption_records == pre.redemption_records
            &&& post.bond_transfers == pre.bond_transfers
            &&& post.interest_calculations == pre.interest_calculations
            &&& post.ledger == pre.ledger
        },
    }
}

/// Sets the bond's rating. Only the issuer or the trustee may do so.
pub fn update_bond_rating(
    state: &mut BondContract,
    env: Env,
    info: MessageInfo,
    new_rating: BondRating,
) -> (res: Result<Response, ContractError>)
    ensures
        update_bond_rating_post(*old(state), *final(state), res, env, info, new_rating),
{
    let bond_info = match state.bond_info.load() {
        Ok(bond_info) => bond_info,
        Err(e) => {
            return Err(e);
        },
    };
    if info.sender != bond_info.issuer && info.sender != bond_info.trustee {
        return Err(ContractError::Unauthorized);
    }
    let mut updated_info = bond_info.clone();
    updated_info.bond_rating = new_rating;
    state.bond_info.save(updated_info);
    Ok(Response::new()
        .add_attribute("action", "update_bond_rating".to_string())
        .add_attribute("new_rating", new_rating.name()))
}

/// What a change of the collateral's value decides: the aggregate to be
/// written, or why it is refused. Only the trustee may revalue.
pub open spec fn update_collateral_value_outcome(stored: Option<BondInfo>, sender: Seq<char>, new_collateral_value: Decimal) -> Result<BondInfo, ContractError> {
    match stored {
        None => Err(ContractError::NotInitialized),
        Some(info) => if sender != info.trustee@ {
            Err(ContractError::Unauthorized)
        } else {
            Ok(BondInfo { collateral_value: new_collateral_value, ..info })
        },
    }
}

/// What [`update_collateral_value`] does to the state and what it returns.
pub open spec fn update_collateral_value_post(
    pre: BondContract,
    post: BondContract,
    res: Result<Response, ContractError>,
    env: Env,
    info: MessageInfo,
    new_collateral_value: Decimal,
) -> bool {
    match update_collateral_value_outcome(pre.bond_info@, info.sender@, new_collateral_value) {
        Err(e) => res == Err::<Response, ContractError>(e) && post == pre,
        Ok(updated) => {
            &&& res is Ok
            &&& res->Ok_0.summary() =~= seq![
                ("action"@, "update_collateral_value"@),
                ("new_collateral_value"@, decimal_text(new_collateral_value.atomics)),
            ]
            &&& res->Ok_0.messages@.len() == 0
            &&& post.bond_info@ == Some(updated)
            &&& post.coupon_payments == pre.coupon_payments
            &&& post.redemption_records == pre.redemption_records
            &&& post.bond_transfers == pre.bond_transfers
            &&& post.interest_calculations == pre.interest_calculations
            &&& post.ledger == pre.ledger
        },
    }
}

/// Sets the value of the bond's collateral. Only the trustee may do so.
pub fn update_collateral_value(
    state: &mut BondContract,
    env: Env,
    info: MessageInfo,
    new_collateral_value: Decimal,
) -> (res: Result<Response, ContractError>)
    ensures
        update_collateral_value_post(*old(state), *final(state), res, env, info, new_collateral_value),
{
    let bond_info = match state.bond_info.load() {
        Ok(bond_info) => bond_info,
        Err(e) => {
            return Err(e);
        },
    };
    if info.sender != bond_info.trustee {
        return Err(ContractError::Unauthorized);
    }
    let mut updated_info = bond_info.clone();
    updated_info.collateral_value = new_collateral_value;
    state.bond_info.save(updated_info);
    Ok(Response::new()
        .add_attribute("action", "update_collateral_value".to_string())
        .add_attribute("new_collateral_value", new_collateral_value.to_text()))
}

/// One page of the coupon payments: those stored after `start_after`, in
/// ascending order of their identifiers, at most `limit` and at most thirty.
pub fn query_all_coupon_payments(state: &BondContract, start_after: Option<String>, limit: Option<u32>) -> (page: Vec<(String, CouponPayment)>)
    ensures
        owned_page_view(page@) == page_of(state.coupon_payments.entries(), owned_cursor(start_after), limit),
{
    let page = match &start_after {
        Some(id) => state.coupon_payments.page(Some(id), limit),
        None => state.coupon_payments.page(None, limit),
    };
    assert(owned_page_view(page@) =~= page_of(state.coupon_payments.entries(), owned_cursor(start_after), limit));
    page
}

/// One page of the redemption records: those stored after `start_after`, in
/// ascending order of their identifiers, at most `limit` and at most thirty.
pub fn query_all_redemption_records(state: &BondContract, start_after: Option<String>, limit: Option<u32>) -> (page: Vec<(String, RedemptionRecord)>)
    ensures
        owned_page_view(page@) == page_of(state.redemption_records.entries(), owned_cursor(start_after), limit),
{
    let page = match &start_after {
        Some(id) => state.redemption_records.page(Some(id), limit),
        None => state.redemption_records.page(None, limit),
    };
    assert(owned_page_view(page@) =~= page_of(state.redemption_records.entries(), owned_cursor(start_after), limit));
    page
}

/// One page of the recorded transfers: those stored after `start_after`, in
/// ascending order of their identifiers, at most `limit` and at most thirty.
pub fn query_all_bond_transfers(state: &BondContract, start_after: Option<String>, limit: Option<u32>) -> (page: Vec<(String, BondTransfer)>)
    ensures
        owned_page_view(page@) == page_of(state.bond_transfers.entries(), owned_cursor(start_after), limit),
{
    let page = match &start_after {
        Some(id) => state.bond_transfers.page(Some(id), limit),
        None => state.bond_transfers.page(None, limit),
    };
    assert(owned_page_view(page@) =~= page_of(state.bond_transfers.entries(), owned_cursor(start_after), limit));
    page
}

/// One page of the interest calculations: those stored after `start_after`,
/// in ascending order of their identifiers, at most `limit` and at most
/// thirty.
pub fn query_all_interest_calculations(state: &BondContract, start_after: Option<String>, limit: Option<u32>) -> (page: Vec<(String, InterestCalculation)>)
    ensures
        owned_page_view(page@) == page_of(state.interest_calculations.entries(), owned_cursor(start_after), limit),
{
    let page = match &start_after {
        Some(id) => state.interest_calculations.page(Some(id), limit),
        None => state.interest_calculations.page(None, limit),
    };
    assert(owned_page_view(page@) =~= page_of(state.interest_calculations.entries(), owned_cursor(start_after), limit));
    page
}

/// What a holder has of the issue: the balance, which is zero for a holder
/// without an entry in the account book, and the balance at face value,
/// exactly. `NotInitialized` without an aggregate, `Overflow` where the value
/// exceeds the largest decimal.
pub open spec fn bondholder_info_spec(stored: Option<BondInfo>, balances: Map<Seq<char>, u128>, bondholder: String) -> Result<BondholderInfo, ContractError> {
    match stored {
        None => Err(ContractError::NotInitialized),
        Some(info) => match checked_units_spec(balance_in(balances, bondholder@), info.face_value.atomics) {
            None => Err(ContractError::Overflow),
            Some(held) => Ok(BondholderInfo {
                address: bondholder,
                bond_balance: balance_in(balances, bondholder@),
                face_value_held: Decimal { atomics: held },
            }),
        },
    }
}

/// What `bondholder` has of the issue.
pub fn query_bondholder_info(state: &BondContract, bondholder: String) -> (r: Result<BondholderInfo, ContractError>)
    ensures
        r == bondholder_info_spec(state.bond_info@, state.ledger.balances@, bondholder),
{
    let bond_info = match state.bond_info.load() {
        Ok(bond_info) => bond_info,
        Err(e) => {
            return Err(e);
        },
    };
    let balance = state.ledger.balance_of(&bondholder);
    match bond_info.face_value.checked_mul_units(balance) {
        Some(face_value_held) => Ok(BondholderInfo { address: bondholder, bond_balance: balance, face_value_held }),
        None => Err(ContractError::Overflow),
    }
}

/// The principal still owed; `NotInitialized` without an aggregate.
pub fn query_outstanding_principal(state: &BondContract) -> (r: Result<Decimal, ContractError>)
    ensures
        r == match state.bond_info@ {
            Some(info) => Ok::<Decimal, ContractError>(info.outstanding_principal),
            None => Err::<Decimal, ContractError>(ContractError::NotInitialized),
        },
{
    match state.bond_info.load() {
        Ok(bond_info) => Ok(bond_info.outstanding_principal),
        Err(e) => Err(e),
    }
}

/// The interest of one year on what a holder has; it reads the aggregate and
/// the holder's balance, and no lifecycle record.
pub open spec fn holder_interest_spec(stored: Option<BondInfo>, balances: Map<Seq<char>, u128>, bondholder: Seq<char>) -> Result<Decimal, ContractError> {
    match stored {
        None => Err(ContractError::NotInitialized),
        Some(info) => yearly_interest_spec(info.face_value, info.coupon_rate, balance_in(balances, bondholder)),
    }
}

/// The interest of one year on what `bondholder` has: the balance at face
/// value times the coupon rate.
pub fn query_accrued_interest(state: &BondContract, bondholder: String) -> (r: Result<Decimal, ContractError>)
    ensures
        r == holder_interest_spec(state.bond_info@, state.ledger.balances@, bondholder@),
{
    let bond_info = match state.bond_info.load() {
        Ok(bond_info) => bond_info,
        Err(e) => {
            return Err(e);
        },
    };
    let balance = state.ledger.balance_of(&bondholder);
    yearly_interest(bond_info.face_value, bond_info.coupon_rate, balance)
}

/// The date on which the next coupon falls due; `NotInitialized` without an
/// aggregate.
pub fn query_next_coupon_date(state: &BondContract) -> (r: Result<Timestamp, ContractError>)
    ensures
        r == match state.bond_info@ {
            Some(info) => Ok::<Timestamp, ContractError>(info.next_coupon_date),
            None => Err::<Timestamp, ContractError>(ContractError::NotInitialized),
        },
{
    match state.bond_info.load() {
        Ok(bond_info) => Ok(bond_info.next_coupon_date),
        Err(e) => Err(e),
    }
}

/// The yields of the bond, each of them the coupon rate; `NotInitialized`
/// without an aggregate.
pub fn query_bond_yield(state: &BondContract) -> (r: Result<BondYield, ContractError>)
    ensures
        r == match state.bond_info@ {
            Some(info) => Ok::<BondYield, ContractError>(BondYield {
                coupon_rate: info.coupon_rate,
                current_yield: info.coupon_rate,
                yield_to_maturity: info.coupon_rate,
            }),
            None => Err::<BondYield, ContractError>(ContractError::NotInitialized),
        },
{
    match state.bond_info.load() {
        Ok(bond_info) => Ok(BondYield {
            coupon_rate: bond_info.coupon_rate,
            current_yield: bond_info.coupon_rate,
            yield_to_maturity: bond_info.coupon_rate,
        }),
        Err(e) => Err(e),
    }
}

/// What [`instantiate`] does to the state and what it returns.
pub open spec fn instantiate_post(
    pre: BondContract,
    post: BondContract,
    res: Result<Response, ContractError>,
    env: Env,
    info: MessageInfo,
    msg: InstantiateMsg,
) -> bool {
    &&& forwards(res, Cw20ExecuteMsg::Instantiate(msg.cw20_base))
    &&& post.bond_info@ == Some(msg.bond_info)
    &&& post.coupon_payments == pre.coupon_payments
    &&& post.redemption_records == pre.redemption_records
    &&& post.bond_transfers == pre.bond_transfers
    &&& post.interest_calculations == pre.interest_calculations
    &&& post.ledger == pre.ledger
}

/// Sets an instance up: stores the aggregate record as it is given and hands
/// the ledger's setup on to the ledger.
pub fn instantiate(
    state: &mut BondContract,
    env: Env,
    info: MessageInfo,
    msg: InstantiateMsg,
) -> (res: Result<Response, ContractError>)
    ensures
        instantiate_post(*old(state), *final(state), res, env, info, msg),
{
    state.bond_info.save(msg.bond_info);
    forward(Cw20ExecuteMsg::Instantiate(msg.cw20_base))
}

/// What [`execute`] does to the state and what it returns: a command of the
/// ledger is handed on as it is and changes nothing here; a command of the
/// bond does what its transition does.
pub open spec fn execute_post(
    pre: BondContract,
    post: BondContract,
    res: Result<Response, ContractError>,
    env: Env,
    info: MessageInfo,
    msg: ExecuteMsg,
) -> bool {
    match msg {
        ExecuteMsg::Transfer { recipient, amount } => post == pre && forwards(res, Cw20ExecuteMsg::Transfer {
            recipient,
            amount,
        }),
        ExecuteMsg::Burn { amount } => post == pre && forwards(res, Cw20ExecuteMsg::Burn { amount }),
        ExecuteMsg::Send { contract, amount, msg } => post == pre && forwards(res, Cw20ExecuteMsg::Send {
            contract,
            amount,
            msg,
        }),
        ExecuteMsg::IncreaseAllowance { spender, amount, expires } => post == pre && forwards(res,
            Cw20ExecuteMsg::IncreaseAllowance { spender, amount, expires }),
        ExecuteMsg::DecreaseAllowance { spender, amount, expires } => post == pre && forwards(res,
            Cw20ExecuteMsg::DecreaseAllowance { spender, amount, expires }),
        ExecuteMsg::TransferFrom { owner, recipient, amount } => post == pre && forwards(res,
            Cw20ExecuteMsg::TransferFrom { owner, recipient, amount }),
        ExecuteMsg::SendFrom { owner, contract, amount, msg } => post == pre && forwards(res,
            Cw20ExecuteMsg::SendFrom { owner, contract, amount, msg }),
        ExecuteMsg::Mint { recipient, amount } => post == pre && forwards(res, Cw20ExecuteMsg::Mint {
            recipient,
            amount,
        }),
        ExecuteMsg::UpdateMinter { new_minter } => post == pre && forwards(res, Cw20ExecuteMsg::UpdateMinter {
            new_minter,
        }),
        ExecuteMsg::UpdateMarketing { project, description, marketing } => post == pre && forwards(res,
            Cw20ExecuteMsg::UpdateMarketing { project, description, marketing }),
        ExecuteMsg::UploadLogo(logo_info) => post == pre && forwards(res, Cw20ExecuteMsg::UploadLogo(logo_info)),
        ExecuteMsg::PayCoupon {
            payment_id,
            coupon_period_start,
            coupon_period_end,
            coupon_amount,
            principal_amount,
            payment_method,
        } => pay_coupon_post(pre, post, res, env, info, payment_id, coupon_period_start, coupon_period_end,
            coupon_amount, principal_amount, payment_method),
        ExecuteMsg::RedeemBonds { redemption_id, bondholder, bonds_to_redeem, redemption_type, redemption_reason } =>
            redeem_bonds_post(pre, post, res, env, info, redemption_id, bondholder, bonds_to_redeem, redemption_type,
                redemption_reason),
        ExecuteMsg::RecordTransfer {
            transfer_id,
            from,
            to,
            bonds_transferred,
            transfer_price,
            transfer_type,
            transfer_reason,
        } => record_transfer_post(pre, post, res, env, info, transfer_id, from, to, bonds_transferred,
            transfer_price, transfer_type, transfer_reason),
        ExecuteMsg::CalculateInterest { calculation_id, bondholder, bonds_held, days_held, calculation_method } =>
            calculate_interest_post(pre, post, res, env, info, calculation_id, bondholder, bonds_held, days_held,
                calculation_method),
        ExecuteMsg::UpdatePaymentStatus { payment_id, status, transaction_hash } => update_payment_status_post(pre,
            post, res, env, info, payment_id, status, transaction_hash),
        ExecuteMsg::UpdateBondRating { new_rating } => update_bond_rating_post(pre, post, res, env, info, new_rating),
        ExecuteMsg::UpdateCollateralValue { new_collateral_value } => update_collateral_value_post(pre, post, res,
            env, info, new_collateral_value),
    }
}

/// Carries out one command.
pub fn execute(
    state: &mut BondContract,
    env: Env,
    info: MessageInfo,
    msg: ExecuteMsg,
) -> (res: Result<Response, ContractError>)
    ensures
        execute_post(*old(state), *final(state), res, env, info, msg),
{
    match msg {
        ExecuteMsg::Transfer { recipient, amount } => forward(Cw20ExecuteMsg::Transfer { recipient, amount }),
        ExecuteMsg::Burn { amount } => forward(Cw20ExecuteMsg::Burn { amount }),
        ExecuteMsg::Send { contract, amount, msg } => forward(Cw20ExecuteMsg::Send { contract, amount, msg }),
        ExecuteMsg::IncreaseAllowance { spender, amount, expires } => forward(
            Cw20ExecuteMsg::IncreaseAllowance { spender, amount, expires },
        ),
        ExecuteMsg::DecreaseAllowance { spender, amount, expires } => forward(
            Cw20ExecuteMsg::DecreaseAllowance { spender, amount, expires },
        ),
        ExecuteMsg::TransferFrom { owner, recipient, amount } => forward(
            Cw20ExecuteMsg::TransferFrom { owner, recipient, amount },
        ),
        ExecuteMsg::SendFrom { owner, contract, amount, msg } => forward(
            Cw20ExecuteMsg::SendFrom { owner, contract, amount, msg },
        ),
        ExecuteMsg::Mint { recipient, amount } => forward(Cw20ExecuteMsg::Mint { recipient, amount }),
        ExecuteMsg::UpdateMinter { new_minter } => forward(Cw20ExecuteMsg::UpdateMinter { new_minter }),
        ExecuteMsg::UpdateMarketing { project, description, marketing } => forward(
            Cw20ExecuteMsg::UpdateMarketing { project, description, marketing },
        ),
        ExecuteMsg::UploadLogo(logo_info) => forward(Cw20ExecuteMsg::UploadLogo(logo_info)),
        ExecuteMsg::PayCoupon {
            payment_id,
            coupon_period_start,
            coupon_period_end,
            coupon_amount,
            principal_amount,
            payment_method,
        } => pay_coupon(state, env, info, payment_id, coupon_period_start, coupon_period_end, coupon_amount,
            principal_amount, payment_method),
        ExecuteMsg::RedeemBonds { redemption_id, bondholder, bonds_to_redeem, redemption_type, redemption_reason } =>
            redeem_bonds(state, env, info, redemption_id, bondholder, bonds_to_redeem, redemption_type,
                redemption_reason),
        ExecuteMsg::RecordTransfer {
            transfer_id,
            from,
            to,
            bonds_transferred,
            transfer_price,
            transfer_type,
            transfer_reason,
        } => record_transfer(state, env, info, transfer_id, from, to, bonds_transferred, transfer_price,
            transfer_type, transfer_reason),
        ExecuteMsg::CalculateInterest { calculation_id, bondholder, bonds_held, days_held, calculation_method } =>
            calculate_interest(state, env, info, calculation_id, bondholder, bonds_held, days_held,
                calculation_method),
        ExecuteMsg::UpdatePaymentStatus { payment_id, status, transaction_hash } => update_payment_status(state, env,
            info, payment_id, status, transaction_hash),
        ExecuteMsg::UpdateBondRating { new_rating } => update_bond_rating(state, env, info, new_rating),
        ExecuteMsg::UpdateCollateralValue { new_collateral_value } => update_collateral_value(state, env, info,
            new_collateral_value),
    }
}

/// What [`query`] answers. A question of the ledger is handed back for the
/// ledger to answer; a question of the bond is answered from the state.
pub open spec fn query_post(state: BondContract, res: Result<QueryResponse, ContractError>, msg: QueryMsg) -> bool {
    match msg {
        QueryMsg::Balance { address } => res == Ok::<QueryResponse, ContractError>(QueryResponse::Ledger(
            Cw20QueryMsg::Balance { address },
        )),
        QueryMsg::TokenInfo {  } => res == Ok::<QueryResponse, ContractError>(QueryResponse::Ledger(
            Cw20QueryMsg::TokenInfo {  },
        )),
        QueryMsg::Minter {  } => res == Ok::<QueryResponse, ContractError>(QueryResponse::Ledger(
            Cw20QueryMsg::Minter {  },
        )),
        QueryMsg::Allowance { owner, spender } => res == Ok::<QueryResponse, ContractError>(QueryResponse::Ledger(
            Cw20QueryMsg::Allowance { owner, spender },
        )),
        QueryMsg::AllAllowances { owner, start_after, limit } => res == Ok::<QueryResponse, ContractError>(
            QueryResponse::Ledger(Cw20QueryMsg::AllAllowances { owner, start_after, limit }),
        ),
        QueryMsg::AllAccounts { start_after, limit } => res == Ok::<QueryResponse, ContractError>(
            QueryResponse::Ledger(Cw20QueryMsg::AllAccounts { start_after, limit }),
        ),
        QueryMsg::MarketingInfo {  } => res == Ok::<QueryResponse, ContractError>(QueryResponse::Ledger(
            Cw20QueryMsg::MarketingInfo {  },
        )),
        QueryMsg::DownloadLogo {  } => res == Ok::<QueryResponse, ContractError>(QueryResponse::Ledger(
            Cw20QueryMsg::DownloadLogo {  },
        )),
        QueryMsg::BondInfo {  } => res == match state.bond_info@ {
            Some(info) => Ok::<QueryResponse, ContractError>(QueryResponse::BondInfo(info)),
            None => Err::<QueryResponse, ContractError>(ContractError::NotInitialized),
        },
        QueryMsg::CouponPayment { payment_id } => res == match loaded(state.coupon_payments@, payment_id@) {
            Ok(record) => Ok::<QueryResponse, ContractError>(QueryResponse::CouponPayment(record)),
            Err(e) => Err::<QueryResponse, ContractError>(e),
        },
        QueryMsg::AllCouponPayments { start_after, limit } => {
            &&& res matches Ok(QueryResponse::CouponPayments(page))
            &&& owned_page_view(page@) == page_of(state.coupon_payments.entries(), owned_cursor(start_after), limit)
        },
        QueryMsg::RedemptionRecord { redemption_id } => res == match loaded(state.redemption_records@, redemption_id@) {
            Ok(record) => Ok::<QueryResponse, ContractError>(QueryResponse::RedemptionRecord(record)),
            Err(e) => Err::<QueryResponse, ContractError>(e),
        },
        QueryMsg::AllRedemptionRecords { start_after, limit } => {
            &&& res matches Ok(QueryResponse::RedemptionRecords(page))
            &&& owned_page_view(page@) == page_of(state.redemption_records.entries(), owned_cursor(start_after), limit)
        },
        QueryMsg::BondTransfer { transfer_id } => res == match loaded(state.bond_transfers@, transfer_id@) {
            Ok(record) => Ok::<QueryResponse, ContractError>(QueryResponse::BondTransfer(record)),
            Err(e) => Err::<QueryResponse, ContractError>(e),
        },
        QueryMsg::AllBondTransfers { start_after, limit } => {
            &&& res matches Ok(QueryResponse::BondTransfers(page))
            &&& owned_page_view(page@) == page_of(state.bond_transfers.entries(), owned_cursor(start_after), limit)
        },
        QueryMsg::InterestCalculation { calculation_id } => res == match loaded(state.interest_calculations@,
            calculation_id@) {
            Ok(record) => Ok::<QueryResponse, ContractError>(QueryResponse::InterestCalculation(record)),
            Err(e) => Err::<QueryResponse, ContractError>(e),
        },
        QueryMsg::AllInterestCalculations { start_after, limit } => {
            &&& res matches Ok(QueryResponse::InterestCalculations(page))
            &&& owned_page_view(page@) == page_of(state.interest_calculations.entries(), owned_cursor(start_after),
                limit)
        },
        QueryMsg::BondholderInfo { bondholder } => res == match bondholder_info_spec(state.bond_info@,
            state.ledger.balances@, bondholder) {
            Ok(held) => Ok::<QueryResponse, ContractError>(QueryResponse::BondholderInfo(held)),
            Err(e) => Err::<QueryResponse, ContractError>(e),
        },
        QueryMsg::OutstandingPrincipal {  } => res == match state.bond_info@ {
            Some(info) => Ok::<QueryResponse, ContractError>(QueryResponse::OutstandingPrincipal(
                info.outstanding_principal,
            )),
            None => Err::<QueryResponse, ContractError>(ContractError::NotInitialized),
        },
        QueryMsg::AccruedInterest { bondholder } => res == match holder_interest_spec(state.bond_info@,
            state.ledger.balances@, bondholder@) {
            Ok(interest) => Ok::<QueryResponse, ContractError>(QueryResponse::AccruedInterest(interest)),
            Err(e) => Err::<QueryResponse, ContractError>(e),
        },
        QueryMsg::NextCouponDate {  } => res == match state.bond_info@ {
            Some(info) => Ok::<QueryResponse, ContractError>(QueryResponse::NextCouponDate(info.next_coupon_date)),
            None => Err::<QueryResponse, ContractError>(ContractError::NotInitialized),
        },
        QueryMsg::BondYield {  } => res == match state.bond_info@ {
            Some(info) => Ok::<QueryResponse, ContractError>(QueryResponse::BondYield(BondYield {
                coupon_rate: info.coupon_rate,
                current_yield: info.coupon_rate,
                yield_to_maturity: info.coupon_rate,
            })),
            None => Err::<QueryResponse, ContractError>(ContractError::NotInitialized),
        },
    }
}

/// Answers one question. The state is only read.
pub fn query(state: &BondContract, env: Env, msg: QueryMsg) -> (res: Result<QueryResponse, ContractError>)
    ensures
        query_post(*state, res, msg),
{
    match msg {
        QueryMsg::Balance { address } => Ok(QueryResponse::Ledger(Cw20QueryMsg::Balance { address })),
        QueryMsg::TokenInfo {  } => Ok(QueryResponse::Ledger(Cw20QueryMsg::TokenInfo {  })),
        QueryMsg::Minter {  } => Ok(QueryResponse::Ledger(Cw20QueryMsg::Minter {  })),
        QueryMsg::Allowance { owner, spender } => Ok(QueryResponse::Ledger(Cw20QueryMsg::Allowance { owner, spender })),
        QueryMsg::AllAllowances { owner, start_after, limit } => Ok(QueryResponse::Ledger(
            Cw20QueryMsg::AllAllowances { owner, start_after, limit },
        )),
        QueryMsg::AllAccounts { start_after, limit } => Ok(QueryResponse::Ledger(
            Cw20QueryMsg::AllAccounts { start_after, limit },
        )),
        QueryMsg::MarketingInfo {  } => Ok(QueryResponse::Ledger(Cw20QueryMsg::MarketingInfo {  })),
        QueryMsg::DownloadLogo {  } => Ok(QueryResponse::Ledger(Cw20QueryMsg::DownloadLogo {  })),
        QueryMsg::BondInfo {  } => match state.bond_info.load() {
            Ok(bond_info) => Ok(QueryResponse::BondInfo(bond_info.clone())),
            Err(e) => Err(e),
        },
        QueryMsg::CouponPayment { payment_id } => match state.coupon_payments.load(&payment_id) {
            Ok(record) => Ok(QueryResponse::CouponPayment(record.clone())),
            Err(e) => Err(e),
        },
        QueryMsg::AllCouponPayments { start_after, limit } => Ok(QueryResponse::CouponPayments(
            query_all_coupon_payments(state, start_after, limit),
        )),
        QueryMsg::RedemptionRecord { redemption_id } => match state.redemption_records.load(&redemption_id) {
            Ok(record) => Ok(QueryResponse::RedemptionRecord(record.clone())),
            Err(e) => Err(e),
        },
        QueryMsg::AllRedemptionRecords { start_after, limit } => Ok(QueryResponse::RedemptionRecords(
            query_all_redemption_records(state, start_after, limit),
        )),
        QueryMsg::BondTransfer { transfer_id } => match state.bond_transfers.load(&transfer_id) {
            Ok(record) => Ok(QueryResponse::BondTransfer(record.clone())),
            Err(e) => Err(e),
        },
        QueryMsg::AllBondTransfers { start_after, limit } => Ok(QueryResponse::BondTransfers(
            query_all_bond_transfers(state, start_after, limit),
        )),
        QueryMsg::InterestCalculation { calculation_id } => match state.interest_calculations.load(&calculation_id) {
            Ok(record) => Ok(QueryResponse::InterestCalculation(record.clone())),
            Err(e) => Err(e),
        },
        QueryMsg::AllInterestCalculations { start_after, limit } => Ok(QueryResponse::InterestCalculations(
            query_all_interest_calculations(state, start_after, limit),
        )),
        QueryMsg::BondholderInfo { bondholder } => match query_bondholder_info(state, bondholder) {
            Ok(held) => Ok(QueryResponse::BondholderInfo(held)),
            Err(e) => Err(e),
        },
        QueryMsg::OutstandingPrincipal {  } => match query_outstanding_principal(state) {
            Ok(principal) => Ok(QueryResponse::OutstandingPrincipal(principal)),
            Err(e) => Err(e),
        },
        QueryMsg::AccruedInterest { bondholder } => match query_accrued_interest(state, bondholder) {
            Ok(interest) => Ok(QueryResponse::AccruedInterest(interest)),
            Err(e) => Err(e),
        },
        QueryMsg::NextCouponDate {  } => match query_next_coupon_date(state) {
            Ok(date) => Ok(QueryResponse::NextCouponDate(date)),
            Err(e) => Err(e),
        },
        QueryMsg::BondYield {  } => match query_bond_yield(state) {
            Ok(yields) => Ok(QueryResponse::BondYield(yields)),
            Err(e) => Err(e),
        },
    }
}

} // verus!
