use asset_tokens::bond::contract::{
    accrued_interest, calculate_interest, calculate_next_coupon_date, execute, instantiate, pay_coupon, query,
    query_accrued_interest, query_all_bond_transfers, query_all_coupon_payments,
    query_all_interest_calculations, query_all_redemption_records, query_bond_yield, query_bondholder_info,
    query_next_coupon_date, query_outstanding_principal, record_transfer, redeem_bonds, update_bond_rating,
    update_collateral_value, update_payment_status, yearly_interest, BondContract,
};
use asset_tokens::bond::msg::{BondYield, BondholderInfo, ExecuteMsg, InstantiateMsg, QueryMsg, QueryResponse};
use asset_tokens::bond::state::{
    BondInfo, BondRating, BondTransfer, BondType, CalculationMethod, CollateralType, CouponFrequency,
    CouponPayment, InterestCalculation, PaymentMethod, PaymentStatus, RedemptionRecord, RedemptionType,
    TransferType,
};
use asset_tokens::env::{Env, MessageInfo, Timestamp};
use asset_tokens::error::ContractError;
use asset_tokens::ledger::{Cw20ExecuteMsg, Cw20InstantiateMsg, Cw20QueryMsg, Expiration, LogoInfo};
use asset_tokens::math::{Decimal, DECIMAL_FRACTIONAL};
use asset_tokens::response::Attribute;

const DAY: u64 = 86_400;
const START: u64 = 1_700_000_000;

fn whole(units: u128) -> Decimal {
    Decimal::raw(units * DECIMAL_FRACTIONAL)
}

fn five_per_cent() -> Decimal {
    Decimal::raw(50_000_000_000_000_000)
}

fn at(seconds: u64) -> Timestamp {
    Timestamp::from_nanos(seconds * 1_000_000_000)
}

fn env() -> Env {
    Env::new(7, at(START + 5))
}

fn by(sender: &str) -> MessageInfo {
    MessageInfo::new(sender.to_string())
}

fn attr(key: &str, value: &str) -> Attribute {
    Attribute { key: key.to_string(), value: value.to_string() }
}

fn bond_info() -> BondInfo {
    BondInfo {
        bond_id: "bond-1".to_string(),
        bond_name: "Series A".to_string(),
        issuer: "issuer".to_string(),
        bond_type: BondType::Corporate,
        face_value: whole(100),
        total_issue_amount: 1000,
        coupon_rate: five_per_cent(),
        coupon_frequency: CouponFrequency::Quarterly,
        maturity_date: at(START + 3650 * DAY),
        issue_date: at(START),
        currency: "USD".to_string(),
        bond_rating: BondRating::AA,
        collateral_type: CollateralType::RealEstate,
        collateral_value: whole(150_000),
        trustee: "trustee".to_string(),
        paying_agent: "agent".to_string(),
        total_coupons_paid: Decimal::zero(),
        total_principal_repaid: Decimal::zero(),
        outstanding_principal: whole(100_000),
        next_coupon_date: at(START + 90 * DAY),
        accrued_interest: Decimal::zero(),
    }
}

fn ledger_setup() -> Cw20InstantiateMsg {
    Cw20InstantiateMsg {
        name: "Bond".to_string(),
        symbol: "BOND".to_string(),
        decimals: 0,
        initial_balances: vec![],
        mint: None,
        marketing: None,
    }
}

fn fresh() -> BondContract {
    let mut state = BondContract::new();
    let res = instantiate(
        &mut state,
        env(),
        by("creator"),
        InstantiateMsg { cw20_base: ledger_setup(), bond_info: bond_info() },
    );
    assert!(res.is_ok());
    state.ledger.set_balance("holder".to_string(), 500);
    state.ledger.set_balance("other".to_string(), 500);
    state.ledger.set_total_supply(1000);
    state
}

fn pay(state: &mut BondContract, sender: &str, id: &str, coupon: Decimal, principal: Decimal) -> Result<asset_tokens::response::Response, ContractError> {
    pay_coupon(
        state,
        env(),
        by(sender),
        id.to_string(),
        at(START),
        at(START + 90 * DAY),
        coupon,
        principal,
        PaymentMethod::BankTransfer,
    )
}

fn redeem(state: &mut BondContract, id: &str, holder: &str, bonds: u128) -> Result<asset_tokens::response::Response, ContractError> {
    redeem_bonds(
        state,
        env(),
        by("anyone"),
        id.to_string(),
        holder.to_string(),
        bonds,
        RedemptionType::EarlyRedemption,
        "called".to_string(),
    )
}

#[test]
fn new_state_is_not_initialized() {
    let state = BondContract::new();
    assert_eq!(query(&state, env(), QueryMsg::BondInfo {}), Err(ContractError::NotInitialized));
    assert_eq!(query_outstanding_principal(&state), Err(ContractError::NotInitialized));
    assert_eq!(query_next_coupon_date(&state), Err(ContractError::NotInitialized));
    assert_eq!(query_bond_yield(&state), Err(ContractError::NotInitialized));
    assert_eq!(query_bondholder_info(&state, "holder".to_string()), Err(ContractError::NotInitialized));
    assert_eq!(query_accrued_interest(&state, "holder".to_string()), Err(ContractError::NotInitialized));
}

#[test]
fn instantiate_stores_the_aggregate_and_hands_on_the_setup() {
    let mut state = BondContract::new();
    let res = instantiate(
        &mut state,
        env(),
        by("creator"),
        InstantiateMsg { cw20_base: ledger_setup(), bond_info: bond_info() },
    )
    .unwrap();
    assert!(res.attributes.is_empty());
    assert_eq!(res.messages, vec![Cw20ExecuteMsg::Instantiate(ledger_setup())]);
    assert_eq!(query(&state, env(), QueryMsg::BondInfo {}), Ok(QueryResponse::BondInfo(bond_info())));
    assert_eq!(state.bond_info.load(), Ok(&bond_info()));
}

#[test]
fn transitions_before_setup_are_not_initialized() {
    let mut state = BondContract::new();
    state.ledger.set_balance("holder".to_string(), 5);
    state.ledger.set_total_supply(5);
    let before = state.clone();
    assert_eq!(pay(&mut state, "agent", "p", whole(1), whole(1)), Err(ContractError::NotInitialized));
    assert_eq!(redeem(&mut state, "r", "holder", 1), Err(ContractError::NotInitialized));
    assert_eq!(
        calculate_interest(&mut state, env(), by("x"), "c".to_string(), "holder".to_string(), 1, 1,
            CalculationMethod::Actual365),
        Err(ContractError::NotInitialized)
    );
    assert_eq!(update_bond_rating(&mut state, env(), by("issuer"), BondRating::A), Err(ContractError::NotInitialized));
    assert_eq!(
        update_collateral_value(&mut state, env(), by("trustee"), whole(1)),
        Err(ContractError::NotInitialized)
    );
    assert_eq!(state, before);
}

#[test]
fn pay_coupon_scenario() {
    let mut state = fresh();
    let res = pay(&mut state, "agent", "pay-1", whole(500), whole(1000)).unwrap();
    assert_eq!(
        res.attributes,
        vec![attr("action", "pay_coupon"), attr("payment_id", "pay-1"), attr("total_payment", "1500")]
    );
    assert!(res.messages.is_empty());
    let info = state.bond_info.load().unwrap();
    assert_eq!(info.outstanding_principal, whole(99_000));
    assert_eq!(info.total_coupons_paid, whole(500));
    assert_eq!(info.total_principal_repaid, whole(1000));
    assert_eq!(info.next_coupon_date, at(START + 180 * DAY));
    let expected = BondInfo {
        outstanding_principal: whole(99_000),
        total_coupons_paid: whole(500),
        total_principal_repaid: whole(1000),
        next_coupon_date: at(START + 180 * DAY),
        ..bond_info()
    };
    assert_eq!(info, &expected);
    let record = state.coupon_payments.load(&"pay-1".to_string()).unwrap();
    assert_eq!(
        record,
        &CouponPayment {
            payment_id: "pay-1".to_string(),
            payment_date: at(START + 5),
            coupon_period_start: at(START),
            coupon_period_end: at(START + 90 * DAY),
            coupon_amount: whole(500),
            principal_amount: whole(1000),
            total_payment: whole(1500),
            payment_status: PaymentStatus::Paid,
            payment_method: PaymentMethod::BankTransfer,
            transaction_hash: None,
        }
    );
    assert_eq!(
        query(&state, env(), QueryMsg::CouponPayment { payment_id: "pay-1".to_string() }),
        Ok(QueryResponse::CouponPayment(record.clone()))
    );
    assert_eq!(query_outstanding_principal(&state), Ok(whole(99_000)));
    assert_eq!(query_next_coupon_date(&state), Ok(at(START + 180 * DAY)));
}

#[test]
fn pay_coupon_conserves_principal() {
    let mut state = fresh();
    let before = state.bond_info.load().unwrap().clone();
    pay(&mut state, "agent", "pay-1", whole(10), Decimal::raw(123_456_789)).unwrap();
    pay(&mut state, "agent", "pay-2", whole(10), whole(99_999)).unwrap();
    let after = state.bond_info.load().unwrap();
    assert_eq!(
        after.outstanding_principal.atomics + after.total_principal_repaid.atomics,
        before.outstanding_principal.atomics + before.total_principal_repaid.atomics
    );
    assert_eq!(after.total_coupons_paid, whole(20));
}

#[test]
fn pay_coupon_by_another_is_unauthorized() {
    let mut state = fresh();
    let before = state.clone();
    for sender in ["issuer", "trustee", "holder", "", "Agent", "agent "] {
        assert_eq!(pay(&mut state, sender, "pay-1", whole(500), whole(1000)), Err(ContractError::Unauthorized));
        assert_eq!(state, before);
    }
    assert_eq!(
        pay(&mut state, "issuer", "pay-1", whole(500), whole(200_000)),
        Err(ContractError::Unauthorized)
    );
    assert_eq!(state, before);
}

#[test]
fn pay_coupon_beyond_outstanding_is_refused() {
    let mut state = fresh();
    let before = state.clone();
    assert_eq!(
        pay(&mut state, "agent", "pay-1", whole(500), Decimal::raw(whole(100_000).atomics + 1)),
        Err(ContractError::Overflow)
    );
    assert_eq!(state, before);
    assert_eq!(state.coupon_payments.load(&"pay-1".to_string()), Err(ContractError::NotFound));
    assert!(pay(&mut state, "agent", "pay-1", whole(500), whole(100_000)).is_ok());
    assert_eq!(query_outstanding_principal(&state), Ok(Decimal::zero()));
}

#[test]
fn pay_coupon_total_out_of_range_is_refused() {
    let mut state = fresh();
    let before = state.clone();
    assert_eq!(
        pay(&mut state, "agent", "pay-1", Decimal::raw(u128::MAX), Decimal::raw(1)),
        Err(ContractError::Overflow)
    );
    assert_eq!(state, before);
    assert!(pay(&mut state, "agent", "pay-1", Decimal::raw(u128::MAX), Decimal::zero()).is_ok());
    let again = state.clone();
    assert_eq!(pay(&mut state, "agent", "pay-2", Decimal::raw(1), Decimal::zero()), Err(ContractError::Overflow));
    assert_eq!(state, again);
}

#[test]
fn pay_coupon_under_same_id_replaces_the_record() {
    let mut state = fresh();
    pay(&mut state, "agent", "pay-1", whole(1), whole(2)).unwrap();
    pay(&mut state, "agent", "pay-1", whole(3), whole(4)).unwrap();
    assert_eq!(state.coupon_payments.len(), 1);
    assert_eq!(state.coupon_payments.load(&"pay-1".to_string()).unwrap().coupon_amount, whole(3));
    assert_eq!(state.bond_info.load().unwrap().total_coupons_paid, whole(4));
}

#[test]
fn next_coupon_date_moves_by_fixed_days() {
    let current = Timestamp::from_nanos(START * 1_000_000_000 + 123_456_789);
    assert_eq!(calculate_next_coupon_date(current, &CouponFrequency::Monthly), Ok(at(START + 30 * DAY)));
    assert_eq!(calculate_next_coupon_date(current, &CouponFrequency::Quarterly), Ok(at(START + 90 * DAY)));
    assert_eq!(calculate_next_coupon_date(current, &CouponFrequency::SemiAnnually), Ok(at(START + 180 * DAY)));
    assert_eq!(calculate_next_coupon_date(current, &CouponFrequency::Annually), Ok(at(START + 365 * DAY)));
    assert_eq!(calculate_next_coupon_date(current, &CouponFrequency::AtMaturity), Ok(current));
    assert_eq!(
        calculate_next_coupon_date(at(START), &CouponFrequency::Monthly),
        Ok(Timestamp::from_nanos(1_702_592_000_000_000_000))
    );
}

#[test]
fn next_coupon_date_out_of_range_is_refused() {
    let latest = Timestamp::from_nanos(u64::MAX);
    assert_eq!(calculate_next_coupon_date(latest, &CouponFrequency::Monthly), Err(ContractError::Overflow));
    assert_eq!(calculate_next_coupon_date(latest, &CouponFrequency::AtMaturity), Ok(latest));
    let mut state = BondContract::new();
    let info = BondInfo { next_coupon_date: latest, ..bond_info() };
    instantiate(&mut state, env(), by("creator"), InstantiateMsg { cw20_base: ledger_setup(), bond_info: info })
        .unwrap();
    let before = state.clone();
    assert_eq!(pay(&mut state, "agent", "pay-1", whole(1), whole(1)), Err(ContractError::Overflow));
    assert_eq!(state, before);
}

#[test]
fn redeem_bonds_burns_and_records() {
    let mut state = fresh();
    let res = redeem(&mut state, "red-1", "holder", 400).unwrap();
    assert_eq!(
        res.attributes,
        vec![
            attr("action", "redeem_bonds"),
            attr("redemption_id", "red-1"),
            attr("bonds_redeemed", "400"),
            attr("redemption_value", "40000"),
        ]
    );
    assert!(res.messages.is_empty());
    assert_eq!(state.ledger.balance_of(&"holder".to_string()), 100);
    assert_eq!(state.ledger.balance_of(&"other".to_string()), 500);
    assert_eq!(state.ledger.total_supply(), 600);
    let info = state.bond_info.load().unwrap();
    assert_eq!(info.outstanding_principal, whole(60_000));
    assert_eq!(info.total_principal_repaid, whole(40_000));
    assert_eq!(
        state.redemption_records.load(&"red-1".to_string()),
        Ok(&RedemptionRecord {
            redemption_id: "red-1".to_string(),
            redemption_date: at(START + 5),
            bondholder: "holder".to_string(),
            bonds_redeemed: 400,
            redemption_value: whole(40_000),
            redemption_type: RedemptionType::EarlyRedemption,
            redemption_reason: "called".to_string(),
            transaction_hash: None,
        })
    );
}

#[test]
fn redeem_bonds_value_is_exact() {
    let mut state = BondContract::new();
    let info = BondInfo { face_value: Decimal::raw(1_250_000_000_000_000_001), ..bond_info() };
    instantiate(&mut state, env(), by("creator"), InstantiateMsg { cw20_base: ledger_setup(), bond_info: info })
        .unwrap();
    state.ledger.set_balance("holder".to_string(), 3);
    state.ledger.set_total_supply(3);
    redeem(&mut state, "red-1", "holder", 3).unwrap();
    assert_eq!(
        state.redemption_records.load(&"red-1".to_string()).unwrap().redemption_value,
        Decimal::raw(3_750_000_000_000_000_003)
    );
}

#[test]
fn redeem_bonds_refusals_change_nothing() {
    let mut state = fresh();
    let before = state.clone();
    assert_eq!(
        redeem(&mut state, "red-1", "nobody", 1),
        Err(ContractError::InsufficientFunds { needed: 1, available: 0 })
    );
    assert_eq!(state, before);
    assert_eq!(
        redeem(&mut state, "red-1", "holder", 501),
        Err(ContractError::InsufficientFunds { needed: 501, available: 500 })
    );
    assert_eq!(state, before);
    state.ledger.set_total_supply(100);
    let low_supply = state.clone();
    assert_eq!(redeem(&mut state, "red-1", "holder", 101), Err(ContractError::Overflow));
    assert_eq!(state, low_supply);
    assert_eq!(state.redemption_records.len(), 0);
}

#[test]
fn redeem_bonds_beyond_outstanding_is_refused() {
    let mut state = fresh();
    pay(&mut state, "agent", "pay-1", whole(0), whole(99_950)).unwrap();
    let before = state.clone();
    assert_eq!(redeem(&mut state, "red-1", "holder", 1), Err(ContractError::Overflow));
    assert_eq!(state, before);
    assert_eq!(state.ledger.balance_of(&"holder".to_string()), 500);
}

#[test]
fn redeem_bonds_value_out_of_range_is_refused() {
    let mut state = BondContract::new();
    let info = BondInfo { face_value: Decimal::raw(u128::MAX), ..bond_info() };
    instantiate(&mut state, env(), by("creator"), InstantiateMsg { cw20_base: ledger_setup(), bond_info: info })
        .unwrap();
    state.ledger.set_balance("holder".to_string(), 3);
    state.ledger.set_total_supply(3);
    let before = state.clone();
    assert_eq!(redeem(&mut state, "red-1", "holder", 2), Err(ContractError::Overflow));
    assert_eq!(state, before);
}

#[test]
fn record_transfer_writes_evidence_only() {
    let mut state = fresh();
    let before = state.clone();
    let res = record_transfer(
        &mut state,
        env(),
        by("anyone"),
        "tr-1".to_string(),
        "holder".to_string(),
        "other".to_string(),
        25,
        whole(98),
        TransferType::Sale,
        "secondary market".to_string(),
    )
    .unwrap();
    assert_eq!(
        res.attributes,
        vec![attr("action", "record_transfer"), attr("transfer_id", "tr-1"), attr("bonds_transferred", "25")]
    );
    assert_eq!(
        state.bond_transfers.load(&"tr-1".to_string()),
        Ok(&BondTransfer {
            transfer_id: "tr-1".to_string(),
            transfer_date: at(START + 5),
            from: "holder".to_string(),
            to: "other".to_string(),
            bonds_transferred: 25,
            transfer_price: whole(98),
            transfer_type: TransferType::Sale,
            transfer_reason: "secondary market".to_string(),
        })
    );
    assert_eq!(state.bond_info, before.bond_info);
    assert_eq!(state.ledger, before.ledger);
    assert_eq!(state.coupon_payments, before.coupon_payments);
}

#[test]
fn interest_formulas() {
    let face = whole(100);
    let rate = five_per_cent();
    assert_eq!(yearly_interest(face, rate, 10), Ok(whole(50)));
    assert_eq!(
        accrued_interest(face, rate, 10, 30, CalculationMethod::SimpleInterest),
        Ok(Decimal::raw(4_109_589_041_095_890_400))
    );
    assert_eq!(
        accrued_interest(face, rate, 10, 30, CalculationMethod::Actual365),
        Ok(Decimal::raw(4_109_589_041_095_890_400))
    );
    assert_eq!(
        accrued_interest(face, rate, 10, 30, CalculationMethod::Actual360),
        Ok(Decimal::raw(4_166_666_666_666_666_650))
    );
    assert_eq!(
        accrued_interest(face, rate, 10, 30, CalculationMethod::Thirty360),
        Ok(Decimal::raw(4_166_666_666_666_666_650))
    );
    assert_eq!(accrued_interest(face, rate, 10, 365, CalculationMethod::Actual365), Ok(whole(50)));
    assert_eq!(accrued_interest(face, rate, 10, 0, CalculationMethod::Actual365), Ok(Decimal::zero()));
}

#[test]
fn compound_interest_is_zero() {
    assert_eq!(
        accrued_interest(whole(100), five_per_cent(), 10, 30, CalculationMethod::CompoundInterest),
        Ok(Decimal::zero())
    );
    assert_eq!(
        accrued_interest(Decimal::raw(u128::MAX), Decimal::raw(u128::MAX), u128::MAX, u32::MAX,
            CalculationMethod::CompoundInterest),
        Ok(Decimal::zero())
    );
}

#[test]
fn interest_out_of_range_is_refused() {
    assert_eq!(
        accrued_interest(Decimal::raw(u128::MAX), five_per_cent(), 2, 30, CalculationMethod::Actual365),
        Err(ContractError::Overflow)
    );
    assert_eq!(
        accrued_interest(Decimal::raw(u128::MAX), whole(2), 1, 30, CalculationMethod::Actual365),
        Err(ContractError::Overflow)
    );
    assert_eq!(
        accrued_interest(Decimal::raw(u128::MAX), whole(1), 1, 730, CalculationMethod::Actual365),
        Err(ContractError::Overflow)
    );
}

#[test]
fn calculate_interest_records_the_calculation() {
    let mut state = fresh();
    let before = state.clone();
    let res = calculate_interest(
        &mut state,
        env(),
        by("anyone"),
        "calc-1".to_string(),
        "holder".to_string(),
        10,
        365,
        CalculationMethod::Actual365,
    )
    .unwrap();
    assert_eq!(
        res.attributes,
        vec![attr("action", "calculate_interest"), attr("calculation_id", "calc-1"), attr("accrued_interest", "50")]
    );
    assert_eq!(
        state.interest_calculations.load(&"calc-1".to_string()),
        Ok(&InterestCalculation {
            calculation_id: "calc-1".to_string(),
            calculation_date: at(START + 5),
            bondholder: "holder".to_string(),
            bonds_held: 10,
            days_held: 365,
            accrued_interest: whole(50),
            coupon_rate: five_per_cent(),
            calculation_method: CalculationMethod::Actual365,
        })
    );
    assert_eq!(state.bond_info, before.bond_info);
    assert_eq!(state.ledger, before.ledger);
}

#[test]
fn calculate_interest_out_of_range_changes_nothing() {
    let mut state = fresh();
    let before = state.clone();
    assert_eq!(
        calculate_interest(&mut state, env(), by("anyone"), "calc-1".to_string(), "holder".to_string(), u128::MAX,
            30, CalculationMethod::Actual360),
        Err(ContractError::Overflow)
    );
    assert_eq!(state, before);
    let res = calculate_interest(&mut state, env(), by("anyone"), "calc-1".to_string(), "holder".to_string(),
        u128::MAX, 30, CalculationMethod::CompoundInterest);
    assert!(res.is_ok());
    assert_eq!(state.interest_calculations.load(&"calc-1".to_string()).unwrap().accrued_interest, Decimal::zero());
}

#[test]
fn update_payment_status_changes_status_and_hash_only() {
    let mut state = fresh();
    pay(&mut state, "agent", "pay-1", whole(500), whole(1000)).unwrap();
    let aggregate = state.bond_info.clone();
    let before = state.coupon_payments.load(&"pay-1".to_string()).unwrap().clone();
    let res = update_payment_status(
        &mut state,
        env(),
        by("anyone"),
        "pay-1".to_string(),
        PaymentStatus::Failed,
        Some("0xabc".to_string()),
    )
    .unwrap();
    assert_eq!(
        res.attributes,
        vec![attr("action", "update_payment_status"), attr("payment_id", "pay-1"), attr("status", "Failed")]
    );
    let expected = CouponPayment {
        payment_status: PaymentStatus::Failed,
        transaction_hash: Some("0xabc".to_string()),
        ..before
    };
    assert_eq!(state.coupon_payments.load(&"pay-1".to_string()), Ok(&expected));
    assert_eq!(state.bond_info, aggregate);
    update_payment_status(&mut state, env(), by("anyone"), "pay-1".to_string(), PaymentStatus::Cancelled, None)
        .unwrap();
    let record = state.coupon_payments.load(&"pay-1".to_string()).unwrap();
    assert_eq!(record.payment_status, PaymentStatus::Cancelled);
    assert_eq!(record.transaction_hash, None);
}

#[test]
fn update_payment_status_of_missing_payment_is_not_found() {
    let mut state = fresh();
    let before = state.clone();
    assert_eq!(
        update_payment_status(&mut state, env(), by("agent"), "pay-9".to_string(), PaymentStatus::Paid, None),
        Err(ContractError::NotFound)
    );
    assert_eq!(state, before);
}

#[test]
fn status_and_rating_names() {
    assert_eq!(PaymentStatus::Pending.name(), "Pending");
    assert_eq!(PaymentStatus::Paid.name(), "Paid");
    assert_eq!(PaymentStatus::Failed.name(), "Failed");
    assert_eq!(PaymentStatus::Cancelled.name(), "Cancelled");
    for rating in [
        BondRating::AAA,
        BondRating::AA,
        BondRating::A,
        BondRating::BBB,
        BondRating::BB,
        BondRating::B,
        BondRating::CCC,
        BondRating::CC,
        BondRating::C,
        BondRating::D,
        BondRating::Unrated,
    ] {
        assert_eq!(rating.name(), format!("{:?}", rating));
    }
}

#[test]
fn update_bond_rating_by_issuer_or_trustee() {
    let mut state = fresh();
    let res = update_bond_rating(&mut state, env(), by("issuer"), BondRating::BBB).unwrap();
    assert_eq!(res.attributes, vec![attr("action", "update_bond_rating"), attr("new_rating", "BBB")]);
    assert_eq!(state.bond_info.load(), Ok(&BondInfo { bond_rating: BondRating::BBB, ..bond_info() }));
    update_bond_rating(&mut state, env(), by("trustee"), BondRating::D).unwrap();
    assert_eq!(state.bond_info.load().unwrap().bond_rating, BondRating::D);
    let before = state.clone();
    assert_eq!(update_bond_rating(&mut state, env(), by("agent"), BondRating::AAA), Err(ContractError::Unauthorized));
    assert_eq!(state, before);
}

#[test]
fn update_collateral_value_by_trustee_only() {
    let mut state = fresh();
    let res = update_collateral_value(&mut state, env(), by("trustee"), Decimal::raw(2_500_000_000_000_000_000))
        .unwrap();
    assert_eq!(
        res.attributes,
        vec![attr("action", "update_collateral_value"), attr("new_collateral_value", "2.5")]
    );
    assert_eq!(
        state.bond_info.load(),
        Ok(&BondInfo { collateral_value: Decimal::raw(2_500_000_000_000_000_000), ..bond_info() })
    );
    let before = state.clone();
    assert_eq!(update_collateral_value(&mut state, env(), by("issuer"), whole(1)), Err(ContractError::Unauthorized));
    assert_eq!(state, before);
}

#[test]
fn execute_hands_ledger_commands_on() {
    let mut state = fresh();
    let before = state.clone();
    let commands = vec![
        (
            ExecuteMsg::Transfer { recipient: "other".to_string(), amount: 5 },
            Cw20ExecuteMsg::Transfer { recipient: "other".to_string(), amount: 5 },
        ),
        (ExecuteMsg::Burn { amount: 6 }, Cw20ExecuteMsg::Burn { amount: 6 }),
        (
            ExecuteMsg::Send { contract: "c".to_string(), amount: 7, msg: vec![1, 2, 3] },
            Cw20ExecuteMsg::Send { contract: "c".to_string(), amount: 7, msg: vec![1, 2, 3] },
        ),
        (
            ExecuteMsg::IncreaseAllowance { spender: "s".to_string(), amount: 8, expires: Some(Expiration::AtHeight(9)) },
            Cw20ExecuteMsg::IncreaseAllowance {
                spender: "s".to_string(),
                amount: 8,
                expires: Some(Expiration::AtHeight(9)),
            },
        ),
        (
            ExecuteMsg::DecreaseAllowance { spender: "s".to_string(), amount: 8, expires: Some(Expiration::Never) },
            Cw20ExecuteMsg::DecreaseAllowance { spender: "s".to_string(), amount: 8, expires: Some(Expiration::Never) },
        ),
        (
            ExecuteMsg::TransferFrom { owner: "o".to_string(), recipient: "r".to_string(), amount: 10 },
            Cw20ExecuteMsg::TransferFrom { owner: "o".to_string(), recipient: "r".to_string(), amount: 10 },
        ),
        (
            ExecuteMsg::SendFrom { owner: "o".to_string(), contract: "c".to_string(), amount: 11, msg: vec![] },
            Cw20ExecuteMsg::SendFrom { owner: "o".to_string(), contract: "c".to_string(), amount: 11, msg: vec![] },
        ),
        (
            ExecuteMsg::Mint { recipient: "r".to_string(), amount: 12 },
            Cw20ExecuteMsg::Mint { recipient: "r".to_string(), amount: 12 },
        ),
        (
            ExecuteMsg::UpdateMinter { new_minter: Some("m".to_string()) },
            Cw20ExecuteMsg::UpdateMinter { new_minter: Some("m".to_string()) },
        ),
        (
            ExecuteMsg::UpdateMarketing { project: Some("p".to_string()), description: None, marketing: None },
            Cw20ExecuteMsg::UpdateMarketing { project: Some("p".to_string()), description: None, marketing: None },
        ),
        (
            ExecuteMsg::UploadLogo(LogoInfo { url: Some("u".to_string()), upload: None }),
            Cw20ExecuteMsg::UploadLogo(LogoInfo { url: Some("u".to_string()), upload: None }),
        ),
    ];
    for (msg, expected) in commands {
        let res = execute(&mut state, env(), by("holder"), msg).unwrap();
        assert!(res.attributes.is_empty());
        assert_eq!(res.messages, vec![expected]);
        assert_eq!(state, before);
    }
}

#[test]
fn execute_runs_the_transitions() {
    let mut state = fresh();
    let res = execute(
        &mut state,
        env(),
        by("agent"),
        ExecuteMsg::PayCoupon {
            payment_id: "pay-1".to_string(),
            coupon_period_start: at(START),
            coupon_period_end: at(START + 90 * DAY),
            coupon_amount: whole(500),
            principal_amount: whole(1000),
            payment_method: PaymentMethod::Escrow,
        },
    )
    .unwrap();
    assert_eq!(res.attributes[0], attr("action", "pay_coupon"));
    execute(
        &mut state,
        env(),
        by("anyone"),
        ExecuteMsg::RedeemBonds {
            redemption_id: "red-1".to_string(),
            bondholder: "holder".to_string(),
            bonds_to_redeem: 10,
            redemption_type: RedemptionType::Maturity,
            redemption_reason: "due".to_string(),
        },
    )
    .unwrap();
    execute(
        &mut state,
        env(),
        by("anyone"),
        ExecuteMsg::RecordTransfer {
            transfer_id: "tr-1".to_string(),
            from: "holder".to_string(),
            to: "other".to_string(),
            bonds_transferred: 1,
            transfer_price: whole(1),
            transfer_type: TransferType::Gift,
            transfer_reason: String::new(),
        },
    )
    .unwrap();
    execute(
        &mut state,
        env(),
        by("anyone"),
        ExecuteMsg::CalculateInterest {
            calculation_id: "calc-1".to_string(),
            bondholder: "holder".to_string(),
            bonds_held: 1,
            days_held: 1,
            calculation_method: CalculationMethod::Thirty360,
        },
    )
    .unwrap();
    execute(
        &mut state,
        env(),
        by("anyone"),
        ExecuteMsg::UpdatePaymentStatus {
            payment_id: "pay-1".to_string(),
            status: PaymentStatus::Pending,
            transaction_hash: None,
        },
    )
    .unwrap();
    execute(&mut state, env(), by("issuer"), ExecuteMsg::UpdateBondRating { new_rating: BondRating::CCC }).unwrap();
    execute(
        &mut state,
        env(),
        by("trustee"),
        ExecuteMsg::UpdateCollateralValue { new_collateral_value: whole(9) },
    )
    .unwrap();
    let info = state.bond_info.load().unwrap();
    assert_eq!(info.outstanding_principal, whole(98_000));
    assert_eq!(info.total_principal_repaid, whole(2_000));
    assert_eq!(info.bond_rating, BondRating::CCC);
    assert_eq!(info.collateral_value, whole(9));
    assert_eq!(state.coupon_payments.load(&"pay-1".to_string()).unwrap().payment_status, PaymentStatus::Pending);
    assert_eq!(state.redemption_records.len(), 1);
    assert_eq!(state.bond_transfers.len(), 1);
    assert_eq!(state.interest_calculations.len(), 1);
    assert_eq!(state.ledger.balance_of(&"holder".to_string()), 490);
    assert_eq!(
        execute(&mut state, env(), by("holder"), ExecuteMsg::UpdateBondRating { new_rating: BondRating::AAA }),
        Err(ContractError::Unauthorized)
    );
}

#[test]
fn query_hands_ledger_questions_back() {
    let state = fresh();
    assert_eq!(
        query(&state, env(), QueryMsg::Balance { address: "holder".to_string() }),
        Ok(QueryResponse::Ledger(Cw20QueryMsg::Balance { address: "holder".to_string() }))
    );
    assert_eq!(query(&state, env(), QueryMsg::TokenInfo {}), Ok(QueryResponse::Ledger(Cw20QueryMsg::TokenInfo {})));
    assert_eq!(query(&state, env(), QueryMsg::Minter {}), Ok(QueryResponse::Ledger(Cw20QueryMsg::Minter {})));
    assert_eq!(
        query(&state, env(), QueryMsg::Allowance { owner: "o".to_string(), spender: "s".to_string() }),
        Ok(QueryResponse::Ledger(Cw20QueryMsg::Allowance { owner: "o".to_string(), spender: "s".to_string() }))
    );
    assert_eq!(
        query(&state, env(), QueryMsg::AllAllowances { owner: "o".to_string(), start_after: None, limit: Some(3) }),
        Ok(QueryResponse::Ledger(Cw20QueryMsg::AllAllowances {
            owner: "o".to_string(),
            start_after: None,
            limit: Some(3),
        }))
    );
    assert_eq!(
        query(&state, env(), QueryMsg::AllAccounts { start_after: Some("a".to_string()), limit: None }),
        Ok(QueryResponse::Ledger(Cw20QueryMsg::AllAccounts { start_after: Some("a".to_string()), limit: None }))
    );
    assert_eq!(
        query(&state, env(), QueryMsg::MarketingInfo {}),
        Ok(QueryResponse::Ledger(Cw20QueryMsg::MarketingInfo {}))
    );
    assert_eq!(
        query(&state, env(), QueryMsg::DownloadLogo {}),
        Ok(QueryResponse::Ledger(Cw20QueryMsg::DownloadLogo {}))
    );
}

#[test]
fn point_queries_miss_with_not_found() {
    let state = fresh();
    assert_eq!(
        query(&state, env(), QueryMsg::CouponPayment { payment_id: "x".to_string() }),
        Err(ContractError::NotFound)
    );
    assert_eq!(
        query(&state, env(), QueryMsg::RedemptionRecord { redemption_id: "x".to_string() }),
        Err(ContractError::NotFound)
    );
    assert_eq!(
        query(&state, env(), QueryMsg::BondTransfer { transfer_id: "x".to_string() }),
        Err(ContractError::NotFound)
    );
    assert_eq!(
        query(&state, env(), QueryMsg::InterestCalculation { calculation_id: "x".to_string() }),
        Err(ContractError::NotFound)
    );
}

#[test]
fn list_queries_page_through_the_payments() {
    let mut state = fresh();
    for n in 0..45 {
        pay(&mut state, "agent", &format!("pay-{:03}", n), whole(1), Decimal::zero()).unwrap();
    }
    let first = query_all_coupon_payments(&state, None, Some(1000));
    assert_eq!(first.len(), 30);
    assert_eq!(first[0].0, "pay-000");
    assert_eq!(first[29].0, "pay-029");
    assert_eq!(first[3].1, state.coupon_payments.load(&"pay-003".to_string()).unwrap().clone());
    let second = query_all_coupon_payments(&state, Some(first[29].0.clone()), Some(30));
    assert_eq!(second.len(), 15);
    assert_eq!(second[0].0, "pay-030");
    assert_eq!(second[14].0, "pay-044");
    let small = query_all_coupon_payments(&state, Some("pay-010".to_string()), Some(2));
    assert_eq!(small.iter().map(|e| e.0.clone()).collect::<Vec<String>>(), vec!["pay-011", "pay-012"]);
    match query(&state, env(), QueryMsg::AllCouponPayments { start_after: None, limit: None }) {
        Ok(QueryResponse::CouponPayments(page)) => assert_eq!(page, first),
        other => panic!("unexpected answer: {:?}", other),
    }
    assert!(query_all_redemption_records(&state, None, None).is_empty());
    assert!(query_all_bond_transfers(&state, None, None).is_empty());
    assert!(query_all_interest_calculations(&state, None, None).is_empty());
}

#[test]
fn other_list_queries() {
    let mut state = fresh();
    redeem(&mut state, "red-b", "holder", 1).unwrap();
    redeem(&mut state, "red-a", "other", 2).unwrap();
    let page = query_all_redemption_records(&state, None, None);
    assert_eq!(page.len(), 2);
    assert_eq!(page[0].0, "red-a");
    assert_eq!(page[0].1.bonds_redeemed, 2);
    assert_eq!(page[1].0, "red-b");
    match query(&state, env(), QueryMsg::AllRedemptionRecords { start_after: Some("red-a".to_string()), limit: None }) {
        Ok(QueryResponse::RedemptionRecords(page)) => {
            assert_eq!(page.len(), 1);
            assert_eq!(page[0].0, "red-b");
        },
        other => panic!("unexpected answer: {:?}", other),
    }
    match query(&state, env(), QueryMsg::AllBondTransfers { start_after: None, limit: None }) {
        Ok(QueryResponse::BondTransfers(page)) => assert!(page.is_empty()),
        other => panic!("unexpected answer: {:?}", other),
    }
    match query(&state, env(), QueryMsg::AllInterestCalculations { start_after: None, limit: None }) {
        Ok(QueryResponse::InterestCalculations(page)) => assert!(page.is_empty()),
        other => panic!("unexpected answer: {:?}", other),
    }
}

#[test]
fn derived_queries() {
    let state = fresh();
    assert_eq!(
        query_bondholder_info(&state, "holder".to_string()),
        Ok(BondholderInfo { address: "holder".to_string(), bond_balance: 500, face_value_held: whole(50_000) })
    );
    assert_eq!(
        query_bondholder_info(&state, "nobody".to_string()),
        Ok(BondholderInfo { address: "nobody".to_string(), bond_balance: 0, face_value_held: Decimal::zero() })
    );
    assert_eq!(query_accrued_interest(&state, "holder".to_string()), Ok(whole(2_500)));
    assert_eq!(query_accrued_interest(&state, "nobody".to_string()), Ok(Decimal::zero()));
    assert_eq!(query_outstanding_principal(&state), Ok(whole(100_000)));
    assert_eq!(query_next_coupon_date(&state), Ok(at(START + 90 * DAY)));
    let yields = BondYield {
        coupon_rate: five_per_cent(),
        current_yield: five_per_cent(),
        yield_to_maturity: five_per_cent(),
    };
    assert_eq!(query_bond_yield(&state), Ok(yields));
    assert_eq!(
        query(&state, env(), QueryMsg::BondholderInfo { bondholder: "other".to_string() }),
        Ok(QueryResponse::BondholderInfo(BondholderInfo {
            address: "other".to_string(),
            bond_balance: 500,
            face_value_held: whole(50_000),
        }))
    );
    assert_eq!(
        query(&state, env(), QueryMsg::OutstandingPrincipal {}),
        Ok(QueryResponse::OutstandingPrincipal(whole(100_000)))
    );
    assert_eq!(
        query(&state, env(), QueryMsg::AccruedInterest { bondholder: "holder".to_string() }),
        Ok(QueryResponse::AccruedInterest(whole(2_500)))
    );
    assert_eq!(
        query(&state, env(), QueryMsg::NextCouponDate {}),
        Ok(QueryResponse::NextCouponDate(at(START + 90 * DAY)))
    );
    assert_eq!(query(&state, env(), QueryMsg::BondYield {}), Ok(QueryResponse::BondYield(yields)));
}

#[test]
fn queries_do_not_change_the_state() {
    let mut state = fresh();
    pay(&mut state, "agent", "pay-1", whole(1), whole(1)).unwrap();
    let before = state.clone();
    let _ = query(&state, env(), QueryMsg::BondInfo {});
    let _ = query(&state, env(), QueryMsg::AllCouponPayments { start_after: None, limit: Some(5) });
    let _ = query(&state, env(), QueryMsg::BondholderInfo { bondholder: "holder".to_string() });
    assert_eq!(state, before);
}
