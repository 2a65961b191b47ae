use asset_tokens::carbon_credit::contract::{
    execute, instantiate, query, query_all_retirement_records, query_all_verification_records,
    query_available_credits, query_retired_credits, retire_credits, update_verification_status, verify_credits,
    CarbonCreditContract,
};
use asset_tokens::carbon_credit::msg::{ExecuteMsg, InstantiateMsg, QueryMsg, QueryResponse};
use asset_tokens::carbon_credit::state::{CarbonCreditInfo, RetirementRecord, VerificationRecord, VerificationStatus};
use asset_tokens::env::{Env, MessageInfo, Timestamp};
use asset_tokens::error::ContractError;
use asset_tokens::ledger::{Cw20ExecuteMsg, Cw20InstantiateMsg, Cw20QueryMsg};
use asset_tokens::math::Decimal;
use asset_tokens::response::{Attribute, Response};

fn now() -> Timestamp {
    Timestamp::from_nanos(1_700_000_000_000_000_000)
}

fn env() -> Env {
    Env::new(3, now())
}

fn by(sender: &str) -> MessageInfo {
    MessageInfo::new(sender.to_string())
}

fn attr(key: &str, value: &str) -> Attribute {
    Attribute { key: key.to_string(), value: value.to_string() }
}

fn project() -> CarbonCreditInfo {
    CarbonCreditInfo {
        project_id: "proj-1".to_string(),
        project_name: "Forest".to_string(),
        project_type: "forest_conservation".to_string(),
        verification_standard: "VCS".to_string(),
        vintage_year: 2024,
        country: "BR".to_string(),
        total_credits_issued: 0,
        credits_retired: 0,
        credits_available: 0,
        co2_equivalent_per_credit: Decimal::one(),
        verification_body: "verifier".to_string(),
        project_developer: "developer".to_string(),
    }
}

fn ledger_setup() -> Cw20InstantiateMsg {
    Cw20InstantiateMsg {
        name: "Credit".to_string(),
        symbol: "CO2".to_string(),
        decimals: 0,
        initial_balances: vec![],
        mint: None,
        marketing: None,
    }
}

fn with_project(info: CarbonCreditInfo) -> CarbonCreditContract {
    let mut state = CarbonCreditContract::new();
    instantiate(
        &mut state,
        env(),
        by("creator"),
        InstantiateMsg { cw20_base: ledger_setup(), carbon_credit_info: info },
    )
    .unwrap();
    state.ledger.set_balance("holder".to_string(), 500);
    state.ledger.set_balance("other".to_string(), 700);
    state.ledger.set_total_supply(1200);
    state
}

fn fresh() -> CarbonCreditContract {
    with_project(project())
}

fn verify(state: &mut CarbonCreditContract, sender: &str, id: &str, credits: u128) -> Result<Response, ContractError> {
    verify_credits(state, env(), by(sender), id.to_string(), credits, "https://report".to_string())
}

fn retire(state: &mut CarbonCreditContract, sender: &str, id: &str, credits: u128) -> Result<Response, ContractError> {
    retire_credits(state, env(), by(sender), id.to_string(), credits, "offset".to_string(), "https://cert".to_string())
}

#[test]
fn carbon_instantiate_stores_the_aggregate() {
    let mut state = CarbonCreditContract::new();
    assert_eq!(query_available_credits(&state), Err(ContractError::NotInitialized));
    assert_eq!(query_retired_credits(&state), Err(ContractError::NotInitialized));
    assert_eq!(query(&state, env(), QueryMsg::CarbonCreditInfo {}), Err(ContractError::NotInitialized));
    let res = instantiate(
        &mut state,
        env(),
        by("creator"),
        InstantiateMsg { cw20_base: ledger_setup(), carbon_credit_info: project() },
    )
    .unwrap();
    assert!(res.attributes.is_empty());
    assert_eq!(res.messages, vec![Cw20ExecuteMsg::Instantiate(ledger_setup())]);
    assert_eq!(query(&state, env(), QueryMsg::CarbonCreditInfo {}), Ok(QueryResponse::CarbonCreditInfo(project())));
}

#[test]
fn carbon_transitions_before_setup_are_not_initialized() {
    let mut state = CarbonCreditContract::new();
    state.ledger.set_balance("holder".to_string(), 5);
    state.ledger.set_total_supply(5);
    let before = state.clone();
    assert_eq!(verify(&mut state, "verifier", "v", 1), Err(ContractError::NotInitialized));
    assert_eq!(retire(&mut state, "holder", "r", 1), Err(ContractError::NotInitialized));
    assert_eq!(
        update_verification_status(&mut state, env(), by("verifier"), "v".to_string(), VerificationStatus::Expired),
        Err(ContractError::NotInitialized)
    );
    assert_eq!(state, before);
}

#[test]
fn verify_then_retire_scenario() {
    let mut state = fresh();
    let res = verify(&mut state, "verifier", "ver-1", 1000).unwrap();
    assert_eq!(
        res.attributes,
        vec![attr("action", "verify_credits"), attr("verification_id", "ver-1"), attr("credits_verified", "1000")]
    );
    assert!(res.messages.is_empty());
    let info = state.carbon_credit_info.load().unwrap();
    assert_eq!(info.total_credits_issued, 1000);
    assert_eq!(info.credits_available, 1000);
    assert_eq!(info.credits_retired, 0);
    assert_eq!(
        state.verification_records.load(&"ver-1".to_string()),
        Ok(&VerificationRecord {
            verification_id: "ver-1".to_string(),
            verification_date: now(),
            credits_verified: 1000,
            verification_body: "verifier".to_string(),
            verification_report_url: "https://report".to_string(),
            status: VerificationStatus::Verified,
        })
    );

    let res = retire(&mut state, "holder", "ret-1", 400).unwrap();
    assert_eq!(
        res.attributes,
        vec![
            attr("action", "retire_credits"),
            attr("retirement_id", "ret-1"),
            attr("credits_retired", "400"),
            attr("retirement_entity", "holder"),
        ]
    );
    assert!(res.messages.is_empty());
    let info = state.carbon_credit_info.load().unwrap();
    assert_eq!(info.credits_retired, 400);
    assert_eq!(info.credits_available, 600);
    assert_eq!(info.total_credits_issued, 1000);
    assert_eq!(
        info,
        &CarbonCreditInfo { total_credits_issued: 1000, credits_retired: 400, credits_available: 600, ..project() }
    );
    assert_eq!(state.ledger.balance_of(&"holder".to_string()), 100);
    assert_eq!(state.ledger.balance_of(&"other".to_string()), 700);
    assert_eq!(state.ledger.total_supply(), 800);
    assert_eq!(
        state.retirement_records.load(&"ret-1".to_string()),
        Ok(&RetirementRecord {
            retirement_id: "ret-1".to_string(),
            retirement_date: now(),
            credits_retired: 400,
            retirement_purpose: "offset".to_string(),
            retirement_entity: "holder".to_string(),
            retirement_certificate_url: "https://cert".to_string(),
        })
    );
    assert_eq!(query_available_credits(&state), Ok(600));
    assert_eq!(query_retired_credits(&state), Ok(400));
}

#[test]
fn credits_are_conserved() {
    let mut state = fresh();
    verify(&mut state, "verifier", "ver-1", 300).unwrap();
    verify(&mut state, "verifier", "ver-2", 200).unwrap();
    retire(&mut state, "holder", "ret-1", 120).unwrap();
    retire(&mut state, "other", "ret-2", 80).unwrap();
    let info = state.carbon_credit_info.load().unwrap();
    assert_eq!(info.total_credits_issued, 500);
    assert_eq!(info.credits_available + info.credits_retired, info.total_credits_issued);
    assert_eq!(info.credits_retired, 200);
    assert_eq!(state.ledger.total_supply(), 1000);
}

#[test]
fn verify_by_another_is_unauthorized() {
    let mut state = fresh();
    let before = state.clone();
    for sender in ["developer", "holder", "", "Verifier"] {
        assert_eq!(verify(&mut state, sender, "ver-1", 1000), Err(ContractError::Unauthorized));
        assert_eq!(verify(&mut state, sender, "ver-1", u128::MAX), Err(ContractError::Unauthorized));
        assert_eq!(state, before);
    }
}

#[test]
fn verify_out_of_range_is_refused() {
    let mut state = fresh();
    verify(&mut state, "verifier", "ver-1", u128::MAX).unwrap();
    let before = state.clone();
    assert_eq!(verify(&mut state, "verifier", "ver-2", 1), Err(ContractError::Overflow));
    assert_eq!(state, before);
    assert_eq!(state.verification_records.len(), 1);
    let mut uneven = with_project(CarbonCreditInfo { credits_available: 5, ..project() });
    let before = uneven.clone();
    assert_eq!(verify(&mut uneven, "verifier", "ver-1", u128::MAX - 4), Err(ContractError::Overflow));
    assert_eq!(uneven, before);
}

#[test]
fn retire_refusals_change_nothing() {
    let mut state = fresh();
    verify(&mut state, "verifier", "ver-1", 1000).unwrap();
    let before = state.clone();
    assert_eq!(
        retire(&mut state, "nobody", "ret-1", 1),
        Err(ContractError::InsufficientFunds { needed: 1, available: 0 })
    );
    assert_eq!(state, before);
    assert_eq!(
        retire(&mut state, "holder", "ret-1", 501),
        Err(ContractError::InsufficientFunds { needed: 501, available: 500 })
    );
    assert_eq!(state, before);
    assert_eq!(state.retirement_records.len(), 0);
}

#[test]
fn retire_by_a_caller_who_never_held_credits() {
    let mut state = fresh();
    verify(&mut state, "verifier", "ver-1", 1000).unwrap();
    let before = state.clone();
    for credits in [1u128, 400, u128::MAX] {
        assert_eq!(
            retire(&mut state, "newcomer", "ret-1", credits),
            Err(ContractError::InsufficientFunds { needed: credits, available: 0 })
        );
        assert_eq!(state, before);
    }
    assert_eq!(state.retirement_records.len(), 0);
    assert_eq!(query_available_credits(&state), Ok(1000));
}

#[test]
fn retire_more_than_available_is_refused() {
    let mut state = fresh();
    verify(&mut state, "verifier", "ver-1", 300).unwrap();
    let before = state.clone();
    assert_eq!(retire(&mut state, "holder", "ret-1", 301), Err(ContractError::Overflow));
    assert_eq!(state, before);
    assert_eq!(state.ledger.balance_of(&"holder".to_string()), 500);
    assert_eq!(state.ledger.total_supply(), 1200);
    assert!(retire(&mut state, "holder", "ret-1", 300).is_ok());
    assert_eq!(query_available_credits(&state), Ok(0));
}

#[test]
fn retire_beyond_supply_is_refused() {
    let mut state = fresh();
    verify(&mut state, "verifier", "ver-1", 1000).unwrap();
    state.ledger.set_total_supply(10);
    let before = state.clone();
    assert_eq!(retire(&mut state, "holder", "ret-1", 11), Err(ContractError::Overflow));
    assert_eq!(state, before);
}

#[test]
fn retire_with_retired_total_out_of_range_is_refused() {
    let mut state = with_project(CarbonCreditInfo { credits_retired: u128::MAX, credits_available: 10, ..project() });
    let before = state.clone();
    assert_eq!(retire(&mut state, "holder", "ret-1", 1), Err(ContractError::Overflow));
    assert_eq!(state, before);
}

#[test]
fn update_verification_status_changes_the_status_only() {
    let mut state = fresh();
    verify(&mut state, "verifier", "ver-1", 1000).unwrap();
    let aggregate = state.carbon_credit_info.clone();
    let res = update_verification_status(
        &mut state,
        env(),
        by("verifier"),
        "ver-1".to_string(),
        VerificationStatus::Rejected,
    )
    .unwrap();
    assert_eq!(
        res.attributes,
        vec![
            attr("action", "update_verification_status"),
            attr("verification_id", "ver-1"),
            attr("status", "Rejected"),
        ]
    );
    let record = state.verification_records.load(&"ver-1".to_string()).unwrap();
    assert_eq!(record.status, VerificationStatus::Rejected);
    assert_eq!(record.credits_verified, 1000);
    assert_eq!(record.verification_report_url, "https://report");
    assert_eq!(state.carbon_credit_info, aggregate);
}

#[test]
fn update_verification_status_refusals() {
    let mut state = fresh();
    verify(&mut state, "verifier", "ver-1", 1000).unwrap();
    let before = state.clone();
    assert_eq!(
        update_verification_status(&mut state, env(), by("holder"), "ver-1".to_string(), VerificationStatus::Expired),
        Err(ContractError::Unauthorized)
    );
    assert_eq!(
        update_verification_status(&mut state, env(), by("holder"), "ver-9".to_string(), VerificationStatus::Expired),
        Err(ContractError::Unauthorized)
    );
    assert_eq!(
        update_verification_status(&mut state, env(), by("verifier"), "ver-9".to_string(), VerificationStatus::Expired),
        Err(ContractError::NotFound)
    );
    assert_eq!(state, before);
}

#[test]
fn verification_status_names() {
    for status in [
        VerificationStatus::Pending,
        VerificationStatus::Verified,
        VerificationStatus::Rejected,
        VerificationStatus::Expired,
    ] {
        assert_eq!(status.name(), format!("{:?}", status));
    }
}

#[test]
fn carbon_execute_dispatches() {
    let mut state = fresh();
    let before = state.clone();
    let res = execute(&mut state, env(), by("holder"), ExecuteMsg::Burn { amount: 5 }).unwrap();
    assert_eq!(res.messages, vec![Cw20ExecuteMsg::Burn { amount: 5 }]);
    let res = execute(
        &mut state,
        env(),
        by("holder"),
        ExecuteMsg::Transfer { recipient: "other".to_string(), amount: 5 },
    )
    .unwrap();
    assert_eq!(res.messages, vec![Cw20ExecuteMsg::Transfer { recipient: "other".to_string(), amount: 5 }]);
    assert_eq!(state, before);
    execute(
        &mut state,
        env(),
        by("verifier"),
        ExecuteMsg::VerifyCredits {
            verification_id: "ver-1".to_string(),
            credits_to_verify: 50,
            verification_report_url: "u".to_string(),
        },
    )
    .unwrap();
    execute(
        &mut state,
        env(),
        by("other"),
        ExecuteMsg::RetireCredits {
            retirement_id: "ret-1".to_string(),
            credits_to_retire: 20,
            retirement_purpose: "p".to_string(),
            retirement_certificate_url: "c".to_string(),
        },
    )
    .unwrap();
    execute(
        &mut state,
        env(),
        by("verifier"),
        ExecuteMsg::UpdateVerificationStatus { verification_id: "ver-1".to_string(), status: VerificationStatus::Pending },
    )
    .unwrap();
    assert_eq!(query_available_credits(&state), Ok(30));
    assert_eq!(query_retired_credits(&state), Ok(20));
    assert_eq!(state.ledger.balance_of(&"other".to_string()), 680);
    assert_eq!(state.verification_records.load(&"ver-1".to_string()).unwrap().status, VerificationStatus::Pending);
}

#[test]
fn carbon_queries() {
    let mut state = fresh();
    for n in 0..35 {
        verify(&mut state, "verifier", &format!("ver-{:02}", n), 10).unwrap();
    }
    retire(&mut state, "holder", "ret-1", 5).unwrap();
    let first = query_all_verification_records(&state, None, Some(1000));
    assert_eq!(first.len(), 30);
    let second = query_all_verification_records(&state, Some(first[29].0.clone()), Some(1000));
    assert_eq!(second.len(), 5);
    assert_eq!(second[0].0, "ver-30");
    assert_eq!(query_all_retirement_records(&state, None, None).len(), 1);
    assert_eq!(query_all_retirement_records(&state, Some("ret-1".to_string()), None).len(), 0);
    assert_eq!(
        query(&state, env(), QueryMsg::Balance { address: "holder".to_string() }),
        Ok(QueryResponse::Ledger(Cw20QueryMsg::Balance { address: "holder".to_string() }))
    );
    assert_eq!(query(&state, env(), QueryMsg::AvailableCredits {}), Ok(QueryResponse::AvailableCredits(345)));
    assert_eq!(query(&state, env(), QueryMsg::RetiredCredits {}), Ok(QueryResponse::RetiredCredits(5)));
    assert_eq!(
        query(&state, env(), QueryMsg::RetirementRecord { retirement_id: "ret-1".to_string() }),
        Ok(QueryResponse::RetirementRecord(state.retirement_records.load(&"ret-1".to_string()).unwrap().clone()))
    );
    assert_eq!(
        query(&state, env(), QueryMsg::VerificationRecord { verification_id: "nope".to_string() }),
        Err(ContractError::NotFound)
    );
    match query(&state, env(), QueryMsg::AllVerificationRecords { start_after: None, limit: Some(2) }) {
        Ok(QueryResponse::VerificationRecords(page)) => {
            assert_eq!(page.len(), 2);
            assert_eq!(page[1].0, "ver-01");
        },
        other => panic!("unexpected answer: {:?}", other),
    }
    match query(&state, env(), QueryMsg::AllRetirementRecords { start_after: None, limit: None }) {
        Ok(QueryResponse::RetirementRecords(page)) => assert_eq!(page.len(), 1),
        other => panic!("unexpected answer: {:?}", other),
    }
}
