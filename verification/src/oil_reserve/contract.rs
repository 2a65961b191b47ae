//! The reserve's state and its transitions.
//!
//! Every transition reads the aggregate record, checks the caller's role and
//! the preconditions, computes what is to be written, and only then writes.
//! A transition that is refused has written nothing.

use vstd::prelude::*;
use crate::env::{Env, MessageInfo, Timestamp};
use crate::error::ContractError;
use crate::ledger::{Cw20ExecuteMsg, Cw20QueryMsg, Ledger};
use crate::math::{amount_text, amount_to_text, checked_mul_floor_spec, checked_units_spec, decimal_text, Decimal};
use crate::oil_reserve::msg::{ExecuteMsg, InstantiateMsg, QualityMetrics, QueryMsg, QueryResponse};
use crate::oil_reserve::state::{
    AuditStatus, ExtractionMethod, ExtractionRecord, OilReserveInfo, ReserveAudit, TradeStatus,
    TradeType, TradingRecord,
};
use crate::response::{forward, forwards, Response};
use crate::store::{loaded, owned_cursor, owned_page_view, page_of, saved, Item, RecordStore};

verus! {

/// Everything an oil reserve instance stores.
#[derive(Clone, Debug, PartialEq, Eq)]
pub struct OilReserveContract {
    /// The aggregate record.
    pub oil_reserve_info: Item<OilReserveInfo>,
    pub extraction_records: RecordStore<ExtractionRecord>,
    pub reserve_audits: RecordStore<ReserveAudit>,
    pub trading_records: RecordStore<TradingRecord>,
    /// The account book of the ledger that the reserve tokens live in.
    pub ledger: Ledger,
}

impl OilReserveContract {
    /// The state of an instance before it is set up: no aggregate record, no
    /// lifecycle records, an empty account book.
    pub fn new() -> (r: OilReserveContract)
        ensures
            r.oil_reserve_info@ is None,
            r.extraction_records@ == Map::<Seq<char>, ExtractionRecord>::empty(),
            r.reserve_audits@ == Map::<Seq<char>, ReserveAudit>::empty(),
            r.trading_records@ == Map::<Seq<char>, TradingRecord>::empty(),
            r.ledger.balances@ == Map::<Seq<char>, u128>::empty(),
            r.ledger.total_supply == 0,
    {
        OilReserveContract {
            oil_reserve_info: Item::new(),
            extraction_records: RecordStore::new(),
            reserve_audits: RecordStore::new(),
            trading_records: RecordStore::new(),
            ledger: Ledger::new(),
        }
    }
}

/// The aggregate after `barrels` are extracted, and the tokens to be minted
/// for them: the barrels move from the available to the extracted, and the
/// tokens are the barrels times the tokens per barrel, rounded down.
/// `CapacityExceeded` where more would be extracted than is available;
/// `Overflow` where the tokens or the extracted total would leave their
/// range.
pub open spec fn extraction_update(info: OilReserveInfo, barrels: u128) -> Result<(OilReserveInfo, u128), ContractError> {
    if barrels > info.available_barrels {
        Err(ContractError::CapacityExceeded { requested: barrels, available: info.available_barrels })
    } else {
        match checked_mul_floor_spec(barrels, info.barrels_per_token.atomics) {
            None => Err(ContractError::Overflow),
            Some(tokens) => if info.extracted_barrels + barrels > u128::MAX {
                Err(ContractError::Overflow)
            } else {
                Ok((OilReserveInfo {
                    extracted_barrels: (info.extracted_barrels + barrels) as u128,
                    available_barrels: (info.available_barrels - barrels) as u128,
                    ..info
                }, tokens))
            },
        }
    }
}

/// What an extraction decides: the aggregate and the record to be written
/// and the tokens to be minted, or why it is refused. Only the extraction
/// company may record an extraction.
pub open spec fn record_extraction_outcome(
    stored: Option<OilReserveInfo>,
    env: Env,
    sender: String,
    extraction_id: String,
    barrels_extracted: u128,
    extraction_method: ExtractionMethod,
    environmental_impact_score: Decimal,
    carbon_footprint_per_barrel: Decimal,
    extraction_cost_per_barrel: Decimal,
    quality_certificate_url: String,
) -> Result<(OilReserveInfo, ExtractionRecord, u128), ContractError> {
    match stored {
        None => Err(ContractError::NotInitialized),
        Some(info) => if sender@ != info.extraction_company@ {
            Err(ContractError::Unauthorized)
        } else {
            match extraction_update(info, barrels_extracted) {
                Err(e) => Err(e),
                Ok((updated, tokens)) => Ok((updated, ExtractionRecord {
                    extraction_id,
                    extraction_date: env.block.time,
                    barrels_extracted,
                    extraction_method,
                    extraction_company: sender,
                    environmental_impact_score,
                    carbon_footprint_per_barrel,
                    extraction_cost_per_barrel,
                    quality_certificate_url,
                }, tokens)),
            }
        },
    }
}

/// What [`record_extraction`] does to the state and what it returns.
pub open spec fn record_extraction_post(
    pre: OilReserveContract,
    post: OilReserveContract,
    res: Result<Response, ContractError>,
    env: Env,
    info: MessageInfo,
    extraction_id: String,
    barrels_extracted: u128,
    extraction_method: ExtractionMethod,
    environmental_impact_score: Decimal,
    carbon_footprint_per_barrel: Decimal,
    extraction_cost_per_barrel: Decimal,
    quality_certificate_url: String,
) -> bool {
    match record_extraction_outcome(pre.oil_reserve_info@, env, info.sender, extraction_id, barrels_extracted,
        extraction_method, environmental_impact_score, carbon_footprint_per_barrel, extraction_cost_per_barrel,
        quality_certificate_url) {
        Err(e) => res == Err::<Response, ContractError>(e) && post == pre,
        Ok((updated, record, tokens)) => {
            &&& res is Ok
            &&& res->Ok_0.summary() =~= seq![
                ("action"@, "record_extraction"@),
                ("extraction_id"@, extraction_id@),
                ("barrels_extracted"@, amount_text(barrels_extracted)),
                ("tokens_minted"@, amount_text(tokens)),
            ]
            &&& res->Ok_0.messages@ =~= seq![Cw20ExecuteMsg::Mint { recipient: info.sender, amount: tokens }]
            &&& post.oil_reserve_info@ == Some(updated)
            &&& post.extraction_records@ == saved(pre.extraction_records@, extraction_id@, record)
            &&& post.reserve_audits == pre.reserve_audits
            &&& post.trading_records == pre.trading_records
            &&& post.ledger == pre.ledger
        },
    }
}

/// Records an extraction. Only the extraction company may do so. Writes an
/// [`ExtractionRecord`] under `extraction_id`, moves the barrels from the
/// available to the extracted barrels of the aggregate, and issues the
/// command that mints the tokens for them to the caller.
pub fn record_extraction(
    state: &mut OilReserveContract,
    env: Env,
    info: MessageInfo,
    extraction_id: String,
    barrels_extracted: u128,
    extraction_method: ExtractionMethod,
    environmental_impact_score: Decimal,
    carbon_footprint_per_barrel: Decimal,
    extraction_cost_per_barrel: Decimal,
    quality_certificate_url: String,
) -> (res: Result<Response, ContractError>)
    ensures
        record_extraction_post(*old(state), *final(state), res, env, info, extraction_id, barrels_extracted,
            extraction_method, environmental_impact_score, carbon_footprint_per_barrel,
            extraction_cost_per_barrel, quality_certificate_url),
{
    let oil_reserve_info = match state.oil_reserve_info.load() {
        Ok(oil_reserve_info) => oil_reserve_info,
        Err(e) => {
            return Err(e);
        },
    };
    if info.sender != oil_reserve_info.extraction_company {
        return Err(ContractError::Unauthorized);
    }
    if barrels_extracted > oil_reserve_info.available_barrels {
        return Err(
            ContractError::CapacityExceeded {
                requested: barrels_extracted,
                available: oil_reserve_info.available_barrels,
            },
        );
    }
    let tokens_to_mint = match oil_reserve_info.barrels_per_token.checked_mul_floor(barrels_extracted) {
        Some(tokens) => tokens,
        None => {
            return Err(ContractError::Overflow);
        },
    };
    let extracted_barrels = match oil_reserve_info.extracted_barrels.checked_add(barrels_extracted) {
        Some(total) => total,
        None => {
            return Err(ContractError::Overflow);
        },
    };
    let mut updated_info = oil_reserve_info.clone();
    updated_info.extracted_barrels = extracted_barrels;
    updated_info.available_barrels = oil_reserve_info.available_barrels - barrels_extracted;
    let extraction_record = ExtractionRecord {
        extraction_id: extraction_id.clone(),
        extraction_date: env.block.time,
        barrels_extracted,
        extraction_method,
        extraction_company: info.sender.clone(),
        environmental_impact_score,
        carbon_footprint_per_barrel,
        extraction_cost_per_barrel,
        quality_certificate_url,
    };
    state.extraction_records.save(extraction_id.clone(), extraction_record);
    state.oil_reserve_info.save(updated_info);
    Ok(Response::new()
        .add_attribute("action", "record_extraction".to_string())
        .add_attribute("extraction_id", extraction_id)
        .add_attribute("barrels_extracted", amount_to_text(barrels_extracted))
        .add_attribute("tokens_minted", amount_to_text(tokens_to_mint))
        .add_message(Cw20ExecuteMsg::Mint { recipient: info.sender, amount: tokens_to_mint }))
}

/// What an audit decides: the record to be written, or why it is refused.
/// Only the reserve auditor may audit. The audit starts out pending.
pub open spec fn conduct_reserve_audit_outcome(
    stored: Option<OilReserveInfo>,
    env: Env,
    sender: String,
    audit_id: String,
    audited_reserves: u128,
    audit_report_url: String,
    reserve_quality_grade: String,
    extraction_feasibility_score: Decimal,
) -> Result<ReserveAudit, ContractError> {
    match stored {
        None => Err(ContractError::NotInitialized),
        Some(info) => if sender@ != info.reserve_auditor@ {
            Err(ContractError::Unauthorized)
        } else {
            Ok(ReserveAudit {
                audit_id,
                audit_date: env.block.time,
                auditor: sender,
                audited_reserves,
                audit_report_url,
                audit_status: AuditStatus::Pending,
                reserve_quality_grade,
                extraction_feasibility_score,
            })
        },
    }
}

/// What [`conduct_reserve_audit`] does to the state and what it returns.
pub open spec fn conduct_reserve_audit_post(
    pre: OilReserveContract,
    post: OilReserveContract,
    res: Result<Response, ContractError>,
    env: Env,
    info: MessageInfo,
    audit_id: String,
    audited_reserves: u128,
    audit_report_url: String,
    reserve_quality_grade: String,
    extraction_feasibility_score: Decimal,
) -> bool {
    match conduct_reserve_audit_outcome(pre.oil_reserve_info@, env, info.sender, audit_id, audited_reserves,
        audit_report_url, reserve_quality_grade, extraction_feasibility_score) {
        Err(e) => res == Err::<Response, ContractError>(e) && post == pre,
        Ok(record) => {
            &&& res is Ok
            &&& res->Ok_0.summary() =~= seq![
                ("action"@, "conduct_reserve_audit"@),
                ("audit_id"@, audit_id@),
                ("audited_reserves"@, amount_text(audited_reserves)),
            ]
            &&& res->Ok_0.messages@.len() == 0
            &&& post.reserve_audits@ == saved(pre.reserve_audits@, audit_id@, record)
            &&& post.oil_reserve_info == pre.oil_reserve_info
            &&& post.extraction_records == pre.extraction_records
            &&& post.trading_records == pre.trading_records
            &&& post.ledger == pre.ledger
        },
    }
}

/// Writes down an audit of the reserve under `audit_id`, as pending. Only
/// the reserve auditor may do so. The aggregate does not change.
pub fn conduct_reserve_audit(
    state: &mut OilReserveContract,
    env: Env,
    info: MessageInfo,
    audit_id: String,
    audited_reserves: u128,
    audit_report_url: String,
    reserve_quality_grade: String,
    extraction_feasibility_score: Decimal,
) -> (res: Result<Response, ContractError>)
    ensures
        conduct_reserve_audit_post(*old(state), *final(state), res, env, info, audit_id, audited_reserves,
            audit_report_url, reserve_quality_grade, extraction_feasibility_score),
{
    let oil_reserve_info = match state.oil_reserve_info.load() {
        Ok(oil_reserve_info) => oil_reserve_info,
        Err(e) => {
            return Err(e);
        },
    };
    if info.sender != oil_reserve_info.reserve_auditor {
        return Err(ContractError::Unauthorized);
    }
    let audit_record = ReserveAudit {
        audit_id: audit_id.clone(),
        audit_date: env.block.time,
        auditor: info.sender,
        audited_reserves,
        audit_report_url,
        audit_status: AuditStatus::Pending,
        reserve_quality_grade,
        extraction_feasibility_score,
    };
    state.reserve_audits.save(audit_id.clone(), audit_record);
    Ok(Response::new()
        .add_attribute("action", "conduct_reserve_audit".to_string())
        .add_attribute("audit_id", audit_id)
        .add_attribute("audited_reserves", amount_to_text(audited_reserves)))
}

/// What a change of an audit's status decides: the record to be written, or
/// why it is refused. Only the reserve auditor may change it.
pub open spec fn update_audit_status_outcome(
    stored: Option<OilReserveInfo>,
    records: Map<Seq<char>, ReserveAudit>,
    sender: Seq<char>,
    audit_id: Seq<char>,
    status: AuditStatus,
) -> Result<ReserveAudit, ContractError> {
    match stored {
        None => Err(ContractError::NotInitialized),
        Some(info) => if sender != info.reserve_auditor@ {
            Err(ContractError::Unauthorized)
        } else {
            match loaded(records, audit_id) {
                Err(e) => Err(e),
                Ok(record) => Ok(ReserveAudit { audit_status: status, ..record }),
            }
        },
    }
}

/// What [`update_audit_status`] does to the state and what it returns.
pub open spec fn update_audit_status_post(
    pre: OilReserveContract,
    post: OilReserveContract,
    res: Result<Response, ContractError>,
    env: Env,
    info: MessageInfo,
    audit_id: String,
    status: AuditStatus,
) -> bool {
    match update_audit_status_outcome(pre.oil_reserve_info@, pre.reserve_audits@, info.sender@, audit_id@, status) {
        Err(e) => res == Err::<Response, ContractError>(e) && post == pre,
        Ok(record) => {
            &&& res is Ok
            &&& res->Ok_0.summary() =~= seq![
                ("action"@, "update_audit_status"@),
                ("audit_id"@, audit_id@),
                ("status"@, status.spec_name()),
            ]
            &&& res->Ok_0.messages@.len() == 0
            &&& post.reserve_audits@ == saved(pre.reserve_audits@, audit_id@, record)
            &&& post.oil_reserve_info == pre.oil_reserve_info
            &&& post.extraction_records == pre.extraction_records
            &&& post.trading_records == pre.trading_records
            &&& post.ledger == pre.ledger
        },
    }
}

/// Sets the status of the audit stored under `audit_id`. Only the reserve
/// auditor may do so; `NotFound` where there is no such record. Nothing else
/// of the record changes, and the aggregate is not touched.
pub fn update_audit_status(
    state: &mut OilReserveContract,
    env: Env,
    info: MessageInfo,
    audit_id: String,
    status: AuditStatus,
) -> (res: Result<Response, ContractError>)
    ensures
        update_audit_status_post(*old(state), *final(state), res, env, info, audit_id, status),
{
    let oil_reserve_info = match state.oil_reserve_info.load() {
        Ok(oil_reserve_info) => oil_reserve_info,
        Err(e) => {
            return Err(e);
        },
    };
    if info.sender != oil_reserve_info.reserve_auditor {
        return Err(ContractError::Unauthorized);
    }
    let mut audit_record = match state.reserve_audits.load(&audit_id) {
        Ok(record) => record.clone(),
        Err(e) => {
            return Err(e);
        },
    };
    audit_record.audit_status = status;
    state.reserve_audits.save(audit_id.clone(), audit_record);
    Ok(Response::new()
        .add_attribute("action", "update_audit_status".to_string())
        .add_attribute("audit_id", audit_id)
        .add_attribute("status", status.name()))
}

/// What a trade decides: the record to be written, with the tokens at their
/// price, exactly; `Overflow` where that value exceeds the largest decimal.
/// The trade starts out pending.
pub open spec fn record_trade_outcome(
    env: Env,
    trade_id: String,
    seller: String,
    buyer: String,
    tokens_traded: u128,
    price_per_token: Decimal,
    trade_type: TradeType,
    settlement_date: Timestamp,
) -> Result<TradingRecord, ContractError> {
    match checked_units_spec(tokens_traded, price_per_token.atomics) {
        None => Err(ContractError::Overflow),
        Some(value) => Ok(TradingRecord {
            trade_id,
            trade_date: env.block.time,
            seller,
            buyer,
            tokens_traded,
            price_per_token,
            total_value: Decimal { atomics: value },
            trade_type,
            settlement_date,
            trade_status: TradeStatus::Pending,
        }),
    }
}

/// What [`record_trade`] does to the state and what it returns.
pub open spec fn record_trade_post(
    pre: OilReserveContract,
    post: OilReserveContract,
    res: Result<Response, ContractError>,
    env: Env,
    info: MessageInfo,
    trade_id: String,
    seller: String,
    buyer: String,
    tokens_traded: u128,
    price_per_token: Decimal,
    trade_type: TradeType,
    settlement_date: Timestamp,
) -> bool {
    match record_trade_outcome(env, trade_id, seller, buyer, tokens_traded, price_per_token, trade_type,
        settlement_date) {
        Err(e) => res == Err::<Response, ContractError>(e) && post == pre,
        Ok(record) => {
            &&& res is Ok
            &&& res->Ok_0.summary() =~= seq![
                ("action"@, "record_trade"@),
                ("trade_id"@, trade_id@),
                ("tokens_traded"@, amount_text(tokens_traded)),
                ("total_value"@, decimal_text(record.total_value.atomics)),
            ]
            &&& res->Ok_0.messages@.len() == 0
            &&& post.trading_records@ == saved(pre.trading_records@, trade_id@, record)
            &&& post.oil_reserve_info == pre.oil_reserve_info
            &&& post.extraction_records == pre.extraction_records
            &&& post.reserve_audits == pre.reserve_audits
            &&& post.ledger == pre.ledger
        },
    }
}

/// Writes down a trade of tokens between two parties as evidence, under
/// `trade_id`, as pending. Anyone may do so; neither the aggregate nor the
/// account book changes.
pub fn record_trade(
    state: &mut OilReserveContract,
    env: Env,
    info: MessageInfo,
    trade_id: String,
    seller: String,
    buyer: String,
    tokens_traded: u128,
    price_per_token: Decimal,
    trade_type: TradeType,
    settlement_date: Timestamp,
) -> (res: Result<Response, ContractError>)
    ensures
        record_trade_post(*old(state), *final(state), res, env, info, trade_id, seller, buyer, tokens_traded,
            price_per_token, trade_type, settlement_date),
{
    let total_value = match price_per_token.checked_mul_units(tokens_traded) {
        Some(value) => value,
        None => {
            return Err(ContractError::Overflow);
        },
    };
    let trading_record = TradingRecord {
        trade_id: trade_id.clone(),
        trade_date: env.block.time,
        seller,
        buyer,
        tokens_traded,
        price_per_token,
        total_value,
        trade_type,
        settlement_date,
        trade_status: TradeStatus::Pending,
    };
    state.trading_records.save(trade_id.clone(), trading_record);
    Ok(Response::new()
        .add_attribute("action", "record_trade".to_string())
        .add_attribute("trade_id", trade_id)
        .add_attribute("tokens_traded", amount_to_text(tokens_traded))
        .add_attribute("total_value", total_value.to_text()))
}

/// What [`update_trade_status`] does to the state and what it returns.
pub open spec fn update_trade_status_post(
    pre: OilReserveContract,
    post: OilReserveContract,
    res: Result<Response, ContractError>,
    env: Env,
    info: MessageInfo,
    trade_id: String,
    status: TradeStatus,
) -> bool {
    match loaded(pre.trading_records@, trade_id@) {
        Err(e) => res == Err::<Response, ContractError>(e) && post == pre,
        Ok(record) => {
            &&& res is Ok
            &&& res->Ok_0.summary() =~= seq![
                ("action"@, "update_trade_status"@),
                ("trade_id"@, trade_id@),
                ("status"@, status.spec_name()),
            ]
            &&& res->Ok_0.messages@.len() == 0
            &&& post.trading_records@ == saved(pre.trading_records@, trade_id@, TradingRecord {
                trade_status: status,
                ..record
            })
            &&& post.oil_reserve_info == pre.oil_reserve_info
            &&& post.extraction_records == pre.extraction_records
            &&& post.reserve_audits == pre.reserve_audits
            &&& post.ledger == pre.ledger
        },
    }
}

/// Sets the status of the trade stored under `trade_id`; `NotFound` where
/// there is none. Nothing else of the record changes, and the aggregate is
/// not touched.
pub fn update_trade_status(
    state: &mut OilReserveContract,
    env: Env,
    info: MessageInfo,
    trade_id: String,
    status: TradeStatus,
) -> (res: Result<Response, ContractError>)
    ensures
        update_trade_status_post(*old(state), *final(state), res, env, info, trade_id, status),
{
    let mut trading_record = match state.trading_records.load(&trade_id) {
        Ok(record) => record.clone(),
        Err(e) => {
            return Err(e);
        },
    };
    trading_record.trade_status = status;
    state.trading_records.save(trade_id.clone(), trading_record);
    Ok(Response::new()
        .add_attribute("action", "update_trade_status".to_string())
        .add_attribute("trade_id", trade_id)
        .add_attribute("status", status.name()))
}

/// One page of the extraction records: those stored after `start_after`, in
/// ascending order of their identifiers, at most `limit` and at most thirty.
pub fn query_all_extraction_records(state: &OilReserveContract, start_after: Option<String>, limit: Option<u32>) -> (page: Vec<(String, ExtractionRecord)>)
    ensures
        owned_page_view(page@) == page_of(state.extraction_records.entries(), owned_cursor(start_after), limit),
{
    let page = match &start_after {
        Some(id) => state.extraction_records.page(Some(id), limit),
        None => state.extraction_records.page(None, limit),
    };
    assert(owned_page_view(page@) =~= page_of(state.extraction_records.entries(), owned_cursor(start_after), limit));
    page
}

/// One page of the audits: those stored after `start_after`, in ascending
/// order of their identifiers, at most `limit` and at most thirty.
pub fn query_all_reserve_audits(state: &OilReserveContract, start_after: Option<String>, limit: Option<u32>) -> (page: Vec<(String, ReserveAudit)>)
    ensures
        owned_page_view(page@) == page_of(state.reserve_audits.entries(), owned_cursor(start_after), limit),
{
    let page = match &start_after {
        Some(id) => state.reserve_audits.page(Some(id), limit),
        None => state.reserve_audits.page(None, limit),
    };
    assert(owned_page_view(page@) =~= page_of(state.reserve_audits.entries(), owned_cursor(start_after), limit));
    page
}

/// One page of the trades: those stored after `start_after`, in ascending
/// order of their identifiers, at most `limit` and at most thirty.
pub fn query_all_trading_records(state: &OilReserveContract, start_after: Option<String>, limit: Option<u32>) -> (page: Vec<(String, TradingRecord)>)
    ensures
        owned_page_view(page@) == page_of(state.trading_records.entries(), owned_cursor(start_after), limit),
{
    let page = match &start_after {
        Some(id) => state.trading_records.page(Some(id), limit),
        None => state.trading_records.page(None, limit),
    };
    assert(owned_page_view(page@) =~= page_of(state.trading_records.entries(), owned_cursor(start_after), limit));
    page
}

/// The barrels still in the ground; `NotInitialized` without an aggregate.
pub fn query_available_barrels(state: &OilReserveContract) -> (r: Result<u128, ContractError>)
    ensures
        r == match state.oil_reserve_info@ {
            Some(info) => Ok::<u128, ContractError>(info.available_barrels),
            None => Err::<u128, ContractError>(ContractError::NotInitialized),
        },
{
    match state.oil_reserve_info.load() {
        Ok(info) => Ok(info.available_barrels),
        Err(e) => Err(e),
    }
}

/// The barrels extracted so far; `NotInitialized` without an aggregate.
pub fn query_extracted_barrels(state: &OilReserveContract) -> (r: Result<u128, ContractError>)
    ensures
        r == match state.oil_reserve_info@ {
            Some(info) => Ok::<u128, ContractError>(info.extracted_barrels),
            None => Err::<u128, ContractError>(ContractError::NotInitialized),
        },
{
    match state.oil_reserve_info.load() {
        Ok(info) => Ok(info.extracted_barrels),
        Err(e) => Err(e),
    }
}

/// What [`query_reserve_quality_metrics`] answers from an aggregate.
pub open spec fn quality_metrics_spec(info: OilReserveInfo) -> QualityMetrics {
    QualityMetrics {
        api_gravity: info.api_gravity,
        sulfur_content: info.sulfur_content,
        oil_type: info.oil_type,
        extraction_feasibility_score: Decimal { atomics: 0 },
    }
}

/// The quality of the reserve's oil, read from the aggregate alone; the
/// feasibility score is zero. `NotInitialized` without an aggregate.
pub fn query_reserve_quality_metrics(state: &OilReserveContract) -> (r: Result<QualityMetrics, ContractError>)
    ensures
        r == match state.oil_reserve_info@ {
            Some(info) => Ok::<QualityMetrics, ContractError>(quality_metrics_spec(info)),
            None => Err::<QualityMetrics, ContractError>(ContractError::NotInitialized),
        },
{
    match state.oil_reserve_info.load() {
        Ok(info) => Ok(QualityMetrics {
            api_gravity: info.api_gravity,
            sulfur_content: info.sulfur_content,
            oil_type: info.oil_type,
            extraction_feasibility_score: Decimal::zero(),
        }),
        Err(e) => Err(e),
    }
}

/// What [`instantiate`] does to the state and what it returns.
pub open spec fn instantiate_post(
    pre: OilReserveContract,
    post: OilReserveContract,
    res: Result<Response, ContractError>,
    env: Env,
    info: MessageInfo,
    msg: InstantiateMsg,
) -> bool {
    &&& forwards(res, Cw20ExecuteMsg::Instantiate(msg.cw20_base))
    &&& post.oil_reserve_info@ == Some(msg.oil_reserve_info)
    &&& post.extraction_records == pre.extraction_records
    &&& post.reserve_audits == pre.reserve_audits
    &&& post.trading_records == pre.trading_records
    &&& post.ledger == pre.ledger
}

/// Sets an instance up: stores the aggregate record as it is given and hands
/// the ledger's setup on to the ledger.
pub fn instantiate(
    state: &mut OilReserveContract,
    env: Env,
    info: MessageInfo,
    msg: InstantiateMsg,
) -> (res: Result<Response, ContractError>)
    ensures
        instantiate_post(*old(state), *final(state), res, env, info, msg),
{
    state.oil_reserve_info.save(msg.oil_reserve_info);
    forward(Cw20ExecuteMsg::Instantiate(msg.cw20_base))
}

/// What [`execute`] does to the state and what it returns: a command of the
/// ledger is handed on as it is and changes nothing here; a command of the
/// reserve does what its transition does.
pub open spec fn execute_post(
    pre: OilReserveContract,
    post: OilReserveContract,
    res: Result<Response, ContractError>,
    env: Env,
    info: MessageInfo,
    msg: ExecuteMsg,
) -> bool {
    match msg {
        ExecuteMsg::Transfer { recipient, amount } => post == pre && forwards(res, Cw20ExecuteMsg::Transfer {
            recipient,
            amount,
        }),
        ExecuteMsg::Burn { amount } => post == pre && forwards(res, Cw20ExecuteMsg::Burn { amount }),
        ExecuteMsg::Send { contract, amount, msg } => post == pre && forwards(res, Cw20ExecuteMsg::Send {
            contract,
            amount,
            msg,
        }),
        ExecuteMsg::IncreaseAllowance { spender, amount, expires } => post == pre && forwards(res,
            Cw20ExecuteMsg::IncreaseAllowance { spender, amount, expires }),
        ExecuteMsg::DecreaseAllowance { spender, amount, expires } => post == pre && forwards(res,
            Cw20ExecuteMsg::DecreaseAllowance { spender, amount, expires }),
        ExecuteMsg::TransferFrom { owner, recipient, amount } => post == pre && forwards(res,
            Cw20ExecuteMsg::TransferFrom { owner, recipient, amount }),
        ExecuteMsg::SendFrom { owner, contract, amount, msg } => post == pre && forwards(res,
            Cw20ExecuteMsg::SendFrom { owner, contract, amount, msg }),
        ExecuteMsg::Mint { recipient, amount } => post == pre && forwards(res, Cw20ExecuteMsg::Mint {
            recipient,
            amount,
        }),
        ExecuteMsg::UpdateMinter { new_minter } => post == pre && forwards(res, Cw20ExecuteMsg::UpdateMinter {
            new_minter,
        }),
        ExecuteMsg::UpdateMarketing { project, description, marketing } => post == pre && forwards(res,
            Cw20ExecuteMsg::UpdateMarketing { project, description, marketing }),
        ExecuteMsg::UploadLogo(logo_info) => post == pre && forwards(res, Cw20ExecuteMsg::UploadLogo(logo_info)),
        ExecuteMsg::RecordExtraction {
            extraction_id,
            barrels_extracted,
            extraction_method,
            environmental_impact_score,
            carbon_footprint_per_barrel,
            extraction_cost_per_barrel,
            quality_certificate_url,
        } => record_extraction_post(pre, post, res, env, info, extraction_id, barrels_extracted, extraction_method,
            environmental_impact_score, carbon_footprint_per_barrel, extraction_cost_per_barrel,
            quality_certificate_url),
        ExecuteMsg::ConductReserveAudit {
            audit_id,
            audited_reserves,
            audit_report_url,
            reserve_quality_grade,
            extraction_feasibility_score,
        } => conduct_reserve_audit_post(pre, post, res, env, info, audit_id, audited_reserves, audit_report_url,
            reserve_quality_grade, extraction_feasibility_score),
        ExecuteMsg::UpdateAuditStatus { audit_id, status } => update_audit_status_post(pre, post, res, env, info,
            audit_id, status),
        ExecuteMsg::RecordTrade {
            trade_id,
            seller,
            buyer,
            tokens_traded,
            price_per_token,
            trade_type,
            settlement_date,
        } => record_trade_post(pre, post, res, env, info, trade_id, seller, buyer, tokens_traded, price_per_token,
            trade_type, settlement_date),
        ExecuteMsg::UpdateTradeStatus { trade_id, status } => update_trade_status_post(pre, post, res, env, info,
            trade_id, status),
    }
}

/// Carries out one command.
pub fn execute(
    state: &mut OilReserveContract,
    env: Env,
    info: MessageInfo,
    msg: ExecuteMsg,
) -> (res: Result<Response, ContractError>)
    ensures
        execute_post(*old(state), *final(state), res, env, info, msg),
{
    match msg {
        ExecuteMsg::Transfer { recipient, amount } => forward(Cw20ExecuteMsg::Transfer { recipient, amount }),
        ExecuteMsg::Burn { amount } => forward(Cw20ExecuteMsg::Burn { amount }),
        ExecuteMsg::Send { contract, amount, msg } => forward(Cw20ExecuteMsg::Send { contract, amount, msg }),
        ExecuteMsg::IncreaseAllowance { spender, amount, expires } => forward(
            Cw20ExecuteMsg::IncreaseAllowance { spender, amount, expires },
        ),
        ExecuteMsg::DecreaseAllowance { spender, amount, expires } => forward(
            Cw20ExecuteMsg::DecreaseAllowance { spender, amount, expires },
        ),
        ExecuteMsg::TransferFrom { owner, recipient, amount } => forward(
            Cw20ExecuteMsg::TransferFrom { owner, recipient, amount },
        ),
        ExecuteMsg::SendFrom { owner, contract, amount, msg } => forward(
            Cw20ExecuteMsg::SendFrom { owner, contract, amount, msg },
        ),
        ExecuteMsg::Mint { recipient, amount } => forward(Cw20ExecuteMsg::Mint { recipient, amount }),
        ExecuteMsg::UpdateMinter { new_minter } => forward(Cw20ExecuteMsg::UpdateMinter { new_minter }),
        ExecuteMsg::UpdateMarketing { project, description, marketing } => forward(
            Cw20ExecuteMsg::UpdateMarketing { project, description, marketing },
        ),
        ExecuteMsg::UploadLogo(logo_info) => forward(Cw20ExecuteMsg::UploadLogo(logo_info)),
        ExecuteMsg::RecordExtraction {
            extraction_id,
            barrels_extracted,
            extraction_method,
            environmental_impact_score,
            carbon_footprint_per_barrel,
            extraction_cost_per_barrel,
            quality_certificate_url,
        } => record_extraction(state, env, info, extraction_id, barrels_extracted, extraction_method,
            environmental_impact_score, carbon_footprint_per_barrel, extraction_cost_per_barrel,
            quality_certificate_url),
        ExecuteMsg::ConductReserveAudit {
            audit_id,
            audited_reserves,
            audit_report_url,
            reserve_quality_grade,
            extraction_feasibility_score,
        } => conduct_reserve_audit(state, env, info, audit_id, audited_reserves, audit_report_url,
            reserve_quality_grade, extraction_feasibility_score),
        ExecuteMsg::UpdateAuditStatus { audit_id, status } => update_audit_status(state, env, info, audit_id, status),
        ExecuteMsg::RecordTrade {
            trade_id,
            seller,
            buyer,
            tokens_traded,
            price_per_token,
            trade_type,
            settlement_date,
        } => record_trade(state, env, info, trade_id, seller, buyer, tokens_traded, price_per_token, trade_type,
            settlement_date),
        ExecuteMsg::UpdateTradeStatus { trade_id, status } => update_trade_status(state, env, info, trade_id, status),
    }
}

/// What [`query`] answers. A question of the ledger is handed back for the
/// ledger to answer; a question of the reserve is answered from the state.
pub open spec fn query_post(state: OilReserveContract, res: Result<QueryResponse, ContractError>, msg: QueryMsg) -> bool {
    match msg {
        QueryMsg::Balance { address } => res == Ok::<QueryResponse, ContractError>(QueryResponse::Ledger(
            Cw20QueryMsg::Balance { address },
        )),
        QueryMsg::TokenInfo {  } => res == Ok::<QueryResponse, ContractError>(QueryResponse::Ledger(
            Cw20QueryMsg::TokenInfo {  },
        )),
        QueryMsg::Minter {  } => res == Ok::<QueryResponse, ContractError>(QueryResponse::Ledger(
            Cw20QueryMsg::Minter {  },
        )),
        QueryMsg::Allowance { owner, spender } => res == Ok::<QueryResponse, ContractError>(QueryResponse::Ledger(
            Cw20QueryMsg::Allowance { owner, spender },
        )),
        QueryMsg::AllAllowances { owner, start_after, limit } => res == Ok::<QueryResponse, ContractError>(
            QueryResponse::Ledger(Cw20QueryMsg::AllAllowances { owner, start_after, limit }),
        ),
        QueryMsg::AllAccounts { start_after, limit } => res == Ok::<QueryResponse, ContractError>(
            QueryResponse::Ledger(Cw20QueryMsg::AllAccounts { start_after, limit }),
        ),
        QueryMsg::MarketingInfo {  } => res == Ok::<QueryResponse, ContractError>(QueryResponse::Ledger(
            Cw20QueryMsg::MarketingInfo {  },
        )),
        QueryMsg::DownloadLogo {  } => res == Ok::<QueryResponse, ContractError>(QueryResponse::Ledger(
            Cw20QueryMsg::DownloadLogo {  },
        )),
        QueryMsg::OilReserveInfo {  } => res == match state.oil_reserve_info@ {
            Some(info) => Ok::<QueryResponse, ContractError>(QueryResponse::OilReserveInfo(info)),
            None => Err::<QueryResponse, ContractError>(ContractError::NotInitialized),
        },
        QueryMsg::ExtractionRecord { extraction_id } => res == match loaded(state.extraction_records@,
            extraction_id@) {
            Ok(record) => Ok::<QueryResponse, ContractError>(QueryResponse::ExtractionRecord(record)),
            Err(e) => Err::<QueryResponse, ContractError>(e),
        },
        QueryMsg::AllExtractionRecords { start_after, limit } => {
            &&& res matches Ok(QueryResponse::ExtractionRecords(page))
            &&& owned_page_view(page@) == page_of(state.extraction_records.entries(), owned_cursor(start_after),
                limit)
        },
        QueryMsg::ReserveAudit { audit_id } => res == match loaded(state.reserve_audits@, audit_id@) {
            Ok(record) => Ok::<QueryResponse, ContractError>(QueryResponse::ReserveAudit(record)),
            Err(e) => Err::<QueryResponse, ContractError>(e),
        },
        QueryMsg::AllReserveAudits { start_after, limit } => {
            &&& res matches Ok(QueryResponse::ReserveAudits(page))
            &&& owned_page_view(page@) == page_of(state.reserve_audits.entries(), owned_cursor(start_after), limit)
        },
        QueryMsg::TradingRecord { trade_id } => res == match loaded(state.trading_records@, trade_id@) {
            Ok(record) => Ok::<QueryResponse, ContractError>(QueryResponse::TradingRecord(record)),
            Err(e) => Err::<QueryResponse, ContractError>(e),
        },
        QueryMsg::AllTradingRecords { start_after, limit } => {
            &&& res matches Ok(QueryResponse::TradingRecords(page))
            &&& owned_page_view(page@) == page_of(state.trading_records.entries(), owned_cursor(start_after), limit)
        },
        QueryMsg::AvailableBarrels {  } => res == match state.oil_reserve_info@ {
            Some(info) => Ok::<QueryResponse, ContractError>(QueryResponse::AvailableBarrels(info.available_barrels)),
            None => Err::<QueryResponse, ContractError>(ContractError::NotInitialized),
        },
        QueryMsg::ExtractedBarrels {  } => res == match state.oil_reserve_info@ {
            Some(info) => Ok::<QueryResponse, ContractError>(QueryResponse::ExtractedBarrels(info.extracted_barrels)),
            None => Err::<QueryResponse, ContractError>(ContractError::NotInitialized),
        },
        QueryMsg::ReserveQualityMetrics {  } => res == match state.oil_reserve_info@ {
            Some(info) => Ok::<QueryResponse, ContractError>(QueryResponse::ReserveQualityMetrics(
                quality_metrics_spec(info),
            )),
            None => Err::<QueryResponse, ContractError>(ContractError::NotInitialized),
        },
    }
}

/// Answers one question. The state is only read.
pub fn query(state: &OilReserveContract, env: Env, msg: QueryMsg) -> (res: Result<QueryResponse, ContractError>)
    ensures
        query_post(*state, res, msg),
{
    match msg {
        QueryMsg::Balance { address } => Ok(QueryResponse::Ledger(Cw20QueryMsg::Balance { address })),
        QueryMsg::TokenInfo {  } => Ok(QueryResponse::Ledger(Cw20QueryMsg::TokenInfo {  })),
        QueryMsg::Minter {  } => Ok(QueryResponse::Ledger(Cw20QueryMsg::Minter {  })),
        QueryMsg::Allowance { owner, spender } => Ok(QueryResponse::Ledger(Cw20QueryMsg::Allowance { owner, spender })),
        QueryMsg::AllAllowances { owner, start_after, limit } => Ok(QueryResponse::Ledger(
            Cw20QueryMsg::AllAllowances { owner, start_after, limit },
        )),
        QueryMsg::AllAccounts { start_after, limit } => Ok(QueryResponse::Ledger(
            Cw20QueryMsg::AllAccounts { start_after, limit },
        )),
        QueryMsg::MarketingInfo {  } => Ok(QueryResponse::Ledger(Cw20QueryMsg::MarketingInfo {  })),
        QueryMsg::DownloadLogo {  } => Ok(QueryResponse::Ledger(Cw20QueryMsg::DownloadLogo {  })),
        QueryMsg::OilReserveInfo {  } => match state.oil_reserve_info.load() {
            Ok(info) => Ok(QueryResponse::OilReserveInfo(info.clone())),
            Err(e) => Err(e),
        },
        QueryMsg::ExtractionRecord { extraction_id } => match state.extraction_records.load(&extraction_id) {
            Ok(record) => Ok(QueryResponse::ExtractionRecord(record.clone())),
            Err(e) => Err(e),
        },
        QueryMsg::AllExtractionRecords { start_after, limit } => Ok(QueryResponse::ExtractionRecords(
            query_all_extraction_records(state, start_after, limit),
        )),
        QueryMsg::ReserveAudit { audit_id } => match state.reserve_audits.load(&audit_id) {
            Ok(record) => Ok(QueryResponse::ReserveAudit(record.clone())),
            Err(e) => Err(e),
        },
        QueryMsg::AllReserveAudits { start_after, limit } => Ok(QueryResponse::ReserveAudits(
            query_all_reserve_audits(state, start_after, limit),
        )),
        QueryMsg::TradingRecord { trade_id } => match state.trading_records.load(&trade_id) {
            Ok(record) => Ok(QueryResponse::TradingRecord(record.clone())),
            Err(e) => Err(e),
        },
        QueryMsg::AllTradingRecords { start_after, limit } => Ok(QueryResponse::TradingRecords(
            query_all_trading_records(state, start_after, limit),
        )),
        QueryMsg::AvailableBarrels {  } => match query_available_barrels(state) {
            Ok(barrels) => Ok(QueryResponse::AvailableBarrels(barrels)),
            Err(e) => Err(e),
        },
        QueryMsg::ExtractedBarrels {  } => match query_extracted_barrels(state) {
            Ok(barrels) => Ok(QueryResponse::ExtractedBarrels(barrels)),
            Err(e) => Err(e),
        },
        QueryMsg::ReserveQualityMetrics {  } => match query_reserve_quality_metrics(state) {
            Ok(metrics) => Ok(QueryResponse::ReserveQualityMetrics(metrics)),
            Err(e) => Err(e),
        },
    }
}

} // verus!
