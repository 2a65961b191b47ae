//! What holds of every oil reserve transition: conservation of barrels,
//! refusal without effect, and who may act.

use vstd::prelude::*;
use crate::env::{Env, MessageInfo};
use crate::error::ContractError;
use crate::math::Decimal;
use crate::oil_reserve::contract::{
    conduct_reserve_audit_post, execute_post, extraction_update, record_extraction_post,
    update_audit_status_post, OilReserveContract,
};
use crate::oil_reserve::msg::ExecuteMsg;
use crate::oil_reserve::state::{AuditStatus, ExtractionMethod, OilReserveInfo};
use crate::response::Response;

verus! {

/// Conservation: an extraction moves barrels from the available to the
/// extracted, so their sum stays. Where the reserve was the available and
/// the extracted barrels together, it still is.
pub proof fn law_extraction_conserves_barrels(info: OilReserveInfo, barrels: u128)
    requires
        extraction_update(info, barrels) is Ok,
    ensures
        ({
            let after = extraction_update(info, barrels)->Ok_0.0;
            &&& after.available_barrels + after.extracted_barrels == info.available_barrels
                + info.extracted_barrels
            &&& after.available_barrels + barrels == info.available_barrels
            &&& after.total_reserves_barrels == info.total_reserves_barrels
            &&& info.total_reserves_barrels == info.available_barrels + info.extracted_barrels
                ==> after.total_reserves_barrels == after.available_barrels + after.extracted_barrels
        }),
{
}

/// No total drops below zero: an extraction of more barrels than are
/// available is refused, and the state stays as it was: no record is written
/// and no token minted. Asked for by the extraction company, it is refused
/// as exceeding the capacity.
pub proof fn law_extraction_never_overdraws(
    pre: OilReserveContract,
    post: OilReserveContract,
    res: Result<Response, ContractError>,
    env: Env,
    info: MessageInfo,
    extraction_id: String,
    barrels_extracted: u128,
    extraction_method: ExtractionMethod,
    environmental_impact_score: Decimal,
    carbon_footprint_per_barrel: Decimal,
    extraction_cost_per_barrel: Decimal,
    quality_certificate_url: String,
)
    requires
        record_extraction_post(pre, post, res, env, info, extraction_id, barrels_extracted, extraction_method,
            environmental_impact_score, carbon_footprint_per_barrel, extraction_cost_per_barrel,
            quality_certificate_url),
        pre.oil_reserve_info@ matches Some(stored) && barrels_extracted > stored.available_barrels,
    ensures
        res is Err,
        post == pre,
        info.sender@ == pre.oil_reserve_info@->Some_0.extraction_company@ ==> res == Err::<
            Response,
            ContractError,
        >(
            ContractError::CapacityExceeded {
                requested: barrels_extracted,
                available: pre.oil_reserve_info@->Some_0.available_barrels,
            },
        ),
{
}

/// Atomicity: an extraction that is refused, for whatever reason, leaves the
/// state as it was.
pub proof fn law_refused_extraction_changes_nothing(
    pre: OilReserveContract,
    post: OilReserveContract,
    res: Result<Response, ContractError>,
    env: Env,
    info: MessageInfo,
    extraction_id: String,
    barrels_extracted: u128,
    extraction_method: ExtractionMethod,
    environmental_impact_score: Decimal,
    carbon_footprint_per_barrel: Decimal,
    extraction_cost_per_barrel: Decimal,
    quality_certificate_url: String,
)
    requires
        record_extraction_post(pre, post, res, env, info, extraction_id, barrels_extracted, extraction_method,
            environmental_impact_score, carbon_footprint_per_barrel, extraction_cost_per_barrel,
            quality_certificate_url),
        res is Err,
    ensures
        post == pre,
{
}

/// Authorization: an extraction recorded by anyone but the extraction
/// company fails as unauthorized, whatever else holds, and the state stays
/// as it was.
pub proof fn law_only_extraction_company_extracts(
    pre: OilReserveContract,
    post: OilReserveContract,
    res: Result<Response, ContractError>,
    env: Env,
    info: MessageInfo,
    extraction_id: String,
    barrels_extracted: u128,
    extraction_method: ExtractionMethod,
    environmental_impact_score: Decimal,
    carbon_footprint_per_barrel: Decimal,
    extraction_cost_per_barrel: Decimal,
    quality_certificate_url: String,
)
    requires
        record_extraction_post(pre, post, res, env, info, extraction_id, barrels_extracted, extraction_method,
            environmental_impact_score, carbon_footprint_per_barrel, extraction_cost_per_barrel,
            quality_certificate_url),
        pre.oil_reserve_info@ matches Some(stored) && info.sender@ != stored.extraction_company@,
    ensures
        res == Err::<Response, ContractError>(ContractError::Unauthorized),
        post == pre,
{
}

/// Authorization: an audit by anyone but the reserve auditor fails as
/// unauthorized, and the state stays as it was.
pub proof fn law_only_auditor_audits(
    pre: OilReserveContract,
    post: OilReserveContract,
    res: Result<Response, ContractError>,
    env: Env,
    info: MessageInfo,
    audit_id: String,
    audited_reserves: u128,
    audit_report_url: String,
    reserve_quality_grade: String,
    extraction_feasibility_score: Decimal,
)
    requires
        conduct_reserve_audit_post(pre, post, res, env, info, audit_id, audited_reserves, audit_report_url,
            reserve_quality_grade, extraction_feasibility_score),
        pre.oil_reserve_info@ matches Some(stored) && info.sender@ != stored.reserve_auditor@,
    ensures
        res == Err::<Response, ContractError>(ContractError::Unauthorized),
        post == pre,
{
}

/// Authorization: a change of an audit's status by anyone but the reserve
/// auditor fails as unauthorized, whether or not the record exists, and the
/// state stays as it was.
pub proof fn law_only_auditor_updates_status(
    pre: OilReserveContract,
    post: OilReserveContract,
    res: Result<Response, ContractError>,
    env: Env,
    info: MessageInfo,
    audit_id: String,
    status: AuditStatus,
)
    requires
        update_audit_status_post(pre, post, res, env, info, audit_id, status),
        pre.oil_reserve_info@ matches Some(stored) && info.sender@ != stored.reserve_auditor@,
    ensures
        res == Err::<Response, ContractError>(ContractError::Unauthorized),
        post == pre,
{
}

/// Atomicity: whatever the command, one that is refused leaves the whole
/// state as it was.
pub proof fn law_refused_command_changes_nothing(
    pre: OilReserveContract,
    post: OilReserveContract,
    res: Result<Response, ContractError>,
    env: Env,
    info: MessageInfo,
    msg: ExecuteMsg,
)
    requires
        execute_post(pre, post, res, env, info, msg),
        res is Err,
    ensures
        post == pre,
{
}

} // verus!
