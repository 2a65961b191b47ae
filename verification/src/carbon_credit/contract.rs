//! The project's state and its transitions.
//!
//! Every transition reads the aggregate record, checks the caller's role and
//! the preconditions, computes what is to be written, and only then writes.
//! A transition that is refused has written nothing.

use vstd::prelude::*;
use crate::carbon_credit::msg::{ExecuteMsg, InstantiateMsg, QueryMsg, QueryResponse};
use crate::carbon_credit::state::{CarbonCreditInfo, RetirementRecord, VerificationRecord, VerificationStatus};
use crate::env::{Env, MessageInfo};
use crate::error::ContractError;
use crate::ledger::{burn_outcome, Cw20ExecuteMsg, Cw20QueryMsg, Ledger};
use crate::math::{amount_text, amount_to_text};
use crate::response::{forward, forwards, Response};
use crate::store::{loaded, owned_cursor, owned_page_view, page_of, saved, Item, RecordStore};

verus! {

/// Everything a carbon credit instance stores.
#[derive(Clone, Debug, PartialEq, Eq)]
pub struct CarbonCreditContract {
    /// The aggregate record.
    pub carbon_credit_info: Item<CarbonCreditInfo>,
    pub verification_records: RecordStore<VerificationRecord>,
    pub retirement_records: RecordStore<RetirementRecord>,
    /// The account book of the ledger that the credit tokens live in.
    pub ledger: Ledger,
}

impl CarbonCreditContract {
    /// The state of an instance before it is set up: no aggregate record, no
    /// lifecycle records, an empty account book.
    pub fn new() -> (r: CarbonCreditContract)
        ensures
            r.carbon_credit_info@ is None,
            r.verification_records@ == Map::<Seq<char>, VerificationRecord>::empty(),
            r.retirement_records@ == Map::<Seq<char>, RetirementRecord>::empty(),
            r.ledger.balances@ == Map::<Seq<char>, u128>::empty(),
            r.ledger.total_supply == 0,
    {
        CarbonCreditContract {
            carbon_credit_info: Item::new(),
            verification_records: RecordStore::new(),
            retirement_records: RecordStore::new(),
            ledger: Ledger::new(),
        }
    }
}

/// The aggregate after `credits` are verified: the issued and the available
/// credits grow by that number. `Overflow` where a total would leave its
/// range.
pub open spec fn verification_update(info: CarbonCreditInfo, credits: u128) -> Result<CarbonCreditInfo, ContractError> {
    if info.total_credits_issued + credits > u128::MAX || info.credits_available + credits > u128::MAX {
        Err(ContractError::Overflow)
    } else {
        Ok(CarbonCreditInfo {
            total_credits_issued: (info.total_credits_issued + credits) as u128,
            credits_available: (info.credits_available + credits) as u128,
            ..info
        })
    }
}

/// What a verification decides: the aggregate and the record to be written,
/// or why it is refused. Only the verification body may verify.
pub open spec fn verify_credits_outcome(
    stored: Option<CarbonCreditInfo>,
    env: Env,
    sender: String,
    verification_id: String,
    credits_to_verify: u128,
    verification_report_url: String,
) -> Result<(CarbonCreditInfo, VerificationRecord), ContractError> {
    match stored {
        None => Err(ContractError::NotInitialized),
        Some(info) => if sender@ != info.verification_body@ {
            Err(ContractError::Unauthorized)
        } else {
            match verification_update(info, credits_to_verify) {
                Err(e) => Err(e),
                Ok(updated) => Ok((updated, VerificationRecord {
                    verification_id,
                    verification_date: env.block.time,
                    credits_verified: credits_to_verify,
                    verification_body: sender,
                    verification_report_url,
                    status: VerificationStatus::Verified,
                })),
            }
        },
    }
}

/// What [`verify_credits`] does to the state and what it returns.
pub open spec fn verify_credits_post(
    pre: CarbonCreditContract,
    post: CarbonCreditContract,
    res: Result<Response, ContractError>,
    env: Env,
    info: MessageInfo,
    verification_id: String,
    credits_to_verify: u128,
    verification_report_url: String,
) -> bool {
    match verify_credits_outcome(pre.carbon_credit_info@, env, info.sender, verification_id, credits_to_verify,
        verification_report_url) {
        Err(e) => res == Err::<Response, ContractError>(e) && post == pre,
        Ok((updated, record)) => {
            &&& res is Ok
            &&& res->Ok_0.summary() =~= seq![
                ("action"@, "verify_credits"@),
                ("verification_id"@, verification_id@),
                ("credits_verified"@, amount_text(credits_to_verify)),
            ]
            &&& res->Ok_0.messages@.len() == 0
            &&& post.carbon_credit_info@ == Some(updated)
            &&& post.verification_records@ == saved(pre.verification_records@, verification_id@, record)
            &&& post.retirement_records == pre.retirement_records
            &&& post.ledger == pre.ledger
        },
    }
}

/// Verifies credits. Only the verification body may do so. Writes a verified
/// [`VerificationRecord`] under `verification_id` and adds the credits to
/// the issued and to the available credits of the aggregate.
pub fn verify_credits(
    state: &mut CarbonCreditContract,
    env: Env,
    info: MessageInfo,
    verification_id: String,
    credits_to_verify: u128,
    verification_report_url: String,
) -> (res: Result<Response, ContractError>)
    ensures
        verify_credits_post(*old(state), *final(state), res, env, info, verification_id, credits_to_verify,
            verification_report_url),
{
    let carbon_credit_info = match state.carbon_credit_info.load() {
        Ok(carbon_credit_info) => carbon_credit_info,
        Err(e) => {
            return Err(e);
        },
    };
    if info.sender != carbon_credit_info.verification_body {
        return Err(ContractError::Unauthorized);
    }
    let total_credits_issued = match carbon_credit_info.total_credits_issued.checked_add(credits_to_verify) {
        Some(total) => total,
        None => {
            return Err(ContractError::Overflow);
        },
    };
    let credits_available = match carbon_credit_info.credits_available.checked_add(credits_to_verify) {
        Some(total) => total,
        None => {
            return Err(ContractError::Overflow);
        },
    };
    let mut updated_info = carbon_credit_info.clone();
    updated_info.total_credits_issued = total_credits_issued;
    updated_info.credits_available = credits_available;
    let verification_record = VerificationRecord {
        verification_id: verification_id.clone(),
        verification_date: env.block.time,
        credits_verified: credits_to_verify,
        verification_body: info.sender,
        verification_report_url,
        status: VerificationStatus::Verified,
    };
    state.verification_records.save(verification_id.clone(), verification_record);
    state.carbon_credit_info.save(updated_info);
    Ok(Response::new()
        .add_attribute("action", "verify_credits".to_string())
        .add_attribute("verification_id", verification_id)
        .add_attribute("credits_verified", amount_to_text(credits_to_verify)))
}

/// The aggregate after `credits` are retired: they move from the available
/// to the retired credits. `Overflow` where more would be retired than is
/// available, or the retired total would leave its range.
pub open spec fn retirement_update(info: CarbonCreditInfo, credits: u128) -> Result<CarbonCreditInfo, ContractError> {
    if credits > info.credits_available || info.credits_retired + credits > u128::MAX {
        Err(ContractError::Overflow)
    } else {
        Ok(CarbonCreditInfo {
            credits_retired: (info.credits_retired + credits) as u128,
            credits_available: (info.credits_available - credits) as u128,
            ..info
        })
    }
}

/// What a retirement decides: the aggregate, the record, and the balances
/// and total supply of the account book after the credits are burnt; or why
/// it is refused. The caller retires credits of its own.
pub open spec fn retire_credits_outcome(
    stored: Option<CarbonCreditInfo>,
    balances: Map<Seq<char>, u128>,
    total_supply: u128,
    env: Env,
    sender: String,
    retirement_id: String,
    credits_to_retire: u128,
    retirement_purpose: String,
    retirement_certificate_url: String,
) -> Result<(CarbonCreditInfo, RetirementRecord, Map<Seq<char>, u128>, u128), ContractError> {
    match stored {
        None => Err(ContractError::NotInitialized),
        Some(info) => match burn_outcome(balances, total_supply, sender@, credits_to_retire) {
            Err(e) => Err(e),
            Ok((burnt_balances, burnt_supply)) => match retirement_update(info, credits_to_retire) {
                Err(e) => Err(e),
                Ok(updated) => Ok((updated, RetirementRecord {
                    retirement_id,
                    retirement_date: env.block.time,
                    credits_retired: credits_to_retire,
                    retirement_purpose,
                    retirement_entity: sender,
                    retirement_certificate_url,
                }, burnt_balances, burnt_supply)),
            },
        },
    }
}

/// What [`retire_credits`] does to the state and what it returns.
pub open spec fn retire_credits_post(
    pre: CarbonCreditContract,
    post: CarbonCreditContract,
    res: Result<Response, ContractError>,
    env: Env,
    info: MessageInfo,
    retirement_id: String,
    credits_to_retire: u128,
    retirement_purpose: String,
    retirement_certificate_url: String,
) -> bool {
    match retire_credits_outcome(pre.carbon_credit_info@, pre.ledger.balances@, pre.ledger.total_supply, env,
        info.sender, retirement_id, credits_to_retire, retirement_purpose, retirement_certificate_url) {
        Err(e) => res == Err::<Response, ContractError>(e) && post == pre,
        Ok((updated, record, balances, total_supply)) => {
            &&& res is Ok
            &&& res->Ok_0.summary() =~= seq![
                ("action"@, "retire_credits"@),
                ("retirement_id"@, retirement_id@),
                ("credits_retired"@, amount_text(credits_to_retire)),
                ("retirement_entity"@, info.sender@),
            ]
            &&& res->Ok_0.messages@.len() == 0
            &&& post.carbon_credit_info@ == Some(updated)
            &&& post.retirement_records@ == saved(pre.retirement_records@, retirement_id@, record)
            &&& post.ledger.balances@ == balances
            &&& post.ledger.total_supply == total_supply
            &&& post.verification_records == pre.verification_records
        },
    }
}

/// Retires credits of the caller for good. The credits are burnt in the
/// account book, a [`RetirementRecord`] is written under `retirement_id`,
/// and in the aggregate they move from the available to the retired credits.
pub fn retire_credits(
    state: &mut CarbonCreditContract,
    env: Env,
    info: MessageInfo,
    retirement_id: String,
    credits_to_retire: u128,
    retirement_purpose: String,
    retirement_certificate_url: String,
) -> (res: Result<Response, ContractError>)
    ensures
        retire_credits_post(*old(state), *final(state), res, env, info, retirement_id, credits_to_retire,
            retirement_purpose, retirement_certificate_url),
{
    let carbon_credit_info = match state.carbon_credit_info.load() {
        Ok(carbon_credit_info) => carbon_credit_info,
        Err(e) => {
            return Err(e);
        },
    };
    let balance = state.ledger.balance_of(&info.sender);
    if balance < credits_to_retire {
        return Err(ContractError::InsufficientFunds { needed: credits_to_retire, available: balance });
    }
    if state.ledger.total_supply() < credits_to_retire {
        return Err(ContractError::Overflow);
    }
    let credits_available = match carbon_credit_info.credits_available.checked_sub(credits_to_retire) {
        Some(rest) => rest,
        None => {
            return Err(ContractError::Overflow);
        },
    };
    let credits_retired = match carbon_credit_info.credits_retired.checked_add(credits_to_retire) {
        Some(total) => total,
        None => {
            return Err(ContractError::Overflow);
        },
    };
    let mut updated_info = carbon_credit_info.clone();
    updated_info.credits_retired = credits_retired;
    updated_info.credits_available = credits_available;
    match state.ledger.burn(&info.sender, credits_to_retire) {
        Ok(()) => {},
        Err(e) => {
            return Err(e);
        },
    }
    let retirement_entity = info.sender.clone();
    let retirement_record = RetirementRecord {
        retirement_id: retirement_id.clone(),
        retirement_date: env.block.time,
        credits_retired: credits_to_retire,
        retirement_purpose,
        retirement_entity: info.sender,
        retirement_certificate_url,
    };
    state.retirement_records.save(retirement_id.clone(), retirement_record);
    state.carbon_credit_info.save(updated_info);
    Ok(Response::new()
        .add_attribute("action", "retire_credits".to_string())
        .add_attribute("retirement_id", retirement_id)
        .add_attribute("credits_retired", amount_to_text(credits_to_retire))
        .add_attribute("retirement_entity", retirement_entity))
}

/// What a change of a verification's status decides: the record to be
/// written, or why it is refused. Only the verification body may change it.
pub open spec fn update_verification_status_outcome(
    stored: Option<CarbonCreditInfo>,
    records: Map<Seq<char>, VerificationRecord>,
    sender: Seq<char>,
    verification_id: Seq<char>,
    status: VerificationStatus,
) -> Result<VerificationRecord, ContractError> {
    match stored {
        None => Err(ContractError::NotInitialized),
        Some(info) => if sender != info.verification_body@ {
            Err(ContractError::Unauthorized)
        } else {
            match loaded(records, verification_id) {
                Err(e) => Err(e),
                Ok(record) => Ok(VerificationRecord { status, ..record }),
            }
        },
    }
}

/// What [`update_verification_status`] does to the state and what it returns.
pub open spec fn update_verification_status_post(
    pre: CarbonCreditContract,
    post: CarbonCreditContract,
    res: Result<Response, ContractError>,
    env: Env,
    info: MessageInfo,
    verification_id: String,
    status: VerificationStatus,
) -> bool {
    match update_verification_status_outcome(pre.carbon_credit_info@, pre.verification_records@, info.sender@,
        verification_id@, status) {
        Err(e) => res == Err::<Response, ContractError>(e) && post == pre,
        Ok(record) => {
            &&& res is Ok
            &&& res->Ok_0.summary() =~= seq![
                ("action"@, "update_verification_status"@),
                ("verification_id"@, verification_id@),
                ("status"@, status.spec_name()),
            ]
            &&& res->Ok_0.messages@.len() == 0
            &&& post.verification_records@ == saved(pre.verification_records@, verification_id@, record)
            &&& post.carbon_credit_info == pre.carbon_credit_info
            &&& post.retirement_records == pre.retirement_records
            &&& post.ledger == pre.ledger
        },
    }
}

/// Sets the status of the verification stored under `verification_id`. Only
/// the verification body may do so; `NotFound` where there is no such
/// record. Nothing else of the record changes, and the aggregate is not
/// touched.
pub fn update_verification_status(
    state: &mut CarbonCreditContract,
    env: Env,
    info: MessageInfo,
    verification_id: String,
    status: VerificationStatus,
) -> (res: Result<Response, ContractError>)
    ensures
        update_verification_status_post(*old(state), *final(state), res, env, info, verification_id, status),
{
    let carbon_credit_info = match state.carbon_credit_info.load() {
        Ok(carbon_credit_info) => carbon_credit_info,
        Err(e) => {
            return Err(e);
        },
    };
    if info.sender != carbon_credit_info.verification_body {
        return Err(ContractError::Unauthorized);
    }
    let mut verification_record = match state.verification_records.load(&verification_id) {
        Ok(record) => record.clone(),
        Err(e) => {
            return Err(e);
        },
    };
    verification_record.status = status;
    state.verification_records.save(verification_id.clone(), verification_record);
    Ok(Response::new()
        .add_attribute("action", "update_verification_status".to_string())
        .add_attribute("verification_id", verification_id)
        .add_attribute("status", status.name()))
}

/// One page of the verification records: those stored after `start_after`,
/// in ascending order of their identifiers, at most `limit` and at most
/// thirty.
pub fn query_all_verification_records(state: &CarbonCreditContract, start_after: Option<String>, limit: Option<u32>) -> (page: Vec<(String, VerificationRecord)>)
    ensures
        owned_page_view(page@) == page_of(state.verification_records.entries(), owned_cursor(start_after), limit),
{
    let page = match &start_after {
        Some(id) => state.verification_records.page(Some(id), limit),
        None => state.verification_records.page(None, limit),
    };
    assert(owned_page_view(page@) =~= page_of(state.verification_records.entries(), owned_cursor(start_after), limit));
    page
}

/// One page of the retirement records: those stored after `start_after`, in
/// ascending order of their identifiers, at most `limit` and at most thirty.
pub fn query_all_retirement_records(state: &CarbonCreditContract, start_after: Option<String>, limit: Option<u32>) -> (page: Vec<(String, RetirementRecord)>)
    ensures
        owned_page_view(page@) == page_of(state.retirement_records.entries(), owned_cursor(start_after), limit),
{
    let page = match &start_after {
        Some(id) => state.retirement_records.page(Some(id), limit),
        None => state.retirement_records.page(None, limit),
    };
    assert(owned_page_view(page@) =~= page_of(state.retirement_records.entries(), owned_cursor(start_after), limit));
    page
}

/// The credits verified and not retired; `NotInitialized` without an
/// aggregate.
pub fn query_available_credits(state: &CarbonCreditContract) -> (r: Result<u128, ContractError>)
    ensures
        r == match state.carbon_credit_info@ {
            Some(info) => Ok::<u128, ContractError>(info.credits_available),
            None => Err::<u128, ContractError>(ContractError::NotInitialized),
        },
{
    match state.carbon_credit_info.load() {
        Ok(info) => Ok(info.credits_available),
        Err(e) => Err(e),
    }
}

/// The credits retired so far; `NotInitialized` without an aggregate.
pub fn query_retired_credits(state: &CarbonCreditContract) -> (r: Result<u128, ContractError>)
    ensures
        r == match state.carbon_credit_info@ {
            Some(info) => Ok::<u128, ContractError>(info.credits_retired),
            None => Err::<u128, ContractError>(ContractError::NotInitialized),
        },
{
    match state.carbon_credit_info.load() {
        Ok(info) => Ok(info.credits_retired),
        Err(e) => Err(e),
    }
}

/// What [`instantiate`] does to the state and what it returns.
pub open spec fn instantiate_post(
    pre: CarbonCreditContract,
    post: CarbonCreditContract,
    res: Result<Response, ContractError>,
    env: Env,
    info: MessageInfo,
    msg: InstantiateMsg,
) -> bool {
    &&& forwards(res, Cw20ExecuteMsg::Instantiate(msg.cw20_base))
    &&& post.carbon_credit_info@ == Some(msg.carbon_credit_info)
    &&& post.verification_records == pre.verification_records
    &&& post.retirement_records == pre.retirement_records
    &&& post.ledger == pre.ledger
}

/// Sets an instance up: stores the aggregate record as it is given and hands
/// the ledger's setup on to the ledger.
pub fn instantiate(
    state: &mut CarbonCreditContract,
    env: Env,
    info: MessageInfo,
    msg: InstantiateMsg,
) -> (res: Result<Response, ContractError>)
    ensures
        instantiate_post(*old(state), *final(state), res, env, info, msg),
{
    state.carbon_credit_info.save(msg.carbon_credit_info);
    forward(Cw20ExecuteMsg::Instantiate(msg.cw20_base))
}

/// What [`execute`] does to the state and what it returns: a command of the
/// ledger is handed on as it is and changes nothing here; a command of the
/// project does what its transition does.
pub open spec fn execute_post(
    pre: CarbonCreditContract,
    post: CarbonCreditContract,
    res: Result<Response, ContractError>,
    env: Env,
    info: MessageInfo,
    msg: ExecuteMsg,
) -> bool {
    match msg {
        ExecuteMsg::Transfer { recipient, amount } => post == pre && forwards(res, Cw20ExecuteMsg::Transfer {
            recipient,
            amount,
        }),
        ExecuteMsg::Burn { amount } => post == pre && forwards(res, Cw20ExecuteMsg::Burn { amount }),
        ExecuteMsg::Send { contract, amount, msg } => post == pre && forwards(res, Cw20ExecuteMsg::Send {
            contract,
            amount,
            msg,
        }),
        ExecuteMsg::IncreaseAllowance { spender, amount, expires } => post == pre && forwards(res,
            Cw20ExecuteMsg::IncreaseAllowance { spender, amount, expires }),
        ExecuteMsg::DecreaseAllowance { spender, amount, expires } => post == pre && forwards(res,
            Cw20ExecuteMsg::DecreaseAllowance { spender, amount, expires }),
        ExecuteMsg::TransferFrom { owner, recipient, amount } => post == pre && forwards(res,
            Cw20ExecuteMsg::TransferFrom { owner, recipient, amount }),
        ExecuteMsg::SendFrom { owner, contract, amount, msg } => post == pre && forwards(res,
            Cw20ExecuteMsg::SendFrom { owner, contract, amount, msg }),
        ExecuteMsg::Mint { recipient, amount } => post == pre && forwards(res, Cw20ExecuteMsg::Mint {
            recipient,
            amount,
        }),
        ExecuteMsg::UpdateMinter { new_minter } => post == pre && forwards(res, Cw20ExecuteMsg::UpdateMinter {
            new_minter,
        }),
        ExecuteMsg::UpdateMarketing { project, description, marketing } => post == pre && forwards(res,
            Cw20ExecuteMsg::UpdateMarketing { project, description, marketing }),
        ExecuteMsg::UploadLogo(logo_info) => post == pre && forwards(res, Cw20ExecuteMsg::UploadLogo(logo_info)),
        ExecuteMsg::VerifyCredits { verification_id, credits_to_verify, verification_report_url } =>
            verify_credits_post(pre, post, res, env, info, verification_id, credits_to_verify,
                verification_report_url),
        ExecuteMsg::RetireCredits { retirement_id, credits_to_retire, retirement_purpose, retirement_certificate_url } =>
            retire_credits_post(pre, post, res, env, info, retirement_id, credits_to_retire, retirement_purpose,
                retirement_certificate_url),
        ExecuteMsg::UpdateVerificationStatus { verification_id, status } => update_verification_status_post(pre,
            post, res, env, info, verification_id, status),
    }
}

/// Carries out one command.
pub fn execute(
    state: &mut CarbonCreditContract,
    env: Env,
    info: MessageInfo,
    msg: ExecuteMsg,
) -> (res: Result<Response, ContractError>)
    ensures
        execute_post(*old(state), *final(state), res, env, info, msg),
{
    match msg {
        ExecuteMsg::Transfer { recipient, amount } => forward(Cw20ExecuteMsg::Transfer { recipient, amount }),
        ExecuteMsg::Burn { amount } => forward(Cw20ExecuteMsg::Burn { amount }),
        ExecuteMsg::Send { contract, amount, msg } => forward(Cw20ExecuteMsg::Send { contract, amount, msg }),
        ExecuteMsg::IncreaseAllowance { spender, amount, expires } => forward(
            Cw20ExecuteMsg::IncreaseAllowance { spender, amount, expires },
        ),
        ExecuteMsg::DecreaseAllowance { spender, amount, expires } => forward(
            Cw20ExecuteMsg::DecreaseAllowance { spender, amount, expires },
        ),
        ExecuteMsg::TransferFrom { owner, recipient, amount } => forward(
            Cw20ExecuteMsg::TransferFrom { owner, recipient, amount },
        ),
        ExecuteMsg::SendFrom { owner, contract, amount, msg } => forward(
            Cw20ExecuteMsg::SendFrom { owner, contract, amount, msg },
        ),
        ExecuteMsg::Mint { recipient, amount } => forward(Cw20ExecuteMsg::Mint { recipient, amount }),
        ExecuteMsg::UpdateMinter { new_minter } => forward(Cw20ExecuteMsg::UpdateMinter { new_minter }),
        ExecuteMsg::UpdateMarketing { project, description, marketing } => forward(
            Cw20ExecuteMsg::UpdateMarketing { project, description, marketing },
        ),
        ExecuteMsg::UploadLogo(logo_info) => forward(Cw20ExecuteMsg::UploadLogo(logo_info)),
        ExecuteMsg::VerifyCredits { verification_id, credits_to_verify, verification_report_url } => verify_credits(
            state,
            env,
            info,
            verification_id,
            credits_to_verify,
            verification_report_url,
        ),
        ExecuteMsg::RetireCredits { retirement_id, credits_to_retire, retirement_purpose, retirement_certificate_url } =>
            retire_credits(state, env, info, retirement_id, credits_to_retire, retirement_purpose,
                retirement_certificate_url),
        ExecuteMsg::UpdateVerificationStatus { verification_id, status } => update_verification_status(state, env,
            info, verification_id, status),
    }
}

/// What [`query`] answers. A question of the ledger is handed back for the
/// ledger to answer; a question of the project is answered from the state.
pub open spec fn query_post(state: CarbonCreditContract, res: Result<QueryResponse, ContractError>, msg: QueryMsg) -> bool {
    match msg {
        QueryMsg::Balance { address } => res == Ok::<QueryResponse, ContractError>(QueryResponse::Ledger(
            Cw20QueryMsg::Balance { address },
        )),
        QueryMsg::TokenInfo {  } => res == Ok::<QueryResponse, ContractError>(QueryResponse::Ledger(
            Cw20QueryMsg::TokenInfo {  },
        )),
        QueryMsg::Minter {  } => res == Ok::<QueryResponse, ContractError>(QueryResponse::Ledger(
            Cw20QueryMsg::Minter {  },
        )),
        QueryMsg::Allowance { owner, spender } => res == Ok::<QueryResponse, ContractError>(QueryResponse::Ledger(
            Cw20QueryMsg::Allowance { owner, spender },
        )),
        QueryMsg::AllAllowances { owner, start_after, limit } => res == Ok::<QueryResponse, ContractError>(
            QueryResponse::Ledger(Cw20QueryMsg::AllAllowances { owner, start_after, limit }),
        ),
        QueryMsg::AllAccounts { start_after, limit } => res == Ok::<QueryResponse, ContractError>(
            QueryResponse::Ledger(Cw20QueryMsg::AllAccounts { start_after, limit }),
        ),
        QueryMsg::MarketingInfo {  } => res == Ok::<QueryResponse, ContractError>(QueryResponse::Ledger(
            Cw20QueryMsg::MarketingInfo {  },
        )),
        QueryMsg::DownloadLogo {  } => res == Ok::<QueryResponse, ContractError>(QueryResponse::Ledger(
            Cw20QueryMsg::DownloadLogo {  },
        )),
        QueryMsg::CarbonCreditInfo {  } => res == match state.carbon_credit_info@ {
            Some(info) => Ok::<QueryResponse, ContractError>(QueryResponse::CarbonCreditInfo(info)),
            None => Err::<QueryResponse, ContractError>(ContractError::NotInitialized),
        },
        QueryMsg::VerificationRecord { verification_id } => res == match loaded(state.verification_records@,
            verification_id@) {
            Ok(record) => Ok::<QueryResponse, ContractError>(QueryResponse::VerificationRecord(record)),
            Err(e) => Err::<QueryResponse, ContractError>(e),
        },
        QueryMsg::AllVerificationRecords { start_after, limit } => {
            &&& res matches Ok(QueryResponse::VerificationRecords(page))
            &&& owned_page_view(page@) == page_of(state.verification_records.entries(), owned_cursor(start_after),
                limit)
        },
        QueryMsg::RetirementRecord { retirement_id } => res == match loaded(state.retirement_records@,
            retirement_id@) {
            Ok(record) => Ok::<QueryResponse, ContractError>(QueryResponse::RetirementRecord(record)),
            Err(e) => Err::<QueryResponse, ContractError>(e),
        },
        QueryMsg::AllRetirementRecords { start_after, limit } => {
            &&& res matches Ok(QueryResponse::RetirementRecords(page))
            &&& owned_page_view(page@) == page_of(state.retirement_records.entries(), owned_cursor(start_after),
                limit)
        },
        QueryMsg::AvailableCredits {  } => res == match state.carbon_credit_info@ {
            Some(info) => Ok::<QueryResponse, ContractError>(QueryResponse::AvailableCredits(info.credits_available)),
            None => Err::<QueryResponse, ContractError>(ContractError::NotInitialized),
        },
        QueryMsg::RetiredCredits {  } => res == match state.carbon_credit_info@ {
            Some(info) => Ok::<QueryResponse, ContractError>(QueryResponse::RetiredCredits(info.credits_retired)),
            None => Err::<QueryResponse, ContractError>(ContractError::NotInitialized),
        },
    }
}

/// Answers one question. The state is only read.
pub fn query(state: &CarbonCreditContract, env: Env, msg: QueryMsg) -> (res: Result<QueryResponse, ContractError>)
    ensures
        query_post(*state, res, msg),
{
    match msg {
        QueryMsg::Balance { address } => Ok(QueryResponse::Ledger(Cw20QueryMsg::Balance { address })),
        QueryMsg::TokenInfo {  } => Ok(QueryResponse::Ledger(Cw20QueryMsg::TokenInfo {  })),
        QueryMsg::Minter {  } => Ok(QueryResponse::Ledger(Cw20QueryMsg::Minter {  })),
        QueryMsg::Allowance { owner, spender } => Ok(QueryResponse::Ledger(Cw20QueryMsg::Allowance { owner, spender })),
        QueryMsg::AllAllowances { owner, start_after, limit } => Ok(QueryResponse::Ledger(
            Cw20QueryMsg::AllAllowances { owner, start_after, limit },
        )),
        QueryMsg::AllAccounts { start_after, limit } => Ok(QueryResponse::Ledger(
            Cw20QueryMsg::AllAccounts { start_after, limit },
        )),
        QueryMsg::MarketingInfo {  } => Ok(QueryResponse::Ledger(Cw20QueryMsg::MarketingInfo {  })),
        QueryMsg::DownloadLogo {  } => Ok(QueryResponse::Ledger(Cw20QueryMsg::DownloadLogo {  })),
        QueryMsg::CarbonCreditInfo {  } => match state.carbon_credit_info.load() {
            Ok(info) => Ok(QueryResponse::CarbonCreditInfo(info.clone())),
            Err(e) => Err(e),
        },
        QueryMsg::VerificationRecord { verification_id } => match state.verification_records.load(&verification_id) {
            Ok(record) => Ok(QueryResponse::VerificationRecord(record.clone())),
            Err(e) => Err(e),
        },
        QueryMsg::AllVerificationRecords { start_after, limit } => Ok(QueryResponse::VerificationRecords(
            query_all_verification_records(state, start_after, limit),
        )),
        QueryMsg::RetirementRecord { retirement_id } => match state.retirement_records.load(&retirement_id) {
            Ok(record) => Ok(QueryResponse::RetirementRecord(record.clone())),
            Err(e) => Err(e),
        },
        QueryMsg::AllRetirementRecords { start_after, limit } => Ok(QueryResponse::RetirementRecords(
            query_all_retirement_records(state, start_after, limit),
        )),
        QueryMsg::AvailableCredits {  } => match query_available_credits(state) {
            Ok(credits) => Ok(QueryResponse::AvailableCredits(credits)),
            Err(e) => Err(e),
        },
        QueryMsg::RetiredCredits {  } => match query_retired_credits(state) {
            Ok(credits) => Ok(QueryResponse::RetiredCredits(credits)),
            Err(e) => Err(e),
        },
    }
}

} // verus!
