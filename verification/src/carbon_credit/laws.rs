//! What holds of every carbon credit transition: conservation of credits,
//! refusal without effect, and who may act.

use vstd::prelude::*;
use crate::carbon_credit::contract::{
    execute_post, retire_credits_post, retirement_update, update_verification_status_post,
    verification_update, verify_credits_post, CarbonCreditContract,
};
use crate::carbon_credit::msg::ExecuteMsg;
use crate::carbon_credit::state::{CarbonCreditInfo, VerificationStatus};
use crate::env::{Env, MessageInfo};
use crate::error::ContractError;
use crate::ledger::balance_in;
use crate::response::Response;

verus! {

/// Conservation: a verification adds the same number to the issued and to
/// the available credits, and retires none. Where the issued credits were
/// the available and the retired together, they still are.
pub proof fn law_verification_conserves_credits(info: CarbonCreditInfo, credits: u128)
    requires
        verification_update(info, credits) is Ok,
    ensures
        ({
            let after = verification_update(info, credits)->Ok_0;
            &&& after.total_credits_issued == info.total_credits_issued + credits
            &&& after.credits_available == info.credits_available + credits
            &&& after.credits_retired == info.credits_retired
            &&& info.total_credits_issued == info.credits_available + info.credits_retired
                ==> after.total_credits_issued == after.credits_available + after.credits_retired
        }),
{
}

/// Conservation: a retirement moves credits from the available to the
/// retired, so their sum stays, and issues none.
pub proof fn law_retirement_conserves_credits(info: CarbonCreditInfo, credits: u128)
    requires
        retirement_update(info, credits) is Ok,
    ensures
        ({
            let after = retirement_update(info, credits)->Ok_0;
            &&& after.credits_available + after.credits_retired == info.credits_available + info.credits_retired
            &&& after.credits_available + credits == info.credits_available
            &&& after.total_credits_issued == info.total_credits_issued
        }),
{
}

/// No total drops below zero: a retirement of more credits than are
/// available, than the caller holds or than the ledger has in supply is
/// refused, and the state stays as it was.
pub proof fn law_retirement_never_overdraws(
    pre: CarbonCreditContract,
    post: CarbonCreditContract,
    res: Result<Response, ContractError>,
    env: Env,
    info: MessageInfo,
    retirement_id: String,
    credits_to_retire: u128,
    retirement_purpose: String,
    retirement_certificate_url: String,
)
    requires
        retire_credits_post(pre, post, res, env, info, retirement_id, credits_to_retire, retirement_purpose,
            retirement_certificate_url),
        pre.carbon_credit_info@ matches Some(stored) && (credits_to_retire > stored.credits_available
            || balance_in(pre.ledger.balances@, info.sender@) < credits_to_retire || pre.ledger.total_supply
            < credits_to_retire),
    ensures
        res is Err,
        post == pre,
{
}

/// Atomicity: a retirement that is refused, for whatever reason, leaves the
/// state as it was: no credit is burnt and no record written.
pub proof fn law_refused_retirement_changes_nothing(
    pre: CarbonCreditContract,
    post: CarbonCreditContract,
    res: Result<Response, ContractError>,
    env: Env,
    info: MessageInfo,
    retirement_id: String,
    credits_to_retire: u128,
    retirement_purpose: String,
    retirement_certificate_url: String,
)
    requires
        retire_credits_post(pre, post, res, env, info, retirement_id, credits_to_retire, retirement_purpose,
            retirement_certificate_url),
        res is Err,
    ensures
        post == pre,
{
}

/// A retirement that commits takes the same number of credits from the
/// caller's balance, from the ledger's total supply and from the available
/// credits.
pub proof fn law_retirement_burns_what_it_retires(
    pre: CarbonCreditContract,
    post: CarbonCreditContract,
    res: Result<Response, ContractError>,
    env: Env,
    info: MessageInfo,
    retirement_id: String,
    credits_to_retire: u128,
    retirement_purpose: String,
    retirement_certificate_url: String,
)
    requires
        retire_credits_post(pre, post, res, env, info, retirement_id, credits_to_retire, retirement_purpose,
            retirement_certificate_url),
        res is Ok,
    ensures
        balance_in(post.ledger.balances@, info.sender@) + credits_to_retire == balance_in(
            pre.ledger.balances@,
            info.sender@,
        ),
        post.ledger.total_supply + credits_to_retire == pre.ledger.total_supply,
        post.carbon_credit_info@->Some_0.credits_available + credits_to_retire
            == pre.carbon_credit_info@->Some_0.credits_available,
        post.carbon_credit_info@->Some_0.credits_retired == pre.carbon_credit_info@->Some_0.credits_retired
            + credits_to_retire,
{
}

/// Authorization: a verification by anyone but the verification body fails
/// as unauthorized, whatever else holds, and the state stays as it was.
pub proof fn law_only_verification_body_verifies(
    pre: CarbonCreditContract,
    post: CarbonCreditContract,
    res: Result<Response, ContractError>,
    env: Env,
    info: MessageInfo,
    verification_id: String,
    credits_to_verify: u128,
    verification_report_url: String,
)
    requires
        verify_credits_post(pre, post, res, env, info, verification_id, credits_to_verify,
            verification_report_url),
        pre.carbon_credit_info@ matches Some(stored) && info.sender@ != stored.verification_body@,
    ensures
        res == Err::<Response, ContractError>(ContractError::Unauthorized),
        post == pre,
{
}

/// Authorization: a change of a verification's status by anyone but the
/// verification body fails as unauthorized, whether or not the record
/// exists, and the state stays as it was.
pub proof fn law_only_verification_body_updates_status(
    pre: CarbonCreditContract,
    post: CarbonCreditContract,
    res: Result<Response, ContractError>,
    env: Env,
    info: MessageInfo,
    verification_id: String,
    status: VerificationStatus,
)
    requires
        update_verification_status_post(pre, post, res, env, info, verification_id, status),
        pre.carbon_credit_info@ matches Some(stored) && info.sender@ != stored.verification_body@,
    ensures
        res == Err::<Response, ContractError>(ContractError::Unauthorized),
        post == pre,
{
}

/// Atomicity: whatever the command, one that is refused leaves the whole
/// state as it was.
pub proof fn law_refused_command_changes_nothing(
    pre: CarbonCreditContract,
    post: CarbonCreditContract,
    res: Result<Response, ContractError>,
    env: Env,
    info: MessageInfo,
    msg: ExecuteMsg,
)
    requires
        execute_post(pre, post, res, env, info, msg),
        res is Err,
    ensures
        post == pre,
{
}

} // verus!
