//! What holds of every bond transition: conservation of principal, refusal
//! without effect, and who may act.

use vstd::prelude::*;
use crate::bond::contract::{
    coupon_update, execute_post, pay_coupon_post, redeem_bonds_post, redemption_update,
    update_bond_rating_post, update_collateral_value_post, BondContract,
};
use crate::bond::msg::ExecuteMsg;
use crate::bond::state::{BondInfo, BondRating, PaymentMethod, RedemptionType};
use crate::env::{Env, MessageInfo, Timestamp};
use crate::error::ContractError;
use crate::ledger::balance_in;
use crate::math::Decimal;
use crate::response::Response;

verus! {

/// Conservation: a coupon payment moves the principal paid from the
/// outstanding principal to the repaid principal, so their sum stays.
pub proof fn law_coupon_conserves_principal(info: BondInfo, coupon: Decimal, principal: Decimal)
    requires
        coupon_update(info, coupon, principal) is Ok,
    ensures
        ({
            let after = coupon_update(info, coupon, principal)->Ok_0;
            &&& after.outstanding_principal.atomics + after.total_principal_repaid.atomics
                == info.outstanding_principal.atomics + info.total_principal_repaid.atomics
            &&& after.outstanding_principal.atomics + principal.atomics == info.outstanding_principal.atomics
            &&& after.total_coupons_paid.atomics == info.total_coupons_paid.atomics + coupon.atomics
        }),
{
}

/// Conservation: a redemption moves the redeemed value from the outstanding
/// principal to the repaid principal, so their sum stays.
pub proof fn law_redemption_conserves_principal(info: BondInfo, value: Decimal)
    requires
        redemption_update(info, value) is Ok,
    ensures
        ({
            let after = redemption_update(info, value)->Ok_0;
            &&& after.outstanding_principal.atomics + after.total_principal_repaid.atomics
                == info.outstanding_principal.atomics + info.total_principal_repaid.atomics
            &&& after.outstanding_principal.atomics + value.atomics == info.outstanding_principal.atomics
        }),
{
}

/// No total drops below zero: a coupon payment whose principal exceeds the
/// outstanding principal is refused, and the state stays as it was.
pub proof fn law_coupon_never_overdraws(
    pre: BondContract,
    post: BondContract,
    res: Result<Response, ContractError>,
    env: Env,
    info: MessageInfo,
    payment_id: String,
    coupon_period_start: Timestamp,
    coupon_period_end: Timestamp,
    coupon_amount: Decimal,
    principal_amount: Decimal,
    payment_method: PaymentMethod,
)
    requires
        pay_coupon_post(pre, post, res, env, info, payment_id, coupon_period_start, coupon_period_end,
            coupon_amount, principal_amount, payment_method),
        pre.bond_info@ matches Some(stored) && principal_amount.atomics > stored.outstanding_principal.atomics,
    ensures
        res is Err,
        post == pre,
{
}

/// No total drops below zero: a redemption whose value exceeds the
/// outstanding principal, or that asks for more bonds than the holder has,
/// is refused, and the state stays as it was.
pub proof fn law_redemption_never_overdraws(
    pre: BondContract,
    post: BondContract,
    res: Result<Response, ContractError>,
    env: Env,
    info: MessageInfo,
    redemption_id: String,
    bondholder: String,
    bonds_to_redeem: u128,
    redemption_type: RedemptionType,
    redemption_reason: String,
)
    requires
        redeem_bonds_post(pre, post, res, env, info, redemption_id, bondholder, bonds_to_redeem,
            redemption_type, redemption_reason),
        pre.bond_info@ matches Some(stored) && (bonds_to_redeem * stored.face_value.atomics
            > stored.outstanding_principal.atomics || balance_in(pre.ledger.balances@, bondholder@)
            < bonds_to_redeem || pre.ledger.total_supply < bonds_to_redeem),
    ensures
        res is Err,
        post == pre,
{
}

/// Authorization: a coupon payment by anyone but the paying agent fails as
/// unauthorized, whatever else holds, and the state stays as it was.
pub proof fn law_only_paying_agent_pays(
    pre: BondContract,
    post: BondContract,
    res: Result<Response, ContractError>,
    env: Env,
    info: MessageInfo,
    payment_id: String,
    coupon_period_start: Timestamp,
    coupon_period_end: Timestamp,
    coupon_amount: Decimal,
    principal_amount: Decimal,
    payment_method: PaymentMethod,
)
    requires
        pay_coupon_post(pre, post, res, env, info, payment_id, coupon_period_start, coupon_period_end,
            coupon_amount, principal_amount, payment_method),
        pre.bond_info@ matches Some(stored) && info.sender@ != stored.paying_agent@,
    ensures
        res == Err::<Response, ContractError>(ContractError::Unauthorized),
        post == pre,
{
}

/// Authorization: a rating by anyone but the issuer or the trustee fails as
/// unauthorized, and the state stays as it was.
pub proof fn law_only_issuer_or_trustee_rates(
    pre: BondContract,
    post: BondContract,
    res: Result<Response, ContractError>,
    env: Env,
    info: MessageInfo,
    new_rating: BondRating,
)
    requires
        update_bond_rating_post(pre, post, res, env, info, new_rating),
        pre.bond_info@ matches Some(stored) && info.sender@ != stored.issuer@ && info.sender@ != stored.trustee@,
    ensures
        res == Err::<Response, ContractError>(ContractError::Unauthorized),
        post == pre,
{
}

/// Authorization: a revaluation of the collateral by anyone but the trustee
/// fails as unauthorized, and the state stays as it was.
pub proof fn law_only_trustee_revalues(
    pre: BondContract,
    post: BondContract,
    res: Result<Response, ContractError>,
    env: Env,
    info: MessageInfo,
    new_collateral_value: Decimal,
)
    requires
        update_collateral_value_post(pre, post, res, env, info, new_collateral_value),
        pre.bond_info@ matches Some(stored) && info.sender@ != stored.trustee@,
    ensures
        res == Err::<Response, ContractError>(ContractError::Unauthorized),
        post == pre,
{
}

/// Atomicity: a coupon payment that is refused, for whatever reason, leaves
/// the state as it was.
pub proof fn law_refused_coupon_changes_nothing(
    pre: BondContract,
    post: BondContract,
    res: Result<Response, ContractError>,
    env: Env,
    info: MessageInfo,
    payment_id: String,
    coupon_period_start: Timestamp,
    coupon_period_end: Timestamp,
    coupon_amount: Decimal,
    principal_amount: Decimal,
    payment_method: PaymentMethod,
)
    requires
        pay_coupon_post(pre, post, res, env, info, payment_id, coupon_period_start, coupon_period_end,
            coupon_amount, principal_amount, payment_method),
        res is Err,
    ensures
        post == pre,
{
}

/// Atomicity: a redemption that is refused, for whatever reason, leaves the
/// state as it was: no bond is burnt and no record written.
pub proof fn law_refused_redemption_changes_nothing(
    pre: BondContract,
    post: BondContract,
    res: Result<Response, ContractError>,
    env: Env,
    info: MessageInfo,
    redemption_id: String,
    bondholder: String,
    bonds_to_redeem: u128,
    redemption_type: RedemptionType,
    redemption_reason: String,
)
    requires
        redeem_bonds_post(pre, post, res, env, info, redemption_id, bondholder, bonds_to_redeem,
            redemption_type, redemption_reason),
        res is Err,
    ensures
        post == pre,
{
}

/// Atomicity: whatever the command, one that is refused leaves the whole
/// state as it was.
pub proof fn law_refused_command_changes_nothing(
    pre: BondContract,
    post: BondContract,
    res: Result<Response, ContractError>,
    env: Env,
    info: MessageInfo,
    msg: ExecuteMsg,
)
    requires
        execute_post(pre, post, res, env, info, msg),
        res is Err,
    ensures
        post == pre,
{
}

} // verus!
