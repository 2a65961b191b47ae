//! Bond tokens: coupon payments, redemptions, recorded transfers and interest
//! calculations over one bond issue.

pub mod contract;
pub mod laws;
pub mod msg;
pub mod state;
