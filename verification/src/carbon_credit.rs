//! Carbon credit tokens: verified issuance and retirement of credits of one
//! project.

pub mod contract;
pub mod laws;
pub mod msg;
pub mod state;
