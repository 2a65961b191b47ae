//! Oil reserve tokens: recorded extractions, audits and trades over one
//! reserve.

pub mod contract;
pub mod laws;
pub mod msg;
pub mod state;
