//! Multi-signature treasury governance: proposals, threshold approval,
//! rate-limited execution, and the ledger and price arithmetic it relies on.
pub mod errors;
pub mod model;
pub mod rate_limit;
pub mod treasury;
pub mod laws;
pub mod oracle;
pub mod token;
