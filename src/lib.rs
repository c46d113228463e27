//! Release monitoring for watched artists: a deduplicated release ledger,
//! per-subscription alert bookkeeping, the scan and dispatch decisions of each
//! polling cycle, and the cycle scheduler.

pub mod alert;
mod clock;
pub mod laws;
pub mod model;
pub mod scan;
pub mod scheduler;
pub mod schema;
