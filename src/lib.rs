//! Page security information for enclave pages, and a capability for
//! values that a hardware query may or may not report.

pub mod data;
pub mod page;
