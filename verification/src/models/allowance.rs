use vstd::prelude::*;

use super::timestamp::Timestamp;

verus! {

/// Why an allowance was granted; only single use is supported.
#[derive(Debug, Clone, Copy, PartialEq, Eq, Structural)]
pub enum AllowanceReason {
    OneTime,
}

/// The constraints that a delegated payment must satisfy.
#[derive(Debug, Clone)]
pub struct Allowance {
    pub reason: AllowanceReason,
    pub max_amount: i64,
    pub currency: String,
    pub checkout_session_id: String,
    pub merchant_id: String,
    pub expires_at: Timestamp,
}

} // verus!
