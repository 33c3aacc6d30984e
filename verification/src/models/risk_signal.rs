use vstd::prelude::*;

verus! {

/// What a risk engine decided about a payment.
#[derive(Debug, Clone, Copy, PartialEq, Eq, Structural)]
pub enum RiskAction {
    Blocked,
    ManualReview,
    Authorized,
}

/// One risk assessment attached to a delegate-payment request.
#[derive(Debug, Clone)]
pub struct RiskSignal {
    pub signal_type: String,
    pub score: i32,
    pub action: RiskAction,
}

} // verus!
