use vstd::prelude::*;

use super::address::Address;
use super::allowance::Allowance;
use super::payment_method::{Metadata, PaymentMethod};
use super::risk_signal::RiskSignal;

verus! {

/// The body of a delegate-payment request.
#[derive(Debug, Clone)]
pub struct DelegatePaymentRequest {
    pub payment_method: PaymentMethod,
    pub allowance: Allowance,
    pub billing_address: Option<Address>,
    pub risk_signals: Vec<RiskSignal>,
    pub metadata: Metadata,
}

} // verus!
