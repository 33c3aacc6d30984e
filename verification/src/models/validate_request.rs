use vstd::prelude::*;

verus! {

/// The body of a validate-payment request: an order to check against a vault token.
#[derive(Debug, Clone)]
pub struct ValidatePaymentRequest {
    pub vault_token: String,
    pub amount: i64,
    pub currency: String,
    pub merchant_id: String,
    pub checkout_session_id: String,
}

} // verus!
