use vstd::prelude::*;

use super::payment_method::Metadata;
use super::timestamp::Timestamp;

verus! {

/// The answer to a delegate-payment request: the vault token and when it was made.
#[derive(Debug, Clone)]
pub struct DelegatePaymentResponse {
    pub id: String,
    pub created: Timestamp,
    pub metadata: Metadata,
}

} // verus!
