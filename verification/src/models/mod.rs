//! The request, response and record types of the two endpoints.

pub mod address;
pub mod allowance;
pub mod delegate_request;
pub mod delegate_response;
pub mod payment_method;
pub mod risk_signal;
pub mod timestamp;
pub mod validate_request;
pub mod validate_response;

pub use address::Address;
pub use allowance::{Allowance, AllowanceReason};
pub use delegate_request::DelegatePaymentRequest;
pub use delegate_response::DelegatePaymentResponse;
pub use payment_method::{CardFundingType, CardNumberType, Metadata, PaymentMethod};
pub use risk_signal::{RiskAction, RiskSignal};
pub use timestamp::Timestamp;
pub use validate_request::ValidatePaymentRequest;
pub use validate_response::{ValidateAnswer, ValidatePaymentResponse};
