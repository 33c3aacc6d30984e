//! The decisions of the two endpoints, as state machines: each step takes what the store
//! answered and says what to do next. The store is driven by the caller.

pub mod delegate_payment;
pub mod validate_payment;
