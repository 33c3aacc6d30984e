use vstd::prelude::*;

verus! {

/// The answer to a validate-payment request; refusals carry a machine-readable code.
#[derive(Debug, Clone)]
pub struct ValidatePaymentResponse {
    pub valid: bool,
    pub vault_token: Option<String>,
    pub message: Option<String>,
    pub code: Option<String>,
}

/// The abstract value of a [`ValidatePaymentResponse`].
pub struct ValidateAnswer {
    pub valid: bool,
    pub vault_token: Option<Seq<char>>,
    pub message: Option<Seq<char>>,
    pub code: Option<Seq<char>>,
}

impl View for ValidatePaymentResponse {
    type V = ValidateAnswer;

    open spec fn view(&self) -> ValidateAnswer {
        ValidateAnswer {
            valid: self.valid,
            vault_token: crate::errors::opt_text(self.vault_token),
            message: crate::errors::opt_text(self.message),
            code: crate::errors::opt_text(self.code),
        }
    }
}

} // verus!
