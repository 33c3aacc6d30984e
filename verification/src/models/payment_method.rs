use vstd::prelude::*;

verus! {

/// Free-form metadata: each key, once, with the JSON text of its value.
pub type Metadata = std::collections::HashMap<String, String>;

/// Whether the card number is the primary account number or a network token.
#[derive(Debug, Clone, Copy, PartialEq, Eq, Structural)]
pub enum CardNumberType {
    Fpan,
    NetworkToken,
}

/// How the card is funded, for display.
#[derive(Debug, Clone, Copy, PartialEq, Eq, Structural)]
pub enum CardFundingType {
    Credit,
    Debit,
    Prepaid,
}

/// The card that an allowance draws on.
#[derive(Debug, Clone)]
pub struct PaymentMethod {
    pub payment_type: String,
    pub card_number_type: CardNumberType,
    pub number: String,
    pub exp_month: Option<String>,
    pub exp_year: Option<String>,
    pub name: Option<String>,
    pub cvc: Option<String>,
    pub cryptogram: Option<String>,
    pub eci_value: Option<String>,
    pub checks_performed: Option<Vec<String>>,
    pub iin: Option<String>,
    pub display_card_funding_type: Option<CardFundingType>,
    pub display_wallet_type: Option<String>,
    pub display_brand: Option<String>,
    pub display_last4: Option<String>,
    pub metadata: Metadata,
}

} // verus!
