use vstd::prelude::*;

verus! {

/// A postal billing address.
#[derive(Debug, Clone)]
pub struct Address {
    pub name: String,
    pub line_one: String,
    pub line_two: Option<String>,
    pub city: String,
    pub state: Option<String>,
    pub country: String,
    pub postal_code: String,
    pub phone_number: Option<String>,
}

} // verus!
