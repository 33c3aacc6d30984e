//! Checks on the card data of a delegate-payment request.

pub mod card;
pub mod parse;
