use std::collections::HashMap;
use acp_connector::errors::AppError;
use acp_connector::models::{CardNumberType, PaymentMethod};
use acp_connector::validation::card::{
    validate_card_number, validate_cvc, validate_expiry, validate_expiry_at, validate_expiry_on,
    validate_iin, validate_last4, validate_payment_method, validate_payment_method_at,
    validate_payment_method_on,
};
use chrono::Datelike;

fn card_error(r: Result<(), AppError>) -> (String, Option<String>) {
    match r {
        Err(AppError::InvalidCard { message, param }) => (message, param),
        other => panic!("expected an invalid_card error, got {:?}", other),
    }
}

fn request_error(r: Result<(), AppError>) -> (String, Option<String>) {
    match r {
        Err(AppError::InvalidRequest { message, param }) => (message, param),
        other => panic!("expected an invalid_request error, got {:?}", other),
    }
}

fn p(s: &str) -> Option<String> {
    Some(s.to_string())
}

#[test]
fn card_number_visa_test_number_passes() {
    assert!(validate_card_number("4111111111111111").is_ok());
    assert!(validate_card_number("5555555555554444").is_ok());
    assert!(validate_card_number("378282246310005").is_ok());
}

#[test]
fn card_number_separators_are_ignored() {
    assert!(validate_card_number("4111 1111 1111 1111").is_ok());
    assert!(validate_card_number("4111-1111-1111-1111").is_ok());
    assert!(validate_card_number("x4111a1111b1111c1111y").is_ok());
}

#[test]
fn card_number_length_bounds() {
    let short = card_error(validate_card_number("411111111111"));
    assert_eq!(short, ("Card number must be between 13 and 19 digits".to_string(), p("payment_method.number")));
    let long = card_error(validate_card_number("41111111111111111111"));
    assert_eq!(long.0, "Card number must be between 13 and 19 digits");
    let empty = card_error(validate_card_number(""));
    assert_eq!(empty.0, "Card number must be between 13 and 19 digits");
    // 13 and 19 digits are accepted lengths
    assert!(validate_card_number("4222222222222").is_ok());
    assert!(validate_card_number("4222222222222222224").is_ok());
}

#[test]
fn card_number_luhn_failure() {
    let e = card_error(validate_card_number("4111111111111112"));
    assert_eq!(e, ("Card number failed Luhn validation".to_string(), p("payment_method.number")));
}

/// Luhn sum by the textbook definition, for comparison.
fn luhn_ok(digits: &[u32]) -> bool {
    let mut sum = 0;
    for (i, d) in digits.iter().rev().enumerate() {
        let mut v = *d;
        if i % 2 == 1 {
            v *= 2;
            if v > 9 {
                v -= 9;
            }
        }
        sum += v;
    }
    sum % 10 == 0
}

#[test]
fn card_number_agrees_with_textbook_luhn() {
    let mut seed: u64 = 12345;
    for _ in 0..2000 {
        seed = seed.wrapping_mul(6364136223846793005).wrapping_add(1442695040888963407);
        let len = 12 + (seed >> 60) as usize % 9; // 12..=20 digits
        let mut digits = Vec::new();
        let mut s = String::new();
        let mut x = seed;
        for i in 0..len {
            x = x.wrapping_mul(2862933555777941757).wrapping_add(3037000493);
            let d = ((x >> 33) % 10) as u32;
            digits.push(d);
            s.push(char::from_digit(d, 10).unwrap());
            if i % 4 == 3 {
                s.push(' ');
            }
        }
        let expected = (13..=19).contains(&len) && luhn_ok(&digits);
        assert_eq!(validate_card_number(&s).is_ok(), expected, "number {}", s);
    }
}

#[test]
fn expiry_missing_parts_are_not_checked() {
    assert!(validate_expiry_at(None, None, 2025, 6).is_ok());
    assert!(validate_expiry_at(Some("13"), None, 2025, 6).is_ok());
    assert!(validate_expiry_at(None, Some("1999"), 2025, 6).is_ok());
}

#[test]
fn expiry_month_errors() {
    let e = card_error(validate_expiry_at(Some("ab"), Some("2030"), 2025, 6));
    assert_eq!(e, ("Invalid expiry month".to_string(), p("payment_method.exp_month")));
    let e = card_error(validate_expiry_at(Some("-1"), Some("2030"), 2025, 6));
    assert_eq!(e.0, "Invalid expiry month");
    let e = card_error(validate_expiry_at(Some(""), Some("2030"), 2025, 6));
    assert_eq!(e.0, "Invalid expiry month");
    let e = card_error(validate_expiry_at(Some("13"), Some("2030"), 2025, 6));
    assert_eq!(e, ("Expiry month must be between 01 and 12".to_string(), p("payment_method.exp_month")));
    let e = card_error(validate_expiry_at(Some("0"), Some("2030"), 2025, 6));
    assert_eq!(e.0, "Expiry month must be between 01 and 12");
    assert!(validate_expiry_at(Some("+07"), Some("2030"), 2025, 6).is_ok());
    assert!(validate_expiry_at(Some("012"), Some("2030"), 2025, 6).is_ok());
}

#[test]
fn expiry_year_errors() {
    let e = card_error(validate_expiry_at(Some("12"), Some("20x5"), 2025, 6));
    assert_eq!(e, ("Invalid expiry year".to_string(), p("payment_method.exp_year")));
    let e = card_error(validate_expiry_at(Some("12"), Some("30"), 2025, 6));
    assert_eq!(e, ("Expiry year must be 4 digits".to_string(), p("payment_method.exp_year")));
    let e = card_error(validate_expiry_at(Some("12"), Some("02030"), 2025, 6));
    assert_eq!(e.0, "Expiry year must be 4 digits");
    // a sign counts towards the four characters
    let e = card_error(validate_expiry_at(Some("12"), Some("+203"), 2025, 6));
    assert_eq!(e, ("Card has expired".to_string(), p("payment_method.exp_year")));
}

#[test]
fn expiry_against_the_current_month() {
    assert!(validate_expiry_at(Some("6"), Some("2025"), 2025, 6).is_ok());
    assert!(validate_expiry_at(Some("7"), Some("2025"), 2025, 6).is_ok());
    assert!(validate_expiry_at(Some("1"), Some("2026"), 2025, 6).is_ok());
    let e = card_error(validate_expiry_at(Some("5"), Some("2025"), 2025, 6));
    assert_eq!(e, ("Card has expired".to_string(), p("payment_method.exp_year")));
    let e = card_error(validate_expiry_at(Some("12"), Some("2024"), 2025, 6));
    assert_eq!(e.0, "Card has expired");
}

#[test]
fn expiry_reads_the_clock() {
    let now = chrono::Utc::now();
    let this_year = now.year().to_string();
    let last_year = (now.year() - 1).to_string();
    assert!(validate_expiry(Some("12"), Some(&this_year)).is_ok());
    let e = card_error(validate_expiry(Some("12"), Some(&last_year)));
    assert_eq!(e.0, "Card has expired");
    assert!(validate_expiry(Some("1"), Some("9999")).is_ok());
    // the current month is still valid; the month before it has expired
    let this_month = now.month().to_string();
    assert!(validate_expiry(Some(&this_month), Some(&this_year)).is_ok());
    if now.month() > 1 {
        let last_month = (now.month() - 1).to_string();
        let e = card_error(validate_expiry(Some(&last_month), Some(&this_year)));
        assert_eq!(e.0, "Card has expired");
    }
}

#[test]
fn cvc_rules() {
    assert!(validate_cvc(None).is_ok());
    assert!(validate_cvc(Some("123")).is_ok());
    assert!(validate_cvc(Some("1234")).is_ok());
    let e = card_error(validate_cvc(Some("12")));
    assert_eq!(e, ("CVC must be 3 or 4 digits".to_string(), p("payment_method.cvc")));
    let e = card_error(validate_cvc(Some("12345")));
    assert_eq!(e.0, "CVC must be 3 or 4 digits");
    let e = card_error(validate_cvc(Some("12a")));
    assert_eq!(e, ("CVC must contain only digits".to_string(), p("payment_method.cvc")));
    // lengths are counted in bytes: two two-byte characters make four
    let e = card_error(validate_cvc(Some("éé")));
    assert_eq!(e.0, "CVC must contain only digits");
}

#[test]
fn iin_rules() {
    assert!(validate_iin(None).is_ok());
    assert!(validate_iin(Some("")).is_ok());
    assert!(validate_iin(Some("411111")).is_ok());
    let e = card_error(validate_iin(Some("4111111")));
    assert_eq!(e, ("IIN must be at most 6 digits".to_string(), p("payment_method.iin")));
    let e = card_error(validate_iin(Some("41a1")));
    assert_eq!(e, ("IIN must contain only digits".to_string(), p("payment_method.iin")));
    let e = card_error(validate_iin(Some("ééé1")));
    assert_eq!(e.0, "IIN must be at most 6 digits");
}

#[test]
fn last4_rules() {
    assert!(validate_last4(None).is_ok());
    assert!(validate_last4(Some("1111")).is_ok());
    assert!(validate_last4(Some("")).is_ok());
    let e = card_error(validate_last4(Some("12ab")));
    assert_eq!(e, ("Last 4 must contain only digits".to_string(), p("payment_method.display_last4")));
    let e = card_error(validate_last4(Some("11111")));
    assert_eq!(e, ("Last 4 must be at most 4 digits".to_string(), p("payment_method.display_last4")));
    let e = card_error(validate_last4(Some("ééé")));
    assert_eq!(e.0, "Last 4 must be at most 4 digits");
}

pub fn card(number: &str) -> PaymentMethod {
    PaymentMethod {
        payment_type: "card".to_string(),
        card_number_type: CardNumberType::Fpan,
        number: number.to_string(),
        exp_month: p("12"),
        exp_year: p("2030"),
        name: None,
        cvc: p("123"),
        cryptogram: None,
        eci_value: None,
        checks_performed: None,
        iin: p("411111"),
        display_card_funding_type: None,
        display_wallet_type: None,
        display_brand: None,
        display_last4: p("1111"),
        metadata: HashMap::new(),
    }
}

#[test]
fn payment_method_checks_in_order() {
    assert!(validate_payment_method_at(&card("4111111111111111"), 2025, 6).is_ok());
    assert!(validate_payment_method(&card("4111111111111111")).is_ok());

    let mut pm = card("4111111111111112");
    pm.payment_type = "bank".to_string();
    let e = request_error(validate_payment_method_at(&pm, 2025, 6));
    assert_eq!(e, ("Payment method type must be 'card'".to_string(), p("payment_method.type")));

    let pm = card("4111111111111112");
    let e = card_error(validate_payment_method_at(&pm, 2025, 6));
    assert_eq!(e.0, "Card number failed Luhn validation");

    let mut pm = card("4111111111111111");
    pm.exp_year = p("2020");
    pm.cvc = p("1");
    let e = card_error(validate_payment_method_at(&pm, 2025, 6));
    assert_eq!(e.0, "Card has expired");

    let mut pm = card("4111111111111111");
    pm.cvc = p("1");
    pm.iin = p("x");
    let e = card_error(validate_payment_method_at(&pm, 2025, 6));
    assert_eq!(e.0, "CVC must be 3 or 4 digits");

    let mut pm = card("4111111111111111");
    pm.iin = p("x");
    pm.display_last4 = p("123456");
    let e = card_error(validate_payment_method_at(&pm, 2025, 6));
    assert_eq!(e.0, "IIN must contain only digits");

    let mut pm = card("4111111111111111");
    pm.display_last4 = p("123456");
    let e = card_error(validate_payment_method_at(&pm, 2025, 6));
    assert_eq!(e.0, "Last 4 must be at most 4 digits");
}

#[test]
fn expiry_against_a_clock_reading() {
    assert!(validate_expiry_on(Some("06"), Some("2025"), Some((2025, 6))).is_ok());
    let e = card_error(validate_expiry_on(Some("05"), Some("2025"), Some((2025, 6))));
    assert_eq!(e, ("Card has expired".to_string(), p("payment_method.exp_year")));
    // An unreadable clock refuses a card whose expiry parsed, and nothing else.
    match validate_expiry_on(Some("12"), Some("2030"), None) {
        Err(AppError::ProcessingError(m)) => assert_eq!(m, "System clock is out of range"),
        other => panic!("{:?}", other),
    }
    assert!(validate_expiry_on(None, Some("2030"), None).is_ok());
    let e = card_error(validate_expiry_on(Some("13"), Some("2030"), None));
    assert_eq!(e.0, "Expiry month must be between 01 and 12");
}

#[test]
fn expired_card_stays_expired() {
    // Expired in July 2025, still expired at every later month read.
    for (y, m) in [(2025, 7), (2025, 12), (2026, 1), (2040, 3)] {
        let e = card_error(validate_expiry_at(Some("06"), Some("2025"), y, m));
        assert_eq!(e.0, "Card has expired");
    }
    // Valid in June 2025, and at every earlier month read.
    for (y, m) in [(2025, 6), (2025, 1), (2024, 12), (1999, 7)] {
        assert!(validate_expiry_at(Some("06"), Some("2025"), y, m).is_ok());
    }
}

#[test]
fn payment_method_against_a_clock_reading() {
    assert!(validate_payment_method_on(&card("4111111111111111"), Some((2025, 6))).is_ok());
    match validate_payment_method_on(&card("4111111111111111"), None) {
        Err(AppError::ProcessingError(m)) => assert_eq!(m, "System clock is out of range"),
        other => panic!("{:?}", other),
    }
    // Checks before the expiry answer first, whatever the clock.
    let e = card_error(validate_payment_method_on(&card("4111111111111112"), None));
    assert_eq!(e.0, "Card number failed Luhn validation");
    let mut pm = card("4111111111111111");
    pm.exp_year = p("2020");
    let e = card_error(validate_payment_method_on(&pm, Some((2025, 6))));
    assert_eq!(e.0, "Card has expired");
}
