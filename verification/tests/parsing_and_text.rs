use acp_connector::text::{push_int_text, same_text};
use acp_connector::validation::parse::{parse_i32, parse_u32};

const SAMPLES: &[&str] = &[
    "", "0", "7", "12", "+12", "-12", "+", "-", "+-1", "-+1", "007", "4294967295", "4294967296",
    "2147483647", "2147483648", "-2147483648", "-2147483649", " 1", "1 ", "1a", "١", "99999999999999999999",
    "+0", "-0", "00000000000000000000000001",
];

#[test]
fn parse_u32_matches_std() {
    for s in SAMPLES {
        assert_eq!(parse_u32(s), s.parse::<u32>().ok(), "input {:?}", s);
    }
}

#[test]
fn parse_i32_matches_std() {
    for s in SAMPLES {
        assert_eq!(parse_i32(s), s.parse::<i32>().ok(), "input {:?}", s);
    }
}

#[test]
fn int_text_matches_display() {
    for n in [0i64, 5, -5, 10, 15000, 10000, -99, i64::MAX, i64::MIN, 1234567890123] {
        let mut out = String::from("x");
        push_int_text(n, &mut out);
        assert_eq!(out, format!("x{}", n));
    }
}

#[test]
fn same_text_compares_characters() {
    assert!(same_text("usd", "usd"));
    assert!(!same_text("usd", "eur"));
    assert!(!same_text("usd", "usdx"));
    assert!(same_text("", ""));
}
