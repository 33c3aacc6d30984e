use std::collections::HashMap;
use acp_connector::errors::AppError;
use acp_connector::models::{
    Allowance, AllowanceReason, CardNumberType, PaymentMethod, Timestamp,
};
use acp_connector::clock::{utc_instant, utc_now};
use acp_connector::storage::redis_client::RedisStorage;
use acp_connector::storage::{idempotency_key, retained_ttl_seconds, vault_key, vault_ttl_seconds, StoredAllowance};

fn all_errors() -> Vec<AppError> {
    vec![
        AppError::InvalidRequest { message: "bad".to_string(), param: Some("allowance.currency".to_string()) },
        AppError::InvalidCard { message: "worse".to_string(), param: None },
        AppError::IdempotencyConflict,
        AppError::RateLimitExceeded,
        AppError::ProcessingError("boom".to_string()),
        AppError::ServiceUnavailable,
        AppError::RedisError("connection refused".to_string()),
        AppError::SerializationError("EOF while parsing".to_string()),
        AppError::ValidationError("nope".to_string()),
        AppError::NotFound,
    ]
}

#[test]
fn error_answers() {
    let expected: Vec<(u16, &str, &str, &str, Option<&str>)> = vec![
        (400, "invalid_request", "invalid_request", "bad", Some("allowance.currency")),
        (422, "invalid_request", "invalid_card", "worse", None),
        (409, "idempotency_conflict", "idempotency_conflict", "Same idempotency key with different parameters", None),
        (429, "rate_limit_exceeded", "rate_limit_exceeded", "Too many requests", None),
        (500, "processing_error", "processing_error", "boom", None),
        (503, "service_unavailable", "service_unavailable", "Temporary outage", None),
        (500, "processing_error", "processing_error", "Storage error: connection refused", None),
        (500, "processing_error", "processing_error", "Serialization error: EOF while parsing", None),
        (400, "invalid_request", "invalid_request", "nope", None),
        (404, "invalid_request", "not_found", "Resource not found", None),
    ];
    for (e, (status, ty, code, message, param)) in all_errors().iter().zip(expected) {
        let (s, body) = e.error_response();
        assert_eq!(s, status);
        assert_eq!(e.status_code(), status);
        assert_eq!(body.error_type, ty);
        assert_eq!(body.code, code);
        assert_eq!(body.message, message);
        assert_eq!(body.param.as_deref(), param);
    }
}

#[test]
fn error_descriptions() {
    let expected = [
        "Invalid request: bad",
        "Invalid card: worse",
        "Idempotency conflict",
        "Rate limit exceeded",
        "Processing error: boom",
        "Service unavailable",
        "Redis error: connection refused",
        "Serialization error: EOF while parsing",
        "Validation error: nope",
        "Not found",
    ];
    for (e, text) in all_errors().iter().zip(expected) {
        assert_eq!(e.display_text(), text);
    }
}

#[test]
fn store_keys() {
    assert_eq!(vault_key("vt_abc"), "vault:vt_abc");
    assert_eq!(idempotency_key("test_key_123"), "idempotency:test_key_123");
    assert_ne!(vault_key("x"), idempotency_key("x"));
}

fn at(secs: i64, nanos: u32) -> Timestamp {
    Timestamp { secs, nanos }
}

#[test]
fn vault_ttl_from_expiry() {
    // an hour left
    assert_eq!(vault_ttl_seconds(at(1_700_003_600, 0), at(1_700_000_000, 0)), 3600);
    // partial seconds are dropped
    assert_eq!(vault_ttl_seconds(at(1_700_000_010, 100), at(1_700_000_000, 500)), 9);
    // less than a second left still keeps the record a second
    assert_eq!(vault_ttl_seconds(at(1_700_000_000, 900), at(1_700_000_000, 100)), 1);
    // already expired, or expiring right now: a minute
    assert_eq!(vault_ttl_seconds(at(1_700_000_000, 0), at(1_700_000_000, 0)), 60);
    assert_eq!(vault_ttl_seconds(at(1_600_000_000, 0), at(1_700_000_000, 0)), 60);
}

#[test]
fn retained_ttl_is_at_least_one() {
    assert_eq!(retained_ttl_seconds(3600), 3600);
    assert_eq!(retained_ttl_seconds(1), 1);
    assert_eq!(retained_ttl_seconds(0), 1);
    assert_eq!(retained_ttl_seconds(-1), 1);
    assert_eq!(retained_ttl_seconds(-2), 1);
}

#[test]
fn timestamps_representable() {
    assert!(at(0, 0).is_representable());
    assert!(at(1_700_000_000, 999_999_999).is_representable());
    assert!(!at(1_700_000_000, 1_000_000_000).is_representable());
    assert!(at(1_700_000_039, 1_500_000_000).is_representable()); // a leap second
    assert!(at(-1, 1_500_000_000).is_representable()); // 23:59:59 on the last day before the epoch
    assert!(!at(-2, 1_500_000_000).is_representable());
    assert!(at(8210266876799, 0).is_representable());
    assert!(!at(8210266876800, 0).is_representable());
    assert!(at(-8334601228800, 0).is_representable());
    assert!(!at(-8334601228801, 0).is_representable());
    for t in [at(0, 0), at(-1, 1_500_000_000), at(1_700_000_039, 1_500_000_000), at(-8334601228800, 0), at(8210266876799, 999_999_999)] {
        assert!(chrono::DateTime::from_timestamp(t.secs, t.nanos).is_some(), "{:?}", t);
    }
    for t in [at(8210266876800, 0), at(-8334601228801, 0), at(-2, 1_500_000_000)] {
        assert!(chrono::DateTime::from_timestamp(t.secs, t.nanos).is_none(), "{:?}", t);
    }
}

pub fn record(used: bool) -> StoredAllowance {
    StoredAllowance {
        allowance: Allowance {
            reason: AllowanceReason::OneTime,
            max_amount: 10000,
            currency: "usd".to_string(),
            checkout_session_id: "sess_123".to_string(),
            merchant_id: "merchant_456".to_string(),
            expires_at: at(4_000_000_000, 0),
        },
        payment_method: PaymentMethod {
            payment_type: "card".to_string(),
            card_number_type: CardNumberType::Fpan,
            number: "4111111111111111".to_string(),
            exp_month: None,
            exp_year: None,
            name: None,
            cvc: None,
            cryptogram: None,
            eci_value: None,
            checks_performed: None,
            iin: None,
            display_card_funding_type: None,
            display_wallet_type: None,
            display_brand: None,
            display_last4: None,
            metadata: HashMap::new(),
        },
        billing_address: None,
        used,
        created_at: at(1_700_000_000, 0),
        idempotency_key: None,
    }
}

#[test]
fn mark_used_once() {
    let mut r = record(false);
    assert!(r.mark_used());
    assert!(r.used);
    assert!(!r.mark_used());
    assert!(r.used);
    assert_eq!(r.allowance.max_amount, 10000);
}

#[test]
fn redis_storage_parses_its_url() {
    assert!(RedisStorage::new("redis://127.0.0.1:6379").is_ok());
    assert!(RedisStorage::new("redis://localhost/2").is_ok());
    for bad in ["not a url", "redis://", ""] {
        let expected = redis::Client::open(bad).err().expect("refused by redis").to_string();
        match RedisStorage::new(bad) {
            Err(AppError::ProcessingError(m)) => {
                assert_eq!(m, format!("Failed to connect to Redis: {}", expected))
            }
            Err(other) => panic!("unexpected error {:?}", other),
            Ok(_) => panic!("{:?} accepted", bad),
        }
    }
}

#[test]
fn vault_ttl_agrees_with_chrono_around_leap_seconds() {
    let cases = [
        (at(1_700_000_039, 1_500_000_000), at(1_700_000_000, 0)),
        (at(1_700_000_100, 0), at(1_700_000_039, 1_500_000_000)),
        (at(1_700_000_039, 1_999_999_999), at(1_700_000_039, 300)),
        (at(1_700_086_400, 5), at(1_700_000_039, 1_000_000_000)),
        (at(1_700_000_010, 100), at(1_700_000_000, 500)),
        (at(59, 1_200_000_000), at(-1, 1_500_000_000)),
    ];
    for (e, n) in cases {
        let de = chrono::DateTime::from_timestamp(e.secs, e.nanos).unwrap();
        let dn = chrono::DateTime::from_timestamp(n.secs, n.nanos).unwrap();
        let expected = if de > dn { (de - dn).num_seconds().max(1) as u64 } else { 60 };
        assert_eq!(vault_ttl_seconds(e, n), expected, "{:?} {:?}", e, n);
    }
}

#[test]
fn clock_readings_become_instants() {
    assert_eq!(utc_instant(Some((1_700_000_000, 5))), Some(at(1_700_000_000, 5)));
    assert_eq!(utc_instant(Some((0, 0))), Some(at(0, 0)));
    assert_eq!(utc_instant(Some((8_210_266_876_799, 999_999_999))), Some(at(8_210_266_876_799, 999_999_999)));
    assert_eq!(utc_instant(Some((8_210_266_876_800, 0))), None);
    assert_eq!(utc_instant(None), None);
    let now = utc_now().expect("the clock reads after the epoch");
    assert!(now.secs > 1_700_000_000);
}
