use std::collections::HashMap;
use acp_connector::errors::AppError;
use acp_connector::models::{
    Address, Allowance, AllowanceReason, CardNumberType, DelegatePaymentRequest, PaymentMethod,
    RiskAction, RiskSignal, Timestamp,
};
use acp_connector::routes::delegate_payment::{
    check_delegation, delegate_payment_start, delegate_payment_step, new_vault_token,
    DelegateAction, DelegateEvent, DelegateState, IDEMPOTENCY_TTL_SECONDS,
};
use acp_connector::storage::StoredAllowance;

fn far_future() -> Timestamp {
    Timestamp { secs: 4_000_000_000, nanos: 0 }
}

fn request() -> DelegatePaymentRequest {
    DelegatePaymentRequest {
        payment_method: PaymentMethod {
            payment_type: "card".to_string(),
            card_number_type: CardNumberType::Fpan,
            number: "4111111111111111".to_string(),
            exp_month: Some("12".to_string()),
            exp_year: Some("2099".to_string()),
            name: None,
            cvc: Some("123".to_string()),
            cryptogram: None,
            eci_value: None,
            checks_performed: None,
            iin: None,
            display_card_funding_type: None,
            display_wallet_type: None,
            display_brand: None,
            display_last4: None,
            metadata: HashMap::from([("card_meta".to_string(), "1".to_string())]),
        },
        allowance: Allowance {
            reason: AllowanceReason::OneTime,
            max_amount: 10000,
            currency: "usd".to_string(),
            checkout_session_id: "sess_123".to_string(),
            merchant_id: "merchant_456".to_string(),
            expires_at: far_future(),
        },
        billing_address: Some(Address {
            name: "Ada".to_string(),
            line_one: "1 Main St".to_string(),
            line_two: None,
            city: "Springfield".to_string(),
            state: None,
            country: "US".to_string(),
            postal_code: "12345".to_string(),
            phone_number: None,
        }),
        risk_signals: vec![RiskSignal {
            signal_type: "card_testing".to_string(),
            score: 10,
            action: RiskAction::Authorized,
        }],
        metadata: HashMap::from([("order_id".to_string(), "\"order_789\"".to_string())]),
    }
}

fn auth() -> Option<String> {
    Some("Bearer test_api_key".to_string())
}

fn failure(r: (DelegateState, DelegateAction)) -> AppError {
    match r {
        (DelegateState::Finished, DelegateAction::Fail(e)) => e,
        other => panic!("expected a failure, got {:?}", other),
    }
}

fn request_error(e: AppError) -> (String, Option<String>) {
    match e {
        AppError::InvalidRequest { message, param } => (message, param),
        other => panic!("expected invalid_request, got {:?}", other),
    }
}

#[test]
fn missing_authorization_is_refused() {
    let e = failure(delegate_payment_start(request(), None, Some("k".to_string())));
    assert_eq!(request_error(e), ("Missing Authorization header".to_string(), None));
}

#[test]
fn fresh_token_without_idempotency_key() {
    let before = chrono::Utc::now().timestamp();
    let (state, action) = delegate_payment_start(request(), auth(), None);
    let (token_id, stored) = match action {
        DelegateAction::StoreVaultToken(id, stored) => (id, stored),
        other => panic!("{:?}", other),
    };
    assert!(token_id.starts_with("vt_"));
    assert_eq!(token_id.len(), 39);
    let uuid = &token_id[3..];
    assert_eq!(uuid::Uuid::parse_str(uuid).unwrap().get_version_num(), 4);
    assert!(!stored.used);
    assert_eq!(stored.idempotency_key, None);
    assert_eq!(stored.allowance.merchant_id, "merchant_456");
    assert!(stored.created_at.secs >= before);
    let (state, action) = delegate_payment_step(state, DelegateEvent::RecordStored);
    assert!(matches!(state, DelegateState::Finished));
    match action {
        DelegateAction::Respond(resp) => {
            assert_eq!(resp.id, token_id);
            assert_eq!(resp.created, stored.created_at);
            assert_eq!(resp.metadata, HashMap::from([("order_id".to_string(), "\"order_789\"".to_string())]));
        }
        other => panic!("{:?}", other),
    }
}

#[test]
fn two_fresh_tokens_differ() {
    let a = match delegate_payment_start(request(), auth(), None).1 {
        DelegateAction::StoreVaultToken(id, _) => id,
        other => panic!("{:?}", other),
    };
    let b = match delegate_payment_start(request(), auth(), None).1 {
        DelegateAction::StoreVaultToken(id, _) => id,
        other => panic!("{:?}", other),
    };
    assert_ne!(a, b);
}

#[test]
fn new_idempotency_key_is_remembered() {
    let (state, action) = delegate_payment_start(request(), auth(), Some("test_key_123".to_string()));
    assert!(matches!(action, DelegateAction::LookupIdempotencyKey(ref k) if k == "test_key_123"));
    let (state, action) = delegate_payment_step(state, DelegateEvent::KeyLookedUp(None));
    let token_id = match action {
        DelegateAction::StoreVaultToken(id, stored) => {
            assert_eq!(stored.idempotency_key.as_deref(), Some("test_key_123"));
            id
        }
        other => panic!("{:?}", other),
    };
    let (state, action) = delegate_payment_step(state, DelegateEvent::RecordStored);
    match action {
        DelegateAction::StoreIdempotencyKey { key, token_id: t, ttl_seconds } => {
            assert_eq!(key, "test_key_123");
            assert_eq!(t, token_id);
            assert_eq!(ttl_seconds, 86400);
            assert_eq!(IDEMPOTENCY_TTL_SECONDS, 86400);
        }
        other => panic!("{:?}", other),
    }
    let (state, action) = delegate_payment_step(state, DelegateEvent::KeyStored);
    assert!(matches!(state, DelegateState::Finished));
    assert!(matches!(action, DelegateAction::Respond(ref r) if r.id == token_id));
}

fn stored_record() -> StoredAllowance {
    let r = request();
    StoredAllowance {
        allowance: r.allowance,
        payment_method: r.payment_method,
        billing_address: r.billing_address,
        used: true,
        created_at: Timestamp { secs: 1_741_084_200, nanos: 0 },
        idempotency_key: Some("test_key_123".to_string()),
    }
}

#[test]
fn repeated_idempotency_key_replays_the_token() {
    let (state, _) = delegate_payment_start(request(), auth(), Some("test_key_123".to_string()));
    let (state, action) = delegate_payment_step(state, DelegateEvent::KeyLookedUp(Some("vt_old".to_string())));
    assert!(matches!(action, DelegateAction::LoadVaultToken(ref t) if t == "vt_old"));
    let (state, action) = delegate_payment_step(state, DelegateEvent::RecordLoaded(Some(stored_record())));
    assert!(matches!(state, DelegateState::Finished));
    match action {
        DelegateAction::Respond(resp) => {
            assert_eq!(resp.id, "vt_old");
            assert_eq!(resp.created, Timestamp { secs: 1_741_084_200, nanos: 0 });
            assert_eq!(resp.metadata, HashMap::from([("card_meta".to_string(), "1".to_string())]));
        }
        other => panic!("{:?}", other),
    }
}

#[test]
fn replay_of_a_vanished_token_creates_a_new_one() {
    let (state, _) = delegate_payment_start(request(), auth(), Some("k".to_string()));
    let (state, _) = delegate_payment_step(state, DelegateEvent::KeyLookedUp(Some("vt_gone".to_string())));
    let (_, action) = delegate_payment_step(state, DelegateEvent::RecordLoaded(None));
    match action {
        DelegateAction::StoreVaultToken(id, stored) => {
            assert_ne!(id, "vt_gone");
            assert_eq!(stored.idempotency_key.as_deref(), Some("k"));
        }
        other => panic!("{:?}", other),
    }
}

#[test]
fn refused_delegations_store_nothing() {
    let mut r = request();
    r.allowance.currency = "USD".to_string();
    let e = failure(delegate_payment_start(r, auth(), None));
    assert_eq!(
        request_error(e),
        ("Currency must be lowercase ISO-4217 format".to_string(), Some("allowance.currency".to_string()))
    );

    let mut r = request();
    r.allowance.merchant_id = "m".repeat(257);
    let e = failure(delegate_payment_start(r, auth(), None));
    assert_eq!(
        request_error(e),
        ("Merchant ID must be at most 256 characters".to_string(), Some("allowance.merchant_id".to_string()))
    );

    let mut r = request();
    r.allowance.merchant_id = "é".repeat(129); // 258 bytes
    let e = failure(delegate_payment_start(r, auth(), None));
    assert_eq!(request_error(e).0, "Merchant ID must be at most 256 characters");

    let mut r = request();
    r.allowance.expires_at = Timestamp { secs: 1_000_000_000, nanos: 0 };
    let e = failure(delegate_payment_start(r, auth(), None));
    assert_eq!(
        request_error(e),
        ("Expiry must be in the future".to_string(), Some("allowance.expires_at".to_string()))
    );

    let mut r = request();
    r.payment_method.number = "4111111111111112".to_string();
    let e = failure(delegate_payment_start(r, auth(), None));
    assert!(matches!(e, AppError::InvalidCard { ref message, .. } if message == "Card number failed Luhn validation"));
}

#[test]
fn checks_at_a_given_time() {
    let now = Timestamp { secs: 1_750_000_000, nanos: 0 };
    assert!(check_delegation(&request(), now, 2025, 6).is_ok());
    let mut r = request();
    r.allowance.expires_at = now;
    assert!(check_delegation(&r, now, 2025, 6).is_err());
    let mut r = request();
    r.allowance.expires_at = Timestamp { secs: now.secs, nanos: 1 };
    assert!(check_delegation(&r, now, 2025, 6).is_ok());
    let mut r = request();
    r.allowance.currency = String::new();
    assert!(check_delegation(&r, now, 2025, 6).is_ok());
}

#[test]
fn new_vault_token_from_uuid() {
    let now = Timestamp { secs: 1_741_084_200, nanos: 5 };
    let (state, action) = new_vault_token(
        request(),
        Some("k".to_string()),
        now,
        "550e8400-e29b-41d4-a716-446655440000".to_string(),
    );
    match action {
        DelegateAction::StoreVaultToken(id, stored) => {
            assert_eq!(id, "vt_550e8400-e29b-41d4-a716-446655440000");
            assert_eq!(stored.created_at, now);
            assert!(!stored.used);
        }
        other => panic!("{:?}", other),
    }
    assert!(matches!(state, DelegateState::AwaitingStore { ref token_id, .. } if token_id == "vt_550e8400-e29b-41d4-a716-446655440000"));
}

#[test]
fn delegate_states_accept_only_their_events() {
    let (state, _) = delegate_payment_start(request(), auth(), Some("k".to_string()));
    assert!(state.accepts(&DelegateEvent::KeyLookedUp(None)));
    assert!(!state.accepts(&DelegateEvent::RecordStored));
    assert!(!DelegateState::Finished.accepts(&DelegateEvent::KeyStored));
}
