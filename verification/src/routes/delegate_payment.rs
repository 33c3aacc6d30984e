//! Delegating a payment: refuse requests without credentials, replay the token of a repeated
//! idempotency key, else check the allowance and the card and store a fresh vault token.

use vstd::prelude::*;

use crate::clock::{current_instant, latest_utc_secs, utc_date, utc_month_of, utc_year_of};
use crate::errors::{invalid_request, outcome, request_fault, AppError, ErrorView};
use crate::ids::{fresh_uuid_text, uuid_v4_text};
use crate::models::{DelegatePaymentRequest, DelegatePaymentResponse, Timestamp};
use crate::storage::StoredAllowance;
use crate::text::{all_lower, all_lower_chars, byte_len, push_str};
use crate::validation::card::{
    payment_method_result, validate_payment_method_at,
};

verus! {

/// How long an idempotency key is remembered, in seconds: a day.
pub const IDEMPOTENCY_TTL_SECONDS: u64 = 86400;

/// Where a delegation stands.
#[derive(Debug)]
pub enum DelegateState {
    /// The idempotency key has been looked up.
    AwaitingKeyLookup { request: DelegatePaymentRequest, key: String },
    /// The key named a token; that token's record has been asked for.
    AwaitingReplay { request: DelegatePaymentRequest, key: String, token_id: String },
    /// A fresh token's record has been handed to the store.
    AwaitingStore { token_id: String, key: Option<String>, response: DelegatePaymentResponse },
    /// The idempotency key has been handed to the store.
    AwaitingKeyStore { response: DelegatePaymentResponse },
    /// The answer has been given.
    Finished,
}

/// What the store answered.
#[derive(Debug)]
pub enum DelegateEvent {
    /// The token id kept under the idempotency key, if any.
    KeyLookedUp(Option<String>),
    /// The record kept under the token, if any.
    RecordLoaded(Option<StoredAllowance>),
    /// The token's record was stored.
    RecordStored,
    /// The idempotency key was stored.
    KeyStored,
}

/// What to do next.
#[derive(Debug)]
pub enum DelegateAction {
    /// Look up the token id kept under this idempotency key.
    LookupIdempotencyKey(String),
    /// Load the record kept under this vault token.
    LoadVaultToken(String),
    /// Store this record under this vault token.
    StoreVaultToken(String, StoredAllowance),
    /// Remember this token id under this idempotency key for this many seconds.
    StoreIdempotencyKey { key: String, token_id: String, ttl_seconds: u64 },
    /// Answer the request (HTTP 201).
    Respond(DelegatePaymentResponse),
    /// Refuse the request with this error.
    Fail(AppError),
}

impl DelegateState {
    /// The store answer that this state waits for.
    pub open spec fn awaits(self, event: DelegateEvent) -> bool {
        match (self, event) {
            (DelegateState::AwaitingKeyLookup { .. }, DelegateEvent::KeyLookedUp(_)) => true,
            (DelegateState::AwaitingReplay { .. }, DelegateEvent::RecordLoaded(_)) => true,
            (DelegateState::AwaitingStore { .. }, DelegateEvent::RecordStored) => true,
            (DelegateState::AwaitingKeyStore { .. }, DelegateEvent::KeyStored) => true,
            _ => false,
        }
    }

    /// Whether this state waits for `event`.
    pub fn accepts(&self, event: &DelegateEvent) -> (b: bool)
        ensures
            b == self.awaits(*event),
    {
        match (self, event) {
            (DelegateState::AwaitingKeyLookup { .. }, DelegateEvent::KeyLookedUp(_)) => true,
            (DelegateState::AwaitingReplay { .. }, DelegateEvent::RecordLoaded(_)) => true,
            (DelegateState::AwaitingStore { .. }, DelegateEvent::RecordStored) => true,
            (DelegateState::AwaitingKeyStore { .. }, DelegateEvent::KeyStored) => true,
            _ => false,
        }
    }
}

/// What the checks on a new delegation answer at time `now`, with the card's expiry judged
/// against UTC `year` and `month`: currency, merchant id, allowance expiry, then the card.
pub open spec fn delegation_result(
    request: DelegatePaymentRequest,
    now: Timestamp,
    year: int,
    month: int,
) -> Result<(), ErrorView> {
    if allowance_text_result(request) is Err {
        allowance_text_result(request)
    } else if request.allowance.expires_at.not_after(now) {
        Err(request_fault("Expiry must be in the future"@, "allowance.expires_at"@))
    } else {
        payment_method_result(request.payment_method, Some((year, month)))
    }
}

/// The checks of a new delegation that need no clock: a lowercase currency code and a merchant
/// id of at most 256 bytes.
pub open spec fn allowance_text_result(request: DelegatePaymentRequest) -> Result<(), ErrorView> {
    if !all_lower(request.allowance.currency@) {
        Err(request_fault("Currency must be lowercase ISO-4217 format"@, "allowance.currency"@))
    } else if byte_len(request.allowance.merchant_id@) > 256 {
        Err(
            request_fault(
                "Merchant ID must be at most 256 characters"@,
                "allowance.merchant_id"@,
            ),
        )
    } else {
        Ok(())
    }
}

/// Checks the allowance's currency code and merchant id.
pub fn check_allowance_text(request: &DelegatePaymentRequest) -> (r: Result<(), AppError>)
    ensures
        outcome(r) == allowance_text_result(*request),
{
    match request.allowance.reason {
        crate::models::AllowanceReason::OneTime => {},
    }
    if !all_lower_chars(request.allowance.currency.as_str()) {
        return Err(
            invalid_request("Currency must be lowercase ISO-4217 format", "allowance.currency"),
        );
    }
    if request.allowance.merchant_id.as_str().len() > 256 {
        return Err(
            invalid_request("Merchant ID must be at most 256 characters", "allowance.merchant_id"),
        );
    }
    Ok(())
}

/// Checks a new delegation at time `now`, the card's expiry against UTC `year` and `month`.
pub fn check_delegation(
    request: &DelegatePaymentRequest,
    now: Timestamp,
    year: i32,
    month: u32,
) -> (r: Result<(), AppError>)
    ensures
        outcome(r) == delegation_result(*request, now, year as int, month as int),
{
    check_allowance_text(request)?;
    if request.allowance.expires_at.is_not_after(&now) {
        return Err(invalid_request("Expiry must be in the future", "allowance.expires_at"));
    }
    validate_payment_method_at(&request.payment_method, year, month)
}

/// The step refuses the request with `e` and is finished.
pub open spec fn fails_with(r: (DelegateState, DelegateAction), e: ErrorView) -> bool {
    &&& r.0 is Finished
    &&& r.1 matches DelegateAction::Fail(err)
    &&& err@ == e
}

/// The vault token id made from a UUID's text.
pub open spec fn token_id_text(uuid: Seq<char>) -> Seq<char> {
    "vt_"@ + uuid
}

/// The step creates the vault token `vt_<uuid>` for `request` at time `now`: it hands the
/// store an unused record of the request's allowance, card and billing address, created `now`
/// and remembering `key`, and keeps the answer to give once stored.
pub open spec fn stores_new_token(
    r: (DelegateState, DelegateAction),
    request: DelegatePaymentRequest,
    key: Option<String>,
    now: Timestamp,
    uuid: Seq<char>,
) -> bool {
    &&& r.1 matches DelegateAction::StoreVaultToken(id, stored)
    &&& id@ == token_id_text(uuid)
    &&& stored == (StoredAllowance {
        allowance: request.allowance,
        payment_method: request.payment_method,
        billing_address: request.billing_address,
        used: false,
        created_at: now,
        idempotency_key: key,
    })
    &&& r.0 matches DelegateState::AwaitingStore { token_id, key: k, response }
    &&& token_id@ == token_id_text(uuid)
    &&& k == key
    &&& response.id@ == token_id_text(uuid)
    &&& response.created == now
    &&& response.metadata == request.metadata
}

/// The refusal when no random bytes can be had for a token.
pub open spec fn randomness_fault() -> ErrorView {
    ErrorView::ProcessingError("Random source unavailable"@)
}

/// The outcome of creating a token for `request`: refused by the first failing check, else a
/// new token made from random bytes is stored, or refused when no random bytes could be had.
pub open spec fn creates(
    r: (DelegateState, DelegateAction),
    request: DelegatePaymentRequest,
    key: Option<String>,
    now: Timestamp,
    year: int,
    month: int,
) -> bool {
    match delegation_result(request, now, year, month) {
        Err(e) => fails_with(r, e),
        Ok(()) => fails_with(r, randomness_fault()) || exists|b: Seq<u8>|
            b.len() == 16 && stores_new_token(r, request, key, now, uuid_v4_text(b)),
    }
}

fn clone_key(key: &Option<String>) -> (r: Option<String>)
    ensures
        r == *key,
{
    match key {
        Some(k) => Some(k.clone()),
        None => None,
    }
}

/// Creates the vault token `vt_<uuid>` for a request that passed its checks, at time `now`.
pub fn new_vault_token(
    request: DelegatePaymentRequest,
    key: Option<String>,
    now: Timestamp,
    uuid: String,
) -> (r: (DelegateState, DelegateAction))
    ensures
        stores_new_token(r, request, key, now, uuid@),
{
    let mut token_id = String::from_str("vt_");
    push_str(&mut token_id, uuid.as_str());
    let stored = StoredAllowance {
        allowance: request.allowance,
        payment_method: request.payment_method,
        billing_address: request.billing_address,
        used: false,
        created_at: now,
        idempotency_key: clone_key(&key),
    };
    let response = DelegatePaymentResponse {
        id: token_id.clone(),
        created: now,
        metadata: request.metadata,
    };
    let id = token_id.clone();
    (
        DelegateState::AwaitingStore { token_id, key, response },
        DelegateAction::StoreVaultToken(id, stored),
    )
}

/// Creating a token for `request`: the currency and merchant id are checked first; then the
/// clock is read once (see [`current_instant`]) for the creation time and the card's expiry
/// check, as [`creates`] says.
pub open spec fn creates_now(
    r: (DelegateState, DelegateAction),
    request: DelegatePaymentRequest,
    key: Option<String>,
) -> bool {
    match allowance_text_result(request) {
        Err(e) => fails_with(r, e),
        Ok(()) => exists|now: Timestamp|
            {
                &&& 0 <= now.secs <= latest_utc_secs()
                &&& now.nanos < 1_000_000_000
                &&& creates(
                    r,
                    request,
                    key,
                    now,
                    utc_year_of(now.secs as int),
                    utc_month_of(now.secs as int),
                )
            },
    }
}

/// The refusal of a request that carries no credentials.
pub open spec fn missing_authorization() -> ErrorView {
    ErrorView::InvalidRequest { message: "Missing Authorization header"@, param: None }
}

/// The step answers with the token already kept under a repeated idempotency key: that token,
/// the time its record was created and its card's metadata.
pub open spec fn replays(
    r: (DelegateState, DelegateAction),
    token_id: String,
    stored: StoredAllowance,
) -> bool {
    &&& r.0 is Finished
    &&& r.1 matches DelegateAction::Respond(resp)
    &&& resp.id@ == token_id@
    &&& resp.created == stored.created_at
    &&& resp.metadata == stored.payment_method.metadata
}

/// The step gives the prepared answer and is finished.
pub open spec fn answers(r: (DelegateState, DelegateAction), response: DelegatePaymentResponse) -> bool {
    &&& r.0 is Finished
    &&& r.1 == DelegateAction::Respond(response)
}

/// Creates the token of a request that passed its checks, from what the random source gave:
/// with a UUID, the token `vt_<uuid>` is stored whatever the request holds; without one, the
/// request is refused because the random source failed.
pub fn token_from_random(
    request: DelegatePaymentRequest,
    key: Option<String>,
    now: Timestamp,
    uuid: Option<String>,
) -> (r: (DelegateState, DelegateAction))
    ensures
        match uuid {
            Some(u) => stores_new_token(r, request, key, now, u@),
            None => fails_with(r, randomness_fault()),
        },
{
    match uuid {
        None => {
            let e = AppError::ProcessingError(String::from_str("Random source unavailable"));
            (DelegateState::Finished, DelegateAction::Fail(e))
        },
        Some(u) => new_vault_token(request, key, now, u),
    }
}

/// Checks a request and, if it passes, creates its vault token, reading the UTC clock for the
/// creation time and the card's expiry check, and random bytes for the token.
fn create(request: DelegatePaymentRequest, key: Option<String>) -> (r: (
    DelegateState,
    DelegateAction,
))
    ensures
        creates_now(r, request, key),
{
    if let Err(e) = check_allowance_text(&request) {
        return (DelegateState::Finished, DelegateAction::Fail(e));
    }
    let now = current_instant();
    let (year, month) = utc_date(now);
    let ghost req0 = request;
    let ghost key0 = key;
    let r = match check_delegation(&request, now, year, month) {
        Err(e) => (DelegateState::Finished, DelegateAction::Fail(e)),
        Ok(()) => {
            let uuid = fresh_uuid_text();
            let ghost drawn = uuid;
            let r = token_from_random(request, key, now, uuid);
            proof {
                if let Some(u) = drawn {
                    let b = choose|b: Seq<u8>| b.len() == 16 && u@ == uuid_v4_text(b);
                    assert(b.len() == 16 && stores_new_token(r, req0, key0, now, uuid_v4_text(b)));
                }
            }
            r
        },
    };
    assert(creates(r, req0, key0, now, year as int, month as int));
    r
}

/// Begins a delegation: refuse it without credentials, else look up its idempotency key if it
/// has one, else check it and create its token.
pub fn delegate_payment_start(
    request: DelegatePaymentRequest,
    authorization: Option<String>,
    idempotency_key: Option<String>,
) -> (r: (DelegateState, DelegateAction))
    ensures
        authorization is None ==> fails_with(r, missing_authorization()),
        authorization is Some ==> match idempotency_key {
            Some(k) => {
                &&& r.0 == (DelegateState::AwaitingKeyLookup { request, key: k })
                &&& r.1 matches DelegateAction::LookupIdempotencyKey(k2)
                &&& k2@ == k@
            },
            None => creates_now(r, request, None),
        },
{
    if authorization.is_none() {
        let e = AppError::InvalidRequest {
            message: String::from_str("Missing Authorization header"),
            param: None,
        };
        return (DelegateState::Finished, DelegateAction::Fail(e));
    }
    match idempotency_key {
        Some(key) => {
            let k = key.clone();
            (DelegateState::AwaitingKeyLookup { request, key }, DelegateAction::LookupIdempotencyKey(k))
        },
        None => create(request, None),
    }
}

/// Takes the store's answer and says what to do next.
pub fn delegate_payment_step(state: DelegateState, event: DelegateEvent) -> (r: (
    DelegateState,
    DelegateAction,
))
    requires
        state.awaits(event),
    ensures
        match (state, event) {
            (
                DelegateState::AwaitingKeyLookup { request, key },
                DelegateEvent::KeyLookedUp(found),
            ) => match found {
                Some(t) => {
                    &&& r.0 == (DelegateState::AwaitingReplay { request, key, token_id: t })
                    &&& r.1 matches DelegateAction::LoadVaultToken(t2)
                    &&& t2@ == t@
                },
                None => creates_now(r, request, Some(key)),
            },
            (
                DelegateState::AwaitingReplay { request, key, token_id },
                DelegateEvent::RecordLoaded(found),
            ) => match found {
                Some(stored) => replays(r, token_id, stored),
                None => creates_now(r, request, Some(key)),
            },
            (DelegateState::AwaitingStore { token_id, key, response }, DelegateEvent::RecordStored) =>
                match key {
                Some(k) => {
                    &&& r.0 == (DelegateState::AwaitingKeyStore { response })
                    &&& r.1 matches DelegateAction::StoreIdempotencyKey { key: k2, token_id: t2, ttl_seconds }
                    &&& k2@ == k@
                    &&& t2@ == token_id@
                    &&& ttl_seconds == IDEMPOTENCY_TTL_SECONDS
                },
                None => answers(r, response),
            },
            (DelegateState::AwaitingKeyStore { response }, DelegateEvent::KeyStored) => answers(
                r,
                response,
            ),
            _ => false,
        },
{
    match (state, event) {
        (DelegateState::AwaitingKeyLookup { request, key }, DelegateEvent::KeyLookedUp(found)) => {
            match found {
                Some(token_id) => {
                    let t = token_id.clone();
                    (
                        DelegateState::AwaitingReplay { request, key, token_id },
                        DelegateAction::LoadVaultToken(t),
                    )
                },
                None => create(request, Some(key)),
            }
        },
        (
            DelegateState::AwaitingReplay { request, key, token_id },
            DelegateEvent::RecordLoaded(found),
        ) => {
            match found {
                Some(stored) => {
                    let response = DelegatePaymentResponse {
                        id: token_id,
                        created: stored.created_at,
                        metadata: stored.payment_method.metadata,
                    };
                    (DelegateState::Finished, DelegateAction::Respond(response))
                },
                None => create(request, Some(key)),
            }
        },
        (DelegateState::AwaitingStore { token_id, key, response }, DelegateEvent::RecordStored) => {
            match key {
                Some(k) => (
                    DelegateState::AwaitingKeyStore { response },
                    DelegateAction::StoreIdempotencyKey {
                        key: k,
                        token_id,
                        ttl_seconds: IDEMPOTENCY_TTL_SECONDS,
                    },
                ),
                None => (DelegateState::Finished, DelegateAction::Respond(response)),
            }
        },
        (DelegateState::AwaitingKeyStore { response }, DelegateEvent::KeyStored) => {
            (DelegateState::Finished, DelegateAction::Respond(response))
        },
        _ => vstd::pervasive::unreached(),
    }
}

} // verus!
