//! Validating an order against a vault token: find the token's record, check it against the
//! order, and consume the token.

use vstd::prelude::*;

use crate::clock::{current_instant, latest_utc_secs};
use crate::errors::{AppError, ErrorView};
use crate::models::{Timestamp, ValidateAnswer, ValidatePaymentRequest, ValidatePaymentResponse};
use crate::storage::StoredAllowance;
use crate::text::{int_text, push_int_text, push_str, same_text};

verus! {

/// Where a validation stands.
#[derive(Debug)]
pub enum ValidateState {
    /// The token's record has been asked for.
    AwaitingRecord(ValidatePaymentRequest),
    /// Every check passed; the token has been asked to be marked used.
    AwaitingMark(ValidatePaymentRequest),
    /// The answer has been given.
    Finished,
}

/// What the store answered.
#[derive(Debug)]
pub enum ValidateEvent {
    /// The record kept under the token, if any.
    RecordLoaded(Option<StoredAllowance>),
    /// Whether marking the token used found it unused.
    MarkedUsed(bool),
}

/// What to do next.
#[derive(Debug)]
pub enum ValidateAction {
    /// Load the record kept under this vault token.
    LoadVaultToken(String),
    /// Mark the record under this vault token used, if it is not yet.
    MarkVaultTokenUsed(String),
    /// Answer the request (HTTP 200).
    Respond(ValidatePaymentResponse),
    /// Fail the request with this error.
    Fail(AppError),
}

impl ValidateState {
    /// The store answer that this state waits for.
    pub open spec fn awaits(self, event: ValidateEvent) -> bool {
        match (self, event) {
            (ValidateState::AwaitingRecord(_), ValidateEvent::RecordLoaded(_)) => true,
            (ValidateState::AwaitingMark(_), ValidateEvent::MarkedUsed(_)) => true,
            _ => false,
        }
    }

    /// Whether this state waits for `event`.
    pub fn accepts(&self, event: &ValidateEvent) -> (b: bool)
        ensures
            b == self.awaits(*event),
    {
        match (self, event) {
            (ValidateState::AwaitingRecord(_), ValidateEvent::RecordLoaded(_)) => true,
            (ValidateState::AwaitingMark(_), ValidateEvent::MarkedUsed(_)) => true,
            _ => false,
        }
    }
}

/// The step answers the request with `a` and is finished.
pub open spec fn responds_with(r: (ValidateState, ValidateAction), a: ValidateAnswer) -> bool {
    &&& r.0 is Finished
    &&& r.1 matches ValidateAction::Respond(resp)
    &&& resp@ == a
}

/// The step asks for the request's token to be consumed.
pub open spec fn asks_to_consume(r: (ValidateState, ValidateAction), req: ValidatePaymentRequest) -> bool {
    &&& r.0 == ValidateState::AwaitingMark(req)
    &&& r.1 matches ValidateAction::MarkVaultTokenUsed(t)
    &&& t@ == req.vault_token@
}

/// The step fails the request with `e` and is finished.
pub open spec fn fails_with(r: (ValidateState, ValidateAction), e: ErrorView) -> bool {
    &&& r.0 is Finished
    &&& r.1 matches ValidateAction::Fail(err)
    &&& err@ == e
}

/// A refusal of `token` with a code and a message.
pub open spec fn refused(token: Seq<char>, code: Seq<char>, message: Seq<char>) -> ValidateAnswer {
    ValidateAnswer { valid: false, vault_token: Some(token), message: Some(message), code: Some(code) }
}

/// The approval of `token`.
pub open spec fn approved(token: Seq<char>) -> ValidateAnswer {
    ValidateAnswer {
        valid: true,
        vault_token: Some(token),
        message: Some("Payment validated"@),
        code: None,
    }
}

/// Whether the order meets every constraint of the record at time `now`.
pub open spec fn order_fits(req: ValidatePaymentRequest, s: StoredAllowance, now: Timestamp) -> bool {
    &&& !s.allowance.expires_at.not_after(now)
    &&& !s.used
    &&& req.amount <= s.allowance.max_amount
    &&& req.currency@ == s.allowance.currency@
    &&& req.merchant_id@ == s.allowance.merchant_id@
    &&& req.checkout_session_id@ == s.allowance.checkout_session_id@
}

/// The answer to an order before the token is consumed: the refusal of the first check that
/// fails, in this order: token exists, not expired, not used, amount, currency, merchant,
/// checkout session. `None` when every check passes.
pub open spec fn refusal(
    req: ValidatePaymentRequest,
    stored: Option<StoredAllowance>,
    now: Timestamp,
) -> Option<ValidateAnswer> {
    let t = req.vault_token@;
    match stored {
        None => Some(refused(t, "invalid_token"@, "Vault token not found"@)),
        Some(s) => if s.allowance.expires_at.not_after(now) {
            Some(refused(t, "token_expired"@, "Vault token has expired"@))
        } else if s.used {
            Some(refused(t, "token_used"@, "Vault token has already been used"@))
        } else if req.amount > s.allowance.max_amount {
            Some(
                refused(
                    t,
                    "amount_exceeded"@,
                    "Amount "@ + int_text(req.amount as int) + " exceeds maximum allowed "@
                        + int_text(s.allowance.max_amount as int),
                ),
            )
        } else if req.currency@ != s.allowance.currency@ {
            Some(
                refused(
                    t,
                    "currency_mismatch"@,
                    "Currency mismatch: expected "@ + s.allowance.currency@ + ", got "@
                        + req.currency@,
                ),
            )
        } else if req.merchant_id@ != s.allowance.merchant_id@ {
            Some(refused(t, "merchant_mismatch"@, "Merchant ID does not match allowance"@))
        } else if req.checkout_session_id@ != s.allowance.checkout_session_id@ {
            Some(refused(t, "session_mismatch"@, "Checkout session ID does not match allowance"@))
        } else {
            None
        },
    }
}

fn refuse(token: &String, code: &str, message: String) -> (r: ValidatePaymentResponse)
    ensures
        r@ == refused(token@, code@, message@),
{
    ValidatePaymentResponse {
        valid: false,
        vault_token: Some(token.clone()),
        message: Some(message),
        code: Some(String::from_str(code)),
    }
}

/// Begins validating an order: the token's record is loaded first.
pub fn validate_payment_start(request: ValidatePaymentRequest) -> (r: (ValidateState, ValidateAction))
    ensures
        r.0 == ValidateState::AwaitingRecord(request),
        r.1 matches ValidateAction::LoadVaultToken(t) ==> t@ == request.vault_token@,
        r.1 is LoadVaultToken,
{
    let token = request.vault_token.clone();
    (ValidateState::AwaitingRecord(request), ValidateAction::LoadVaultToken(token))
}

/// The step decides on `req` given the record `stored` at time `now`: it gives the refusal, or,
/// when there is none, asks for the token to be consumed.
pub open spec fn decides(
    r: (ValidateState, ValidateAction),
    req: ValidatePaymentRequest,
    stored: Option<StoredAllowance>,
    now: Timestamp,
) -> bool {
    match refusal(req, stored, now) {
        Some(a) => responds_with(r, a),
        None => asks_to_consume(r, req),
    }
}

/// Decides on an order once its token's record is known, at time `now`: refuse it, or ask for
/// the token to be consumed.
pub fn decide_on_record(
    request: ValidatePaymentRequest,
    stored: Option<StoredAllowance>,
    now: Timestamp,
) -> (r: (ValidateState, ValidateAction))
    ensures
        decides(r, request, stored, now),
{
    let token = &request.vault_token;
    let s = match stored {
        Some(s) => s,
        None => {
            let resp = refuse(token, "invalid_token", String::from_str("Vault token not found"));
            return (ValidateState::Finished, ValidateAction::Respond(resp));
        },
    };
    if s.allowance.expires_at.is_not_after(&now) {
        let resp = refuse(token, "token_expired", String::from_str("Vault token has expired"));
        return (ValidateState::Finished, ValidateAction::Respond(resp));
    }
    if s.used {
        let resp = refuse(
            token,
            "token_used",
            String::from_str("Vault token has already been used"),
        );
        return (ValidateState::Finished, ValidateAction::Respond(resp));
    }
    if request.amount > s.allowance.max_amount {
        let mut m = String::from_str("Amount ");
        push_int_text(request.amount, &mut m);
        push_str(&mut m, " exceeds maximum allowed ");
        push_int_text(s.allowance.max_amount, &mut m);
        let resp = refuse(token, "amount_exceeded", m);
        return (ValidateState::Finished, ValidateAction::Respond(resp));
    }
    if !same_text(request.currency.as_str(), s.allowance.currency.as_str()) {
        let mut m = String::from_str("Currency mismatch: expected ");
        push_str(&mut m, s.allowance.currency.as_str());
        push_str(&mut m, ", got ");
        push_str(&mut m, request.currency.as_str());
        let resp = refuse(token, "currency_mismatch", m);
        return (ValidateState::Finished, ValidateAction::Respond(resp));
    }
    if !same_text(request.merchant_id.as_str(), s.allowance.merchant_id.as_str()) {
        let resp = refuse(
            token,
            "merchant_mismatch",
            String::from_str("Merchant ID does not match allowance"),
        );
        return (ValidateState::Finished, ValidateAction::Respond(resp));
    }
    if !same_text(request.checkout_session_id.as_str(), s.allowance.checkout_session_id.as_str()) {
        let resp = refuse(
            token,
            "session_mismatch",
            String::from_str("Checkout session ID does not match allowance"),
        );
        return (ValidateState::Finished, ValidateAction::Respond(resp));
    }
    let t = token.clone();
    (ValidateState::AwaitingMark(request), ValidateAction::MarkVaultTokenUsed(t))
}

/// The answer once the store has tried to consume the token: approval when it was unused,
/// else the token was consumed in between and the order is refused as `token_used`.
pub open spec fn answer_after_mark(req: ValidatePaymentRequest, marked: bool) -> ValidateAnswer {
    if marked {
        approved(req.vault_token@)
    } else {
        refused(req.vault_token@, "token_used"@, "Vault token has already been used"@)
    }
}

/// Takes the store's answer and says what to do next. A found record is checked against the
/// current instant (see [`current_instant`]), read when the record arrives; an unknown token
/// is refused without reading the clock.
pub fn validate_payment_step(state: ValidateState, event: ValidateEvent) -> (r: (
    ValidateState,
    ValidateAction,
))
    requires
        state.awaits(event),
    ensures
        match (state, event) {
            (ValidateState::AwaitingRecord(req), ValidateEvent::RecordLoaded(stored)) => {
                exists|now: Timestamp|
                    0 <= now.secs <= latest_utc_secs() && now.nanos < 1_000_000_000 && decides(
                        r,
                        req,
                        stored,
                        now,
                    )
            },
            (ValidateState::AwaitingMark(req), ValidateEvent::MarkedUsed(marked)) => responds_with(
                r,
                answer_after_mark(req, marked),
            ),
            _ => false,
        },
{
    match (state, event) {
        (ValidateState::AwaitingRecord(req), ValidateEvent::RecordLoaded(stored)) => {
            if stored.is_none() {
                let resp = refuse(
                    &req.vault_token,
                    "invalid_token",
                    String::from_str("Vault token not found"),
                );
                let r = (ValidateState::Finished, ValidateAction::Respond(resp));
                let ghost now = Timestamp { secs: 0, nanos: 0 };
                assert(0 <= now.secs <= latest_utc_secs() && now.nanos < 1_000_000_000);
                assert(responds_with(
                    r,
                    refused(req.vault_token@, "invalid_token"@, "Vault token not found"@),
                ));
                assert(refusal(req, stored, now) == Some(
                    refused(req.vault_token@, "invalid_token"@, "Vault token not found"@),
                ));
                assert(decides(r, req, stored, now));
                return r;
            }
            let now = current_instant();
            decide_on_record(req, stored, now)
        },
        (ValidateState::AwaitingMark(req), ValidateEvent::MarkedUsed(marked)) => {
            let token = &req.vault_token;
            let resp = if marked {
                ValidatePaymentResponse {
                    valid: true,
                    vault_token: Some(token.clone()),
                    message: Some(String::from_str("Payment validated")),
                    code: None,
                }
            } else {
                refuse(token, "token_used", String::from_str("Vault token has already been used"))
            };
            (ValidateState::Finished, ValidateAction::Respond(resp))
        },
        _ => vstd::pervasive::unreached(),
    }
}

/// Every refusal is a negative answer that names the request's token and carries a code.
pub proof fn lemma_refusals_are_negative(
    req: ValidatePaymentRequest,
    stored: Option<StoredAllowance>,
    now: Timestamp,
)
    ensures
        refusal(req, stored, now) matches Some(a) ==> {
            &&& !a.valid
            &&& a.vault_token == Some(req.vault_token@)
            &&& a.code is Some
            &&& a.message is Some
        },
{
}

/// An order goes on to consume the token exactly when the token exists and the order meets
/// every constraint of its allowance; an unknown token is refused as `invalid_token`.
pub proof fn lemma_consumes_exactly_fitting_orders(
    req: ValidatePaymentRequest,
    stored: Option<StoredAllowance>,
    now: Timestamp,
)
    ensures
        refusal(req, stored, now) is None <==> (stored matches Some(s) && order_fits(req, s, now)),
        stored is None ==> refusal(req, stored, now) == Some(
            refused(req.vault_token@, "invalid_token"@, "Vault token not found"@),
        ),
{
}

/// What delegation stores is what validation enforces: before its expiry, an unused record lets
/// an order through exactly when the order keeps to the allowance's amount, currency, merchant
/// and checkout session.
pub proof fn lemma_unused_allowance_enforced(
    req: ValidatePaymentRequest,
    s: StoredAllowance,
    now: Timestamp,
)
    requires
        !s.used,
        !s.allowance.expires_at.not_after(now),
    ensures
        refusal(req, Some(s), now) is None <==> {
            &&& req.amount <= s.allowance.max_amount
            &&& req.currency@ == s.allowance.currency@
            &&& req.merchant_id@ == s.allowance.merchant_id@
            &&& req.checkout_session_id@ == s.allowance.checkout_session_id@
        },
{
}

/// An order above the allowance's maximum, against an unused record that has not expired, is
/// answered, not failed: refused as `amount_exceeded`, naming both amounts, whatever else it
/// holds.
pub proof fn lemma_amount_over_allowance_refused(
    req: ValidatePaymentRequest,
    s: StoredAllowance,
    now: Timestamp,
)
    requires
        !s.used,
        !s.allowance.expires_at.not_after(now),
        req.amount > s.allowance.max_amount,
    ensures
        refusal(req, Some(s), now) == Some(
            refused(
                req.vault_token@,
                "amount_exceeded"@,
                "Amount "@ + int_text(req.amount as int) + " exceeds maximum allowed "@ + int_text(
                    s.allowance.max_amount as int,
                ),
            ),
        ),
        forall|r: (ValidateState, ValidateAction)|
            decides(r, req, Some(s), now) ==> r.1 is Respond && !asks_to_consume(r, req),
{
}

/// Tokens are for one use: once a record is marked used, every later order against it is
/// refused, as `token_expired` if the allowance has expired by then, else as `token_used`.
pub proof fn lemma_used_token_never_consumed_again(
    req: ValidatePaymentRequest,
    s: StoredAllowance,
    now: Timestamp,
)
    requires
        s.used,
    ensures
        refusal(req, Some(s), now) == Some(
            if s.allowance.expires_at.not_after(now) {
                refused(req.vault_token@, "token_expired"@, "Vault token has expired"@)
            } else {
                refused(req.vault_token@, "token_used"@, "Vault token has already been used"@)
            },
        ),
{
}

/// One whole validation against a store of records by token, with the clock at `now`: the
/// answer, and the store afterwards. The record is loaded, the order decided as
/// [`decide_on_record`] and [`validate_payment_step`] state it ([`refusal`]), and, when every
/// check passes, the record is replaced by what [`StoredAllowance::mark_used`] leaves
/// ([`StoredAllowance::consumed`]), the answer being the one the step gives for what
/// `mark_used` answered ([`answer_after_mark`]).
pub open spec fn validation_run(
    store: Map<Seq<char>, StoredAllowance>,
    req: ValidatePaymentRequest,
    now: Timestamp,
) -> (ValidateAnswer, Map<Seq<char>, StoredAllowance>) {
    let t = req.vault_token@;
    let stored = if store.contains_key(t) {
        Some(store[t])
    } else {
        None
    };
    match refusal(req, stored, now) {
        Some(a) => (a, store),
        None => (
            answer_after_mark(req, !store[t].used),
            store.insert(t, store[t].consumed()),
        ),
    }
}

/// Tokens are for one use, across requests: of two validations of the same token run one after
/// the other on the same store, at most one is approved, and after an approval the second is
/// refused as `token_used`, or as `token_expired` if the allowance has expired by then.
pub proof fn lemma_one_approval_per_token(
    store: Map<Seq<char>, StoredAllowance>,
    first: ValidatePaymentRequest,
    second: ValidatePaymentRequest,
    now1: Timestamp,
    now2: Timestamp,
)
    requires
        first.vault_token@ == second.vault_token@,
    ensures
        ({
            let (a1, after) = validation_run(store, first, now1);
            let (a2, _) = validation_run(after, second, now2);
            &&& !(a1.valid && a2.valid)
            &&& a1.valid ==> (a2.code == Some("token_used"@) || a2.code == Some("token_expired"@))
        }),
{
    let t = first.vault_token@;
    let (a1, after) = validation_run(store, first, now1);
    if a1.valid {
        assert(after.contains_key(t) && after[t].used);
    }
}

/// Tokens are for one use, step by step: when a first validation approves a token (its record
/// decided on as [`decides`] states, the token consumed, and the answer given for what marking
/// it answered), a second validation of the same token that loads the consumed record is
/// refused without asking to consume it, as `token_used`, or as `token_expired` if the
/// allowance has expired by then.
pub proof fn lemma_second_validation_refused_after_approval(
    first: ValidatePaymentRequest,
    second: ValidatePaymentRequest,
    record: StoredAllowance,
    now1: Timestamp,
    now2: Timestamp,
    decision1: (ValidateState, ValidateAction),
    answer1: (ValidateState, ValidateAction),
    decision2: (ValidateState, ValidateAction),
)
    requires
        first.vault_token@ == second.vault_token@,
        decides(decision1, first, Some(record), now1),
        asks_to_consume(decision1, first) ==> responds_with(
            answer1,
            answer_after_mark(first, !record.used),
        ),
        decides(decision2, second, Some(record.consumed()), now2),
    ensures
        asks_to_consume(decision1, first) && responds_with(answer1, approved(first.vault_token@))
            ==> {
            &&& !asks_to_consume(decision2, second)
            &&& refusal(second, Some(record.consumed()), now2) matches Some(a)
            &&& responds_with(decision2, a)
            &&& !a.valid
            &&& a.code == Some("token_used"@) || a.code == Some("token_expired"@)
        },
{
    lemma_used_token_never_consumed_again(second, record.consumed(), now2);
}

/// An order is approved only when the store found its token unused while consuming it.
pub proof fn lemma_approval_needs_consumption(req: ValidatePaymentRequest, marked: bool)
    ensures
        answer_after_mark(req, marked).valid <==> marked,
        marked ==> answer_after_mark(req, marked) == approved(req.vault_token@),
{
}

} // verus!
