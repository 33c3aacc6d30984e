//! What the connector keeps per vault token, the keys it is kept under, and the decisions
//! that the key-value store's operations make.

use vstd::prelude::*;

use crate::clock::{chrono_whole_seconds, whole_seconds_between};
use crate::models::{Address, Allowance, PaymentMethod, Timestamp};
use crate::text::push_str;

pub mod redis_client;

verus! {

/// The record kept under a vault token.
#[derive(Debug, Clone)]
pub struct StoredAllowance {
    pub allowance: Allowance,
    pub payment_method: PaymentMethod,
    pub billing_address: Option<Address>,
    pub used: bool,
    pub created_at: Timestamp,
    pub idempotency_key: Option<String>,
}

/// The store key of a vault token: `vault:` and the token id.
pub open spec fn vault_key_text(token_id: Seq<char>) -> Seq<char> {
    "vault:"@ + token_id
}

/// The store key of an idempotency key: `idempotency:` and the key.
pub open spec fn idempotency_key_text(key: Seq<char>) -> Seq<char> {
    "idempotency:"@ + key
}

/// The store key under which a vault token's record is kept.
pub fn vault_key(token_id: &str) -> (k: String)
    ensures
        k@ == vault_key_text(token_id@),
{
    let mut k = String::from_str("vault:");
    push_str(&mut k, token_id);
    k
}

/// The store key under which an idempotency key's token id is kept.
pub fn idempotency_key(key: &str) -> (k: String)
    ensures
        k@ == idempotency_key_text(key@),
{
    let mut k = String::from_str("idempotency:");
    push_str(&mut k, key);
    k
}

/// The lifetime, in seconds, that a vault token's record is stored with: the whole seconds
/// left until the allowance expires, at least one; a minute when it has already expired.
pub open spec fn vault_ttl(expires_at: Timestamp, now: Timestamp) -> int {
    if !expires_at.not_after(now) {
        let left = chrono_whole_seconds(expires_at, now);
        if left < 1 {
            1
        } else {
            left
        }
    } else {
        60
    }
}

/// The store lifetime of a new vault token's record, from its expiry and the current time.
pub fn vault_ttl_seconds(expires_at: Timestamp, now: Timestamp) -> (ttl: u64)
    requires
        expires_at.representable(),
        now.representable(),
    ensures
        ttl == vault_ttl(expires_at, now),
        ttl >= 1,
        expires_at.nanos < 1_000_000_000 && now.nanos < 1_000_000_000 && !expires_at.not_after(now)
            ==> ttl == if expires_at.total_nanos() - now.total_nanos() < 1_000_000_000 {
            1
        } else {
            (expires_at.total_nanos() - now.total_nanos()) / 1_000_000_000
        },
{
    if !expires_at.is_not_after(&now) {
        proof {
            if expires_at.nanos < 1_000_000_000 && now.nanos < 1_000_000_000 {
                let a = expires_at.secs - now.secs;
                let f = expires_at.nanos - now.nanos;
                assert(expires_at.total_nanos() - now.total_nanos() == a * 1_000_000_000 + f);
                assert((a * 1_000_000_000 + f) / 1_000_000_000 == a + f / 1_000_000_000)
                    by (nonlinear_arith)
                    requires
                        -1_000_000_000 < f < 1_000_000_000,
                ;
                assert(f % 1_000_000_000 == f - (f / 1_000_000_000) * 1_000_000_000)
                    by (nonlinear_arith);
            }
        }
        let left = whole_seconds_between(expires_at, now);
        if left < 1 {
            1
        } else {
            left as u64
        }
    } else {
        60
    }
}

/// The lifetime to keep when a record is rewritten: the remaining lifetime the store reported,
/// at least one second (the store reports negative values for keys without one).
pub open spec fn retained_ttl(reported: i64) -> int {
    if reported < 1 {
        1
    } else {
        reported as int
    }
}

/// The lifetime to rewrite a record with, from the lifetime the store reported for it.
pub fn retained_ttl_seconds(reported: i64) -> (ttl: u64)
    ensures
        ttl == retained_ttl(reported),
        ttl >= 1,
{
    if reported < 1 {
        1
    } else {
        reported as u64
    }
}

impl StoredAllowance {
    /// The record once consumed: the same record, marked used.
    pub open spec fn consumed(self) -> StoredAllowance {
        StoredAllowance { used: true, ..self }
    }

    /// Marks the record used. Answers whether it was unused; a used record stays as it was.
    pub fn mark_used(&mut self) -> (marked: bool)
        ensures
            marked == !old(self).used,
            *final(self) == old(self).consumed(),
    {
        if self.used {
            return false;
        }
        self.used = true;
        true
    }
}

/// Vault tokens and idempotency keys live in separate parts of the store: no vault-token key is
/// ever an idempotency key, and distinct token ids (or idempotency keys) have distinct keys.
pub proof fn lemma_store_keys_distinct(a: Seq<char>, b: Seq<char>)
    ensures
        vault_key_text(a) != idempotency_key_text(b),
        vault_key_text(a) == vault_key_text(b) ==> a == b,
        idempotency_key_text(a) == idempotency_key_text(b) ==> a == b,
{
    reveal_strlit("vault:");
    reveal_strlit("idempotency:");
    assert(vault_key_text(a)[0] == 'v');
    assert(idempotency_key_text(b)[0] == 'i');
    if vault_key_text(a) == vault_key_text(b) {
        assert(a =~= vault_key_text(a).subrange(6, vault_key_text(a).len() as int));
        assert(b =~= vault_key_text(b).subrange(6, vault_key_text(b).len() as int));
    }
    if idempotency_key_text(a) == idempotency_key_text(b) {
        assert(a =~= idempotency_key_text(a).subrange(12, idempotency_key_text(a).len() as int));
        assert(b =~= idempotency_key_text(b).subrange(12, idempotency_key_text(b).len() as int));
    }
}

} // verus!
