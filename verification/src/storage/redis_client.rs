//! The Redis client that the store is reached through.

use vstd::prelude::*;

use crate::errors::{AppError, ErrorView};
use crate::text::push_str;

verus! {

/// `redis::Client`: the parsed connection settings of a Redis server.
#[verifier::external_type_specification]
#[verifier::external_body]
pub struct ExRedisClient(redis::Client);

/// Why `redis::Client::open` refuses a URL (the text of its error), or `None` when it accepts it.
pub uninterp spec fn redis_url_error(url: Seq<char>) -> Option<Seq<char>>;

/// `redis::Client::open` on a URL, with its error shown as text. The call only parses the URL;
/// no connection is made. Which URLs it accepts is named, not stated.
#[verifier::external_body]
fn open_client(url: &str) -> (r: Result<redis::Client, String>)
    ensures
        r is Ok <==> redis_url_error(url@) is None,
        r matches Err(m) ==> redis_url_error(url@) == Some(m@),
{
    redis::Client::open(url).map_err(|e| e.to_string())
}

/// The refusal of a Redis URL that does not parse.
pub open spec fn redis_url_fault(reason: Seq<char>) -> ErrorView {
    ErrorView::ProcessingError("Failed to connect to Redis: "@ + reason)
}

/// The store's connection to Redis.
pub struct RedisStorage {
    pub client: redis::Client,
}

impl RedisStorage {
    /// A store for the Redis server at `redis_url`; refused when the URL does not parse.
    pub fn new(redis_url: &str) -> (r: Result<RedisStorage, AppError>)
        ensures
            r is Ok <==> redis_url_error(redis_url@) is None,
            r matches Err(e) ==> redis_url_error(redis_url@) matches Some(m) && e@ == redis_url_fault(
                m,
            ),
    {
        match open_client(redis_url) {
            Ok(client) => Ok(RedisStorage { client }),
            Err(m) => {
                let mut message = String::from_str("Failed to connect to Redis: ");
                push_str(&mut message, m.as_str());
                Err(AppError::ProcessingError(message))
            },
        }
    }
}

} // verus!
