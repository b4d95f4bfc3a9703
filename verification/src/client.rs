//! The Redis client handle and its error, and the one call that builds a
//! handle from an address.

use vstd::prelude::*;

verus! {

/// `redis::Client`: a handle that knows where the store is. Nothing inside it
/// is read here; it is built and handed on.
#[verifier::external_type_specification]
#[verifier::external_body]
pub struct ExClient(redis::Client);

/// `redis::RedisError`: what building a handle or negotiating a connection
/// fails with. Nothing inside it is read here; it is kept and handed back.
#[verifier::external_type_specification]
#[verifier::external_body]
pub struct ExRedisError(redis::RedisError);

/// What `redis::Client::open` returns for an address. It parses the address
/// and touches nothing else, so the same address always gives the same
/// answer; what that answer is, is not stated.
pub uninterp spec fn opened(uri: Seq<char>) -> Result<redis::Client, redis::RedisError>;

/// An address with the scheme of a plain connection to the store.
pub open spec fn is_store_uri(uri: Seq<char>) -> bool {
    "redis://"@.is_prefix_of(uri)
}

/// Calls `redis::Client::open` on the address. Trusted: the call opens no
/// connection, only parses the address into a handle or an error, and what
/// it returns is `opened` of the address.
#[verifier::external_body]
pub(crate) fn open_client(uri: &str) -> (r: Result<redis::Client, redis::RedisError>)
    requires
        is_store_uri(uri@),
    ensures
        r == opened(uri@),
{
    redis::Client::open(uri)
}

} // verus!
