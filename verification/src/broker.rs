//! The broker's client: made from the configured address before any
//! connection is opened.

use vstd::prelude::*;

verus! {

/// A client of the broker: it knows where the broker is and opens connections
/// to it.
#[verifier::external_type_specification]
#[verifier::external_body]
pub struct ExClient(redis::Client);

/// Why the broker's client refused something.
#[verifier::external_type_specification]
#[verifier::external_body]
pub struct ExRedisError(redis::RedisError);

/// Whether `redis` takes `url` as the address of a broker.
pub uninterp spec fn url_accepted(url: Seq<char>) -> bool;

/// `redis::Client::open` on an address given as text. It opens no connection:
/// it reads the address, and fails where it cannot make sense of it. The
/// contract names for which addresses it succeeds, and claims nothing else.
#[verifier::external_body]
pub(crate) fn open_client(url: &str) -> (r: Result<redis::Client, redis::RedisError>)
    ensures
        r is Ok <==> url_accepted(url@),
{
    redis::Client::open(url)
}

} // verus!
