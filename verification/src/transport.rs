//! The computed parts of the transport: endpoint construction and response
//! classification. The HTTP client that actually performs the request lives
//! outside the library and consumes these.

use vstd::prelude::*;
use vstd::string::StringExecFns;

verus! {

/// The ingest endpoint for an API host and public key.
pub open spec fn spec_ingest_endpoint(api_host: Seq<char>, public_key: Seq<char>) -> Seq<char> {
    api_host + "/api/i/v1/"@ + public_key + "/events"@
}

/// Build the ingest endpoint URL events are posted to.
pub fn ingest_endpoint(api_host: &str, public_key: &str) -> (r: String)
    ensures
        r@ == spec_ingest_endpoint(api_host@, public_key@),
{
    let mut url = api_host.to_owned();
    url.append("/api/i/v1/");
    url.append(public_key);
    url.append("/events");
    url
}

/// True iff an HTTP status code counts as a successful response; anything
/// else makes the send a transport failure and the batch is requeued.
pub fn status_is_success(status: u16) -> (r: bool)
    ensures
        r == (200 <= status < 300),
{
    200 <= status && status < 300
}

} // verus!
