//! Composition of the streaming endpoint URL.
//!
//! A connection target is the fixed base URL of the combined-stream
//! endpoint with a caller-supplied path/query suffix appended; the suffix
//! names the streams to subscribe to. The composed string must be a valid
//! URL before a handshake is attempted.

use vstd::prelude::*;
use vstd::string::*;

use crate::errors::{WsError, WsErrorVal};

verus! {

/// The fixed base URL of the combined-stream endpoint.
pub open spec fn base_url() -> Seq<char> {
    "wss://fstream.binance.com/stream?streams="@
}

/// The full connection target for a caller-supplied suffix.
pub open spec fn full_endpoint(endpoint: Seq<char>) -> Seq<char> {
    base_url() + endpoint
}

/// The fixed base URL, as text.
pub fn websocket_base() -> (r: &'static str)
    ensures
        r@ == base_url(),
{
    "wss://fstream.binance.com/stream?streams="
}

/// The full connection target, as text.
pub fn stream_url(endpoint: &str) -> (r: String)
    ensures
        r@ == full_endpoint(endpoint@),
{
    let mut s = String::from_str(websocket_base());
    s.append(endpoint);
    s
}

/// Whether a string is a well-formed URL.
pub uninterp spec fn url_ok(s: Seq<char>) -> bool;

/// Relies on url::Url::parse: whether a string parses as a URL is a
/// function of the string alone.
#[verifier::external_body]
fn url_accepts(s: &str) -> (r: bool)
    ensures
        r == url_ok(s@),
{
    url::Url::parse(s).is_ok()
}

/// Build and check the full endpoint URL for a connection attempt. The
/// result is the composed URL exactly when it is well-formed; a malformed
/// composition is a handshake error, and no connection is attempted on it.
pub fn compose_endpoint(endpoint: &str) -> (r: Result<String, WsError>)
    ensures
        r is Ok <==> url_ok(full_endpoint(endpoint@)),
        r matches Ok(s) ==> s@ == full_endpoint(endpoint@),
        r matches Err(e) ==> e@ is Handshake,
{
    let url = stream_url(endpoint);
    if url_accepts(url.as_str()) {
        Ok(url)
    } else {
        Err(WsError::Handshake(url))
    }
}

} // verus!
