//! Decoding of listen-key responses.
//!
//! The user data stream is named by a listen key obtained, refreshed and
//! revoked over a signed REST collaborator. The transport is outside the
//! library; what belongs here is the meaning of the replies: starting a
//! stream answers with an object carrying the key under `listenKey`, and
//! refreshing or revoking answers with a plain acknowledgment object.

use vstd::prelude::*;

use crate::classify::field_str;
use crate::errors::{WsError, WsErrorVal};
use crate::json::{pairs_get, Json1, Json2, JsonLeaf, Val2};
use crate::parse::{json_of, parse_json};
use crate::payload::{flat_pairs1, lemma_obj_first_flat1};

verus! {

/// A newly started user data stream: the key that names it.
#[derive(Debug, Clone, PartialEq)]
pub struct UserDataStream {
    pub listen_key: String,
}

/// A plain acknowledgment.
#[derive(Debug, Clone, PartialEq)]
pub struct Success {}

/// The listen key a start response carries: the string under `listenKey`
/// of the top-level object, if the reply has that shape.
pub open spec fn spec_listen_key(raw: Seq<char>) -> Option<Seq<char>> {
    match json_of(raw) {
        Some(Val2::Obj(fs)) => field_str(flat_pairs1(fs), "listenKey"@),
        _ => None,
    }
}

/// A reply acknowledges a request exactly when it is a JSON object.
pub open spec fn spec_ack(raw: Seq<char>) -> bool {
    json_of(raw) matches Some(Val2::Obj(_))
}

/// Decode the reply to a stream-start request.
pub fn parse_listen_key_response(body: &str) -> (r: Result<UserDataStream, WsError>)
    ensures
        r matches Ok(u) ==> spec_listen_key(body@) == Some(u.listen_key@),
        r is Ok <==> spec_listen_key(body@) is Some,
        r matches Err(e) ==> e@ == WsErrorVal::Decode,
{
    match parse_json(body) {
        Some(Json2::Obj(fs)) => {
            proof {
                lemma_obj_first_flat1(crate::json::pairs_view(fs@), "listenKey"@);
            }
            match pairs_get(&fs, "listenKey") {
                Some(Json1::Leaf(JsonLeaf::Str(s))) => Ok(
                    UserDataStream { listen_key: s.clone() },
                ),
                _ => Err(WsError::Decode),
            }
        },
        _ => Err(WsError::Decode),
    }
}

/// Decode the reply to a keep-alive or close request.
pub fn parse_ack_response(body: &str) -> (r: Result<Success, WsError>)
    ensures
        r is Ok <==> spec_ack(body@),
        r matches Err(e) ==> e@ == WsErrorVal::Decode,
{
    match parse_json(body) {
        Some(Json2::Obj(_)) => Ok(Success {  }),
        _ => Err(WsError::Decode),
    }
}

} // verus!
