//! Local-client authorization: the token pair the session is built from.
//!
//! The tokens come from the locally running game client over HTTP; that
//! request lives outside the library. Classifying its response is verified
//! here.

use vstd::prelude::*;

use crate::live_match::ApiResponse;

verus! {

/// The entitlement token and access token handed out by the local client.
#[derive(Debug, Clone, Default)]
pub struct Authorization {
    pub access_token: String,
    pub token: String,
}

/// Decide what the token-endpoint response means: only a successfully
/// parsed body yields tokens, anything else means no authorization yet.
/// Returns the entitlement token first, then the access token.
pub fn get_auth_from_response(resp: ApiResponse<Authorization>) -> (r: Option<(String, String)>)
    ensures
        match resp {
            ApiResponse::Parsed(a) => r is Some && r->Some_0.0@ == a.token@ && r->Some_0.1@
                == a.access_token@,
            _ => r is None,
        },
{
    match resp {
        ApiResponse::Parsed(a) => Some((a.token, a.access_token)),
        _ => None,
    }
}

} // verus!
