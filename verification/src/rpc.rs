//! The session token that authorizes RPC calls, and the header built from it.
pub mod aoba;

use vstd::prelude::*;

verus! {

/// Stores the token that authorizes later RPC calls.
pub fn login(session: &mut Option<String>, jwt: String)
    ensures
        *final(session) == Some(jwt),
{
    *session = Some(jwt);
}

/// Forgets the token; later RPC calls go out unauthorized.
pub fn logout(session: &mut Option<String>)
    ensures
        *final(session) == None::<String>,
{
    *session = None;
}

/// The `authorization` value that a call carries under a session: `Bearer` and the token.
pub open spec fn bearer_of(session: Option<String>) -> Option<Seq<char>> {
    match session {
        Some(jwt) => Some("Bearer "@ + jwt@),
        None => None,
    }
}

/// Adds the session token to each outgoing call.
#[derive(Clone, Copy)]
pub struct AuthInterceptor;

impl AuthInterceptor {
    /// The `authorization` metadata value for a call, if a token is stored.
    pub fn authorization(&self, session: &Option<String>) -> (value: Option<String>)
        ensures
            match value {
                Some(v) => bearer_of(*session) == Some(v@),
                None => bearer_of(*session) is None,
            },
    {
        match session {
            Some(jwt) => {
                let mut v = String::from_str("Bearer ");
                v.append(jwt.as_str());
                Some(v)
            },
            None => None,
        }
    }
}

/// After a login, calls carry `Bearer` and that token; after a logout, they carry nothing.
pub proof fn lemma_login_authorizes(jwt: String)
    ensures
        bearer_of(Some(jwt)) == Some("Bearer "@ + jwt@),
        bearer_of(None) is None,
{
}

} // verus!
