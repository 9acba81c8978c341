//! The signed-in state that the pages read, kept in step with the RPC session.
use crate::rpc;
use vstd::prelude::*;

verus! {

/// The token of the signed-in user, if any; pages without one show the login form.
pub struct AuthContext {
    pub jwt: Option<String>,
}

impl Default for AuthContext {
    fn default() -> (ctx: Self)
        ensures
            ctx.jwt is None,
    {
        AuthContext { jwt: None }
    }
}

impl AuthContext {
    /// Signs in with `token`. The RPC session takes the token only when the browser stored it
    /// (`stored`); otherwise the session keeps what it had.
    pub fn login(&mut self, session: &mut Option<String>, token: String, stored: bool)
        ensures
            final(self).jwt == Some(token),
            *final(session) == (if stored {
                Some(token)
            } else {
                *old(session)
            }),
    {
        self.jwt = Some(token.clone());
        if stored {
            rpc::login(session, token);
        }
    }

    /// Signs out: the page state and the RPC session both forget the token.
    pub fn logout(&mut self, session: &mut Option<String>)
        ensures
            final(self).jwt is None,
            *final(session) == None::<String>,
    {
        self.jwt = None;
        rpc::logout(session);
    }

    /// The state at start-up from the token that the browser kept, if any; a kept token also
    /// becomes the RPC session's token.
    pub fn new_from_session(session: &mut Option<String>, stored_token: Option<String>) -> (ctx:
        Self)
        ensures
            ctx.jwt == stored_token,
            *final(session) == (if stored_token is Some {
                stored_token
            } else {
                *old(session)
            }),
    {
        match stored_token {
            Some(jwt) => {
                rpc::login(session, jwt.clone());
                AuthContext { jwt: Some(jwt) }
            },
            None => AuthContext::default(),
        }
    }
}

} // verus!
