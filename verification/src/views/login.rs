//! The login form: checking the input and acting on the server's answer.
use crate::rpc::aoba::LoginResult;
use vstd::prelude::*;

verus! {

/// The message shown when a field of the form is empty.
pub open spec fn missing_credentials_message() -> Seq<char> {
    "Username and Password are required"@
}

/// The error to show before sending, if the username or the password is empty.
pub fn credentials_error(username: &String, password: &String) -> (error: Option<String>)
    ensures
        (username@.len() == 0 || password@.len() == 0) <==> error is Some,
        error matches Some(m) ==> m@ == missing_credentials_message(),
{
    if username.as_str().is_empty() || password.as_str().is_empty() {
        Some(String::from_str("Username and Password are required"))
    } else {
        None
    }
}

/// What the page does with the answer to a login.
pub enum LoginOutcome {
    /// Sign in with this token.
    SignIn(String),
    /// Sign out, and show the message if there is one.
    SignOut(Option<String>),
}

/// The page's reaction to the answer of a login call: a token signs in; a refusal signs out
/// and shows its reason; a failed call signs out silently. An answer of the server holds a
/// result.
pub fn login_outcome(reply: Result<Option<LoginResult>, String>) -> (outcome: LoginOutcome)
    requires
        reply matches Ok(r) ==> r is Some,
    ensures
        match reply {
            Ok(Some(LoginResult::Jwt(j))) => outcome == LoginOutcome::SignIn(j.token),
            Ok(Some(LoginResult::Error(e))) => outcome == LoginOutcome::SignOut(Some(e.message)),
            _ => outcome == LoginOutcome::SignOut(None),
        },
{
    match reply {
        Ok(Some(LoginResult::Jwt(j))) => LoginOutcome::SignIn(j.token),
        Ok(Some(LoginResult::Error(e))) => LoginOutcome::SignOut(Some(e.message)),
        _ => LoginOutcome::SignOut(None),
    }
}

} // verus!
