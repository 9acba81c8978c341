//! Passkey sign-in and registration: reading the server's answers.
use crate::rpc::aoba::LoginResult;
use vstd::prelude::*;

verus! {

/// The server's answer to a request for passkey options.
pub enum PasskeyReply<T> {
    Options(T),
    Error(String),
}

/// The options to hand to the browser, or the message to show: the server's own error, or
/// `missing` when it sent no answer.
pub fn options_from_reply<T>(reply: Option<PasskeyReply<T>>, missing: &str) -> (r: Result<
    T,
    String,
>)
    ensures
        match reply {
            Some(PasskeyReply::Options(o)) => r == Ok::<T, String>(o),
            Some(PasskeyReply::Error(e)) => r == Err::<T, String>(e),
            None => r matches Err(m) && m@ == missing@,
        },
{
    match reply {
        Some(PasskeyReply::Options(o)) => Ok(o),
        Some(PasskeyReply::Error(e)) => Err(e),
        None => Err(missing.to_owned()),
    }
}

/// The session token that a passkey login yields, or the message to show.
pub fn token_from_login(result: Option<LoginResult>) -> (r: Result<String, String>)
    ensures
        match result {
            Some(LoginResult::Jwt(j)) => r == Ok::<String, String>(j.token),
            Some(LoginResult::Error(e)) => r == Err::<String, String>(e.message),
            None => r matches Err(m) && m@ == "Failed to complete login"@,
        },
{
    match result {
        Some(LoginResult::Jwt(j)) => Ok(j.token),
        Some(LoginResult::Error(e)) => Err(e.message),
        None => Err(String::from_str("Failed to complete login")),
    }
}

} // verus!
