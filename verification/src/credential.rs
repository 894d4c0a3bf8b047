//! The credential: what the library asks of the token that its caller looked
//! up, and what the command line's token option leads to.

use vstd::prelude::*;
use crate::error::SgrepError;

verus! {

/// Whether a token is at hand. The caller looks the token up and passes what
/// it found; `None` stands for a token that was never stored.
pub fn user_is_authenticated(credential: &Option<String>) -> (present: bool)
    ensures
        present == credential is Some,
{
    credential.is_some()
}

/// The token that a run may use. Without one the run ends here, before any
/// request is built or sent.
pub fn require_token(credential: Option<String>) -> (r: Result<String, SgrepError>)
    ensures
        match credential {
            Some(token) => r == Ok::<String, SgrepError>(token),
            None => r == Err::<String, SgrepError>(SgrepError::MissingCredential),
        },
{
    match credential {
        Some(token) => Ok(token),
        None => Err(SgrepError::MissingCredential),
    }
}

/// What the token option of the command line asks for.
#[derive(Clone, Debug, PartialEq, Eq)]
pub enum AuthFlagAction {
    /// The option was not given: go on with the search.
    Proceed,
    /// Store this token and end the run with success.
    Store(String),
    /// The option was given without a token: end the run with an error.
    MissingArgument,
}

/// Decides what to do about the token option, from whether it was given and
/// the value it came with.
pub fn auth_flag_action(present: bool, value: Option<String>) -> (action: AuthFlagAction)
    ensures
        !present ==> action == AuthFlagAction::Proceed,
        present ==> match value {
            Some(token) => action == AuthFlagAction::Store(token),
            None => action == AuthFlagAction::MissingArgument,
        },
{
    if present {
        match value {
            Some(token) => AuthFlagAction::Store(token),
            None => AuthFlagAction::MissingArgument,
        }
    } else {
        AuthFlagAction::Proceed
    }
}

} // verus!
