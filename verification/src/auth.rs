//! The credentials that the sign-in exchange yields, and what the answers of
//! the sign-up exchange mean.

use vstd::prelude::*;
use vstd::string::*;
use crate::text::{contains, has_occurrence};

verus! {

/// The tokens of a signed-in user.
#[derive(Debug)]
pub struct AuthResponse {
    pub id_token: String,
    pub access_token: String,
    pub username: String,
}

/// The handle of the sign-in service. It holds nothing.
#[derive(Debug, Clone, Copy, PartialEq, Eq, Structural)]
pub struct AuthService;

impl AuthService {
    /// The handle.
    pub fn new() -> (r: AuthService)
        ensures
            r == AuthService,
    {
        AuthService
    }
}

/// What to do after the answer to a sign-up request.
#[derive(Debug, PartialEq, Eq)]
pub enum SignUpStep {
    /// The user is registered and awaits confirmation.
    Registered,
    /// The name is taken already: send the confirmation code once more.
    ResendCode,
    /// The request was refused, with the message to show.
    Rejected(String),
}

/// What a sign-up answer means: success; a name that exists already, told by
/// the answer's text; or a refusal with the text behind `Sign up failed: `.
pub open spec fn sign_up_meaning(ok: bool, response_text: Seq<char>, step: SignUpStep) -> bool {
    if ok {
        step == SignUpStep::Registered
    } else if has_occurrence(response_text, "UsernameExistsException"@) {
        step == SignUpStep::ResendCode
    } else {
        step matches SignUpStep::Rejected(message) && message@ == "Sign up failed: "@
            + response_text
    }
}

/// Whether an error message tells that the session is over: it speaks of
/// something `expired` or of a `token`.
pub open spec fn tells_session_over(message: Seq<char>) -> bool {
    has_occurrence(message, "expired"@) || has_occurrence(message, "token"@)
}

/// Decides what follows the answer to a sign-up request.
pub fn sign_up_step(ok: bool, response_text: &str) -> (step: SignUpStep)
    ensures
        sign_up_meaning(ok, response_text@, step),
{
    if ok {
        SignUpStep::Registered
    } else if contains(response_text, "UsernameExistsException") {
        SignUpStep::ResendCode
    } else {
        SignUpStep::Rejected(String::from_str("Sign up failed: ").concat(response_text))
    }
}

/// Whether an error message tells that the session is over, so that the user
/// is to be signed out.
pub fn is_session_error(message: &str) -> (r: bool)
    ensures
        r == tells_session_over(message@),
{
    contains(message, "expired") || contains(message, "token")
}

} // verus!
