//! The sign-in state and the actions that change it.

use vstd::prelude::*;
use crate::auth::AuthResponse;

verus! {

/// Whether somebody is signed in, and as whom.
#[derive(Debug, PartialEq, Eq)]
pub struct AuthState {
    pub is_authenticated: bool,
    pub token: Option<String>,
    pub user_id: Option<String>,
    pub error: Option<String>,
}

/// What can happen to the sign-in state.
#[derive(Debug, PartialEq, Eq)]
pub enum AuthAction {
    /// Signed in, with the token and the user's id.
    SetAuthenticated(String, String),
    SetError(String),
    ClearError,
    Logout,
}

impl AuthState {
    /// The state after an action.
    pub open spec fn reduced(self, action: AuthAction) -> AuthState {
        match action {
            AuthAction::SetAuthenticated(token, user_id) => AuthState {
                is_authenticated: true,
                token: Some(token),
                user_id: Some(user_id),
                error: None,
            },
            AuthAction::SetError(error) => AuthState { error: Some(error), ..self },
            AuthAction::ClearError => AuthState { error: None, ..self },
            AuthAction::Logout => AuthState {
                is_authenticated: false,
                token: None,
                user_id: None,
                ..self
            },
        }
    }

    /// The state that stored credentials give: signed in with the id token
    /// and, as the user's id, the access token; signed out where nothing is
    /// stored.
    pub open spec fn restored_from(stored: Option<AuthResponse>) -> AuthState {
        match stored {
            Some(auth) => AuthState {
                is_authenticated: true,
                token: Some(auth.id_token),
                user_id: Some(auth.access_token),
                error: None,
            },
            None => AuthState { is_authenticated: false, token: None, user_id: None, error: None },
        }
    }

    /// The state at start, from the credentials that were stored, if any.
    pub fn restored(stored: Option<AuthResponse>) -> (r: AuthState)
        ensures
            r == Self::restored_from(stored),
    {
        match stored {
            Some(auth) => AuthState {
                is_authenticated: true,
                token: Some(auth.id_token),
                user_id: Some(auth.access_token),
                error: None,
            },
            None => AuthState { is_authenticated: false, token: None, user_id: None, error: None },
        }
    }

    /// Applies an action. Signing out keeps a standing error; forgetting the
    /// stored credentials is the caller's part.
    pub fn reduce(self, action: AuthAction) -> (r: AuthState)
        ensures
            r == self.reduced(action),
    {
        let mut next = self;
        match action {
            AuthAction::SetAuthenticated(token, user_id) => {
                next.is_authenticated = true;
                next.token = Some(token);
                next.user_id = Some(user_id);
                next.error = None;
            },
            AuthAction::SetError(error) => {
                next.error = Some(error);
            },
            AuthAction::ClearError => {
                next.error = None;
            },
            AuthAction::Logout => {
                next.is_authenticated = false;
                next.token = None;
                next.user_id = None;
            },
        }
        next
    }
}

} // verus!
