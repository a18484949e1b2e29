//! Session-based primary authentication.
use vstd::prelude::*;
use crate::error::AuthError;
use crate::token::AuthToken;

verus! {

/// The user stored in one session, as the session transport loaded it for
/// the current request.
pub struct UserSession<U> {
    user: Option<U>,
}

impl<U> UserSession<U> {
    pub closed spec fn stored(&self) -> Option<U> {
        self.user
    }

    /// A session with no user in it.
    pub fn new() -> (r: UserSession<U>)
        ensures
            r.stored() is None,
    {
        UserSession { user: None }
    }

    /// A session holding what the transport found in it (`None`: nothing, or
    /// nothing that could be read back as a user).
    pub fn from_stored(user: Option<U>) -> (r: UserSession<U>)
        ensures
            r.stored() == user,
    {
        UserSession { user }
    }

    /// Stores `user` after the application has checked the credentials.
    pub fn set_user(&mut self, user: U)
        ensures
            final(self).stored() == Some(user),
    {
        self.user = Some(user);
    }

    /// The stored user, if any.
    pub fn get_user(&self) -> (r: Option<&U>)
        ensures
            r is Some <==> self.stored() is Some,
            r is Some ==> *r->Some_0 == self.stored()->Some_0,
    {
        match &self.user {
            Some(u) => Some(u),
            None => None,
        }
    }

    /// Discards the stored user.
    pub fn purge(&mut self)
        ensures
            final(self).stored() is None,
    {
        self.user = None;
    }

    /// Logs out: invalidates the request's token and discards the stored user.
    pub fn logout(&mut self, token: &mut AuthToken<U>)
        ensures
            final(self).stored() is None,
            final(token).invalid(),
            final(token).user() == old(token).user(),
            final(token).mfa_satisfied() == old(token).mfa_satisfied(),
    {
        token.invalidate();
        self.purge();
    }

    /// What the transport is to write back into the session.
    pub fn into_stored(self) -> (r: Option<U>)
        ensures
            r == self.stored(),
    {
        self.user
    }
}

/// What authenticating from a session holding `stored` gives: a fresh token
/// for the stored user, or an authentication failure where there is none.
pub open spec fn authenticated_from<U>(stored: Option<U>, r: Result<AuthToken<U>, AuthError>) -> bool {
    match stored {
        Some(u) => r is Ok && r->Ok_0.user() == u && !r->Ok_0.mfa_satisfied() && !r->Ok_0.invalid(),
        None => r is Err && r->Err_0 is AuthenticationFailure,
    }
}

/// Primary authentication by the user stored in the session.
pub struct SessionAuthProvider;

impl SessionAuthProvider {
    /// A token for the session's user; an authentication failure where the
    /// session holds none.
    pub fn authenticate<U>(&self, session: UserSession<U>) -> (r: Result<AuthToken<U>, AuthError>)
        ensures
            authenticated_from(session.stored(), r),
    {
        match session.into_stored() {
            Some(u) => Ok(AuthToken::new(u)),
            None => Err(AuthError::AuthenticationFailure),
        }
    }
}

} // verus!
