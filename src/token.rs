//! The per-request carrier of the authenticated identity.
use vstd::prelude::*;

verus! {

/// The authenticated user of one request, with its second-factor state.
///
/// Made by a primary authentication provider; changed only by a satisfied
/// second-factor challenge and by logout.
pub struct AuthToken<U> {
    user: U,
    mfa_done: bool,
    invalidated: bool,
}

impl<U> AuthToken<U> {
    pub closed spec fn user(&self) -> U {
        self.user
    }

    pub closed spec fn mfa_satisfied(&self) -> bool {
        self.mfa_done
    }

    pub closed spec fn invalid(&self) -> bool {
        self.invalidated
    }

    /// A fresh token for `user`: challenge not yet satisfied, still valid.
    pub fn new(user: U) -> (r: AuthToken<U>)
        ensures
            r.user() == user,
            !r.mfa_satisfied(),
            !r.invalid(),
    {
        AuthToken { user, mfa_done: false, invalidated: false }
    }

    /// The authenticated user.
    pub fn get_authenticated_user(&self) -> (r: &U)
        ensures
            *r == self.user(),
    {
        &self.user
    }

    /// Whether the second-factor challenge was satisfied.
    pub fn is_mfa_done(&self) -> (r: bool)
        ensures
            r == self.mfa_satisfied(),
    {
        self.mfa_done
    }

    /// Whether the token was invalidated by logout.
    pub fn is_invalidated(&self) -> (r: bool)
        ensures
            r == self.invalid(),
    {
        self.invalidated
    }

    /// Marks the second-factor challenge as satisfied.
    pub fn mfa_challenge_done(&mut self)
        ensures
            final(self).user() == old(self).user(),
            final(self).mfa_satisfied(),
            final(self).invalid() == old(self).invalid(),
    {
        self.mfa_done = true;
    }

    /// Invalidates the token; the transport is then to discard the credential.
    pub fn invalidate(&mut self)
        ensures
            final(self).user() == old(self).user(),
            final(self).mfa_satisfied() == old(self).mfa_satisfied(),
            final(self).invalid(),
    {
        self.invalidated = true;
    }
}

} // verus!
