//! The request state machine that composes path classification, primary
//! authentication and an optional second factor.
use vstd::prelude::*;
use crate::error::{AuthError, CheckCodeError, ConditionCheckError};
use crate::path_matcher::{PathClass, PathMatcher, same_text};
use crate::token::AuthToken;

verus! {

/// Where a request stands, and what the transport is to do next.
pub enum Stage<U> {
    /// Run the primary authentication provider and report with `after_primary`.
    Authenticate,
    /// Ask the factor whether it applies and report with `after_condition`.
    CheckCondition(AuthToken<U>),
    /// Hand the request to its handler, with the token where there is one.
    Forward(Option<AuthToken<U>>),
    /// Answer with the error's status; the handler is not run.
    Reject(AuthError),
}

/// Orchestrates one primary authentication provider `P` and at most one
/// second factor `F`.
pub struct AuthMiddleware<P, F> {
    provider: P,
    matcher: PathMatcher,
    factor: Option<F>,
    mfa_path: String,
}

/// The path of the endpoint that takes second-factor codes.
pub open spec fn mfa_route() -> Seq<char> {
    "/login/mfa"@
}

impl<P, F> AuthMiddleware<P, F> {
    pub closed spec fn matcher(&self) -> PathMatcher {
        self.matcher
    }

    pub closed spec fn factor_spec(&self) -> Option<F> {
        self.factor
    }

    pub closed spec fn provider_spec(&self) -> P {
        self.provider
    }

    pub closed spec fn mfa_path(&self) -> Seq<char> {
        self.mfa_path@
    }

    pub open spec fn has_factor(&self) -> bool {
        self.factor_spec() is Some
    }

    /// Well-formed: the code endpoint is the fixed one.
    pub open spec fn wf(&self) -> bool {
        self.mfa_path() == mfa_route()
    }

    /// The first step for a request to `path`.
    pub open spec fn start_spec<U>(&self, path: Seq<char>) -> Stage<U> {
        match self.matcher().class_of(path) {
            PathClass::Exempt => Stage::Forward(None),
            PathClass::Protected => Stage::Authenticate,
        }
    }

    /// The step after primary authentication gave `primary`.
    pub open spec fn after_primary_spec<U>(&self, primary: Result<AuthToken<U>, AuthError>) -> Stage<U> {
        match primary {
            Err(_) => Stage::Reject(AuthError::AuthenticationFailure),
            Ok(t) => if t.invalid() {
                Stage::Reject(AuthError::AuthenticationFailure)
            } else if self.has_factor() {
                Stage::CheckCondition(t)
            } else {
                Stage::Forward(Some(t))
            },
        }
    }

    /// The step after the factor answered `condition` for a request to `path`.
    pub open spec fn after_condition_spec<U>(
        &self,
        path: Seq<char>,
        token: AuthToken<U>,
        condition: Result<bool, ConditionCheckError>,
    ) -> Stage<U> {
        match condition {
            Err(_) => Stage::Reject(AuthError::ConditionCheckFailed),
            Ok(false) => Stage::Forward(Some(token)),
            Ok(true) => if token.mfa_satisfied() || path == self.mfa_path() {
                Stage::Forward(Some(token))
            } else {
                Stage::Reject(AuthError::AuthenticationFailure)
            },
        }
    }

    /// A middleware without a second factor.
    pub fn new(provider: P, matcher: PathMatcher) -> (r: AuthMiddleware<P, F>)
        ensures
            r.wf(),
            r.provider_spec() == provider,
            r.matcher() == matcher,
            r.factor_spec() is None,
    {
        AuthMiddleware { provider, matcher, factor: None, mfa_path: "/login/mfa".to_owned() }
    }

    /// A middleware that also asks for the second factor `factor`.
    pub fn new_with_factor(provider: P, matcher: PathMatcher, factor: F) -> (r: AuthMiddleware<P, F>)
        ensures
            r.wf(),
            r.provider_spec() == provider,
            r.matcher() == matcher,
            r.factor_spec() == Some(factor),
    {
        AuthMiddleware { provider, matcher, factor: Some(factor), mfa_path: "/login/mfa".to_owned() }
    }

    /// The primary authentication provider.
    pub fn provider(&self) -> (r: &P)
        ensures
            *r == self.provider_spec(),
    {
        &self.provider
    }

    /// The configured second factor, if any.
    pub fn factor(&self) -> (r: Option<&F>)
        ensures
            r is Some <==> self.has_factor(),
            r is Some ==> *r->Some_0 == self.factor_spec()->Some_0,
    {
        match &self.factor {
            Some(f) => Some(f),
            None => None,
        }
    }

    /// The path classification rules.
    pub fn path_matcher(&self) -> (r: &PathMatcher)
        ensures
            *r == self.matcher(),
    {
        &self.matcher
    }

    /// Classifies `path`: an exempt request goes straight to its handler,
    /// a protected one to primary authentication.
    pub fn start<U>(&self, path: &str) -> (r: Stage<U>)
        ensures
            r == self.start_spec::<U>(path@),
    {
        match self.matcher.classify(path) {
            PathClass::Exempt => Stage::Forward(None),
            PathClass::Protected => Stage::Authenticate,
        }
    }

    /// Primary authentication failed, or gave an invalidated token: reject
    /// with an authentication failure. Otherwise forward the token, or, with
    /// a factor configured, ask the factor whether it applies.
    pub fn after_primary<U>(&self, primary: Result<AuthToken<U>, AuthError>) -> (r: Stage<U>)
        ensures
            r == self.after_primary_spec(primary),
    {
        match primary {
            Err(_) => Stage::Reject(AuthError::AuthenticationFailure),
            Ok(t) => {
                if t.is_invalidated() {
                    Stage::Reject(AuthError::AuthenticationFailure)
                } else if self.factor.is_some() {
                    Stage::CheckCondition(t)
                } else {
                    Stage::Forward(Some(t))
                }
            },
        }
    }

    /// The factor's answer decides: where it applies and its challenge is
    /// not yet satisfied, only the code endpoint is reached; every other
    /// request is rejected with an authentication failure.
    pub fn after_condition<U>(
        &self,
        path: &str,
        token: AuthToken<U>,
        condition: Result<bool, ConditionCheckError>,
    ) -> (r: Stage<U>)
        ensures
            r == self.after_condition_spec(path@, token, condition),
    {
        match condition {
            Err(_) => Stage::Reject(AuthError::ConditionCheckFailed),
            Ok(false) => Stage::Forward(Some(token)),
            Ok(true) => {
                if token.is_mfa_done() || same_text(path, self.mfa_path.as_str()) {
                    Stage::Forward(Some(token))
                } else {
                    Stage::Reject(AuthError::AuthenticationFailure)
                }
            },
        }
    }
}

/// The code endpoint's step once the factor checked the submitted code:
/// on success the token's challenge is marked satisfied; on failure the
/// token is left as it was and the check's error is returned.
pub fn complete_challenge<U>(token: &mut AuthToken<U>, checked: Result<(), CheckCodeError>) -> (r:
    Result<(), AuthError>)
    ensures
        r is Ok <==> checked is Ok,
        checked is Ok ==> final(token).mfa_satisfied(),
        checked is Err ==> final(token).mfa_satisfied() == old(token).mfa_satisfied(),
        checked is Err && checked->Err_0 is InvalidCode ==> r is Err && r->Err_0 is InvalidCode,
        checked is Err && checked->Err_0 is UnknownError ==> r == Err::<(), AuthError>(
            AuthError::UnknownError(checked->Err_0->UnknownError_0),
        ),
        final(token).user() == old(token).user(),
        final(token).invalid() == old(token).invalid(),
{
    match checked {
        Ok(()) => {
            token.mfa_challenge_done();
            Ok(())
        },
        Err(e) => Err(AuthError::from_check_code_error(e)),
    }
}

} // verus!
