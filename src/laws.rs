//! Properties of the request state machine and of the code check, stated
//! over the contracts of the functions they relate.
use vstd::prelude::*;
use crate::error::{status_of, AuthError, CheckCodeError, ConditionCheckError};
use crate::google_auth::{check_code_post, code_valid};
use crate::middleware::{mfa_route, AuthMiddleware, Stage};
use crate::path_matcher::PathClass;
use crate::session::{authenticated_from, UserSession};
use crate::token::AuthToken;

verus! {

/// A request to a protected path without a primary credential is rejected
/// with status 401, whatever the path.
pub proof fn unauthenticated_request_rejected<P, F, U>(
    m: AuthMiddleware<P, F>,
    path: Seq<char>,
    primary: Result<AuthToken<U>, AuthError>,
)
    requires
        m.matcher().class_of(path) == PathClass::Protected,
        authenticated_from(None, primary),
    ensures
        m.start_spec::<U>(path) == Stage::<U>::Authenticate,
        m.after_primary_spec(primary) == Stage::<U>::Reject(AuthError::AuthenticationFailure),
        status_of(AuthError::AuthenticationFailure) == 401,
{
}

/// While the second factor applies and its challenge is not satisfied, a
/// request with a valid primary credential to any protected path but the
/// code endpoint is rejected with status 401.
pub proof fn pending_challenge_blocks<P, F, U>(
    m: AuthMiddleware<P, F>,
    path: Seq<char>,
    token: AuthToken<U>,
)
    requires
        m.wf(),
        m.has_factor(),
        m.matcher().class_of(path) == PathClass::Protected,
        path != mfa_route(),
        !token.invalid(),
        !token.mfa_satisfied(),
    ensures
        m.start_spec::<U>(path) == Stage::<U>::Authenticate,
        m.after_primary_spec(Ok::<AuthToken<U>, AuthError>(token)) == Stage::CheckCondition(token),
        m.after_condition_spec(path, token, Ok::<bool, ConditionCheckError>(true)) == Stage::<
            U,
        >::Reject(AuthError::AuthenticationFailure),
        status_of(AuthError::AuthenticationFailure) == 401,
{
}

/// Checking a code twice against the same secret in the same time slice
/// gives the same answer; the valid code succeeds both times.
pub proof fn check_code_repeatable<E>(
    secret: Result<Seq<char>, E>,
    code: Seq<char>,
    time_slice: u64,
    first: Result<(), CheckCodeError>,
    second: Result<(), CheckCodeError>,
)
    requires
        secret is Ok,
        time_slice > 0,
        check_code_post(secret, code, time_slice, first),
        check_code_post(secret, code, time_slice, second),
    ensures
        first is Ok <==> second is Ok,
        code_valid(secret->Ok_0, code, time_slice) ==> first is Ok && second is Ok,
{
}

/// After a user is stored in the session, a protected request without a
/// second factor reaches its handler with a token for that same user.
pub proof fn stored_user_reaches_handler<P, F, U>(
    m: AuthMiddleware<P, F>,
    path: Seq<char>,
    session: UserSession<U>,
    user: U,
    primary: Result<AuthToken<U>, AuthError>,
)
    requires
        !m.has_factor(),
        m.matcher().class_of(path) == PathClass::Protected,
        session.stored() == Some(user),
        authenticated_from(session.stored(), primary),
    ensures
        m.start_spec::<U>(path) == Stage::<U>::Authenticate,
        primary is Ok,
        primary->Ok_0.user() == user,
        m.after_primary_spec(primary) == Stage::Forward(Some(primary->Ok_0)),
{
}

/// A code that is not the valid one for the secret and time slice is
/// refused as an invalid code, never accepted.
pub proof fn wrong_code_refused<E>(
    secret: Seq<char>,
    code: Seq<char>,
    time_slice: u64,
    r: Result<(), CheckCodeError>,
)
    requires
        time_slice > 0,
        !code_valid(secret, code, time_slice),
        check_code_post(Ok::<Seq<char>, E>(secret), code, time_slice, r),
    ensures
        r is Err && r->Err_0 is InvalidCode,
{
}

/// After logout, a request with the same session, or with the invalidated
/// token itself, is rejected with status 401.
pub proof fn logged_out_request_rejected<P, F, U>(
    m: AuthMiddleware<P, F>,
    path: Seq<char>,
    session: UserSession<U>,
    token: AuthToken<U>,
    primary: Result<AuthToken<U>, AuthError>,
)
    requires
        m.matcher().class_of(path) == PathClass::Protected,
        session.stored() is None,
        token.invalid(),
        authenticated_from(session.stored(), primary),
    ensures
        m.start_spec::<U>(path) == Stage::<U>::Authenticate,
        m.after_primary_spec(primary) == Stage::<U>::Reject(AuthError::AuthenticationFailure),
        m.after_primary_spec(Ok::<AuthToken<U>, AuthError>(token)) == Stage::<U>::Reject(
            AuthError::AuthenticationFailure,
        ),
        status_of(AuthError::AuthenticationFailure) == 401,
{
}

} // verus!
