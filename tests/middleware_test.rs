use std::sync::Arc;

use auth_middleware::error::{AuthError, CheckCodeError, ConditionCheckError};
use auth_middleware::google_auth::GoogleAuth;
use auth_middleware::middleware::{complete_challenge, AuthMiddleware, Stage};
use auth_middleware::path_matcher::PathMatcher;
use auth_middleware::session::{SessionAuthProvider, UserSession};
use auth_middleware::token::AuthToken;

#[derive(Clone, Debug, PartialEq)]
struct User {
    email: String,
    name: String,
}

struct Repo;

fn jenny() -> User {
    User { email: "jenny@example.org".to_owned(), name: "Jenny B.".to_owned() }
}

type WithFactor = AuthMiddleware<SessionAuthProvider, GoogleAuth<Repo>>;

fn with_factor() -> WithFactor {
    AuthMiddleware::new_with_factor(
        SessionAuthProvider,
        PathMatcher::default(),
        GoogleAuth::new(Arc::new(Repo)),
    )
}

fn without_factor() -> WithFactor {
    AuthMiddleware::new(SessionAuthProvider, PathMatcher::default())
}

/// Runs the state machine for one request the way a transport would,
/// returning the status and, where the handler runs, its token.
fn run(m: &WithFactor, path: &str, session: UserSession<User>) -> (u16, Option<AuthToken<User>>) {
    let mut session = Some(session);
    let mut stage = m.start::<User>(path);
    loop {
        stage = match stage {
            Stage::Authenticate => {
                m.after_primary(m.provider().authenticate(session.take().unwrap()))
            }
            Stage::CheckCondition(t) => {
                let cond = m.factor().unwrap().is_condition_met();
                m.after_condition(path, t, cond)
            }
            Stage::Forward(t) => return (200, t),
            Stage::Reject(e) => return (e.status_code(), None),
        };
    }
}

#[test]
fn should_not_be_looged_in_without_mfa() {
    let m = with_factor();
    let (login_status, _) = run(&m, "/login", UserSession::new());
    assert_eq!(login_status, 200);
    let mut session = UserSession::new();
    session.set_user(jenny());
    let (status, token) = run(&m, "/secured-route", session);
    assert_eq!(status, 401);
    assert!(token.is_none());
}

#[test]
fn unauthenticated_request_is_401_on_every_protected_path() {
    for m in [with_factor(), without_factor()] {
        for path in ["/secured-route", "/login/mfa", "/logout", "/", "/api/x"] {
            let (status, _) = run(&m, path, UserSession::new());
            assert_eq!(status, 401, "{path}");
        }
    }
}

#[test]
fn exempt_path_passes_without_authentication() {
    let m = with_factor();
    assert!(matches!(m.start::<User>("/health"), Stage::Forward(None)));
    let (status, token) = run(&m, "/login", UserSession::new());
    assert_eq!(status, 200);
    assert!(token.is_none());
}

#[test]
fn set_user_then_request_echoes_user_without_factor() {
    let m = without_factor();
    let mut session = UserSession::new();
    session.set_user(jenny());
    let (status, token) = run(&m, "/secured-route", session);
    assert_eq!(status, 200);
    let token = token.unwrap();
    assert_eq!(token.get_authenticated_user(), &jenny());
    assert_eq!(token.get_authenticated_user().name, "Jenny B.");
    assert!(!token.is_mfa_done());
}

#[test]
fn pending_challenge_allows_only_code_endpoint() {
    let m = with_factor();
    let mut session = UserSession::new();
    session.set_user(jenny());
    let (status, token) = run(&m, "/login/mfa", session);
    assert_eq!(status, 200);
    assert_eq!(token.unwrap().get_authenticated_user(), &jenny());
    for path in ["/secured-route", "/logout", "/login/mfa/other"] {
        let t = AuthToken::new(jenny());
        let stage = m.after_condition(path, t, Ok(true));
        assert!(matches!(stage, Stage::Reject(AuthError::AuthenticationFailure)), "{path}");
    }
}

#[test]
fn satisfied_challenge_reaches_handler() {
    let m = with_factor();
    let mut t = AuthToken::new(jenny());
    assert_eq!(complete_challenge(&mut t, Ok(())), Ok(()));
    assert!(t.is_mfa_done());
    match m.after_condition("/secured-route", t, Ok(true)) {
        Stage::Forward(Some(t)) => assert_eq!(t.get_authenticated_user(), &jenny()),
        _ => panic!("expected the request to be forwarded"),
    }
}

#[test]
fn factor_that_does_not_apply_is_skipped() {
    let m = with_factor();
    let t = AuthToken::new(jenny());
    assert!(matches!(m.after_condition("/secured-route", t, Ok(false)), Stage::Forward(Some(_))));
}

#[test]
fn condition_failure_is_internal_error() {
    let m = with_factor();
    let t = AuthToken::new(jenny());
    match m.after_condition("/secured-route", t, Err(ConditionCheckError)) {
        Stage::Reject(e) => {
            assert_eq!(e, AuthError::ConditionCheckFailed);
            assert_eq!(e.status_code(), 500);
        }
        _ => panic!("expected a rejection"),
    }
}

#[test]
fn failed_challenge_leaves_token_pending() {
    let mut t = AuthToken::new(jenny());
    assert_eq!(complete_challenge(&mut t, Err(CheckCodeError::InvalidCode)), Err(AuthError::InvalidCode));
    assert!(!t.is_mfa_done());
    let r = complete_challenge(&mut t, Err(CheckCodeError::UnknownError("boom".to_owned())));
    assert_eq!(r, Err(AuthError::UnknownError("boom".to_owned())));
    assert!(!t.is_mfa_done());
    assert!(!t.is_invalidated());
}

#[test]
fn logout_makes_later_requests_401() {
    let m = without_factor();
    let mut session = UserSession::new();
    session.set_user(jenny());
    let mut token = m.provider().authenticate(UserSession::from_stored(Some(jenny()))).unwrap();
    session.logout(&mut token);
    assert!(token.is_invalidated());
    assert!(session.get_user().is_none());
    assert!(matches!(
        m.after_primary(Ok(token)),
        Stage::Reject(AuthError::AuthenticationFailure)
    ));
    let (status, _) = run(&m, "/secured-route", session);
    assert_eq!(status, 401);
}

#[test]
fn token_lifecycle() {
    let mut t = AuthToken::new(7u8);
    assert!(!t.is_mfa_done());
    assert!(!t.is_invalidated());
    t.mfa_challenge_done();
    assert!(t.is_mfa_done());
    assert_eq!(*t.get_authenticated_user(), 7);
    t.invalidate();
    assert!(t.is_invalidated());
    assert!(t.is_mfa_done());
}

#[test]
fn session_stores_and_discards_user() {
    let mut s = UserSession::new();
    assert!(s.get_user().is_none());
    s.set_user(3u8);
    assert_eq!(s.get_user(), Some(&3));
    s.purge();
    assert_eq!(s.into_stored(), None);
    assert!(SessionAuthProvider.authenticate(UserSession::<u8>::new()).is_err());
    let t = SessionAuthProvider.authenticate(UserSession::from_stored(Some(9u8))).unwrap();
    assert_eq!(*t.get_authenticated_user(), 9);
}

#[test]
fn error_statuses_and_kinds() {
    assert_eq!(AuthError::AuthenticationFailure.status_code(), 401);
    assert_eq!(AuthError::InvalidCode.status_code(), 400);
    assert_eq!(AuthError::GenerateCodeFailed.status_code(), 500);
    assert_eq!(AuthError::UnknownError("x".to_owned()).status_code(), 500);
    assert_eq!(AuthError::InvalidCode.kind(), "invalid_code");
    assert_eq!(AuthError::UnknownError("secret detail".to_owned()).kind(), "unknown_error");
    assert_eq!(AuthError::AuthenticationFailure.kind(), "authentication_failure");
}
