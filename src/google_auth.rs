//! A second factor backed by Google Authenticator style time-based codes.
use std::sync::Arc;
use vstd::prelude::*;
use google_authenticator::GoogleAuthenticator;
use crate::error::{CheckCodeError, ConditionCheckError, GenerateCodeError};
use crate::token::AuthToken;

verus! {

/// The six-digit code that `GoogleAuthenticator::get_code` gives for `secret`
/// in the 30-second time slice `time_slice`, or `None` where it fails (a
/// secret of the wrong length or not in base32).
pub uninterp spec fn totp_code(secret: Seq<char>, time_slice: u64) -> Option<Seq<char>>;

/// Relies on `GoogleAuthenticator::verify_code` with six-digit codes and no
/// discrepancy window: for a time slice above zero it accepts exactly the code
/// that `get_code` gives for that slice (and none in the last slice, whose
/// window is empty); for slice zero it reads the clock, and nothing is said.
#[verifier::external_body]
fn verify_totp(secret: &str, code: &str, time_slice: u64) -> (r: bool)
    ensures
        time_slice > 0 ==> r == (time_slice < u64::MAX && totp_code(secret@, time_slice)
            == Some(code@)),
{
    GoogleAuthenticator::new().verify_code(secret, code, 0, time_slice)
}

/// Whether `code` is the valid code for `secret` in time slice `time_slice`.
pub open spec fn code_valid(secret: Seq<char>, code: Seq<char>, time_slice: u64) -> bool {
    0 < time_slice < u64::MAX && totp_code(secret, time_slice) == Some(code)
}

/// What `check_code` may return: an unknown error where the secret could not
/// be had; otherwise success exactly for the valid code and `InvalidCode` for
/// any other (for slice zero, the current slice decides, so only the shape of
/// the result is fixed).
pub open spec fn check_code_post<E>(
    secret: Result<Seq<char>, E>,
    code: Seq<char>,
    time_slice: u64,
    r: Result<(), CheckCodeError>,
) -> bool {
    match secret {
        Err(_) => r is Err && r->Err_0 is UnknownError,
        Ok(s) => if time_slice > 0 {
            if code_valid(s, code, time_slice) {
                r is Ok
            } else {
                r is Err && r->Err_0 is InvalidCode
            }
        } else {
            r is Ok || r->Err_0 is InvalidCode
        },
    }
}

/// A time-based one-time code factor. The secret of each user lives in a
/// repository of type `T`, which the caller queries between
/// [`GoogleAuth::token_user`] and [`GoogleAuth::check_code`].
pub struct GoogleAuth<T> {
    totp_secret_repo: Arc<T>,
}

impl<T> GoogleAuth<T> {
    pub closed spec fn repo(&self) -> Arc<T> {
        self.totp_secret_repo
    }

    /// A factor whose secrets come from `totp_secret_repo`.
    pub fn new(totp_secret_repo: Arc<T>) -> (r: GoogleAuth<T>)
        ensures
            r.repo() == totp_secret_repo,
    {
        GoogleAuth { totp_secret_repo }
    }

    /// The repository that holds the users' secrets.
    pub fn secret_repository(&self) -> (r: &Arc<T>)
        ensures
            *r == self.repo(),
    {
        &self.totp_secret_repo
    }

    /// Codes come from the user's authenticator app: nothing is generated here.
    pub fn generate_code(&self) -> (r: Result<Option<String>, GenerateCodeError>)
        ensures
            r == Ok::<Option<String>, GenerateCodeError>(None),
    {
        Ok(None)
    }

    /// The factor applies to every authenticated user.
    pub fn is_condition_met(&self) -> (r: Result<bool, ConditionCheckError>)
        ensures
            r == Ok::<bool, ConditionCheckError>(true),
    {
        Ok(true)
    }

    /// The identifier of this factor.
    pub fn get_unique_id(&self) -> (r: String)
        ensures
            r@ == "GAUTH"@,
    {
        "GAUTH".to_owned()
    }

    /// The user whose code is to be checked: that of the request's token.
    /// Without a token the middleware did not run first, an internal error.
    pub fn token_user<'a, U>(&self, token: Option<&'a AuthToken<U>>) -> (r: Result<
        &'a U,
        CheckCodeError,
    >)
        ensures
            token is Some ==> r is Ok && *r->Ok_0 == token->Some_0.user(),
            token is None ==> r is Err && r->Err_0 is UnknownError,
    {
        match token {
            Some(t) => Ok(t.get_authenticated_user()),
            None => Err(CheckCodeError::UnknownError("Cant load AuthToken".to_owned())),
        }
    }

    /// Checks `code` against the user's secret, as the repository returned it,
    /// for the 30-second time slice `time_slice` (zero: the current one).
    /// A repository failure is an internal error, never a wrong code. The
    /// token is not touched: marking the challenge done is up to the caller.
    pub fn check_code<E>(&self, code: &str, secret: Result<String, E>, time_slice: u64) -> (r:
        Result<(), CheckCodeError>)
        ensures
            check_code_post(
                match secret {
                    Ok(s) => Ok::<Seq<char>, E>(s@),
                    Err(e) => Err(e),
                },
                code@,
                time_slice,
                r,
            ),
    {
        match secret {
            Ok(s) => {
                if verify_totp(s.as_str(), code, time_slice) {
                    Ok(())
                } else {
                    Err(CheckCodeError::InvalidCode)
                }
            },
            Err(_) => Err(CheckCodeError::UnknownError("Something went wrong".to_owned())),
        }
    }
}

} // verus!
