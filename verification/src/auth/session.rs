//! Signing in: from a login and a password to a token.

use super::password::{password_check, HashingFault};
use super::token::{current_time, issued_view, Auth, SigningFault, TOKEN_LIFETIME};
use crate::domain::models::{found_view, User, UserView};
use vstd::prelude::*;

verus! {

/// The credentials that a client presents to sign in.
#[derive(Debug)]
pub struct SignInData {
    pub login: String,
    pub password: String,
}

/// What a `SignInData` is to the contracts.
pub struct SignInDataView {
    pub login: Seq<char>,
    pub password: Seq<char>,
}

impl View for SignInData {
    type V = SignInDataView;

    open spec fn view(&self) -> SignInDataView {
        SignInDataView { login: self.login@, password: self.password@ }
    }
}

impl Clone for SignInData {
    fn clone(&self) -> (copy: Self)
        ensures
            copy@ == self@,
    {
        SignInData { login: self.login.clone(), password: self.password.clone() }
    }
}

/// Why signing in failed.
#[derive(Clone, Copy, PartialEq, Eq, Structural, Debug)]
pub enum SignInError {
    /// No user has the login, or the password is not the user's.
    Unauthorized,
    /// The stored hash could not be read, or the token could not be signed.
    Internal,
}

impl SignInError {
    /// The status of the response: 401 for credentials that are refused,
    /// 500 for an internal fault.
    pub open spec fn spec_status_code(&self) -> u16 {
        match self {
            SignInError::Unauthorized => 401,
            SignInError::Internal => 500,
        }
    }

    /// The status of the response that tells the client of the failure.
    #[verifier::when_used_as_spec(spec_status_code)]
    pub fn status_code(&self) -> (code: u16)
        ensures
            code == self.spec_status_code(),
    {
        match self {
            SignInError::Unauthorized => 401,
            SignInError::Internal => 500,
        }
    }
}

/// Whether a password lets its user in, from what checking it against the
/// stored hash gave: a password that checks does, one that does not is
/// `Unauthorized`, and a check that failed is `Internal`.
pub open spec fn admitted(verdict: Result<bool, HashingFault>) -> Result<(), SignInError> {
    match verdict {
        Ok(true) => Ok(()),
        Ok(false) => Err(SignInError::Unauthorized),
        Err(_) => Err(SignInError::Internal),
    }
}

/// What a client that was let in is handed, from what issuing the token
/// gave: the token, or `Internal` where it could not be signed.
pub open spec fn granted(issued: Result<Seq<char>, SigningFault>) -> Result<
    Seq<char>,
    SignInError,
> {
    match issued {
        Ok(token) => Ok(token),
        Err(_) => Err(SignInError::Internal),
    }
}

/// What signing in gives at the time `now`, where `found` is the user stored
/// under the login, if there is one: a token for the login of that user
/// where the password checks against the stored hash.
pub open spec fn signed_in(
    auth: Auth,
    found: Option<UserView>,
    user_data: SignInDataView,
    now: u64,
) -> Result<Seq<char>, SignInError> {
    match found {
        None => Err(SignInError::Unauthorized),
        Some(user) => match admitted(password_check(user_data.password, user.password)) {
            Err(error) => Err(error),
            Ok(_) => granted(auth.issue(user.login, now)),
        },
    }
}

/// What came of signing in, as the contracts see it.
pub open spec fn token_view(token: Result<String, SignInError>) -> Result<Seq<char>, SignInError> {
    match token {
        Ok(t) => Ok(t@),
        Err(e) => Err(e),
    }
}

/// Whether a password lets its user in, from what checking it against the
/// stored hash gave.
pub fn let_in(verdict: Result<bool, HashingFault>) -> (admission: Result<(), SignInError>)
    ensures
        admission == admitted(verdict),
{
    match verdict {
        Ok(true) => Ok(()),
        Ok(false) => Err(SignInError::Unauthorized),
        Err(_) => Err(SignInError::Internal),
    }
}

/// What a client that was let in is handed, from what issuing the token
/// gave.
pub fn grant(issued: Result<String, SigningFault>) -> (token: Result<String, SignInError>)
    ensures
        token_view(token) == granted(issued_view(issued)),
{
    match issued {
        Ok(token) => Ok(token),
        Err(_) => Err(SignInError::Internal),
    }
}

/// Signs a client in at the time `now`. `found` is what the lookup of
/// `user_data.login` among the stored users gave.
pub fn sign_in_at(auth: &Auth, found: Option<User>, user_data: SignInData, now: u64) -> (token:
    Result<String, SignInError>)
    requires
        now + TOKEN_LIFETIME <= u64::MAX,
    ensures
        token_view(token) == signed_in(*auth, found_view(found), user_data@, now),
        token matches Ok(t) ==> auth.lives_a_day(t@, found->0.login@, now),
{
    let user = match found {
        Some(user) => user,
        None => { return Err(SignInError::Unauthorized); },
    };
    let verdict = Auth::verify_password(user_data.password.as_str(), user.password.as_str());
    match let_in(verdict) {
        Err(error) => Err(error),
        Ok(_) => grant(auth.encode_jwt_at(user.login, now)),
    }
}

/// Signs a client in at the current time: what `sign_in_at` gives at some
/// time that the clock may show. Without a stored user, and with a password
/// that is not the user's, it is `Unauthorized` whatever the time.
pub fn sign_in(auth: &Auth, found: Option<User>, user_data: SignInData) -> (token: Result<
    String,
    SignInError,
>)
    ensures
        exists|now: u64|
            {
                &&& now + TOKEN_LIFETIME <= u64::MAX
                &&& token_view(token) == #[trigger] signed_in(
                    *auth,
                    found_view(found),
                    user_data@,
                    now,
                )
                &&& token matches Ok(t) ==> auth.lives_a_day(t@, found->0.login@, now)
            },
{
    let now = current_time();
    sign_in_at(auth, found, user_data, now)
}

/// A token is handed only to a client whose login is stored and whose
/// password checks against the stored hash, and it is then the token that
/// the authority issues for the stored login.
pub proof fn token_only_for_checked_password(
    auth: Auth,
    found: Option<UserView>,
    user_data: SignInDataView,
    now: u64,
)
    ensures
        signed_in(auth, found, user_data, now) matches Ok(token) ==> {
            &&& found matches Some(user)
            &&& password_check(user_data.password, user.password) == Ok::<bool, HashingFault>(true)
            &&& auth.issue(user.login, now) == Ok::<Seq<char>, SigningFault>(token)
        },
        found is None ==> signed_in(auth, found, user_data, now) == Err::<Seq<char>, SignInError>(
            SignInError::Unauthorized,
        ),
{
}

} // verus!
