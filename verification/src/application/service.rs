//! Registration: from a login and a password to a stored user and a token.

use crate::auth::password::{is_hash_of, HashingFault};
use crate::auth::token::{current_time, issued_view, Auth, SigningFault, TOKEN_LIFETIME};
use crate::domain::models::{NewUser, NewUserView, User};
use vstd::prelude::*;

verus! {

/// Why a registration failed.
#[derive(Clone, Copy, PartialEq, Eq, Structural, Debug)]
pub enum RegisterError {
    /// A user is already stored under the login.
    LoginTaken,
    /// The password could not be hashed.
    HashingFault,
    /// The token for the new user could not be signed.
    SigningFault,
}

/// The service that registers users.
pub struct Service;

/// What came of preparing a user, as the contracts see it.
pub open spec fn prepared_view(prepared: Result<NewUser, RegisterError>) -> Result<
    NewUserView,
    RegisterError,
> {
    match prepared {
        Ok(user) => Ok(user@),
        Err(e) => Err(e),
    }
}

/// The user to store for a login, from what hashing the password gave: the
/// login with the hash in the place of the password.
pub open spec fn prepared(login: Seq<char>, hashed: Result<Seq<char>, HashingFault>) -> Result<
    NewUserView,
    RegisterError,
> {
    match hashed {
        Ok(hash) => Ok(NewUserView { login, password: hash }),
        Err(_) => Err(RegisterError::HashingFault),
    }
}

/// What came of issuing the first token, as the contracts see it.
pub open spec fn welcome_view(token: Result<String, RegisterError>) -> Result<
    Seq<char>,
    RegisterError,
> {
    match token {
        Ok(t) => Ok(t@),
        Err(e) => Err(e),
    }
}

/// What a new user is handed, from what issuing the first token gave: the
/// token, or `SigningFault` where it could not be signed.
pub open spec fn handed(issued: Result<Seq<char>, SigningFault>) -> Result<
    Seq<char>,
    RegisterError,
> {
    match issued {
        Ok(token) => Ok(token),
        Err(_) => Err(RegisterError::SigningFault),
    }
}

/// The first token of a user stored under `login`, issued at the time `now`.
pub open spec fn welcomed(auth: Auth, login: Seq<char>, now: u64) -> Result<
    Seq<char>,
    RegisterError,
> {
    handed(auth.issue(login, now))
}

impl Service {
    /// The user to store for `login`, from what hashing the password gave.
    pub fn with_hash(login: String, hashed: Result<String, HashingFault>) -> (user: Result<
        NewUser,
        RegisterError,
    >)
        ensures
            prepared_view(user) == prepared(
                login@,
                match hashed {
                    Ok(h) => Ok(h@),
                    Err(e) => Err(e),
                },
            ),
    {
        match hashed {
            Ok(password) => Ok(NewUser { login, password }),
            Err(_) => Err(RegisterError::HashingFault),
        }
    }

    /// Prepares the registration of `new_user`, where `existing` is what the
    /// lookup of its login among the stored users gave. A login that is
    /// taken is refused. Else the user to store has the same login and, in
    /// the place of the password, a fresh hash of it: the plaintext is not
    /// stored. It fails otherwise only where hashing does.
    pub fn register_user(existing: Option<User>, new_user: NewUser) -> (user: Result<
        NewUser,
        RegisterError,
    >)
        ensures
            existing is Some ==> user == Err::<NewUser, RegisterError>(RegisterError::LoginTaken),
            existing is None ==> match user {
                Ok(stored) => stored.login@ == new_user.login@ && is_hash_of(
                    stored.password@,
                    new_user.password@,
                ),
                Err(e) => e == RegisterError::HashingFault,
            },
    {
        if existing.is_some() {
            return Err(RegisterError::LoginTaken);
        }
        let hashed = Auth::hash_password(new_user.password.as_str());
        Self::with_hash(new_user.login, hashed)
    }

    /// What a new user is handed, from what issuing the first token gave.
    pub fn with_token(issued: Result<String, SigningFault>) -> (token: Result<
        String,
        RegisterError,
    >)
        ensures
            welcome_view(token) == handed(issued_view(issued)),
    {
        match issued {
            Ok(token) => Ok(token),
            Err(_) => Err(RegisterError::SigningFault),
        }
    }

    /// Issues the first token of a user that was stored, at the time `now`.
    pub fn welcome_at(auth: &Auth, stored: &User, now: u64) -> (token: Result<
        String,
        RegisterError,
    >)
        requires
            now + TOKEN_LIFETIME <= u64::MAX,
        ensures
            welcome_view(token) == welcomed(*auth, stored.login@, now),
            token matches Ok(t) ==> auth.lives_a_day(t@, stored.login@, now),
    {
        Self::with_token(auth.encode_jwt_at(stored.login.clone(), now))
    }

    /// Issues the first token of a user that was stored, at the current
    /// time: what `welcome_at` gives at some time that the clock may show.
    pub fn welcome(auth: &Auth, stored: &User) -> (token: Result<String, RegisterError>)
        ensures
            exists|now: u64|
                {
                    &&& now + TOKEN_LIFETIME <= u64::MAX
                    &&& welcome_view(token) == #[trigger] welcomed(*auth, stored.login@, now)
                    &&& token matches Ok(t) ==> auth.lives_a_day(t@, stored.login@, now)
                },
    {
        let now = current_time();
        Self::welcome_at(auth, stored, now)
    }
}

} // verus!
