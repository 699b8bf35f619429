//! Gating: from the `Authorization` header of a request to the verified
//! identity that the protected handler sees, or to the rejection that ends
//! the request.

use super::header::{bearer_token, header_text, header_to_str, second_word};
use super::token::{current_time, verified_view, Auth, Claims, ClaimsView, TokenInvalid};
use crate::domain::models::{found_view, User, UserView};
use vstd::prelude::*;

verus! {

/// Why a request was turned away.
#[derive(Clone, Copy, PartialEq, Eq, Structural, Debug)]
pub enum AuthError {
    /// The request has no `Authorization` header.
    MissingHeader,
    /// The header cannot be read as text, or holds no token after a scheme.
    UnreadableHeader,
    /// The token is malformed, wrongly signed or expired.
    InvalidOrExpiredToken,
    /// The token is valid; the user it names is not stored.
    UnknownSubject,
}

impl AuthError {
    /// The status of the response: 403 for a header that is missing or
    /// cannot be read, 401 for a token that is refused and for a subject
    /// that is not known.
    pub open spec fn spec_status_code(&self) -> u16 {
        match self {
            AuthError::MissingHeader => 403,
            AuthError::UnreadableHeader => 403,
            AuthError::InvalidOrExpiredToken => 401,
            AuthError::UnknownSubject => 401,
        }
    }

    /// The status of the response that tells the client of the rejection.
    #[verifier::when_used_as_spec(spec_status_code)]
    pub fn status_code(&self) -> (code: u16)
        ensures
            code == self.spec_status_code(),
    {
        match self {
            AuthError::MissingHeader => 403,
            AuthError::UnreadableHeader => 403,
            AuthError::InvalidOrExpiredToken => 401,
            AuthError::UnknownSubject => 401,
        }
    }

    /// The words of the response.
    pub open spec fn spec_message(&self) -> Seq<char> {
        match self {
            AuthError::MissingHeader => "Please add the JWT token to the header"@,
            AuthError::UnreadableHeader => "Empty header is not allowed"@,
            AuthError::InvalidOrExpiredToken => "Unable to decode token"@,
            AuthError::UnknownSubject => "Unable to find user"@,
        }
    }

    /// The words of the response that tells the client of the rejection.
    pub fn message(&self) -> (text: String)
        ensures
            text@ == self.spec_message(),
    {
        match self {
            AuthError::MissingHeader => "Please add the JWT token to the header".to_owned(),
            AuthError::UnreadableHeader => "Empty header is not allowed".to_owned(),
            AuthError::InvalidOrExpiredToken => "Unable to decode token".to_owned(),
            AuthError::UnknownSubject => "Unable to find user".to_owned(),
        }
    }
}

/// Where a request stands on its way in, and with it what is to be done next.
#[derive(Debug)]
pub enum Gate {
    /// The token is valid and has not expired: the user that its claims name
    /// is to be looked up, and the result handed to `resolve`.
    Resolve { claims: Claims },
    /// The subject is a stored user: it is attached to the request, which
    /// goes on to the protected handler.
    Authorized { user: User },
    /// The request is turned away with this error and goes no further.
    Denied { error: AuthError },
}

/// What a `Gate` is to the contracts.
pub enum GateView {
    Resolve { claims: ClaimsView },
    Authorized { user: UserView },
    Denied { error: AuthError },
}

impl View for Gate {
    type V = GateView;

    open spec fn view(&self) -> GateView {
        match self {
            Gate::Resolve { claims } => GateView::Resolve { claims: claims@ },
            Gate::Authorized { user } => GateView::Authorized { user: user@ },
            Gate::Denied { error } => GateView::Denied { error: *error },
        }
    }
}

/// The token that a request presents, from its `Authorization` header: the
/// second word of the header read as text. A request without the header has
/// none, nor has one whose header is no text or no more than one word.
pub open spec fn presented(header: Option<Seq<u8>>) -> Result<Seq<char>, AuthError> {
    match header {
        None => Err(AuthError::MissingHeader),
        Some(value) => match header_text(value) {
            None => Err(AuthError::UnreadableHeader),
            Some(text) => match second_word(text) {
                None => Err(AuthError::UnreadableHeader),
                Some(token) => Ok(token),
            },
        },
    }
}

/// Where the lookup of the subject takes a request.
pub open spec fn resolved(found: Option<UserView>) -> GateView {
    match found {
        Some(user) => GateView::Authorized { user },
        None => GateView::Denied { error: AuthError::UnknownSubject },
    }
}

/// A header of a request as the contracts see it.
pub open spec fn header_view(header: Option<&[u8]>) -> Option<Seq<u8>> {
    match header {
        Some(value) => Some(value@),
        None => None,
    }
}

/// Takes the token out of the header of a request.
pub fn presented_token(header: Option<&[u8]>) -> (token: Result<String, AuthError>)
    ensures
        match token {
            Ok(t) => presented(header_view(header)) == Ok::<Seq<char>, AuthError>(t@),
            Err(e) => presented(header_view(header)) == Err::<Seq<char>, AuthError>(e),
        },
{
    match header {
        None => Err(AuthError::MissingHeader),
        Some(value) => match header_to_str(value) {
            None => Err(AuthError::UnreadableHeader),
            Some(text) => match bearer_token(text.as_str()) {
                None => Err(AuthError::UnreadableHeader),
                Some(token) => Ok(token),
            },
        },
    }
}

/// Where a request with a token gets to, from what verifying the token gave:
/// on to the lookup of its subject with claims that hold, and else to the
/// denial of a token that is invalid or expired.
pub open spec fn checked(verified: Result<ClaimsView, TokenInvalid>) -> GateView {
    match verified {
        Ok(claims) => GateView::Resolve { claims },
        Err(_) => GateView::Denied { error: AuthError::InvalidOrExpiredToken },
    }
}

impl Auth {
    /// Where a request with this header gets to at the time `now`, before
    /// any user is looked up.
    pub open spec fn gate(&self, header: Option<Seq<u8>>, now: u64) -> GateView {
        match presented(header) {
            Err(error) => GateView::Denied { error },
            Ok(token) => checked(self.verify(token, now)),
        }
    }

    /// Gates a request at the time `now`, from its `Authorization` header if
    /// it has one. The request is denied, or its token is valid and its
    /// subject is to be resolved; it is never authorized here.
    pub fn authorize_at(&self, header: Option<&[u8]>, now: u64) -> (gate: Gate)
        ensures
            gate@ == self.gate(header_view(header), now),
    {
        match presented_token(header) {
            Err(error) => Gate::Denied { error },
            Ok(token) => Gate::checked(self.decode_jwt_at(token, now)),
        }
    }

    /// Gates a request at the current time: what `authorize_at` gives at
    /// some time that the clock may show. A request without the header, and
    /// one whose header holds no token, is denied whatever the time.
    pub fn authorize(&self, header: Option<&[u8]>) -> (gate: Gate)
        ensures
            exists|now: u64| gate@ == #[trigger] self.gate(header_view(header), now),
            presented(header_view(header)) matches Err(error) ==> gate@ == (GateView::Denied {
                error,
            }),
    {
        let now = current_time();
        self.authorize_at(header, now)
    }
}

impl Gate {
    /// Where a request with a token gets to, from what verifying the token
    /// gave.
    pub fn checked(verified: Result<Claims, TokenInvalid>) -> (gate: Gate)
        ensures
            gate@ == checked(verified_view(verified)),
    {
        match verified {
            Ok(claims) => Gate::Resolve { claims },
            Err(_) => Gate::Denied { error: AuthError::InvalidOrExpiredToken },
        }
    }

    /// Where the result of looking the subject up takes the request. Only a
    /// request whose token was found valid moves: to `Authorized` with the
    /// user that was found, to `Denied` where none was. A request that was
    /// denied stays denied, whatever the lookup gave.
    pub open spec fn spec_resolve(gate: GateView, found: Option<UserView>) -> GateView {
        match gate {
            GateView::Resolve { .. } => resolved(found),
            other => other,
        }
    }

    /// Moves the request on with the result of looking up the subject of
    /// its claims.
    pub fn resolve(self, found: Option<User>) -> (gate: Gate)
        ensures
            gate@ == Self::spec_resolve(self@, found_view(found)),
    {
        match self {
            Gate::Resolve { .. } => match found {
                Some(user) => Gate::Authorized { user },
                None => Gate::Denied { error: AuthError::UnknownSubject },
            },
            other => other,
        }
    }
}

/// A request without an `Authorization` header is denied at once, as
/// `MissingHeader`: no lookup of a subject is ever asked for, and
/// nothing that a lookup could give changes the denial.
pub proof fn missing_header_is_denied_before_lookup(auth: Auth, now: u64, found: Option<UserView>)
    ensures
        auth.gate(None, now) == (GateView::Denied { error: AuthError::MissingHeader }),
        !(auth.gate(None, now) is Resolve),
        Gate::spec_resolve(auth.gate(None, now), found) == (GateView::Denied {
            error: AuthError::MissingHeader,
        }),
{
}

/// A request is authorized only with a token that verifies at the time of
/// the request and a subject that the lookup found, and then as the user
/// that was found.
pub proof fn authorized_only_with_valid_token_and_known_subject(
    auth: Auth,
    header: Option<Seq<u8>>,
    now: u64,
    found: Option<UserView>,
)
    ensures
        !(auth.gate(header, now) is Authorized),
        Gate::spec_resolve(auth.gate(header, now), found) matches GateView::Authorized { user }
            ==> {
            &&& presented(header) matches Ok(token)
            &&& auth.verify(token, now) is Ok
            &&& found == Some(user)
        },
{
}

/// A denial is final: no result of a lookup moves a request that was
/// denied. Its status is 403 where the header was missing or unreadable, and
/// 401 where the token was refused or its subject is not known.
pub proof fn denial_is_final(error: AuthError, found: Option<UserView>)
    ensures
        Gate::spec_resolve(GateView::Denied { error }, found) == (GateView::Denied { error }),
        error.spec_status_code() == if error == AuthError::MissingHeader || error
            == AuthError::UnreadableHeader {
            403u16
        } else {
            401u16
        },
{
}

/// Each check of the way in denies with its own error, in the order of the
/// checks: a missing header before an unreadable one, either before a token
/// that is refused, and that before a subject that is not known.
pub proof fn denials_in_order(
    auth: Auth,
    header: Option<Seq<u8>>,
    now: u64,
    found: Option<UserView>,
)
    ensures
        Gate::spec_resolve(auth.gate(header, now), found) == if header is None {
            GateView::Denied { error: AuthError::MissingHeader }
        } else if presented(header) is Err {
            GateView::Denied { error: AuthError::UnreadableHeader }
        } else if auth.verify(presented(header)->Ok_0, now) is Err {
            GateView::Denied { error: AuthError::InvalidOrExpiredToken }
        } else if found is None {
            GateView::Denied { error: AuthError::UnknownSubject }
        } else {
            GateView::Authorized { user: found->0 }
        },
{
}

} // verus!
