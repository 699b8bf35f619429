//! Signed identity tokens: issued for a subject, valid for a day, verified
//! against the secret that signed them.

use vstd::prelude::*;

verus! {

/// The seconds for which a token is valid after it was issued: 24 hours.
pub const TOKEN_LIFETIME: u64 = 86_400;

/// The payload of a token: who it speaks for, when it was issued and when it
/// expires, the times in seconds since the Unix epoch.
#[derive(Debug)]
pub struct Claims {
    pub exp: u64,
    pub iat: u64,
    pub login: String,
}

/// What a `Claims` is to the contracts.
pub struct ClaimsView {
    pub exp: u64,
    pub iat: u64,
    pub login: Seq<char>,
}

impl View for Claims {
    type V = ClaimsView;

    open spec fn view(&self) -> ClaimsView {
        ClaimsView { exp: self.exp, iat: self.iat, login: self.login@ }
    }
}

impl Clone for Claims {
    fn clone(&self) -> (copy: Self)
        ensures
            copy@ == self@,
    {
        Claims { exp: self.exp, iat: self.iat, login: self.login.clone() }
    }
}

/// The claims of a token issued for `login` at the time `now`.
pub open spec fn issued(login: Seq<char>, now: u64) -> ClaimsView
    recommends
        now + TOKEN_LIFETIME <= u64::MAX,
{
    ClaimsView { exp: (now + TOKEN_LIFETIME) as u64, iat: now, login }
}

/// The payload of a token as it was read, before it is known to hold all
/// that claims need: the expiry and the time of issue where the payload has
/// them as unsigned integers, the login where it has it as a string.
#[derive(Debug)]
pub struct Payload {
    pub exp: Option<u64>,
    pub iat: Option<u64>,
    pub login: Option<String>,
}

/// What a `Payload` is to the contracts.
pub struct PayloadView {
    pub exp: Option<u64>,
    pub iat: Option<u64>,
    pub login: Option<Seq<char>>,
}

impl View for Payload {
    type V = PayloadView;

    open spec fn view(&self) -> PayloadView {
        PayloadView {
            exp: self.exp,
            iat: self.iat,
            login: match self.login {
                Some(login) => Some(login@),
                None => None,
            },
        }
    }
}

/// The payload that holds the claims, each in its place.
pub open spec fn payload_of(claims: ClaimsView) -> PayloadView {
    PayloadView { exp: Some(claims.exp), iat: Some(claims.iat), login: Some(claims.login) }
}

/// The claims that a payload holds: it must hold all three.
pub open spec fn claims_of(payload: PayloadView) -> Option<ClaimsView> {
    match (payload.exp, payload.iat, payload.login) {
        (Some(exp), Some(iat), Some(login)) => Some(ClaimsView { exp, iat, login }),
        _ => None,
    }
}

/// The claims that are read from a payload, where one was read at all.
pub open spec fn claims_read(payload: Option<PayloadView>) -> Option<ClaimsView> {
    match payload {
        Some(p) => claims_of(p),
        None => None,
    }
}

impl Claims {
    /// The claims of a token issued for `login` at the time `now`: they
    /// expire 24 hours later, and so after they were issued.
    pub fn new(login: String, now: u64) -> (claims: Claims)
        requires
            now + TOKEN_LIFETIME <= u64::MAX,
        ensures
            claims@ == issued(login@, now),
            claims.exp > claims.iat,
    {
        Claims { exp: now + TOKEN_LIFETIME, iat: now, login }
    }

    /// The claims that a payload holds, where it holds all three of them.
    pub fn from_payload(payload: Payload) -> (claims: Option<Claims>)
        ensures
            decoded_view(claims) == claims_of(payload@),
    {
        match (payload.exp, payload.iat, payload.login) {
            (Some(exp), Some(iat), Some(login)) => Some(Claims { exp, iat, login }),
            _ => None,
        }
    }

    /// Whether the claims still hold at the time `now`: they do before the
    /// time of expiry, and no longer at it.
    pub fn is_live(&self, now: u64) -> (live: bool)
        ensures
            live == (now < self.exp),
    {
        now < self.exp
    }
}

/// The one error of verifying a token. A token that is malformed, one whose
/// signature does not match and one that has expired are not told apart.
#[derive(Clone, Copy, PartialEq, Eq, Structural, Debug)]
pub struct TokenInvalid;

/// A failure of the signing primitive while a token was issued.
#[derive(Clone, Copy, PartialEq, Eq, Structural, Debug)]
pub struct SigningFault;

/// The error of the token primitive, carried through as it came.
#[verifier::external_type_specification]
#[verifier::external_body]
pub struct ExJwtError(jsonwebtoken::errors::Error);

/// The token that `jsonwebtoken::encode` gives for claims and a secret under
/// the default header, or `None` where it fails.
pub uninterp spec fn jwt_encoded(claims: ClaimsView, secret: Seq<char>) -> Option<Seq<char>>;

/// The payload that `jsonwebtoken::decode` reads from a token under a
/// secret, with the signature checked and the time left out of account, or
/// `None` where it refuses the token.
pub uninterp spec fn jwt_decoded(token: Seq<char>, secret: Seq<char>) -> Option<PayloadView>;

/// `jsonwebtoken::encode` with `Header::default()` (HMAC with SHA-256) and a
/// key made by `EncodingKey::from_secret` from the bytes of `secret`, on the
/// claims as a JSON object with the members `exp`, `iat` and `login`. The
/// outcome is a function of the claims and the secret. A token that it gives
/// is one that `jsonwebtoken::decode` accepts under the same secret, and
/// reads as the same claims.
#[verifier::external_body]
fn jwt_encode(claims: &Claims, secret: &str) -> (token: Result<String, jsonwebtoken::errors::Error>)
    ensures
        match token {
            Ok(t) => jwt_encoded(claims@, secret@) == Some(t@) && jwt_decoded(t@, secret@) == Some(
                payload_of(claims@),
            ),
            Err(_) => jwt_encoded(claims@, secret@) is None,
        },
{
    let mut payload = serde_json::Map::new();
    payload.insert(String::from("exp"), serde_json::Value::from(claims.exp));
    payload.insert(String::from("iat"), serde_json::Value::from(claims.iat));
    payload.insert(String::from("login"), serde_json::Value::from(claims.login.as_str()));
    let key = jsonwebtoken::EncodingKey::from_secret(secret.as_bytes());
    jsonwebtoken::encode(&jsonwebtoken::Header::default(), &payload, &key)
}

/// `jsonwebtoken::decode` with a key made by `DecodingKey::from_secret` from
/// the bytes of `secret` and with `Validation::default()` but for
/// `validate_exp`, which is switched off: the signature and the structure
/// are checked, an `exp` claim must be there, and the clock is not read. The
/// payload is read as a JSON value, and of its members `exp`, `iat` and
/// `login` each is handed on where it is there in its type. The outcome is a
/// function of the token and the secret.
#[verifier::external_body]
fn jwt_decode(token: &str, secret: &str) -> (payload: Result<Payload, jsonwebtoken::errors::Error>)
    ensures
        match payload {
            Ok(p) => jwt_decoded(token@, secret@) == Some(p@),
            Err(_) => jwt_decoded(token@, secret@) is None,
        },
{
    let mut checks = jsonwebtoken::Validation::default();
    checks.validate_exp = false;
    let key = jsonwebtoken::DecodingKey::from_secret(secret.as_bytes());
    let data = jsonwebtoken::decode::<serde_json::Value>(token, &key, &checks)?;
    Ok(
        Payload {
            exp: data.claims.get("exp").and_then(|v| v.as_u64()),
            iat: data.claims.get("iat").and_then(|v| v.as_u64()),
            login: data.claims.get("login").and_then(|v| v.as_str()).map(|v| v.to_owned()),
        },
    )
}

/// `chrono::Utc::now`, read in whole seconds since the Unix epoch by
/// `DateTime::timestamp`. Which time comes back is not said; it is never
/// before the epoch, for `Utc::now` does not return where the clock stands
/// before it.
#[verifier::external_body]
fn unix_now() -> (now: i64)
    ensures
        0 <= now,
{
    chrono::Utc::now().timestamp()
}

/// The current time in seconds since the Unix epoch. Whatever the clock
/// says, a day can still be added to it.
pub fn current_time() -> (now: u64)
    ensures
        now + TOKEN_LIFETIME <= u64::MAX,
{
    let now = unix_now();
    now as u64
}

/// The authority that issues and verifies tokens. It holds the secret that
/// signs them, fixed when the authority is made.
pub struct Auth {
    secret: String,
}

/// What verifying a token at the time `now` gives, from what the token reads
/// as under the secret: the claims while they have not expired, and the one
/// error otherwise.
pub open spec fn verified_at(decoded: Option<ClaimsView>, now: u64) -> Result<
    ClaimsView,
    TokenInvalid,
> {
    match decoded {
        Some(claims) => if now < claims.exp {
            Ok(claims)
        } else {
            Err(TokenInvalid)
        },
        None => Err(TokenInvalid),
    }
}

/// The claims that were read from a token, as the contracts see them.
pub open spec fn decoded_view(decoded: Option<Claims>) -> Option<ClaimsView> {
    match decoded {
        Some(claims) => Some(claims@),
        None => None,
    }
}

/// The outcome of a verification, as the contracts see it.
pub open spec fn verified_view(verified: Result<Claims, TokenInvalid>) -> Result<
    ClaimsView,
    TokenInvalid,
> {
    match verified {
        Ok(claims) => Ok(claims@),
        Err(e) => Err(e),
    }
}

/// The outcome of issuing a token, as the contracts see it.
pub open spec fn issued_view(token: Result<String, SigningFault>) -> Result<
    Seq<char>,
    SigningFault,
> {
    match token {
        Ok(t) => Ok(t@),
        Err(e) => Err(e),
    }
}

/// Verifies claims that were read from a token against the time `now`: they
/// are handed on while they have not expired. Claims that were not read, and
/// claims whose time has come, are the one error.
pub fn verify_claims(decoded: Option<Claims>, now: u64) -> (verified: Result<Claims, TokenInvalid>)
    ensures
        verified_view(verified) == verified_at(decoded_view(decoded), now),
        verified matches Ok(claims) ==> decoded == Some(claims),
{
    match decoded {
        Some(claims) => if claims.is_live(now) {
            Ok(claims)
        } else {
            Err(TokenInvalid)
        },
        None => Err(TokenInvalid),
    }
}

impl Auth {
    /// An authority that signs and verifies with `secret`.
    pub fn new(secret: String) -> (auth: Auth)
        ensures
            auth.secret() == secret@,
    {
        Auth { secret }
    }

    /// The secret of the authority.
    pub closed spec fn secret(&self) -> Seq<char> {
        self.secret@
    }

    /// What issuing a token for `login` at the time `now` gives.
    pub open spec fn issue(&self, login: Seq<char>, now: u64) -> Result<Seq<char>, SigningFault> {
        match jwt_encoded(issued(login, now), self.secret()) {
            Some(token) => Ok(token),
            None => Err(SigningFault),
        }
    }

    /// What verifying `token` at the time `now` gives.
    pub open spec fn verify(&self, token: Seq<char>, now: u64) -> Result<ClaimsView, TokenInvalid> {
        verified_at(claims_read(jwt_decoded(token, self.secret())), now)
    }

    /// Whether `token` verifies as the claims issued for `login` at the time
    /// `now` at every time before `now` plus 24 hours, and is invalid from
    /// then on.
    pub open spec fn lives_a_day(&self, token: Seq<char>, login: Seq<char>, now: u64) -> bool {
        forall|later: u64| #[trigger]
            self.verify(token, later) == if later < now + TOKEN_LIFETIME {
                Ok::<ClaimsView, TokenInvalid>(issued(login, now))
            } else {
                Err::<ClaimsView, TokenInvalid>(TokenInvalid)
            }
    }

    /// Issues a token for `login` at the time `now`. It fails only where the
    /// signing primitive does. A token that is issued verifies under this
    /// authority for 24 hours, as the claims it was issued for.
    pub fn encode_jwt_at(&self, login: String, now: u64) -> (token: Result<String, SigningFault>)
        requires
            now + TOKEN_LIFETIME <= u64::MAX,
        ensures
            issued_view(token) == self.issue(login@, now),
            token matches Ok(t) ==> self.lives_a_day(t@, login@, now),
    {
        let claims = Claims::new(login, now);
        match jwt_encode(&claims, self.secret.as_str()) {
            Ok(t) => Ok(t),
            Err(_) => Err(SigningFault),
        }
    }

    /// Issues a token for `login` at the current time: what `encode_jwt_at`
    /// gives at some time that the clock may show.
    pub fn encode_jwt(&self, login: String) -> (token: Result<String, SigningFault>)
        ensures
            exists|now: u64|
                {
                    &&& now + TOKEN_LIFETIME <= u64::MAX
                    &&& issued_view(token) == #[trigger] self.issue(login@, now)
                    &&& token matches Ok(t) ==> self.lives_a_day(t@, login@, now)
                },
    {
        let now = current_time();
        self.encode_jwt_at(login, now)
    }

    /// Verifies a token at the time `now`: its structure and signature
    /// against the secret, and that it has not expired. Whatever is wrong
    /// with a token, the error is the same.
    pub fn decode_jwt_at(&self, jwt: String, now: u64) -> (verified: Result<Claims, TokenInvalid>)
        ensures
            verified_view(verified) == self.verify(jwt@, now),
    {
        let claims = match jwt_decode(jwt.as_str(), self.secret.as_str()) {
            Ok(payload) => Claims::from_payload(payload),
            Err(_) => None,
        };
        verify_claims(claims, now)
    }

    /// Verifies a token at the current time: what `decode_jwt_at` gives at
    /// some time that the clock may show.
    pub fn decode_jwt(&self, jwt: String) -> (verified: Result<Claims, TokenInvalid>)
        ensures
            exists|now: u64| verified_view(verified) == #[trigger] self.verify(jwt@, now),
    {
        let now = current_time();
        self.decode_jwt_at(jwt, now)
    }
}

/// Claims that were issued expire after they were issued, hold at every
/// time before 24 hours have passed since, and at no time from then on.
pub proof fn issued_claims_hold_for_a_day(login: Seq<char>, now: u64, later: u64)
    requires
        now + TOKEN_LIFETIME <= u64::MAX,
    ensures
        issued(login, now).exp == issued(login, now).iat + TOKEN_LIFETIME,
        issued(login, now).exp > issued(login, now).iat,
        verified_at(Some(issued(login, now)), later) == if later < now + TOKEN_LIFETIME {
            Ok::<ClaimsView, TokenInvalid>(issued(login, now))
        } else {
            Err::<ClaimsView, TokenInvalid>(TokenInvalid)
        },
{
}

/// Verification fails in one way: a token that does not verify gives
/// `TokenInvalid`, whatever is wrong with it, and a token that verifies
/// gives the claims that were read from it, which have not expired.
pub proof fn verification_fails_in_one_way(auth: Auth, token: Seq<char>, now: u64)
    ensures
        match auth.verify(token, now) {
            Ok(claims) => claims_read(jwt_decoded(token, auth.secret())) == Some(claims) && now
                < claims.exp,
            Err(error) => error == TokenInvalid,
        },
{
}

/// Expiry is final: a token that does not verify at one time verifies at no
/// later time, and one that verifies at a time verified as the same claims
/// at every earlier time.
pub proof fn expiry_is_final(auth: Auth, token: Seq<char>, now: u64, later: u64)
    requires
        now <= later,
    ensures
        auth.verify(token, now) is Err ==> auth.verify(token, later) is Err,
        auth.verify(token, later) is Ok ==> auth.verify(token, now) == auth.verify(token, later),
{
}

} // verus!
