//! Bearer-token identity: issuing signed claims, and accepting or refusing the bearer of a token.

use vstd::prelude::*;

verus! {

/// The identity a token asserts, and the second (Unix time) after which it no longer does.
#[derive(Debug, Clone, PartialEq, Eq)]
pub struct Claims {
    pub username: String,
    pub exp: u64,
}

/// What [`Claims`] say.
pub struct ClaimsView {
    pub username: Seq<char>,
    pub exp: u64,
}

impl View for Claims {
    type V = ClaimsView;

    open spec fn view(&self) -> ClaimsView {
        ClaimsView { username: self.username@, exp: self.exp }
    }
}

/// The refusal given to a request that carries no acceptable bearer token.
#[derive(Debug, Clone, Copy, PartialEq, Eq, Structural)]
pub struct AuthError;

impl AuthError {
    /// The HTTP status a refused request is answered with: always 401, with no further detail.
    pub fn status_code(&self) -> (code: u16)
        ensures
            code == 401,
    {
        401
    }
}

/// The failure to sign claims into a token.
#[derive(Debug, Clone, Copy, PartialEq, Eq, Structural)]
pub struct SigningError;

/// The error type of the `jsonwebtoken` crate, carried through and never looked into.
#[verifier::external_type_specification]
#[verifier::external_body]
pub struct ExJwtError(jsonwebtoken::errors::Error);

/// The token that `jsonwebtoken::encode` gives for the claims `{"username": .., "exp": ..}` under
/// the default header and the HMAC key `secret`, or `None` where it gives an error.
pub uninterp spec fn signed_token(username: Seq<char>, exp: u64, secret: Seq<char>) -> Option<
    Seq<char>,
>;

/// The `username` and `exp` claims that `jsonwebtoken::decode` finds in `token` when it checks
/// the signature against the HMAC key `secret` and leaves the expiry unchecked: a claim is `None`
/// where the payload has no string (no unsigned integer) under that name. `None` as a whole where
/// `decode` gives an error.
pub uninterp spec fn token_payload(token: Seq<char>, secret: Seq<char>) -> Option<
    (Option<Seq<char>>, Option<u64>),
>;

/// Calls `jsonwebtoken::encode` with the default header (HS256), a JSON object that holds
/// `username` and `exp` in this order, and `secret` as the HMAC key. The contract only names the
/// outcome: equal arguments give equal tokens.
#[verifier::external_body]
fn encode_claims(username: &str, exp: u64, secret: &str) -> (outcome: Result<
    String,
    jsonwebtoken::errors::Error,
>)
    ensures
        match outcome {
            Ok(token) => signed_token(username@, exp, secret@) == Some(token@),
            Err(_) => signed_token(username@, exp, secret@) is None,
        },
{
    let mut payload = serde_json::Map::new();
    payload.insert(String::from("username"), serde_json::Value::from(username));
    payload.insert(String::from("exp"), serde_json::Value::from(exp));
    let key = jsonwebtoken::EncodingKey::from_secret(secret.as_bytes());
    jsonwebtoken::encode(&jsonwebtoken::Header::default(), &payload, &key)
}

/// Calls `jsonwebtoken::decode` with `secret` as the HMAC key and the default validation (HS256,
/// an `exp` claim required) but for the comparison of `exp` with the clock, which is switched
/// off: no decision in the call then depends on the time. Hands out the `username` claim where it
/// is a string and the `exp` claim where it is an unsigned integer. The contract only names the
/// outcome. `decode` still reads the clock, and panics if it stands before 1970.
#[verifier::external_body]
fn decode_claims(token: &str, secret: &str) -> (outcome: Result<
    (Option<String>, Option<u64>),
    jsonwebtoken::errors::Error,
>)
    ensures
        match outcome {
            Ok(found) => token_payload(token@, secret@) == Some(
                (
                    match found.0 {
                        Some(username) => Some(username@),
                        None => None,
                    },
                    found.1,
                ),
            ),
            Err(_) => token_payload(token@, secret@) is None,
        },
{
    let mut validation = jsonwebtoken::Validation::default();
    validation.validate_exp = false;
    let key = jsonwebtoken::DecodingKey::from_secret(secret.as_bytes());
    let data = jsonwebtoken::decode::<serde_json::Value>(token, &key, &validation)?;
    let username = match data.claims.get("username") {
        Some(serde_json::Value::String(name)) => Some(name.clone()),
        _ => None,
    };
    let exp = match data.claims.get("exp") {
        Some(serde_json::Value::Number(at)) => at.as_u64(),
        _ => None,
    };
    Ok((username, exp))
}

/// Calls `jsonwebtoken::get_current_timestamp`: the seconds since 1970 on this machine's clock.
/// Nothing is claimed of the result. The call panics if the clock stands before 1970.
#[verifier::external_body]
fn current_timestamp() -> u64 {
    jsonwebtoken::get_current_timestamp()
}

/// Signs `claims` into a token under `secret`.
///
/// The token is the one that [`signed_token`] names; where the signing fails, so does this.
pub fn get_jwt(claims: &Claims, secret: &str) -> (issued: Result<String, SigningError>)
    ensures
        match issued {
            Ok(token) => signed_token(claims@.username, claims@.exp, secret@) == Some(token@),
            Err(_) => signed_token(claims@.username, claims@.exp, secret@) is None,
        },
{
    match encode_claims(claims.username.as_str(), claims.exp, secret) {
        Ok(token) => Ok(token),
        Err(_) => Err(SigningError),
    }
}

/// The claims that a decoded payload is accepted with at the second `now`: both claims must be
/// there, and the expiry must not lie before `now`.
pub open spec fn accepted(payload: Option<(Option<Seq<char>>, Option<u64>)>, now: u64) -> Option<
    ClaimsView,
> {
    match payload {
        Some((Some(username), Some(exp))) => if exp >= now {
            Some(ClaimsView { username, exp })
        } else {
            None
        },
        _ => None,
    }
}

/// The claims a verdict grants, if it grants any.
pub open spec fn claims_of(verdict: Result<Claims, AuthError>) -> Option<ClaimsView> {
    match verdict {
        Ok(claims) => Some(claims@),
        Err(_) => None,
    }
}

impl Claims {
    /// Accepts or refuses a payload whose signature has been checked, at the second `now`.
    ///
    /// The claims are accepted exactly if both are present and `exp` is not in the past.
    pub fn from_payload(username: Option<String>, exp: Option<u64>, now: u64) -> (verdict: Result<
        Claims,
        AuthError,
    >)
        ensures
            match verdict {
                Ok(claims) => username is Some && exp is Some && claims@.username
                    == username.unwrap()@ && claims@.exp == exp.unwrap() && exp.unwrap() >= now,
                Err(_) => username is None || exp is None || exp.unwrap() < now,
            },
    {
        match (username, exp) {
            (Some(username), Some(exp)) => {
                if exp >= now {
                    Ok(Claims { username, exp })
                } else {
                    Err(AuthError)
                }
            },
            _ => Err(AuthError),
        }
    }

    /// Verifies `token` against `secret` at the second `now`.
    ///
    /// Succeeds exactly if the token decodes under `secret` (see [`token_payload`]) and
    /// [`accepted`] accepts its payload at `now`; the claims are then those of the payload. In
    /// particular a token whose expiry lies before `now` is refused.
    pub fn verify_at(token: &str, secret: &str, now: u64) -> (verdict: Result<Claims, AuthError>)
        ensures
            match verdict {
                Ok(claims) => accepted(token_payload(token@, secret@), now) == Some(claims@),
                Err(_) => accepted(token_payload(token@, secret@), now) is None,
            },
            token_payload(token@, secret@) matches Some((_, Some(exp))) && exp < now
                ==> verdict is Err,
    {
        match decode_claims(token, secret) {
            Ok((username, exp)) => Claims::from_payload(username, exp, now),
            Err(_) => Err(AuthError),
        }
    }

    /// Turns the bearer token of a request, if it has one, into a verified identity.
    ///
    /// A request without a bearer token is refused. One with a token gets the verdict that
    /// [`Claims::verify_at`] gives at the second the clock shows: so a token that does not
    /// decode under `secret`, or lacks a claim, is refused whatever the time, and claims that
    /// are returned are those of the token's payload.
    pub fn from_request_parts(bearer: Option<&str>, secret: &str) -> (verdict: Result<
        Claims,
        AuthError,
    >)
        ensures
            bearer is None ==> verdict is Err,
            bearer is Some ==> exists|now: u64|
                claims_of(verdict) == #[trigger] accepted(
                    token_payload(bearer.unwrap()@, secret@),
                    now,
                ),
    {
        match bearer {
            Some(token) => {
                let now = current_timestamp();
                let verdict = Claims::verify_at(token, secret, now);
                assert(claims_of(verdict) == accepted(token_payload(token@, secret@), now));
                verdict
            },
            None => Err(AuthError),
        }
    }
}

} // verus!
