//! Session tokens: JSON Web Tokens signed with HMAC-SHA256 that name the user
//! they were issued to and when they expire.
use vstd::prelude::*;

use crate::config::AppConfig;
use crate::model::TokenClaims;

verus! {

/// The earliest time `chrono` can represent, in seconds since the Unix epoch
/// (the start of year -262143).
pub const MIN_UTC_TIMESTAMP: i64 = -8334601228800;

/// The latest second `chrono` can represent, in seconds since the Unix epoch
/// (the last second of year 262142).
pub const MAX_UTC_TIMESTAMP: i64 = 8210266876799;

/// The longest span `chrono` can represent, in whole seconds (`i64::MAX` milliseconds).
pub const MAX_SPAN_SECONDS: i64 = 9223372036854775;

/// The expiry `lifetime` seconds after `now`: `now` moved by that many seconds,
/// when the span and the moved time are representable (adding a
/// `chrono::TimeDelta` of `lifetime` seconds to a `chrono::DateTime<Utc>` and
/// reading its timestamp).
pub open spec fn expiry_spec(now: int, lifetime: int) -> Option<int> {
    if -MAX_SPAN_SECONDS <= lifetime <= MAX_SPAN_SECONDS && MIN_UTC_TIMESTAMP <= now + lifetime
        <= MAX_UTC_TIMESTAMP {
        Some(now + lifetime)
    } else {
        None
    }
}

/// Whether `t` is a time `chrono` can represent.
pub open spec fn representable(t: int) -> bool {
    MIN_UTC_TIMESTAMP <= t <= MAX_UTC_TIMESTAMP
}

/// The compact serialization of the JWT with the default header (`HS256`) and the
/// claims object `{"sub": sub, "iat": iat, "exp": exp}`, signed with `secret`.
pub uninterp spec fn hs256_token(sub: Seq<char>, iat: usize, exp: usize, secret: Seq<char>) -> Seq<char>;

/// The claims `(sub, iat, exp)` that `token` carries when it is a compact JWT
/// whose header names `HS256`, whose HS256 signature verifies under `secret`, and
/// whose claims object has a string member `sub`, no `aud` member, and members
/// `iat` and `exp` that are non-negative integers fitting a `usize` (a member given
/// more than once counts with its last value); `None` otherwise. It does not depend
/// on the time: whether the token has expired is decided apart from it.
pub uninterp spec fn hs256_claims(token: Seq<char>, secret: Seq<char>) -> Option<(Seq<char>, usize, usize)>;

/// The token issued at `now` to `user`, valid for `lifetime` seconds.
pub open spec fn session_token(user: Seq<char>, now: int, lifetime: int, secret: Seq<char>) -> Seq<char> {
    hs256_token(user, now as usize, (now + lifetime) as usize, secret)
}

/// Calls `chrono::Utc::now()` and reads its whole seconds with `timestamp()`. The
/// current time depends on the clock, so nothing more is stated than that it is a
/// time chrono represents and not before the Unix epoch: `Utc::now` takes
/// `SystemTime::now().duration_since(UNIX_EPOCH)` with an `expect` (it panics on a
/// clock set before 1970), converts its seconds with `as i64` and builds the value
/// with `DateTime::from_timestamp(..).unwrap()`, which only succeeds within chrono's
/// range.
#[verifier::external_body]
pub(crate) fn utc_now_timestamp() -> (t: i64)
    ensures
        0 <= t <= MAX_UTC_TIMESTAMP,
{
    chrono::Utc::now().timestamp()
}

#[verifier::external_type_specification]
#[verifier::external_body]
pub struct ExJwtError(jsonwebtoken::errors::Error);

/// Calls `jsonwebtoken::encode` with `Header::default()` (algorithm `HS256`), the
/// claims as a JSON object with the members `sub`, `iat` and `exp` in that order,
/// and `EncodingKey::from_secret` of the secret's bytes. The token is named
/// `hs256_token`. The call cannot fail for these arguments, as its source shows:
/// the key's family (HMAC) matches the header's algorithm, a JSON object with
/// string keys always serializes, and HMAC signing always succeeds. The token it
/// makes carries these claims under the same secret (`hs256_claims`): its HS256
/// signature verifies under that secret, and `sub` comes back as the string and
/// `iat` and `exp` as the integers that were serialized.
#[verifier::external_body]
fn encode_hs256(claims: &TokenClaims, secret: &str) -> (r: Result<String, jsonwebtoken::errors::Error>)
    ensures
        r is Ok,
        r->Ok_0@ == hs256_token(claims.sub@, claims.iat, claims.exp, secret@),
        hs256_claims(r->Ok_0@, secret@) == Some((claims.sub@, claims.iat, claims.exp)),
{
    let mut object = serde_json::Map::new();
    object.insert(String::from("sub"), serde_json::Value::from(claims.sub.as_str()));
    object.insert(String::from("iat"), serde_json::Value::from(claims.iat));
    object.insert(String::from("exp"), serde_json::Value::from(claims.exp));
    let key = jsonwebtoken::EncodingKey::from_secret(secret.as_bytes());
    jsonwebtoken::encode(&jsonwebtoken::Header::default(), &serde_json::Value::Object(object), &key)
}

/// Calls `jsonwebtoken::decode` with `DecodingKey::from_secret` of the secret's
/// bytes and `Validation::new(Algorithm::HS256)` with its check of `exp` against
/// the clock turned off (`exp` is still required), reading the claims as a JSON
/// value and taking its members `sub` (a string), `iat` and `exp` (non-negative
/// integers, converted to `usize`). With the clock out of the validation the
/// outcome depends on the token and the secret alone: it is what `hs256_claims`
/// names.
#[verifier::external_body]
pub(crate) fn decode_hs256(token: &str, secret: &str) -> (c: Option<TokenClaims>)
    ensures
        c is Some ==> hs256_claims(token@, secret@) == Some((c->Some_0.sub@, c->Some_0.iat, c->Some_0.exp)),
        c is None ==> hs256_claims(token@, secret@) is None,
{
    let key = jsonwebtoken::DecodingKey::from_secret(secret.as_bytes());
    let mut validation = jsonwebtoken::Validation::new(jsonwebtoken::Algorithm::HS256);
    validation.validate_exp = false;
    let claims = jsonwebtoken::decode::<serde_json::Value>(token, &key, &validation).ok()?.claims;
    let sub = claims.get("sub")?.as_str()?.to_string();
    let iat = usize::try_from(claims.get("iat")?.as_u64()?).ok()?;
    let exp = usize::try_from(claims.get("exp")?.as_u64()?).ok()?;
    Some(TokenClaims { sub, iat, exp })
}

/// The leeway, in seconds, that a token's expiry is given against the clock
/// (jsonwebtoken's default).
pub const EXPIRY_LEEWAY: i64 = 60;

/// Whether a token expiring at `exp` is still accepted at time `now`: it is
/// rejected once `exp` lies more than the leeway before `now`.
pub open spec fn token_live(exp: usize, now: int) -> bool {
    !(exp < now - EXPIRY_LEEWAY)
}

/// Whether a token expiring at `exp` is still accepted at time `now`.
pub fn token_live_at(exp: usize, now: i64) -> (live: bool)
    ensures
        live == token_live(exp, now as int),
{
    !((exp as i128) < (now as i128) - (EXPIRY_LEEWAY as i128))
}

/// The expiry `lifetime` seconds after `now`, or `None` where chrono cannot
/// represent it.
pub fn checked_expiry(now: i64, lifetime: i64) -> (r: Option<i64>)
    requires
        representable(now as int),
    ensures
        match r {
            Some(e) => expiry_spec(now as int, lifetime as int) == Some(e as int),
            None => expiry_spec(now as int, lifetime as int) is None,
        },
{
    if lifetime < -MAX_SPAN_SECONDS || lifetime > MAX_SPAN_SECONDS {
        return None;
    }
    let expiry = now as i128 + lifetime as i128;
    if expiry < MIN_UTC_TIMESTAMP as i128 || expiry > MAX_UTC_TIMESTAMP as i128 {
        return None;
    }
    Some(expiry as i64)
}

/// The claims of a token issued to `user_id` at `now` that expires `lifetime`
/// seconds later.
pub fn token_claims(user_id: String, now: i64, lifetime: i64) -> (claims: TokenClaims)
    requires
        representable(now as int),
        expiry_spec(now as int, lifetime as int) is Some,
    ensures
        claims.sub == user_id,
        claims.iat == now as usize,
        claims.exp == (now + lifetime) as usize,
{
    let expiry = checked_expiry(now, lifetime);
    let exp = match expiry {
        Some(e) => e,
        None => now,
    };
    TokenClaims { sub: user_id, iat: now as usize, exp: exp as usize }
}

/// The session token issued at `now` to `user`, when its expiry is representable.
pub open spec fn issued_token(user: Seq<char>, now: int, lifetime: int, secret: Seq<char>) -> Option<Seq<char>> {
    match expiry_spec(now, lifetime) {
        Some(_) => Some(session_token(user, now, lifetime, secret)),
        None => None,
    }
}

/// The session token for `user_id` issued at `now`, valid for the configured
/// session lifetime. It carries its own claims under the configured secret.
pub fn gen_jwt_token_at(user_id: String, now: i64, config: &AppConfig) -> (token: String)
    requires
        representable(now as int),
        expiry_spec(now as int, config.jwt_max_age as int) is Some,
    ensures
        token@ == session_token(user_id@, now as int, config.jwt_max_age as int, config.jwt_secret@),
        hs256_claims(token@, config.jwt_secret@) == Some(
            (user_id@, now as usize, (now + config.jwt_max_age) as usize),
        ),
{
    let claims = token_claims(user_id, now, config.jwt_max_age);
    match encode_hs256(&claims, config.jwt_secret.as_str()) {
        Ok(token) => token,
        Err(_) => {
            proof {
                assert(false);
            }
            String::new()
        },
    }
}

/// The session token for `user_id` issued at `now`; `None` where its expiry lies
/// beyond the times chrono can represent.
pub fn gen_jwt_token_checked(user_id: String, now: i64, config: &AppConfig) -> (token: Option<String>)
    requires
        representable(now as int),
    ensures
        match issued_token(user_id@, now as int, config.jwt_max_age as int, config.jwt_secret@) {
            Some(t) => token matches Some(x) && x@ == t,
            None => token is None,
        },
        token matches Some(x) ==> hs256_claims(x@, config.jwt_secret@) == Some(
            (user_id@, now as usize, (now + config.jwt_max_age) as usize),
        ),
{
    match checked_expiry(now, config.jwt_max_age) {
        Some(_) => Some(gen_jwt_token_at(user_id, now, config)),
        None => None,
    }
}

/// Generates the session token for `user_id` at the current time: the token
/// `gen_jwt_token_checked` gives for the time the clock reads, a time after the
/// epoch that chrono represents.
pub fn gen_jwt_token(user_id: String, config: &AppConfig) -> (token: Option<String>)
    ensures
        exists|now: int|
            #![trigger issued_token(user_id@, now, config.jwt_max_age as int, config.jwt_secret@)]
            0 <= now <= MAX_UTC_TIMESTAMP && match issued_token(
                user_id@,
                now,
                config.jwt_max_age as int,
                config.jwt_secret@,
            ) {
                Some(t) => token matches Some(x) && x@ == t && hs256_claims(x@, config.jwt_secret@)
                    == Some((user_id@, now as usize, (now + config.jwt_max_age) as usize)),
                None => token is None,
            },
{
    let now = utc_now_timestamp();
    let token = gen_jwt_token_checked(user_id, now, config);
    assert(0 <= now as int <= MAX_UTC_TIMESTAMP && match issued_token(
        user_id@,
        now as int,
        config.jwt_max_age as int,
        config.jwt_secret@,
    ) {
        Some(t) => token matches Some(x) && x@ == t && hs256_claims(x@, config.jwt_secret@) == Some(
            (user_id@, now as usize, (now + config.jwt_max_age) as usize),
        ),
        None => token is None,
    });
    token
}

/// A session token lives exactly the configured lifetime: issued at a time after
/// the epoch, its expiry lies `lifetime` seconds after its issue time (so after it,
/// for a positive lifetime),
/// and it names the user it was issued to.
pub proof fn lemma_token_lifetime(user: Seq<char>, now: int, lifetime: int, secret: Seq<char>)
    requires
        0 <= now,
        0 <= lifetime,
        expiry_spec(now, lifetime) is Some,
        now + lifetime <= usize::MAX,
    ensures
        session_token(user, now, lifetime, secret) == hs256_token(user, now as usize, (now + lifetime) as usize, secret),
        expiry_spec(now, lifetime) == Some(now + lifetime),
        ((now + lifetime) as usize) - (now as usize) == lifetime,
        lifetime > 0 ==> (now + lifetime) as usize > now as usize,
{
}

} // verus!
