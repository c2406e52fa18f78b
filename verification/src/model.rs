//! The records that the backend reads, stores and answers with.
use vstd::prelude::*;

verus! {

/// A player's public profile, as cached in the key-value store.
#[derive(Debug, Clone)]
pub struct Profile {
    pub id: String,
    pub name: String,
    pub email: String,
    pub picture: String,
}

/// The claims carried by a session token.
#[derive(Debug)]
pub struct TokenClaims {
    /// The user the token was issued to.
    pub sub: String,
    /// Issued-at time, in seconds since the Unix epoch.
    pub iat: usize,
    /// Expiry time, in seconds since the Unix epoch.
    pub exp: usize,
}

/// The statistics a player submits at the end of a game.
#[derive(Debug)]
pub struct LbData {
    pub accuracy: u32,
    pub highest_earning: u32,
    pub steps: u32,
}

/// The query of the OAuth callback.
#[derive(Debug)]
pub struct QueryCode {
    pub code: String,
}

/// The answer to a request for the logged-in user's profile.
#[derive(Debug)]
pub struct UserResponse {
    pub status: String,
    pub data: Profile,
}

/// One row of the leaderboard as shown to a player.
#[derive(Debug)]
pub struct LbResponse {
    pub rank: u32,
    pub rating: u32,
    pub name: String,
    pub pfp: String,
    pub accuracy: u32,
    pub highscore: u32,
    pub steps: u32,
}

/// A status and a human-readable message.
#[derive(Debug)]
pub struct ResponseMsg {
    pub status: String,
    pub message: String,
}

/// The tokens Google's token endpoint answers an authorization code with.
pub struct OAuthResponse {
    pub access_token: String,
    pub id_token: String,
    pub refresh_token: String,
}

/// The user information Google's userinfo endpoint answers with.
pub struct GoogleUserResult {
    pub id: String,
    pub email: String,
    pub verified_email: bool,
    pub name: String,
    pub given_name: String,
    pub family_name: String,
    pub picture: String,
    pub locale: String,
}

/// Proof that a request carries a valid session: the authenticated user.
pub struct AuthenticationGuard {
    pub user_id: String,
}

/// The HTTP status of an answer.
#[derive(Debug, Clone, Copy, PartialEq, Eq, Structural)]
pub enum HttpStatus {
    Success,
    Found,
    Unauthorized,
    BadGateway,
    InternalServerError,
}

impl Profile {
    /// The profile kept for a Google user: id, name, e-mail and picture.
    pub fn from_google_user(user: &GoogleUserResult) -> (profile: Profile)
        ensures
            profile.id@ == user.id@,
            profile.name@ == user.name@,
            profile.email@ == user.email@,
            profile.picture@ == user.picture@,
    {
        Profile {
            id: user.id.clone(),
            name: user.name.clone(),
            email: user.email.clone(),
            picture: user.picture.clone(),
        }
    }
}

impl ResponseMsg {
    /// A message with the given status and text.
    pub fn new(status: &str, message: &str) -> (msg: ResponseMsg)
        ensures
            msg.status@ == status@,
            msg.message@ == message@,
    {
        ResponseMsg { status: String::from_str(status), message: String::from_str(message) }
    }

    /// The answer to any failure of the key-value store: `error`, `Internal server error`.
    pub fn internal_error() -> (msg: ResponseMsg)
        ensures
            msg.status@ == "error"@,
            msg.message@ == "Internal server error"@,
    {
        ResponseMsg::new("error", "Internal server error")
    }

    /// The answer to a refreshed session: `success`, `Token refreshed`.
    pub fn token_refreshed() -> (msg: ResponseMsg)
        ensures
            msg.status@ == "success"@,
            msg.message@ == "Token refreshed"@,
    {
        ResponseMsg::new("success", "Token refreshed")
    }

    /// The answer of the health check: `success`, `I'm up and running!`.
    pub fn health() -> (msg: ResponseMsg)
        ensures
            msg.status@ == "success"@,
            msg.message@ == "I'm up and running!"@,
    {
        ResponseMsg::new("success", "I'm up and running!")
    }
}

impl UserResponse {
    /// The successful answer carrying `profile`.
    pub fn success(profile: Profile) -> (resp: UserResponse)
        ensures
            resp.status@ == "success"@,
            resp.data == profile,
    {
        UserResponse { status: String::from_str("success"), data: profile }
    }
}

} // verus!
