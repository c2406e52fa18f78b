//! Authentication of requests: where the session token is found, and the
//! decisions that turn it into an authenticated user.
//!
//! Checking a token involves the key-value store and Google's OAuth service.
//! The decisions are a state machine: [`auth_step`] takes the current state and
//! what the last action produced, and returns the next state and action. The
//! caller performs each action and reports its outcome as the next event.
use vstd::prelude::*;

use crate::keys::{profile_key, profile_prefix, user_key, user_prefix};
use crate::model::{AuthenticationGuard, GoogleUserResult, Profile, ResponseMsg, TokenClaims};
use crate::token::{
    decode_hs256, hs256_claims, token_live, token_live_at, utc_now_timestamp, MAX_UTC_TIMESTAMP,
};

verus! {

/// The session token a request carries: the `token` cookie if present, else the
/// `Authorization` header without its first seven characters.
pub open spec fn presented_token(cookie: Option<String>, authorization: Option<String>) -> Option<Seq<char>> {
    match cookie {
        Some(c) => Some(c@),
        None => match authorization {
            Some(h) => Some(h@.skip(7)),
            None => None,
        },
    }
}

/// Whether the header of a request without a token cookie can be read as a
/// bearer token: ASCII and at least seven characters long.
pub open spec fn header_readable(cookie: Option<String>, authorization: Option<String>) -> bool {
    cookie is None && authorization is Some ==> authorization->Some_0@.len() >= 7
        && authorization->Some_0.is_ascii()
}

/// The session token of a request: the `token` cookie if present, else the
/// `Authorization` header without its first seven characters (`Bearer `).
pub fn extract_token(cookie: Option<String>, authorization: Option<String>) -> (token: Option<String>)
    requires
        header_readable(cookie, authorization),
    ensures
        token matches Some(t) ==> presented_token(cookie, authorization) == Some(t@),
        token is None ==> presented_token(cookie, authorization) is None,
        match cookie {
            Some(c) => token == Some(c),
            None => match authorization {
                Some(h) => token is Some && token->Some_0@ == h@.skip(7),
                None => token is None,
            },
        },
{
    match cookie {
        Some(c) => Some(c),
        None => match authorization {
            Some(h) => {
                let header = h.as_str();
                let rest = header.substring_ascii(7, header.unicode_len());
                assert(rest@ =~= h@.skip(7));
                Some(String::from_str(rest))
            },
            None => None,
        },
    }
}

/// Where a request's authentication stands.
pub enum AuthState {
    /// Nothing has been looked at yet.
    AwaitingToken,
    /// A token was found and is being decoded.
    AwaitingClaims,
    /// The token names `user_id`; is their profile cached?
    CheckingProfile { user_id: String },
    /// The profile is not cached; the user's refresh token is being read.
    FetchingRefreshToken { user_id: String },
    /// A fresh access token is being requested from Google.
    RequestingAccessToken { user_id: String },
    /// The user's information is being fetched from Google.
    FetchingUser { user_id: String },
    /// The user's profile is being cached again.
    StoringProfile { user_id: String },
    /// The request has been accepted or rejected.
    Done,
}

/// The outcome of the last action.
pub enum AuthEvent {
    /// The token of the request, if it carries one.
    Token(Option<String>),
    /// The claims of the token if it decoded and validated (HS256 signature with
    /// the configured secret) and has not expired.
    Claims(Option<TokenClaims>),
    /// Whether the user's profile is cached.
    ProfileCached(bool),
    /// The user's stored refresh token, if it could be read.
    RefreshToken(Option<String>),
    /// A fresh access token, if Google issued one.
    AccessToken(Option<String>),
    /// The user's information, if Google returned it.
    GoogleUser(Option<GoogleUserResult>),
    /// The profile has been written to the cache.
    ProfileStored,
}

/// What to do next.
pub enum AuthAction {
    /// Decode and validate this token.
    DecodeToken { token: String },
    /// Check whether this key exists.
    CheckProfile { key: String },
    /// Read this field of this hash.
    FetchRefreshToken { key: String, field: String },
    /// Exchange this refresh token for an access token.
    RequestAccessToken { refresh_token: String },
    /// Fetch the user's information with these tokens.
    FetchGoogleUser { access_token: String, id_token: String },
    /// Cache this profile.
    StoreProfile { profile: Profile },
    /// Let the request through for this user.
    Accept(AuthenticationGuard),
    /// Answer `401 Unauthorized` with this message.
    Reject(ResponseMsg),
}

/// Rejection of a request without a token.
pub open spec fn not_logged_in_message() -> Seq<char> {
    "You are not logged in, please provide token"@
}

/// Rejection of a token that does not decode or validate.
pub open spec fn invalid_token_message() -> Seq<char> {
    "Invalid token or user doesn't exists"@
}

/// Rejection when the refresh token cannot be read.
pub open spec fn no_refresh_token_message() -> Seq<char> {
    "Failed to retrieve refresh token"@
}

/// Rejection when Google issues no access token.
pub open spec fn no_access_token_message() -> Seq<char> {
    "Failed to retrieve access token"@
}

/// Rejection when Google returns no user information.
pub open spec fn no_user_data_message() -> Seq<char> {
    "Failed to retrieve user data"@
}

/// Whether `action` rejects the request with status `fail` and `message`.
pub open spec fn rejects_with(action: AuthAction, message: Seq<char>) -> bool {
    action matches AuthAction::Reject(m) && m.status@ == "fail"@ && m.message@ == message
}

/// Whether `action` accepts the request for `user`.
pub open spec fn accepts(action: AuthAction, user: Seq<char>) -> bool {
    action matches AuthAction::Accept(g) && g.user_id@ == user
}

/// The user a state is about, if any.
pub open spec fn state_user(state: AuthState) -> Option<Seq<char>> {
    match state {
        AuthState::CheckingProfile { user_id } => Some(user_id@),
        AuthState::FetchingRefreshToken { user_id } => Some(user_id@),
        AuthState::RequestingAccessToken { user_id } => Some(user_id@),
        AuthState::FetchingUser { user_id } => Some(user_id@),
        AuthState::StoringProfile { user_id } => Some(user_id@),
        _ => None,
    }
}

/// The position of a state in the flow.
pub open spec fn stage(state: AuthState) -> nat {
    match state {
        AuthState::AwaitingToken => 0,
        AuthState::AwaitingClaims => 1,
        AuthState::CheckingProfile { .. } => 2,
        AuthState::FetchingRefreshToken { .. } => 3,
        AuthState::RequestingAccessToken { .. } => 4,
        AuthState::FetchingUser { .. } => 5,
        AuthState::StoringProfile { .. } => 6,
        AuthState::Done => 7,
    }
}

/// Whether `event` is the outcome of the action a state waits for.
pub open spec fn event_fits(state: AuthState, event: AuthEvent) -> bool {
    match state {
        AuthState::AwaitingToken => event is Token,
        AuthState::AwaitingClaims => event is Claims,
        AuthState::CheckingProfile { .. } => event is ProfileCached,
        AuthState::FetchingRefreshToken { .. } => event is RefreshToken,
        AuthState::RequestingAccessToken { .. } => event is AccessToken,
        AuthState::FetchingUser { .. } => event is GoogleUser,
        AuthState::StoringProfile { .. } => event is ProfileStored,
        AuthState::Done => false,
    }
}

/// One step of the authentication of a request.
pub open spec fn auth_transition(state: AuthState, event: AuthEvent, next: AuthState, action: AuthAction) -> bool {
    match state {
        AuthState::AwaitingToken => match event {
            AuthEvent::Token(None) => {
                &&& next is Done
                &&& rejects_with(action, not_logged_in_message())
            },
            AuthEvent::Token(Some(t)) => {
                &&& next is AwaitingClaims
                &&& action matches AuthAction::DecodeToken { token }
                &&& token@ == t@
            },
            _ => false,
        },
        AuthState::AwaitingClaims => match event {
            AuthEvent::Claims(None) => {
                &&& next is Done
                &&& rejects_with(action, invalid_token_message())
            },
            AuthEvent::Claims(Some(c)) => {
                &&& next matches AuthState::CheckingProfile { user_id }
                &&& user_id@ == c.sub@
                &&& action matches AuthAction::CheckProfile { key }
                &&& key@ == profile_prefix() + c.sub@
            },
            _ => false,
        },
        AuthState::CheckingProfile { user_id } => match event {
            AuthEvent::ProfileCached(true) => {
                &&& next is Done
                &&& accepts(action, user_id@)
            },
            AuthEvent::ProfileCached(false) => {
                &&& next matches AuthState::FetchingRefreshToken { user_id: u }
                &&& u@ == user_id@
                &&& action matches AuthAction::FetchRefreshToken { key, field }
                &&& key@ == user_prefix() + user_id@
                &&& field@ == "refresh_token"@
            },
            _ => false,
        },
        AuthState::FetchingRefreshToken { user_id } => match event {
            AuthEvent::RefreshToken(None) => {
                &&& next is Done
                &&& rejects_with(action, no_refresh_token_message())
            },
            AuthEvent::RefreshToken(Some(r)) => {
                &&& next matches AuthState::RequestingAccessToken { user_id: u }
                &&& u@ == user_id@
                &&& action matches AuthAction::RequestAccessToken { refresh_token }
                &&& refresh_token@ == r@
            },
            _ => false,
        },
        AuthState::RequestingAccessToken { user_id } => match event {
            AuthEvent::AccessToken(None) => {
                &&& next is Done
                &&& rejects_with(action, no_access_token_message())
            },
            AuthEvent::AccessToken(Some(a)) => {
                &&& next matches AuthState::FetchingUser { user_id: u }
                &&& u@ == user_id@
                &&& action matches AuthAction::FetchGoogleUser { access_token, id_token }
                &&& access_token@ == a@
                &&& id_token@ == a@
            },
            _ => false,
        },
        AuthState::FetchingUser { user_id } => match event {
            AuthEvent::GoogleUser(None) => {
                &&& next is Done
                &&& rejects_with(action, no_user_data_message())
            },
            AuthEvent::GoogleUser(Some(g)) => {
                &&& next matches AuthState::StoringProfile { user_id: u }
                &&& u@ == user_id@
                &&& action matches AuthAction::StoreProfile { profile }
                &&& profile.id@ == g.id@
                &&& profile.name@ == g.name@
                &&& profile.email@ == g.email@
                &&& profile.picture@ == g.picture@
            },
            _ => false,
        },
        AuthState::StoringProfile { user_id } => match event {
            AuthEvent::ProfileStored => {
                &&& next is Done
                &&& accepts(action, user_id@)
            },
            _ => false,
        },
        AuthState::Done => false,
    }
}

fn reject(message: &str) -> (action: AuthAction)
    ensures
        rejects_with(action, message@),
{
    AuthAction::Reject(ResponseMsg::new("fail", message))
}

fn accept(user_id: String) -> (action: AuthAction)
    ensures
        accepts(action, user_id@),
{
    AuthAction::Accept(AuthenticationGuard { user_id })
}

/// Decides the next step of the authentication of a request.
pub fn auth_step(state: AuthState, event: AuthEvent) -> (step: (AuthState, AuthAction))
    requires
        event_fits(state, event),
    ensures
        auth_transition(state, event, step.0, step.1),
{
    match (state, event) {
        (AuthState::AwaitingToken, AuthEvent::Token(None)) => (
            AuthState::Done,
            reject("You are not logged in, please provide token"),
        ),
        (AuthState::AwaitingToken, AuthEvent::Token(Some(token))) => (
            AuthState::AwaitingClaims,
            AuthAction::DecodeToken { token },
        ),
        (AuthState::AwaitingClaims, AuthEvent::Claims(None)) => (
            AuthState::Done,
            reject("Invalid token or user doesn't exists"),
        ),
        (AuthState::AwaitingClaims, AuthEvent::Claims(Some(claims))) => {
            let key = profile_key(claims.sub.as_str());
            (AuthState::CheckingProfile { user_id: claims.sub }, AuthAction::CheckProfile { key })
        },
        (AuthState::CheckingProfile { user_id }, AuthEvent::ProfileCached(true)) => (
            AuthState::Done,
            accept(user_id),
        ),
        (AuthState::CheckingProfile { user_id }, AuthEvent::ProfileCached(false)) => {
            let key = user_key(user_id.as_str());
            let field = String::from_str("refresh_token");
            (AuthState::FetchingRefreshToken { user_id }, AuthAction::FetchRefreshToken { key, field })
        },
        (AuthState::FetchingRefreshToken { .. }, AuthEvent::RefreshToken(None)) => (
            AuthState::Done,
            reject("Failed to retrieve refresh token"),
        ),
        (AuthState::FetchingRefreshToken { user_id }, AuthEvent::RefreshToken(Some(refresh_token))) => (
            AuthState::RequestingAccessToken { user_id },
            AuthAction::RequestAccessToken { refresh_token },
        ),
        (AuthState::RequestingAccessToken { .. }, AuthEvent::AccessToken(None)) => (
            AuthState::Done,
            reject("Failed to retrieve access token"),
        ),
        (AuthState::RequestingAccessToken { user_id }, AuthEvent::AccessToken(Some(access_token))) => {
            let id_token = access_token.clone();
            (AuthState::FetchingUser { user_id }, AuthAction::FetchGoogleUser { access_token, id_token })
        },
        (AuthState::FetchingUser { .. }, AuthEvent::GoogleUser(None)) => (
            AuthState::Done,
            reject("Failed to retrieve user data"),
        ),
        (AuthState::FetchingUser { user_id }, AuthEvent::GoogleUser(Some(user))) => {
            let profile = Profile::from_google_user(&user);
            (AuthState::StoringProfile { user_id }, AuthAction::StoreProfile { profile })
        },
        (AuthState::StoringProfile { user_id }, _) => (AuthState::Done, accept(user_id)),
        // Every other pairing is excluded by the precondition.
        (_, _) => (AuthState::Done, reject("Invalid token or user doesn't exists")),
    }
}

/// A request is only ever accepted for the user its token names: an accepting
/// step comes from a state about that user.
pub proof fn lemma_accepts_only_token_user(state: AuthState, event: AuthEvent, next: AuthState, action: AuthAction)
    requires
        auth_transition(state, event, next, action),
        action is Accept,
    ensures
        state_user(state) is Some,
        accepts(action, state_user(state)->Some_0),
        next is Done,
{
}

/// The user is fixed by the token: a step keeps the user of the state, except the
/// step that decodes the token, which takes the user from its `sub` claim.
pub proof fn lemma_user_fixed_by_token(state: AuthState, event: AuthEvent, next: AuthState, action: AuthAction)
    requires
        auth_transition(state, event, next, action),
        state_user(next) is Some,
    ensures
        ({
            ||| state_user(next) == state_user(state)
            ||| {
                &&& state is AwaitingClaims
                &&& event matches AuthEvent::Claims(Some(c))
                &&& state_user(next) == Some(c.sub@)
            }
        }),
{
}

/// The refresh through Google is only attempted when the profile is not cached.
pub proof fn lemma_refresh_only_when_uncached(state: AuthState, event: AuthEvent, next: AuthState, action: AuthAction)
    requires
        auth_transition(state, event, next, action),
        action is FetchRefreshToken,
    ensures
        state is CheckingProfile,
        event == AuthEvent::ProfileCached(false),
{
}

/// Every rejection answers with status `fail` and ends the flow; every step moves
/// the flow forward, so it ends after at most seven steps.
pub proof fn lemma_flow_advances(state: AuthState, event: AuthEvent, next: AuthState, action: AuthAction)
    requires
        auth_transition(state, event, next, action),
    ensures
        stage(next) > stage(state),
        action matches AuthAction::Reject(m) ==> m.status@ == "fail"@ && next is Done,
{
}

/// A run of the authentication from its start: `states[i]` goes to
/// `states[i + 1]` on `events[i]` with `actions[i]`.
pub open spec fn is_run(states: Seq<AuthState>, events: Seq<AuthEvent>, actions: Seq<AuthAction>) -> bool {
    &&& events.len() == actions.len()
    &&& states.len() == events.len() + 1
    &&& states[0] is AwaitingToken
    &&& forall|i: int| 0 <= i < events.len() ==> #[trigger] step_at(states, events, actions, i)
}

/// Step `i` of a run follows the transition relation.
pub open spec fn step_at(states: Seq<AuthState>, events: Seq<AuthEvent>, actions: Seq<AuthAction>, i: int) -> bool {
    auth_transition(states[i], events[i], states[i + 1], actions[i])
}

proof fn lemma_run_keeps_user(
    states: Seq<AuthState>,
    events: Seq<AuthEvent>,
    actions: Seq<AuthAction>,
    user: Seq<char>,
    i: int,
)
    requires
        is_run(states, events, actions),
        events.len() > 2,
        state_user(states[2]) == Some(user),
        2 <= i < events.len(),
    ensures
        state_user(states[i]) == Some(user),
    decreases i,
{
    if i > 2 {
        lemma_run_keeps_user(states, events, actions, user, i - 1);
        assert(step_at(states, events, actions, i - 1));
        assert(step_at(states, events, actions, i));
        assert(!(states[i] is Done));
        lemma_user_fixed_by_token(states[i - 1], events[i - 1], states[i], actions[i - 1]);
    }
}

/// A request is let through only for the user named by a token that was found and
/// that decoded and validated: in every run that ends by accepting, the first event
/// is a token, the second the token's claims, and the accepted user is the `sub` of
/// those claims.
pub proof fn lemma_accepted_user_is_token_subject(
    states: Seq<AuthState>,
    events: Seq<AuthEvent>,
    actions: Seq<AuthAction>,
)
    requires
        is_run(states, events, actions),
        events.len() > 0,
        actions.last() is Accept,
    ensures
        events.len() >= 3,
        events[0] matches AuthEvent::Token(Some(_)),
        events[1] matches AuthEvent::Claims(Some(c)) && accepts(actions.last(), c.sub@),
{
    let n = events.len() as int;
    assert(step_at(states, events, actions, 0));
    if n == 1 {
        assert(false);
    }
    if n > 1 {
        assert(step_at(states, events, actions, 1));
    }
    if n == 2 {
        assert(false);
    }
    assert(step_at(states, events, actions, 2));
    assert(!(states[1] is Done));
    assert(states[1] is AwaitingClaims);
    assert(!(states[2] is Done));
    assert(events[1] matches AuthEvent::Claims(Some(_)));
    let c = events[1]->Claims_0->Some_0;
    assert(state_user(states[2]) == Some(c.sub@));
    lemma_run_keeps_user(states, events, actions, c.sub@, n - 1);
    assert(step_at(states, events, actions, n - 1));
}

/// The first two steps of authenticating a request at time `now`: no token is
/// refused as not logged in; a token whose claims verify under `secret` and which
/// has not expired moves on to checking the profile of its `sub`; any other token
/// is refused as invalid.
pub open spec fn authenticated_at(
    cookie: Option<String>,
    authorization: Option<String>,
    secret: Seq<char>,
    now: int,
    step: (AuthState, AuthAction),
) -> bool {
    match presented_token(cookie, authorization) {
        None => auth_transition(AuthState::AwaitingToken, AuthEvent::Token(None), step.0, step.1),
        Some(t) => match hs256_claims(t, secret) {
            Some(c) => if token_live(c.2, now) {
                checks_profile_of(step, c.0)
            } else {
                rejects_token(step)
            },
            None => rejects_token(step),
        },
    }
}

/// Whether `step` moves on to checking the cached profile of `user`.
pub open spec fn checks_profile_of(step: (AuthState, AuthAction), user: Seq<char>) -> bool {
    &&& step.0 matches AuthState::CheckingProfile { user_id }
    &&& user_id@ == user
    &&& step.1 matches AuthAction::CheckProfile { key }
    &&& key@ == profile_prefix() + user
}

/// Whether `step` refuses the request's token as invalid.
pub open spec fn rejects_token(step: (AuthState, AuthAction)) -> bool {
    &&& step.0 is Done
    &&& rejects_with(step.1, invalid_token_message())
}

/// The first two steps of authenticating a request at time `now`: finds the token,
/// verifies it under `secret` and checks its expiry against `now`.
pub fn authenticate_token_at(
    cookie: Option<String>,
    authorization: Option<String>,
    secret: &str,
    now: i64,
) -> (step: (AuthState, AuthAction))
    requires
        header_readable(cookie, authorization),
    ensures
        authenticated_at(cookie, authorization, secret@, now as int, step),
{
    let token = extract_token(cookie, authorization);
    let (state, action) = auth_step(AuthState::AwaitingToken, AuthEvent::Token(token));
    match action {
        AuthAction::DecodeToken { token } => {
            let claims = match decode_hs256(token.as_str(), secret) {
                Some(c) => if token_live_at(c.exp, now) {
                    Some(c)
                } else {
                    None
                },
                None => None,
            };
            auth_step(state, AuthEvent::Claims(claims))
        },
        _ => (state, action),
    }
}

/// The first two steps of authenticating a request: finds the token, verifies it
/// under `secret` and checks its expiry against the clock.
pub fn authenticate_token(cookie: Option<String>, authorization: Option<String>, secret: &str) -> (step: (AuthState, AuthAction))
    requires
        header_readable(cookie, authorization),
    ensures
        presented_token(cookie, authorization) is None ==> auth_transition(
            AuthState::AwaitingToken,
            AuthEvent::Token(None),
            step.0,
            step.1,
        ),
        presented_token(cookie, authorization) matches Some(t) ==> {
            ||| {
                &&& step.0 is Done
                &&& rejects_with(step.1, invalid_token_message())
            }
            ||| {
                &&& step.0 matches AuthState::CheckingProfile { user_id }
                &&& step.1 matches AuthAction::CheckProfile { key }
                &&& key@ == profile_prefix() + user_id@
                &&& hs256_claims(t, secret@) matches Some(c) && c.0 == user_id@
            }
        },
        presented_token(cookie, authorization) matches Some(t) && hs256_claims(t, secret@) is None ==> {
            &&& step.0 is Done
            &&& rejects_with(step.1, invalid_token_message())
        },
        exists|now: int|
            #![trigger authenticated_at(cookie, authorization, secret@, now, step)]
            0 <= now <= MAX_UTC_TIMESTAMP && authenticated_at(cookie, authorization, secret@, now, step),
{
    let now = utc_now_timestamp();
    let step = authenticate_token_at(cookie, authorization, secret, now);
    assert(authenticated_at(cookie, authorization, secret@, now as int, step));
    step
}

/// A token issued at `issued` to `user` for `lifetime` seconds (its claims name
/// `user`, `issued` and `issued + lifetime`) lets a request carrying it move on
/// to checking `user`'s profile at any time from its issue until the leeway after
/// its expiry has passed, and it is refused as invalid from then on.
pub proof fn lemma_issued_token_accepted_until_expiry(
    cookie: Option<String>,
    authorization: Option<String>,
    secret: Seq<char>,
    user: Seq<char>,
    issued: int,
    lifetime: int,
    now: int,
    step: (AuthState, AuthAction),
)
    requires
        0 <= issued,
        0 <= lifetime,
        issued + lifetime <= usize::MAX,
        presented_token(cookie, authorization) matches Some(t) && hs256_claims(t, secret) == Some(
            (user, issued as usize, (issued + lifetime) as usize),
        ),
        authenticated_at(cookie, authorization, secret, now, step),
    ensures
        issued <= now <= issued + lifetime + 60 ==> {
            &&& step.0 matches AuthState::CheckingProfile { user_id }
            &&& user_id@ == user
            &&& step.1 matches AuthAction::CheckProfile { key }
            &&& key@ == profile_prefix() + user
        },
        now > issued + lifetime + 60 ==> {
            &&& step.0 is Done
            &&& step.1 matches AuthAction::Reject(m)
            &&& m.status@ == "fail"@
            &&& m.message@ == "Invalid token or user doesn't exists"@
        },
{
}

/// Steps that follow the transition relation: `states[i]` goes to `states[i + 1]`
/// on `events[i]` with `actions[i]`.
pub open spec fn steps_follow(states: Seq<AuthState>, events: Seq<AuthEvent>, actions: Seq<AuthAction>) -> bool {
    &&& events.len() == actions.len()
    &&& states.len() == events.len() + 1
    &&& forall|i: int| 0 <= i < events.len() ==> #[trigger] step_at(states, events, actions, i)
}

proof fn lemma_steps_keep_user(
    states: Seq<AuthState>,
    events: Seq<AuthEvent>,
    actions: Seq<AuthAction>,
    user: Seq<char>,
    i: int,
)
    requires
        steps_follow(states, events, actions),
        state_user(states[0]) == Some(user),
        0 <= i < events.len(),
    ensures
        state_user(states[i]) == Some(user),
    decreases i,
{
    if i > 0 {
        lemma_steps_keep_user(states, events, actions, user, i - 1);
        assert(step_at(states, events, actions, i - 1));
        assert(step_at(states, events, actions, i));
        assert(!(states[i] is Done));
        lemma_user_fixed_by_token(states[i - 1], events[i - 1], states[i], actions[i - 1]);
    }
}

/// A request is let through only for the user named by a token that verified
/// under the server's secret: once `authenticate_token` has moved to checking the
/// profile of `user`, every later acceptance is for `user`, and `user` is the `sub`
/// of the verified token.
pub proof fn lemma_accepted_user_holds_verified_token(
    token: Seq<char>,
    secret: Seq<char>,
    states: Seq<AuthState>,
    events: Seq<AuthEvent>,
    actions: Seq<AuthAction>,
)
    requires
        states.len() > 0,
        states[0] matches AuthState::CheckingProfile { user_id } && hs256_claims(token, secret) matches Some(
            c,
        ) && c.0 == user_id@,
        steps_follow(states, events, actions),
        events.len() > 0,
        actions.last() is Accept,
    ensures
        hs256_claims(token, secret) matches Some(c) && accepts(actions.last(), c.0),
{
    let n = events.len() as int;
    let u = state_user(states[0])->Some_0;
    lemma_steps_keep_user(states, events, actions, u, n - 1);
    assert(step_at(states, events, actions, n - 1));
}

/// A token the server issued to `user` (one whose claims name `user`) lets a
/// request through only for `user`: once `authenticate_token` has moved on with it
/// to checking a profile, every later acceptance is for `user`.
pub proof fn lemma_issued_token_admits_only_its_user(
    token: Seq<char>,
    secret: Seq<char>,
    user: Seq<char>,
    iat: usize,
    exp: usize,
    states: Seq<AuthState>,
    events: Seq<AuthEvent>,
    actions: Seq<AuthAction>,
)
    requires
        hs256_claims(token, secret) == Some((user, iat, exp)),
        states.len() > 0,
        states[0] matches AuthState::CheckingProfile { user_id } && hs256_claims(token, secret) matches Some(
            c,
        ) && c.0 == user_id@,
        steps_follow(states, events, actions),
        events.len() > 0,
        actions.last() is Accept,
    ensures
        accepts(actions.last(), user),
{
    lemma_accepted_user_holds_verified_token(token, secret, states, events, actions);
}

} // verus!

