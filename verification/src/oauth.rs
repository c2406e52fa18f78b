//! Sign-in with Google: the addresses and forms of the OAuth exchange, and what
//! the server does with its outcome.
use vstd::prelude::*;

use crate::config::AppConfig;
use crate::keys::{user_key, user_prefix};
use crate::model::{GoogleUserResult, HttpStatus, OAuthResponse, Profile, ResponseMsg};

verus! {

/// A list of query pairs, by their views.
pub open spec fn pairs_view(pairs: Seq<(String, String)>) -> Seq<(Seq<char>, Seq<char>)> {
    pairs.map_values(|p: (String, String)| (p.0@, p.1@))
}

/// The number of characters the pairs contribute, counting a separator and an
/// `=` for each pair.
pub open spec fn pairs_size(pairs: Seq<(Seq<char>, Seq<char>)>) -> nat
    decreases pairs.len(),
{
    if pairs.len() == 0 {
        0
    } else {
        pairs_size(pairs.drop_last()) + pairs.last().0.len() + pairs.last().1.len() + 2
    }
}

/// Inputs whose URL stays within the URL library's 32-bit positions: a character
/// takes at most four bytes in UTF-8 and a byte at most three once
/// percent-encoded, so the serialization (with its `?`) takes at most twelve bytes
/// per character counted here.
pub open spec fn url_input_fits(base: Seq<char>, pairs: Seq<(Seq<char>, Seq<char>)>) -> bool {
    12 * (base.len() + pairs_size(pairs) + 1) <= u32::MAX
}

/// Whether a URL built from `base` and `pairs` stays within the URL library's
/// limits.
pub fn query_fits(base: &str, pairs: &Vec<(String, String)>) -> (fits: bool)
    ensures
        fits == url_input_fits(base@, pairs_view(pairs@)),
{
    let limit: u128 = 357913941;
    let ghost v = pairs_view(pairs@);
    let n = pairs.len();
    assert(v.take(0) =~= Seq::<(Seq<char>, Seq<char>)>::empty());
    assert(v.take(n as int) =~= v);
    proof {
        lemma_pairs_size_monotone(v, 0, n as int);
    }
    let mut size: u128 = base.unicode_len() as u128 + 1;
    if size > limit {
        return false;
    }
    let mut i: usize = 0;
    while i < n
        invariant
            n == pairs@.len(),
            v == pairs_view(pairs@),
            v.take(n as int) == v,
            limit == 357913941,
            i <= n,
            size == base@.len() + pairs_size(v.take(i as int)) + 1,
            size <= limit,
        decreases n - i,
    {
        let k = pairs[i].0.as_str();
        let val = pairs[i].1.as_str();
        assert(v[i as int] == (k@, val@));
        assert(v.take(i + 1).drop_last() =~= v.take(i as int));
        assert(v.take(i + 1).last() == v[i as int]);
        let klen = k.unicode_len() as u128;
        let vlen = val.unicode_len() as u128;
        assert(klen <= usize::MAX && vlen <= usize::MAX);
        size = size + klen + vlen + 2;
        proof {
            lemma_pairs_size_monotone(v, i + 1, n as int);
        }
        if size > limit {
            return false;
        }
        i = i + 1;
    }
    true
}

proof fn lemma_pairs_size_monotone(pairs: Seq<(Seq<char>, Seq<char>)>, i: int, j: int)
    requires
        0 <= i <= j <= pairs.len(),
    ensures
        pairs_size(pairs.take(i)) <= pairs_size(pairs.take(j)),
    decreases j - i,
{
    if i < j {
        lemma_pairs_size_monotone(pairs, i, j - 1);
        assert(pairs.take(j).drop_last() =~= pairs.take(j - 1));
    }
}

/// The serialization of the URL `base` parsed and then given the query pairs
/// `pairs` (form-urlencoded, after any existing query); `None` if `base` does not
/// parse.
pub uninterp spec fn url_with_query(base: Seq<char>, pairs: Seq<(Seq<char>, Seq<char>)>) -> Option<Seq<char>>;

/// Calls `reqwest::Url::parse(base)` (the `url` crate's parser), then
/// `query_pairs_mut().extend_pairs(pairs)`, which appends each pair as
/// `append_pair` does, and returns the URL's serialization. The result is named
/// `url_with_query`. The `url` crate unwraps 32-bit conversions of positions in
/// the serialization, hence the bound on the size of the inputs.
#[verifier::external_body]
fn url_with_query_pairs(base: &str, pairs: &Vec<(String, String)>) -> (r: Option<String>)
    requires
        url_input_fits(base@, pairs_view(pairs@)),
    ensures
        match r {
            Some(u) => url_with_query(base@, pairs_view(pairs@)) == Some(u@),
            None => url_with_query(base@, pairs_view(pairs@)) is None,
        },
{
    let mut url = reqwest::Url::parse(base).ok()?;
    url.query_pairs_mut().extend_pairs(pairs.iter());
    Some(url.into())
}

fn pair(name: &str, value: &str) -> (p: (String, String))
    ensures
        p.0@ == name@,
        p.1@ == value@,
{
    (String::from_str(name), String::from_str(value))
}

/// Google's authorization endpoint.
pub open spec fn google_auth_base() -> Seq<char> {
    "https://accounts.google.com/o/oauth2/v2/auth"@
}

/// Google's userinfo endpoint.
pub open spec fn google_userinfo_base() -> Seq<char> {
    "https://www.googleapis.com/oauth2/v1/userinfo"@
}

/// The query of the authorization request: the client, where Google sends the user
/// back, an authorization code for the e-mail address and profile, with offline
/// access and a fresh consent.
pub open spec fn auth_query(client_id: Seq<char>, redirect_url: Seq<char>) -> Seq<(Seq<char>, Seq<char>)> {
    seq![
        ("client_id"@, client_id),
        ("redirect_uri"@, redirect_url),
        ("response_type"@, "code"@),
        ("scope"@, "email profile"@),
        ("state"@, "random_string"@),
        ("access_type"@, "offline"@),
        ("prompt"@, "consent"@),
    ]
}

/// The sign-in query is the same seven pairs for every OAuth client: only the
/// client id and the redirect address vary, each in its own pair; the rest asks
/// for a code for the e-mail address and profile with offline access (so that
/// Google issues a refresh token) and a fresh consent.
pub proof fn lemma_auth_query_fixed(
    client_id: Seq<char>,
    redirect_url: Seq<char>,
    other_id: Seq<char>,
    other_url: Seq<char>,
)
    ensures
        auth_query(client_id, redirect_url).len() == 7,
        auth_query(client_id, redirect_url)[0] == ("client_id"@, client_id),
        auth_query(client_id, redirect_url)[1] == ("redirect_uri"@, redirect_url),
        auth_query(client_id, redirect_url)[2] == ("response_type"@, "code"@),
        auth_query(client_id, redirect_url)[3] == ("scope"@, "email profile"@),
        auth_query(client_id, redirect_url)[4] == ("state"@, "random_string"@),
        auth_query(client_id, redirect_url)[5] == ("access_type"@, "offline"@),
        auth_query(client_id, redirect_url)[6] == ("prompt"@, "consent"@),
        auth_query(client_id, redirect_url).skip(2) == auth_query(other_id, other_url).skip(2),
{
    assert(auth_query(client_id, redirect_url).skip(2) =~= auth_query(other_id, other_url).skip(2));
}

/// Whether the sign-in address for the configured OAuth client stays within the
/// URL library's limits.
pub open spec fn oauth_client_fits(config: AppConfig) -> bool {
    url_input_fits(
        google_auth_base(),
        auth_query(config.google_oauth_client_id@, config.google_oauth_redirect_url@),
    )
}

fn auth_query_pairs(config: &AppConfig) -> (pairs: Vec<(String, String)>)
    ensures
        pairs_view(pairs@) == auth_query(config.google_oauth_client_id@, config.google_oauth_redirect_url@),
{
    let mut pairs: Vec<(String, String)> = Vec::new();
    pairs.push(pair("client_id", config.google_oauth_client_id.as_str()));
    pairs.push(pair("redirect_uri", config.google_oauth_redirect_url.as_str()));
    pairs.push(pair("response_type", "code"));
    pairs.push(pair("scope", "email profile"));
    pairs.push(pair("state", "random_string"));
    pairs.push(pair("access_type", "offline"));
    pairs.push(pair("prompt", "consent"));
    assert(pairs_view(pairs@) =~= auth_query(config.google_oauth_client_id@, config.google_oauth_redirect_url@));
    pairs
}

/// Whether the sign-in address for this configuration can be built.
pub fn sign_in_url_fits(config: &AppConfig) -> (fits: bool)
    ensures
        fits == oauth_client_fits(*config),
{
    let pairs = auth_query_pairs(config);
    query_fits("https://accounts.google.com/o/oauth2/v2/auth", &pairs)
}

/// The address that starts a sign-in with Google.
pub fn google_auth_url(config: &AppConfig) -> (url: Option<String>)
    requires
        oauth_client_fits(*config),
    ensures
        match url {
            Some(u) => url_with_query(
                google_auth_base(),
                auth_query(config.google_oauth_client_id@, config.google_oauth_redirect_url@),
            ) == Some(u@),
            None => url_with_query(
                google_auth_base(),
                auth_query(config.google_oauth_client_id@, config.google_oauth_redirect_url@),
            ) is None,
        },
{
    let pairs = auth_query_pairs(config);
    url_with_query_pairs("https://accounts.google.com/o/oauth2/v2/auth", &pairs)
}

/// Whether the `login` cookie says the browser holds a session.
pub open spec fn says_logged_in(login_cookie: Option<String>) -> bool {
    login_cookie matches Some(c) && c@ == "true"@
}

/// Where `/login` sends the browser: to the game when the `login` cookie says
/// `true`, else to Google's sign-in page (`None` if that address cannot be built).
pub fn login_redirect(login_cookie: Option<String>, config: &AppConfig) -> (location: Option<String>)
    requires
        !says_logged_in(login_cookie) ==> oauth_client_fits(*config),
    ensures
        says_logged_in(login_cookie) ==> location is Some && location->Some_0@ == "/play.html"@,
        !says_logged_in(login_cookie) ==> match location {
            Some(u) => url_with_query(
                google_auth_base(),
                auth_query(config.google_oauth_client_id@, config.google_oauth_redirect_url@),
            ) == Some(u@),
            None => url_with_query(
                google_auth_base(),
                auth_query(config.google_oauth_client_id@, config.google_oauth_redirect_url@),
            ) is None,
        },
{
    let logged_in = match &login_cookie {
        Some(c) => *c == String::from_str("true"),
        None => false,
    };
    if logged_in {
        Some(String::from_str("/play.html"))
    } else {
        google_auth_url(config)
    }
}

/// The query of the userinfo request.
pub open spec fn userinfo_query(access_token: Seq<char>) -> Seq<(Seq<char>, Seq<char>)> {
    seq![("alt"@, "json"@), ("access_token"@, access_token)]
}

/// Whether the userinfo address for this access token stays within the URL
/// library's limits.
pub open spec fn userinfo_fits(access_token: Seq<char>) -> bool {
    url_input_fits(google_userinfo_base(), userinfo_query(access_token))
}

fn userinfo_pairs(access_token: &str) -> (pairs: Vec<(String, String)>)
    ensures
        pairs_view(pairs@) == userinfo_query(access_token@),
{
    let mut pairs: Vec<(String, String)> = Vec::new();
    pairs.push(pair("alt", "json"));
    pairs.push(pair("access_token", access_token));
    assert(pairs_view(pairs@) =~= userinfo_query(access_token@));
    pairs
}

/// Whether the userinfo address for this access token can be built.
pub fn userinfo_url_fits(access_token: &str) -> (fits: bool)
    ensures
        fits == userinfo_fits(access_token@),
{
    let pairs = userinfo_pairs(access_token);
    query_fits("https://www.googleapis.com/oauth2/v1/userinfo", &pairs)
}

/// The address of the user's information, for the given access token.
pub fn google_userinfo_url(access_token: &str) -> (url: Option<String>)
    requires
        userinfo_fits(access_token@),
    ensures
        match url {
            Some(u) => url_with_query(google_userinfo_base(), userinfo_query(access_token@)) == Some(u@),
            None => url_with_query(google_userinfo_base(), userinfo_query(access_token@)) is None,
        },
{
    let pairs = userinfo_pairs(access_token);
    proof {
        reveal_strlit("https://www.googleapis.com/oauth2/v1/userinfo");
    }
    url_with_query_pairs("https://www.googleapis.com/oauth2/v1/userinfo", &pairs)
}

/// Google's token endpoint.
pub fn google_token_url() -> (url: String)
    ensures
        url@ == "https://oauth2.googleapis.com/token"@,
{
    String::from_str("https://oauth2.googleapis.com/token")
}

/// The form that exchanges an authorization code for tokens.
pub open spec fn token_form_spec(code: Seq<char>, config: AppConfig) -> Seq<(Seq<char>, Seq<char>)> {
    seq![
        ("grant_type"@, "authorization_code"@),
        ("redirect_uri"@, config.google_oauth_redirect_url@),
        ("client_id"@, config.google_oauth_client_id@),
        ("code"@, code),
        ("client_secret"@, config.google_oauth_client_secret@),
    ]
}

/// The form posted to Google's token endpoint for an authorization code.
pub fn token_request_form(code: &str, config: &AppConfig) -> (form: Vec<(String, String)>)
    ensures
        pairs_view(form@) == token_form_spec(code@, *config),
{
    let mut form: Vec<(String, String)> = Vec::new();
    form.push(pair("grant_type", "authorization_code"));
    form.push(pair("redirect_uri", config.google_oauth_redirect_url.as_str()));
    form.push(pair("client_id", config.google_oauth_client_id.as_str()));
    form.push(pair("code", code));
    form.push(pair("client_secret", config.google_oauth_client_secret.as_str()));
    assert(pairs_view(form@) =~= token_form_spec(code@, *config));
    form
}

/// The form that exchanges a stored refresh token for a fresh access token.
pub fn refresh_request_form(refresh_token: &str, config: &AppConfig) -> (form: Vec<(String, String)>)
    ensures
        pairs_view(form@) == seq![
            ("grant_type"@, "refresh_token"@),
            ("refresh_token"@, refresh_token@),
            ("client_id"@, config.google_oauth_client_id@),
            ("client_secret"@, config.google_oauth_client_secret@),
        ],
{
    let mut form: Vec<(String, String)> = Vec::new();
    form.push(pair("grant_type", "refresh_token"));
    form.push(pair("refresh_token", refresh_token));
    form.push(pair("client_id", config.google_oauth_client_id.as_str()));
    form.push(pair("client_secret", config.google_oauth_client_secret.as_str()));
    assert(pairs_view(form@) =~= seq![
        ("grant_type"@, "refresh_token"@),
        ("refresh_token"@, refresh_token@),
        ("client_id"@, config.google_oauth_client_id@),
        ("client_secret"@, config.google_oauth_client_secret@),
    ]);
    form
}

/// The error when Google does not issue tokens for a code.
pub fn token_request_failure() -> (message: String)
    ensures
        message@ == "An error occurred while trying to retrieve access token."@,
{
    String::from_str("An error occurred while trying to retrieve access token.")
}

/// The error when Google does not return the user's information.
pub fn user_request_failure() -> (message: String)
    ensures
        message@ == "An error occurred while trying to retrieve user information."@,
{
    String::from_str("An error occurred while trying to retrieve user information.")
}

/// The answer to an OAuth callback without an authorization code, or `None` when
/// there is a code.
pub fn check_authorization_code(code: &String) -> (rejection: Option<(HttpStatus, ResponseMsg)>)
    ensures
        code@.len() == 0 <==> rejection is Some,
        rejection matches Some(r) ==> r.0 == HttpStatus::Unauthorized && r.1.status@ == "fail"@
            && r.1.message@ == "Authorization code not provided!"@,
{
    if code.as_str().is_empty() {
        Some((HttpStatus::Unauthorized, ResponseMsg::new("fail", "Authorization code not provided!")))
    } else {
        None
    }
}

/// The answer when an exchange with Google fails with `message`.
pub fn oauth_failure(message: String) -> (answer: (HttpStatus, ResponseMsg))
    ensures
        answer.0 == HttpStatus::BadGateway,
        answer.1.status@ == "fail"@,
        answer.1.message == message,
{
    (HttpStatus::BadGateway, ResponseMsg { status: String::from_str("fail"), message })
}

/// What the server records when a user signs in: the refresh token in the user's
/// permanent record, and their profile in the cache; then it sends them to the game.
pub struct LoginPlan {
    /// The permanent record of the user.
    pub record_key: String,
    /// The field of the record that holds the refresh token.
    pub record_field: String,
    /// The refresh token to keep.
    pub refresh_token: String,
    /// The profile to cache.
    pub profile: Profile,
    /// Where the browser goes next.
    pub location: String,
}

/// The records of a successful sign-in of `user`, who obtained `tokens`.
pub fn plan_login(user: &GoogleUserResult, tokens: &OAuthResponse) -> (plan: LoginPlan)
    ensures
        plan.record_key@ == user_prefix() + user.id@,
        plan.record_field@ == "refresh_token"@,
        plan.refresh_token@ == tokens.refresh_token@,
        plan.profile.id@ == user.id@,
        plan.profile.name@ == user.name@,
        plan.profile.email@ == user.email@,
        plan.profile.picture@ == user.picture@,
        plan.location@ == "/play.html"@,
{
    LoginPlan {
        record_key: user_key(user.id.as_str()),
        record_field: String::from_str("refresh_token"),
        refresh_token: tokens.refresh_token.clone(),
        profile: Profile::from_google_user(user),
        location: String::from_str("/play.html"),
    }
}

} // verus!
