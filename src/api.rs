use vstd::prelude::*;

use crate::config::ConnectConfig;
use crate::http::{pair, pairs_view, HttpRequest, Method, PairsView, RequestView};
use crate::token::AccessToken;

verus! {

/// The provider's token endpoint.
pub const TOKEN_URL: &'static str = "https://api.netatmo.com/oauth2/token";

/// The provider's consent page; only opened in a browser, never requested.
pub const AUTHORIZE_URL: &'static str = "https://api.netatmo.com/oauth2/authorize";

/// The endpoint that lists weather stations and their readings.
pub const STATIONS_URL: &'static str = "https://api.netatmo.com/api/getstationsdata";

/// The endpoint that lists indoor air-quality devices and their readings.
pub const HOMECOACHS_URL: &'static str = "https://api.netatmo.com/api/gethomecoachsdata";

/// Where the provider sends the user back after consent: the local listener.
pub const REDIRECT_URI: &'static str = "http://localhost:8000/api/authorization_response";

/// The scopes every grant asks for.
pub const SCOPES: &'static str = "read_station read_homecoach";

/// The form of a password grant.
pub open spec fn password_form(cfg: ConnectConfig) -> PairsView {
    seq![
        ("grant_type"@, "password"@),
        ("client_id"@, cfg.client_id@),
        ("client_secret"@, cfg.client_secret@),
        ("username"@, cfg.username@),
        ("password"@, cfg.password@),
        ("scope"@, SCOPES@),
    ]
}

/// The form that trades a refresh token for a new token.
pub open spec fn refresh_form(cfg: ConnectConfig, token: AccessToken) -> PairsView {
    seq![
        ("grant_type"@, "refresh_token"@),
        ("refresh_token"@, token.refresh_token@),
        ("client_id"@, cfg.client_id@),
        ("client_secret"@, cfg.client_secret@),
    ]
}

/// The form that trades an authorization code for a token.
pub open spec fn code_form(cfg: ConnectConfig, code: Seq<char>) -> PairsView {
    seq![
        ("grant_type"@, "authorization_code"@),
        ("client_id"@, cfg.client_id@),
        ("client_secret"@, cfg.client_secret@),
        ("code"@, code),
        ("redirect_uri"@, REDIRECT_URI@),
        ("scope"@, SCOPES@),
    ]
}

/// The header that authenticates a call with `token`.
pub open spec fn bearer(token: AccessToken) -> Seq<char> {
    "Bearer "@ + token.access_token@
}

/// A POST of `form` to the token endpoint.
pub open spec fn token_post(form: PairsView, timeout_ms: Option<u64>) -> RequestView {
    RequestView {
        method: Method::Post,
        url: TOKEN_URL@,
        headers: seq![],
        form,
        timeout_ms,
    }
}

/// A POST of `form` to the token endpoint.
fn token_request(form: Vec<(String, String)>, timeout_ms: Option<u64>) -> (r: HttpRequest)
    ensures
        r@ == token_post(pairs_view(form@), timeout_ms),
{
    let headers: Vec<(String, String)> = Vec::new();
    let r = HttpRequest {
        method: Method::Post,
        url: TOKEN_URL.to_owned(),
        headers,
        form,
        timeout_ms,
    };
    assert(r@.headers =~= seq![]);
    r
}

/// The request of a password grant for the configured user.
pub fn password_grant_request(cfg: &ConnectConfig, timeout_ms: Option<u64>) -> (r: HttpRequest)
    ensures
        r@ == token_post(password_form(*cfg), timeout_ms),
{
    let form = vec![
        pair("grant_type", "password"),
        pair("client_id", cfg.client_id.as_str()),
        pair("client_secret", cfg.client_secret.as_str()),
        pair("username", cfg.username.as_str()),
        pair("password", cfg.password.as_str()),
        pair("scope", SCOPES),
    ];
    assert(pairs_view(form@) =~= password_form(*cfg));
    token_request(form, timeout_ms)
}

/// The request that trades the refresh token of `old_token` for a new token.
pub fn refresh_request(cfg: &ConnectConfig, old_token: &AccessToken, timeout_ms: Option<u64>) -> (r: HttpRequest)
    ensures
        r@ == token_post(refresh_form(*cfg, *old_token), timeout_ms),
{
    let form = vec![
        pair("grant_type", "refresh_token"),
        pair("refresh_token", old_token.refresh_token.as_str()),
        pair("client_id", cfg.client_id.as_str()),
        pair("client_secret", cfg.client_secret.as_str()),
    ];
    assert(pairs_view(form@) =~= refresh_form(*cfg, *old_token));
    token_request(form, timeout_ms)
}

/// The request that trades an authorization code for a token.
pub fn code_exchange_request(cfg: &ConnectConfig, code: &str, timeout_ms: Option<u64>) -> (r: HttpRequest)
    ensures
        r@ == token_post(code_form(*cfg, code@), timeout_ms),
{
    let form = vec![
        pair("grant_type", "authorization_code"),
        pair("client_id", cfg.client_id.as_str()),
        pair("client_secret", cfg.client_secret.as_str()),
        pair("code", code),
        pair("redirect_uri", REDIRECT_URI),
        pair("scope", SCOPES),
    ];
    assert(pairs_view(form@) =~= code_form(*cfg, code@));
    token_request(form, timeout_ms)
}

/// A GET of `url`, authenticated with `token`.
pub open spec fn authorized_get(url: Seq<char>, token: AccessToken, timeout_ms: Option<u64>) -> RequestView {
    RequestView {
        method: Method::Get,
        url,
        headers: seq![("Authorization"@, bearer(token))],
        form: seq![],
        timeout_ms,
    }
}

/// A GET of `url`, authenticated with `token` and asking for JSON.
pub open spec fn json_get(url: Seq<char>, token: AccessToken, timeout_ms: Option<u64>) -> RequestView {
    RequestView {
        headers: seq![("Authorization"@, bearer(token)), ("accept"@, "application/json"@)],
        ..authorized_get(url, token, timeout_ms)
    }
}

/// The `Authorization` header that carries `token`.
fn bearer_header(token: &AccessToken) -> (r: (String, String))
    ensures
        r.0@ == "Authorization"@,
        r.1@ == bearer(*token),
{
    let value = "Bearer ".to_owned().concat(token.access_token.as_str());
    ("Authorization".to_owned(), value)
}

/// The request that lists weather stations, authenticated with `token`.
pub fn stations_data_request(token: &AccessToken, timeout_ms: Option<u64>) -> (r: HttpRequest)
    ensures
        r@ == authorized_get(STATIONS_URL@, *token, timeout_ms),
{
    let headers = vec![bearer_header(token)];
    let form: Vec<(String, String)> = Vec::new();
    let r = HttpRequest { method: Method::Get, url: STATIONS_URL.to_owned(), headers, form, timeout_ms };
    assert(r@.headers =~= seq![("Authorization"@, bearer(*token))]);
    assert(r@.form =~= seq![]);
    r
}

/// The request that lists indoor air-quality devices, authenticated with
/// `token` and asking for JSON.
pub fn homecoachs_data_request(token: &AccessToken, timeout_ms: Option<u64>) -> (r: HttpRequest)
    ensures
        r@ == json_get(HOMECOACHS_URL@, *token, timeout_ms),
{
    let headers = vec![bearer_header(token), pair("accept", "application/json")];
    let form: Vec<(String, String)> = Vec::new();
    let r = HttpRequest { method: Method::Get, url: HOMECOACHS_URL.to_owned(), headers, form, timeout_ms };
    assert(r@.headers =~= seq![("Authorization"@, bearer(*token)), ("accept"@, "application/json"@)]);
    assert(r@.form =~= seq![]);
    r
}

} // verus!
