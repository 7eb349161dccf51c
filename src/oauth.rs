use vstd::prelude::*;

use crate::scopes::{scope_text, Scope};
use crate::token::AccessToken;

verus! {

/// The scope texts of `s`, joined by single spaces.
pub open spec fn joined_scopes(s: Seq<Scope>) -> Seq<char>
    decreases s.len(),
{
    if s.len() == 0 {
        Seq::empty()
    } else if s.len() == 1 {
        scope_text(s[0])
    } else {
        joined_scopes(s.drop_last()) + " "@ + scope_text(s.last())
    }
}

/// The provider's authorization URL for a client, a redirect URI and a list
/// of scopes.
pub open spec fn oauth_url(client_id: Seq<char>, redirect_uri: Seq<char>, s: Seq<Scope>) -> Seq<char> {
    "https://accounts.google.com/o/oauth2/auth?client_id="@ + client_id + "&redirect_uri="@
        + redirect_uri + "&response_type=code&scope="@ + joined_scopes(s)
        + "&access_type=offline&prompt=consent"@
}

/// Builds the authorization URL: response type `code`, the scopes joined by
/// spaces, offline access and a forced consent prompt, so that a refresh
/// token is issued on every authorization.
pub fn get_oauth_url(client_id: &str, redirect_uri: &str, scopes: Vec<Scope>) -> (r: String)
    ensures
        r@ == oauth_url(client_id@, redirect_uri@, scopes@),
{
    let mut out = String::from_str("https://accounts.google.com/o/oauth2/auth?client_id=");
    out.append(client_id);
    out.append("&redirect_uri=");
    out.append(redirect_uri);
    out.append("&response_type=code&scope=");
    let ghost prefix = out@;
    let n = scopes.len();
    let mut i: usize = 0;
    while i < n
        invariant
            n == scopes@.len(),
            i <= n,
            out@ == prefix + joined_scopes(scopes@.subrange(0, i as int)),
        decreases n - i,
    {
        let ghost before = scopes@.subrange(0, i as int);
        let ghost after = scopes@.subrange(0, i + 1);
        assert(after.drop_last() =~= before);
        assert(after.last() == scopes@[i as int]);
        if i > 0 {
            out.append(" ");
        }
        out.append(scopes[i].as_str());
        assert(out@ =~= prefix + joined_scopes(after));
        i = i + 1;
    }
    assert(scopes@.subrange(0, n as int) =~= scopes@);
    out.append("&access_type=offline&prompt=consent");
    out
}

/// The string at `key` of the JSON object that `body` holds; `None` where
/// `body` is no JSON object or the member is missing or no string.
pub uninterp spec fn json_text_field(body: Seq<char>, key: Seq<char>) -> Option<Seq<char>>;

/// The integer at `key` of the JSON object that `body` holds; `None` where
/// `body` is no JSON object or the member is missing or no `i64`.
pub uninterp spec fn json_int_field(body: Seq<char>, key: Seq<char>) -> Option<i64>;

/// Relies on `serde_json::from_str` to read `body` as a `serde_json::Value`,
/// on `Value::get` to find the member `key`, and on `Value::as_str` to read it
/// as a string.
#[verifier::external_body]
fn body_text_field(body: &str, key: &str) -> (r: Option<String>)
    ensures
        match json_text_field(body@, key@) {
            Some(s) => r is Some && r->0@ == s,
            None => r is None,
        },
{
    match serde_json::from_str::<serde_json::Value>(body) {
        Ok(v) => match v.get(key) {
            Some(f) => match f.as_str() {
                Some(s) => Some(s.to_string()),
                None => None,
            },
            None => None,
        },
        Err(_) => None,
    }
}

/// Relies on `serde_json::from_str` to read `body` as a `serde_json::Value`,
/// on `Value::get` to find the member `key`, and on `Value::as_i64` to read it
/// as an integer.
#[verifier::external_body]
fn body_int_field(body: &str, key: &str) -> (r: Option<i64>)
    ensures
        r == json_int_field(body@, key@),
{
    match serde_json::from_str::<serde_json::Value>(body) {
        Ok(v) => match v.get(key) {
            Some(f) => f.as_i64(),
            None => None,
        },
        Err(_) => None,
    }
}

/// The text, or the empty text where there is none.
pub open spec fn text_or_empty(o: Option<Seq<char>>) -> Seq<char> {
    match o {
        Some(s) => s,
        None => Seq::empty(),
    }
}

/// The integer, or zero where there is none.
pub open spec fn int_or_zero(o: Option<i64>) -> int {
    match o {
        Some(n) => n as int,
        None => 0,
    }
}

/// The refresh token's lifetime in a token response: the member
/// `refresh_token_expires_in`, else its alias `x_refresh_token_expires_in`.
pub open spec fn refresh_lifetime(body: Seq<char>) -> int {
    match json_int_field(body, "refresh_token_expires_in"@) {
        Some(n) => n as int,
        None => int_or_zero(json_int_field(body, "x_refresh_token_expires_in"@)),
    }
}

/// `t` is the lenient reading of the token response `body`: each field is
/// the member of its name, and a missing or mistyped member reads as empty
/// or zero.
pub open spec fn decodes_to(body: Seq<char>, t: AccessToken) -> bool {
    &&& t.token_type@ == text_or_empty(json_text_field(body, "token_type"@))
    &&& t.access_token@ == text_or_empty(json_text_field(body, "access_token"@))
    &&& t.expires_in as int == int_or_zero(json_int_field(body, "expires_in"@))
    &&& t.refresh_token@ == text_or_empty(json_text_field(body, "refresh_token"@))
    &&& t.refresh_token_expires_in as int == refresh_lifetime(body)
    &&& t.scope@ == text_or_empty(json_text_field(body, "scope"@))
}

fn text_field_or_empty(body: &str, key: &str) -> (r: String)
    ensures
        r@ == text_or_empty(json_text_field(body@, key@)),
{
    match body_text_field(body, key) {
        Some(s) => s,
        None => String::new(),
    }
}

fn int_field_or_zero(body: &str, key: &str) -> (r: i64)
    ensures
        r as int == int_or_zero(json_int_field(body@, key@)),
{
    match body_int_field(body, key) {
        Some(n) => n,
        None => 0,
    }
}

/// Reads a token response field by field, defaulting each missing or
/// mistyped member to empty or zero.
pub fn decode_access_token(body: &str) -> (r: AccessToken)
    ensures
        decodes_to(body@, r),
{
    let lifetime = match body_int_field(body, "refresh_token_expires_in") {
        Some(n) => n,
        None => int_field_or_zero(body, "x_refresh_token_expires_in"),
    };
    AccessToken {
        token_type: text_field_or_empty(body, "token_type"),
        access_token: text_field_or_empty(body, "access_token"),
        expires_in: int_field_or_zero(body, "expires_in"),
        refresh_token: text_field_or_empty(body, "refresh_token"),
        refresh_token_expires_in: lifetime,
        scope: text_field_or_empty(body, "scope"),
    }
}

/// Why a token-endpoint exchange failed.
#[derive(Clone, Debug)]
pub enum AuthError {
    /// The code exchange answered with this non-success status.
    AuthExchangeFailed(u16),
    /// The refresh exchange answered with this non-success status.
    TokenRefreshFailed(u16),
    /// The request did not complete (DNS, TLS, timeout); the cause's text.
    TransportError(String),
    /// A success status whose body holds no access token.
    MalformedResponse,
}

/// An HTTP status in the success class.
pub open spec fn is_success_status(status: u16) -> bool {
    200 <= status <= 299
}

/// The view of a list of form fields.
pub open spec fn form_view(v: Seq<(String, String)>) -> Seq<(Seq<char>, Seq<char>)> {
    v.map_values(|p: (String, String)| (p.0@, p.1@))
}

fn field(name: &str, value: &str) -> (r: (String, String))
    ensures
        r.0@ == name@,
        r.1@ == value@,
{
    (String::from_str(name), String::from_str(value))
}

/// The form fields of the authorization-code grant.
pub fn code_exchange_form(code: &str, client_secret: &str, client_id: &str, redirect_uri: &str) -> (r: Vec<(String, String)>)
    ensures
        form_view(r@) == seq![
            ("code"@, code@),
            ("client_id"@, client_id@),
            ("client_secret"@, client_secret@),
            ("redirect_uri"@, redirect_uri@),
            ("grant_type"@, "authorization_code"@),
        ],
{
    let mut v: Vec<(String, String)> = Vec::new();
    v.push(field("code", code));
    v.push(field("client_id", client_id));
    v.push(field("client_secret", client_secret));
    v.push(field("redirect_uri", redirect_uri));
    v.push(field("grant_type", "authorization_code"));
    assert(form_view(v@) =~= seq![
        ("code"@, code@),
        ("client_id"@, client_id@),
        ("client_secret"@, client_secret@),
        ("redirect_uri"@, redirect_uri@),
        ("grant_type"@, "authorization_code"@),
    ]);
    v
}

/// The outcome of the authorization-code exchange from the endpoint's status
/// and body: on a success status the lenient reading of the body, else
/// `AuthExchangeFailed` with the status.
pub fn code_exchange_result(status: u16, body: &str) -> (r: Result<AccessToken, AuthError>)
    ensures
        is_success_status(status) ==> r is Ok && decodes_to(body@, r->Ok_0),
        !is_success_status(status) ==> r == Err::<AccessToken, AuthError>(AuthError::AuthExchangeFailed(status)),
{
    if 200 <= status && status <= 299 {
        Ok(decode_access_token(body))
    } else {
        Err(AuthError::AuthExchangeFailed(status))
    }
}

/// The form fields of the refresh-token grant.
pub fn refresh_token_form(client_id: &str, client_secret: &str, refresh_token: &str) -> (r: Vec<(String, String)>)
    ensures
        form_view(r@) == seq![
            ("client_id"@, client_id@),
            ("client_secret"@, client_secret@),
            ("refresh_token"@, refresh_token@),
            ("grant_type"@, "refresh_token"@),
        ],
{
    let mut v: Vec<(String, String)> = Vec::new();
    v.push(field("client_id", client_id));
    v.push(field("client_secret", client_secret));
    v.push(field("refresh_token", refresh_token));
    v.push(field("grant_type", "refresh_token"));
    assert(form_view(v@) =~= seq![
        ("client_id"@, client_id@),
        ("client_secret"@, client_secret@),
        ("refresh_token"@, refresh_token@),
        ("grant_type"@, "refresh_token"@),
    ]);
    v
}

/// The outcome of the refresh exchange from the endpoint's status and body:
/// `TokenRefreshFailed` with a non-success status, `MalformedResponse` where a
/// success body holds no access token, else the reading of the body.
pub fn refresh_result(status: u16, body: &str) -> (r: Result<AccessToken, AuthError>)
    ensures
        !is_success_status(status) ==> r == Err::<AccessToken, AuthError>(AuthError::TokenRefreshFailed(status)),
        is_success_status(status) && json_text_field(body@, "access_token"@) is None
            ==> r == Err::<AccessToken, AuthError>(AuthError::MalformedResponse),
        is_success_status(status) && json_text_field(body@, "access_token"@) is Some
            ==> r is Ok && decodes_to(body@, r->Ok_0),
{
    if !(200 <= status && status <= 299) {
        return Err(AuthError::TokenRefreshFailed(status));
    }
    match body_text_field(body, "access_token") {
        Some(_) => Ok(decode_access_token(body)),
        None => Err(AuthError::MalformedResponse),
    }
}

} // verus!
