use vstd::prelude::*;

use crate::oauth::{
    decodes_to, form_view, is_success_status, json_text_field, refresh_result, refresh_token_form,
    AuthError,
};
use crate::token::{
    current_time, is_before, shifted_by, AccessToken, ClientCredentials, ClientTokenData, UtcTime,
};

verus! {

/// The token manager: the credentials, the live token data and the
/// auto-refresh policy. It refreshes lazily: before each authenticated call
/// the caller asks it whether a refresh is due. It has no `Debug`, so that
/// the client secret and the refresh token are not printed by accident.
#[derive(Clone)]
pub struct GoogleClient {
    pub client_credentials: ClientCredentials,
    pub access_token: Option<ClientTokenData>,
    pub auto_refresh_token: bool,
}

/// What subscribers are told after a successful refresh.
#[derive(Clone, Debug)]
pub struct RefreshNotice {
    pub new_token: String,
    pub refresh_token: String,
    pub new_expiry: UtcTime,
}

/// The refresh token that the token data holds after a response that carried
/// `given`: the one given, or `kept` where the response carried none.
pub open spec fn chosen_refresh_token(given: String, kept: String) -> String {
    if given@.len() > 0 {
        given
    } else {
        kept
    }
}

/// The token data installed from `token` at `now`, keeping `kept` as the
/// refresh token where `token` carries none.
pub open spec fn installed_data(token: AccessToken, kept: String, now: UtcTime) -> ClientTokenData {
    ClientTokenData {
        access_token: token.access_token,
        expires_on: shifted_by(now, token.expires_in as int),
        refresh_token: chosen_refresh_token(token.refresh_token, kept),
    }
}

/// The manager made from `creds` and the initial `token` at `now`.
pub open spec fn initial_client(creds: ClientCredentials, token: AccessToken, auto: bool, now: UtcTime) -> GoogleClient {
    GoogleClient {
        access_token: Some(installed_data(token, creds.refresh_token, now)),
        client_credentials: creds,
        auto_refresh_token: auto,
    }
}

/// `new` is `old` after installing the refreshed `token` at `now`: only the
/// token data is replaced.
pub open spec fn refreshed(old: GoogleClient, new: GoogleClient, token: AccessToken, now: UtcTime) -> bool {
    &&& new.client_credentials == old.client_credentials
    &&& new.auto_refresh_token == old.auto_refresh_token
    &&& new.access_token == Some(installed_data(token, old.live_refresh_token(), now))
}

/// The notice that tells of the token data `d`.
pub open spec fn notice_of(n: RefreshNotice, d: ClientTokenData) -> bool {
    n.new_token == d.access_token && n.refresh_token == d.refresh_token && n.new_expiry == d.expires_on
}

impl GoogleClient {
    /// The access token is valid at `now`: there is one and it expires after `now`.
    pub open spec fn valid_at(&self, now: UtcTime) -> bool {
        match self.access_token {
            Some(d) => is_before(now, d.expires_on),
            None => false,
        }
    }

    /// The refresh token in use: the token data's, else the credentials'.
    pub open spec fn live_refresh_token(&self) -> String {
        match self.access_token {
            Some(d) => d.refresh_token,
            None => self.client_credentials.refresh_token,
        }
    }

    /// A refresh is due at `now`: auto-refresh is on and the token is not valid.
    pub open spec fn refresh_due_at(&self, now: UtcTime) -> bool {
        self.auto_refresh_token && !self.valid_at(now)
    }

    /// The manager for `client_credentials` and the initial `access_token`
    /// issued at `now`. Where the token carries no refresh token, the
    /// credentials' one is kept.
    pub fn new_at(client_credentials: ClientCredentials, access_token: AccessToken, auto_refresh_token: bool, now: UtcTime) -> (r: GoogleClient)
        ensures
            r == initial_client(client_credentials, access_token, auto_refresh_token, now),
    {
        let kept = client_credentials.refresh_token.clone();
        let data = install(access_token, kept, now);
        GoogleClient { client_credentials, access_token: Some(data), auto_refresh_token }
    }

    /// The manager for `client_credentials` and the initial `access_token`
    /// issued now.
    pub fn new(client_credentials: ClientCredentials, access_token: AccessToken, auto_refresh_token: bool) -> (r: GoogleClient)
        ensures
            exists|now: UtcTime| now.wf() && r == #[trigger] initial_client(client_credentials, access_token, auto_refresh_token, now),
    {
        let now = current_time();
        GoogleClient::new_at(client_credentials, access_token, auto_refresh_token, now)
    }

    /// Turns automatic refresh on; the token state is untouched.
    pub fn enable_auto_refresh(&mut self)
        ensures
            *final(self) == (GoogleClient { auto_refresh_token: true, ..*old(self) }),
    {
        self.auto_refresh_token = true;
    }

    /// Turns automatic refresh off; the token state is untouched.
    pub fn disable_auto_refresh(&mut self)
        ensures
            *final(self) == (GoogleClient { auto_refresh_token: false, ..*old(self) }),
    {
        self.auto_refresh_token = false;
    }

    /// Whether the access token is valid at `now`.
    pub fn is_access_token_valid_at(&self, now: &UtcTime) -> (r: bool)
        ensures
            r == self.valid_at(*now),
    {
        match &self.access_token {
            Some(d) => now.before(&d.expires_on),
            None => false,
        }
    }

    /// Whether the access token is valid now.
    pub fn is_access_token_valid(&self) -> (r: bool)
        ensures
            exists|now: UtcTime| now.wf() && r == #[trigger] self.valid_at(now),
            self.access_token is None ==> !r,
    {
        let now = current_time();
        self.is_access_token_valid_at(&now)
    }

    /// The form of the refresh exchange: the client id and secret and the
    /// refresh token in use.
    pub fn refresh_form(&self) -> (r: Vec<(String, String)>)
        ensures
            form_view(r@) == seq![
                ("client_id"@, self.client_credentials.client_id@),
                ("client_secret"@, self.client_credentials.client_secret@),
                ("refresh_token"@, self.live_refresh_token()@),
                ("grant_type"@, "refresh_token"@),
            ],
    {
        let rt = match &self.access_token {
            Some(d) => d.refresh_token.as_str(),
            None => self.client_credentials.refresh_token.as_str(),
        };
        refresh_token_form(
            self.client_credentials.client_id.as_str(),
            self.client_credentials.client_secret.as_str(),
            rt,
        )
    }

    /// The check made before every authenticated call, at `now`: `None` where
    /// nothing is to be done (auto-refresh off, or the token still valid),
    /// else the form of the refresh exchange to perform. It changes nothing.
    pub fn refresh_access_token_check_at(&self, now: &UtcTime) -> (r: Option<Vec<(String, String)>>)
        ensures
            !self.auto_refresh_token ==> r is None,
            self.valid_at(*now) ==> r is None,
            r is Some <==> self.refresh_due_at(*now),
            r is Some ==> form_view(r->0@) == seq![
                ("client_id"@, self.client_credentials.client_id@),
                ("client_secret"@, self.client_credentials.client_secret@),
                ("refresh_token"@, self.live_refresh_token()@),
                ("grant_type"@, "refresh_token"@),
            ],
    {
        if self.auto_refresh_token && !self.is_access_token_valid_at(now) {
            Some(self.refresh_form())
        } else {
            None
        }
    }

    /// The check made before every authenticated call, now: `None` where
    /// nothing is to be done, else the form of the refresh exchange. With
    /// auto-refresh off it is always `None`.
    pub fn refresh_access_token_check(&self) -> (r: Option<Vec<(String, String)>>)
        ensures
            !self.auto_refresh_token ==> r is None,
            exists|now: UtcTime| now.wf() && (r is Some <==> #[trigger] self.refresh_due_at(now)),
            r is Some ==> form_view(r->0@) == seq![
                ("client_id"@, self.client_credentials.client_id@),
                ("client_secret"@, self.client_credentials.client_secret@),
                ("refresh_token"@, self.live_refresh_token()@),
                ("grant_type"@, "refresh_token"@),
            ],
    {
        let now = current_time();
        self.refresh_access_token_check_at(&now)
    }

    /// Installs the refreshed `new_token` received at `now`: the token data is
    /// replaced wholesale, keeping the refresh token in use where the response
    /// carried none, and the notice for subscribers is returned.
    pub fn update_access_token_at(&mut self, new_token: AccessToken, now: UtcTime) -> (r: RefreshNotice)
        ensures
            refreshed(*old(self), *final(self), new_token, now),
            notice_of(r, installed_data(new_token, old(self).live_refresh_token(), now)),
    {
        let kept = match &self.access_token {
            Some(d) => d.refresh_token.clone(),
            None => self.client_credentials.refresh_token.clone(),
        };
        let data = install(new_token, kept, now);
        let notice = RefreshNotice {
            new_token: data.access_token.clone(),
            refresh_token: data.refresh_token.clone(),
            new_expiry: data.expires_on,
        };
        self.access_token = Some(data);
        notice
    }

    /// Installs the refreshed `new_token` received now, as
    /// `update_access_token_at` does at the current instant.
    pub fn update_access_token(&mut self, new_token: AccessToken) -> (r: RefreshNotice)
        ensures
            exists|now: UtcTime| now.wf() && #[trigger] refreshed(*old(self), *final(self), new_token, now)
                && notice_of(r, installed_data(new_token, old(self).live_refresh_token(), now)),
    {
        let now = current_time();
        self.update_access_token_at(new_token, now)
    }

    /// Applies the refresh exchange's answer, received at `now`. On success
    /// the new token is installed and its notice returned; on failure the
    /// manager is left exactly as it was and the error is returned.
    pub fn apply_refresh_response_at(&mut self, status: u16, body: &str, now: UtcTime) -> (r: Result<RefreshNotice, AuthError>)
        ensures
            r is Ok <==> is_success_status(status) && json_text_field(body@, "access_token"@) is Some,
            r is Err ==> *final(self) == *old(self),
            !is_success_status(status) ==> r == Err::<RefreshNotice, AuthError>(AuthError::TokenRefreshFailed(status)),
            is_success_status(status) && json_text_field(body@, "access_token"@) is None
                ==> r == Err::<RefreshNotice, AuthError>(AuthError::MalformedResponse),
            r is Ok ==> exists|t: AccessToken| decodes_to(body@, t) && refreshed(*old(self), *final(self), t, now)
                && notice_of(r->Ok_0, installed_data(t, old(self).live_refresh_token(), now)),
    {
        match refresh_result(status, body) {
            Ok(t) => {
                let n = self.update_access_token_at(t, now);
                Ok(n)
            },
            Err(e) => Err(e),
        }
    }

    /// The value of the `Authorization` header for the current token.
    pub fn bearer_header(&self) -> (r: Option<String>)
        ensures
            match self.access_token {
                Some(d) => r is Some && r->0@ == "Bearer "@ + d.access_token@,
                None => r is None,
            },
    {
        match &self.access_token {
            Some(d) => {
                let mut h = String::from_str("Bearer ");
                h.append(d.access_token.as_str());
                Some(h)
            },
            None => None,
        }
    }
}

/// The token data of `token` issued at `now`, keeping `kept` where `token`
/// carries no refresh token.
fn install(token: AccessToken, kept: String, now: UtcTime) -> (r: ClientTokenData)
    ensures
        r == installed_data(token, kept, now),
{
    let refresh_token = if token.refresh_token.as_str().is_empty() {
        kept
    } else {
        token.refresh_token
    };
    let expires_on = now.plus_seconds(token.expires_in);
    ClientTokenData { access_token: token.access_token, expires_on, refresh_token }
}

/// The headers that every authenticated request carries: the bearer token,
/// and JSON as the accepted and the sent content type.
pub fn default_headers(token: &str) -> (r: Vec<(String, String)>)
    ensures
        form_view(r@) == seq![
            ("authorization"@, "Bearer "@ + token@),
            ("accept"@, "application/json"@),
            ("content-type"@, "application/json"@),
        ],
{
    let mut bearer = String::from_str("Bearer ");
    bearer.append(token);
    let mut v: Vec<(String, String)> = Vec::new();
    v.push((String::from_str("authorization"), bearer));
    v.push((String::from_str("accept"), String::from_str("application/json")));
    v.push((String::from_str("content-type"), String::from_str("application/json")));
    assert(form_view(v@) =~= seq![
        ("authorization"@, "Bearer "@ + token@),
        ("accept"@, "application/json"@),
        ("content-type"@, "application/json"@),
    ]);
    v
}

/// A manager made at `now` with a token of positive lifetime `e` expires
/// exactly `e` seconds after `now`: it is valid at `now` and at every instant
/// before that expiry, and invalid from the expiry on. The sum of `now`'s
/// seconds and `e` must fit in `i64`.
pub proof fn lemma_valid_until_lifetime_ends(
    creds: ClientCredentials,
    token: AccessToken,
    auto: bool,
    now: UtcTime,
    later: UtcTime,
)
    requires
        token.expires_in > 0,
        now.secs + token.expires_in <= i64::MAX,
    ensures
        initial_client(creds, token, auto, now).access_token->0.expires_on
            == (UtcTime { secs: (now.secs + token.expires_in) as i64, nanos: now.nanos }),
        initial_client(creds, token, auto, now).valid_at(now),
        is_before(later, shifted_by(now, token.expires_in as int))
            ==> initial_client(creds, token, auto, now).valid_at(later),
        !is_before(later, shifted_by(now, token.expires_in as int))
            ==> !initial_client(creds, token, auto, now).valid_at(later),
{
}

/// A refresh made because the token had expired at `now`, with a new
/// lifetime `e > 0`, installs the new access token with its expiry exactly
/// `e` seconds after `now`, which is strictly later than the old expiry; the
/// refresh token is kept where the answer carries none, and the manager is
/// valid at `now`. The sum of `now`'s seconds and `e` must fit in `i64`.
pub proof fn lemma_refresh_moves_expiry_later(old: GoogleClient, new: GoogleClient, token: AccessToken, now: UtcTime)
    requires
        old.access_token is Some,
        !old.valid_at(now),
        token.expires_in > 0,
        now.secs + token.expires_in <= i64::MAX,
        refreshed(old, new, token, now),
    ensures
        new.access_token->0.expires_on == (UtcTime { secs: (now.secs + token.expires_in) as i64, nanos: now.nanos }),
        is_before(old.access_token->0.expires_on, new.access_token->0.expires_on),
        new.access_token->0.access_token == token.access_token,
        token.refresh_token@.len() == 0 ==> new.access_token->0.refresh_token == old.access_token->0.refresh_token,
        token.refresh_token@.len() > 0 ==> new.access_token->0.refresh_token == token.refresh_token,
        new.valid_at(now),
{
}

/// Two refreshes that both went ahead (as when two callers found the token
/// expired at once) leave the manager valid, holding the token and expiry of
/// the one installed last, with credentials and policy untouched. The sum of
/// the last instant's seconds and the last lifetime must fit in `i64`.
pub proof fn lemma_last_refresh_wins(
    m0: GoogleClient,
    m1: GoogleClient,
    m2: GoogleClient,
    t1: AccessToken,
    t2: AccessToken,
    now1: UtcTime,
    now2: UtcTime,
)
    requires
        refreshed(m0, m1, t1, now1),
        refreshed(m1, m2, t2, now2),
        t2.expires_in > 0,
        now2.secs + t2.expires_in <= i64::MAX,
    ensures
        m2.valid_at(now2),
        m2.access_token->0.access_token == t2.access_token,
        m2.access_token->0.expires_on == (UtcTime { secs: (now2.secs + t2.expires_in) as i64, nanos: now2.nanos }),
        m2.client_credentials == m0.client_credentials,
        m2.auto_refresh_token == m0.auto_refresh_token,
{
}

} // verus!
