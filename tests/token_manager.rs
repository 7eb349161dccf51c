use google_workspace_apis::client::{default_headers, GoogleClient};
use google_workspace_apis::oauth::{
    code_exchange_form, code_exchange_result, decode_access_token, get_oauth_url, refresh_result,
    refresh_token_form, AuthError,
};
use google_workspace_apis::scopes::Scope;
use google_workspace_apis::token::{
    try_validity_token_secs, validity_secs_at, AccessToken, ClientCredentials, ClientTokenData,
    UtcTime,
};

fn creds() -> ClientCredentials {
    ClientCredentials {
        client_id: "cid".into(),
        client_secret: "secret".into(),
        redirect_uri: "https://example.com/cb".into(),
        refresh_token: "rtok".into(),
    }
}

fn access(expires_in: i64) -> AccessToken {
    AccessToken {
        token_type: "Bearer".into(),
        access_token: "atok".into(),
        expires_in,
        refresh_token: "rtok".into(),
        refresh_token_expires_in: 3600,
        scope: "scope".into(),
    }
}

fn at(secs: i64) -> UtcTime {
    UtcTime { secs, nanos: 0 }
}

const T: i64 = 1_700_000_000;

fn snapshot(gc: &GoogleClient) -> String {
    let d = gc.access_token.as_ref().unwrap();
    format!(
        "{}|{:?}|{}|{}|{}",
        d.access_token, d.expires_on, d.refresh_token, gc.auto_refresh_token, gc.client_credentials.refresh_token
    )
}

fn pairs(v: &[(String, String)]) -> Vec<(&str, &str)> {
    v.iter().map(|(a, b)| (a.as_str(), b.as_str())).collect()
}

#[test]
fn oauth_url_scenario() {
    let url = get_oauth_url(
        "abc",
        "https://app/cb",
        vec![Scope::CalendarReadOnly, Scope::TasksReadOnly],
    );
    assert_eq!(
        url,
        "https://accounts.google.com/o/oauth2/auth?client_id=abc&redirect_uri=https://app/cb\
         &response_type=code&scope=https://www.googleapis.com/auth/calendar.readonly \
         https://www.googleapis.com/auth/tasks.readonly&access_type=offline&prompt=consent"
    );
    assert!(url.contains(
        "https://www.googleapis.com/auth/calendar.readonly https://www.googleapis.com/auth/tasks.readonly"
    ));
    assert!(url.contains("prompt=consent"));
    assert!(url.contains("access_type=offline"));
}

#[test]
fn oauth_url_with_one_and_no_scopes() {
    let one = get_oauth_url("c", "r", vec![Scope::Mail]);
    assert!(one.ends_with("&scope=https://mail.google.com&access_type=offline&prompt=consent"));
    let none = get_oauth_url("c", "r", vec![]);
    assert!(none.ends_with("&scope=&access_type=offline&prompt=consent"));
}

#[test]
fn scope_strings_are_canonical() {
    assert_eq!(Scope::Calendar.as_str(), "https://www.googleapis.com/auth/calendar");
    assert_eq!(Scope::Tasks.as_str(), "https://www.googleapis.com/auth/tasks");
    assert_eq!(Scope::MailModify.as_str(), "https://www.googleapis.com/auth/gmail.modify");
    assert_eq!(Scope::MailMetadata.as_str(), "https://www.googleapis.com/auth/gmail.metadata");
    assert_eq!(
        Scope::CalendarEventsPublicReadonly.as_str(),
        "https://www.googleapis.com/auth/calendar.events.public.readonly"
    );
    assert_ne!(Scope::CalendarEventsPublicReadonly.as_str(), Scope::CalendarReadOnly.as_str());
}

#[test]
fn valid_right_after_construction_and_invalid_after_lifetime() {
    for e in [1i64, 60, 3600, 86_400] {
        let gc = GoogleClient::new_at(creds(), access(e), true, at(T));
        assert!(gc.is_access_token_valid_at(&at(T)));
        assert!(gc.is_access_token_valid_at(&UtcTime { secs: T + e - 1, nanos: 999_999_999 }));
        assert!(!gc.is_access_token_valid_at(&at(T + e)));
        assert!(!gc.is_access_token_valid_at(&at(T + e + 1)));
    }
}

#[test]
fn conversion_fixes_expiry_exactly() {
    let data = ClientTokenData::from_token_at(access(3600), UtcTime { secs: T, nanos: 42 });
    assert_eq!(data.expires_on, UtcTime { secs: T + 3600, nanos: 42 });
    assert_eq!(data.access_token, "atok");
    assert_eq!(data.refresh_token, "rtok");
}

#[test]
fn expiry_saturates_at_the_end_of_time() {
    let data = ClientTokenData::from_token_at(access(i64::MAX), at(T));
    assert_eq!(data.expires_on.secs, i64::MAX);
}

#[test]
fn check_is_noop_when_auto_refresh_disabled() {
    let gc = GoogleClient::new_at(creds(), access(60), false, at(T));
    assert!(gc.refresh_access_token_check_at(&at(T)).is_none());
    assert!(gc.refresh_access_token_check_at(&at(T + 1000)).is_none());
    assert!(gc.refresh_access_token_check().is_none());
}

#[test]
fn check_is_noop_while_token_valid() {
    let mut gc = GoogleClient::new_at(creds(), access(60), true, at(T));
    assert!(gc.refresh_access_token_check_at(&at(T + 59)).is_none());
    gc.disable_auto_refresh();
    assert!(gc.refresh_access_token_check_at(&at(T + 59)).is_none());
}

#[test]
fn check_asks_for_refresh_when_expired_and_enabled() {
    let mut gc = GoogleClient::new_at(creds(), access(60), false, at(T));
    gc.enable_auto_refresh();
    assert!(gc.auto_refresh_token);
    let form = gc.refresh_access_token_check_at(&at(T + 60)).unwrap();
    assert_eq!(
        pairs(&form),
        vec![
            ("client_id", "cid"),
            ("client_secret", "secret"),
            ("refresh_token", "rtok"),
            ("grant_type", "refresh_token"),
        ]
    );
}

#[test]
fn successful_refresh_installs_new_token_and_keeps_refresh_token() {
    let mut gc = GoogleClient::new_at(creds(), access(60), true, at(T));
    let old_expiry = gc.access_token.as_ref().unwrap().expires_on;
    let now = at(T + 120);
    let body = r#"{"access_token":"newtok","expires_in":3599,"scope":"s","token_type":"Bearer"}"#;
    let notice = gc.apply_refresh_response_at(200, body, now).unwrap();
    let data = gc.access_token.as_ref().unwrap();
    assert_eq!(data.access_token, "newtok");
    assert_ne!(data.access_token, "atok");
    assert_eq!(data.refresh_token, "rtok");
    assert_eq!(data.expires_on, at(T + 120 + 3599));
    assert!(old_expiry.before(&data.expires_on));
    assert_eq!(notice.new_token, "newtok");
    assert_eq!(notice.refresh_token, "rtok");
    assert_eq!(notice.new_expiry, at(T + 3719));
    assert!(gc.is_access_token_valid_at(&now));
    assert_eq!(gc.bearer_header().unwrap(), "Bearer newtok");
}

#[test]
fn refresh_with_new_refresh_token_rotates_it() {
    let mut gc = GoogleClient::new_at(creds(), access(60), true, at(T));
    let body = r#"{"access_token":"n2","expires_in":10,"refresh_token":"r2"}"#;
    let notice = gc.apply_refresh_response_at(200, body, at(T + 61)).unwrap();
    assert_eq!(notice.refresh_token, "r2");
    let form = gc.refresh_form();
    assert_eq!(pairs(&form)[2], ("refresh_token", "r2"));
}

#[test]
fn failed_refresh_leaves_manager_unchanged() {
    let mut gc = GoogleClient::new_at(creds(), access(60), true, at(T));
    let before = snapshot(&gc);
    let r = gc.apply_refresh_response_at(401, r#"{"error":"invalid_grant"}"#, at(T + 120));
    assert!(matches!(r, Err(AuthError::TokenRefreshFailed(401))));
    assert_eq!(snapshot(&gc), before);
    assert_eq!(gc.access_token.as_ref().unwrap().access_token, "atok");
    assert!(!gc.is_access_token_valid_at(&at(T + 120)));
}

#[test]
fn refresh_without_access_token_is_malformed() {
    let mut gc = GoogleClient::new_at(creds(), access(60), true, at(T));
    let before = snapshot(&gc);
    let r = gc.apply_refresh_response_at(200, "not json", at(T + 120));
    assert!(matches!(r, Err(AuthError::MalformedResponse)));
    let r = gc.apply_refresh_response_at(200, r#"{"expires_in":5}"#, at(T + 120));
    assert!(matches!(r, Err(AuthError::MalformedResponse)));
    assert_eq!(snapshot(&gc), before);
}

#[test]
fn stale_token_is_used_when_auto_refresh_is_off() {
    let gc = GoogleClient::new_at(creds(), access(60), false, at(T));
    let now = at(T + 600);
    assert!(!gc.is_access_token_valid_at(&now));
    assert!(gc.refresh_access_token_check_at(&now).is_none());
    assert_eq!(gc.bearer_header().unwrap(), "Bearer atok");
}

#[test]
fn two_racing_refreshes_end_valid_with_a_consistent_token() {
    let mut gc = GoogleClient::new_at(creds(), access(60), true, at(T));
    let now = at(T + 100);
    // both callers see an expired token and both refresh
    assert!(gc.refresh_access_token_check_at(&now).is_some());
    assert!(gc.refresh_access_token_check_at(&now).is_some());
    let a = gc.apply_refresh_response_at(200, r#"{"access_token":"a","expires_in":3600}"#, now).unwrap();
    let b = gc.apply_refresh_response_at(200, r#"{"access_token":"b","expires_in":3600}"#, now).unwrap();
    assert_eq!(a.new_token, "a");
    assert_eq!(b.new_token, "b");
    assert!(gc.is_access_token_valid_at(&now));
    let data = gc.access_token.as_ref().unwrap();
    assert_eq!(data.access_token, b.new_token);
    assert_eq!(data.expires_on, b.new_expiry);
    assert!(gc.refresh_access_token_check_at(&now).is_none());
}

#[test]
fn construction_without_refresh_token_keeps_credentials_one() {
    let mut t = access(60);
    t.refresh_token = String::new();
    let gc = GoogleClient::new_at(creds(), t, true, at(T));
    assert_eq!(gc.access_token.as_ref().unwrap().refresh_token, "rtok");
}

#[test]
fn code_exchange_form_fields() {
    let f = code_exchange_form("the-code", "sec", "cid", "https://x/cb");
    assert_eq!(
        pairs(&f),
        vec![
            ("code", "the-code"),
            ("client_id", "cid"),
            ("client_secret", "sec"),
            ("redirect_uri", "https://x/cb"),
            ("grant_type", "authorization_code"),
        ]
    );
    let r = refresh_token_form("cid", "sec", "rt");
    assert_eq!(pairs(&r)[3], ("grant_type", "refresh_token"));
}

#[test]
fn code_exchange_reads_full_response() {
    let body = r#"{"access_token":"ya29","expires_in":3599,"refresh_token":"1//rt",
        "scope":"https://www.googleapis.com/auth/tasks","token_type":"Bearer",
        "refresh_token_expires_in":604799}"#;
    let t = code_exchange_result(200, body).unwrap();
    assert_eq!(t.access_token, "ya29");
    assert_eq!(t.expires_in, 3599);
    assert_eq!(t.refresh_token, "1//rt");
    assert_eq!(t.scope, "https://www.googleapis.com/auth/tasks");
    assert_eq!(t.token_type, "Bearer");
    assert_eq!(t.refresh_token_expires_in, 604799);
}

#[test]
fn code_exchange_is_lenient() {
    let t = code_exchange_result(200, r#"{"access_token":"a","expires_in":"soon","x_refresh_token_expires_in":77}"#).unwrap();
    assert_eq!(t.access_token, "a");
    assert_eq!(t.expires_in, 0);
    assert_eq!(t.refresh_token, "");
    assert_eq!(t.refresh_token_expires_in, 77);
    let empty = code_exchange_result(200, "garbage").unwrap();
    assert_eq!(empty.access_token, "");
    assert_eq!(empty.expires_in, 0);
}

#[test]
fn code_exchange_failure_carries_status() {
    assert!(matches!(code_exchange_result(400, "{}"), Err(AuthError::AuthExchangeFailed(400))));
    assert!(matches!(code_exchange_result(503, ""), Err(AuthError::AuthExchangeFailed(503))));
    assert!(code_exchange_result(299, "{}").is_ok());
    assert!(matches!(code_exchange_result(300, "{}"), Err(AuthError::AuthExchangeFailed(300))));
}

#[test]
fn refresh_result_paths() {
    assert!(matches!(refresh_result(500, "{}"), Err(AuthError::TokenRefreshFailed(500))));
    assert!(matches!(refresh_result(200, "{}"), Err(AuthError::MalformedResponse)));
    let t = refresh_result(200, r#"{"access_token":"z","expires_in":12}"#).unwrap();
    assert_eq!(t.access_token, "z");
    assert_eq!(t.expires_in, 12);
}

#[test]
fn decode_prefers_main_lifetime_field() {
    let t = decode_access_token(r#"{"refresh_token_expires_in":5,"x_refresh_token_expires_in":9}"#);
    assert_eq!(t.refresh_token_expires_in, 5);
}

#[test]
fn headers_carry_bearer_and_json() {
    let h = default_headers("tok");
    assert_eq!(
        pairs(&h),
        vec![
            ("authorization", "Bearer tok"),
            ("accept", "application/json"),
            ("content-type", "application/json"),
        ]
    );
}

#[test]
fn validity_seconds_at_fixed_instant() {
    let now = UtcTime { secs: 1_753_660_800, nanos: 0 };
    assert_eq!(validity_secs_at("2025-07-28T00:02:00+00:00", &now), Some(120));
    assert_eq!(validity_secs_at("2025-07-28T00:00:00Z", &at(1_753_660_920)), Some(-120));
    assert_eq!(validity_secs_at("2025-07-28T02:00:00+02:00", &now), Some(0));
    assert_eq!(validity_secs_at("yesterday", &now), None);
    assert_eq!(try_validity_token_secs("not a date"), None);
    assert!(try_validity_token_secs("2999-01-01T00:00:00Z").unwrap() > 0);
}

#[test]
fn seconds_until_rounds_toward_zero() {
    let a = UtcTime { secs: 10, nanos: 500_000_000 };
    assert_eq!(a.seconds_until(&UtcTime { secs: 12, nanos: 0 }), 1);
    assert_eq!(UtcTime { secs: 12, nanos: 0 }.seconds_until(&a), -1);
    assert_eq!(at(i64::MIN).seconds_until(&at(i64::MAX)), i64::MAX);
}

#[test]
fn update_access_token_now_keeps_refresh_token() {
    let mut gc = GoogleClient::new(creds(), access(1), true);
    let mut fresh = access(3600);
    fresh.access_token = "fresh".into();
    fresh.refresh_token = String::new();
    let notice = gc.update_access_token(fresh);
    assert_eq!(notice.new_token, "fresh");
    assert_eq!(notice.refresh_token, "rtok");
    assert!(gc.is_access_token_valid());
    assert!(gc.refresh_access_token_check().is_none());
    assert_eq!(gc.access_token.as_ref().unwrap().expires_on, notice.new_expiry);
}
