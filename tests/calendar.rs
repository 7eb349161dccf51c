use chrono::{Duration, Utc};
use google_workspace_apis::calendar::{
    BirthdayProperties, CalendarEventsClient, EventAttendee, EventDateTime, EventOrderBy, EventType,
    OutOfOfficeProperties,
};
use google_workspace_apis::client::GoogleClient;
use google_workspace_apis::request::{ApiError, HttpMethod, TimeRequestTrait};
use google_workspace_apis::token::{get_validity_token_secs, AccessToken, ClientCredentials, UtcTime};

fn dummy_creds() -> ClientCredentials {
    ClientCredentials {
        client_id: "cid".into(),
        client_secret: "secret".into(),
        redirect_uri: "https://example.com/cb".into(),
        refresh_token: "rtok".into(),
    }
}

fn dummy_access(expires_in_secs: i64) -> AccessToken {
    AccessToken {
        token_type: "Bearer".into(),
        access_token: "atok".into(),
        expires_in: expires_in_secs,
        refresh_token: "rtok".into(),
        refresh_token_expires_in: 3600,
        scope: "scope".into(),
    }
}

fn dummy_google_client_valid() -> GoogleClient {
    // long validity: no refresh is due during the tests
    GoogleClient::new(dummy_creds(), dummy_access(60 * 60), false)
}

fn utc(d: chrono::DateTime<Utc>) -> UtcTime {
    UtcTime { secs: d.timestamp(), nanos: d.timestamp_subsec_nanos() }
}

fn sample_dt(date: &str) -> EventDateTime {
    EventDateTime {
        date: Some(date.to_string()),
        date_time: None,
        time_zone: None,
    }
}

#[test]
fn event_order_by_as_str() {
    assert_eq!(EventOrderBy::StartTime.as_str(), "startTime");
    assert_eq!(EventOrderBy::Updated.as_str(), "updated");
}

#[test]
fn event_type_as_str() {
    assert_eq!(EventType::Birthday.as_str(), "birthday");
    assert_eq!(EventType::Default.as_str(), "default");
    assert_eq!(EventType::FocusTime.as_str(), "focusTime");
    assert_eq!(EventType::FromGmail.as_str(), "fromGmail");
    assert_eq!(EventType::OutOfOffice.as_str(), "outOfOffice");
    assert_eq!(EventType::WorkingLocation.as_str(), "workingLocation");
}

#[test]
fn get_validity_token_secs_works_for_past_and_future() {
    let future = (Utc::now() + Duration::seconds(120)).to_rfc3339();
    let past = (Utc::now() - Duration::seconds(120)).to_rfc3339();

    assert!(get_validity_token_secs(&future) > 0);
    assert!(get_validity_token_secs(&past) < 0);
}

#[test]
fn google_client_validity_flag() {
    let gc = dummy_google_client_valid();
    assert!(gc.is_access_token_valid());
}

#[test]
fn get_events_sets_url_method_and_params() {
    let _gc = dummy_google_client_valid();

    let builder = CalendarEventsClient::new()
        .get_events("primary")
        .single_events(true)
        .event_type(EventType::Birthday)
        .order_by(EventOrderBy::StartTime)
        .max_attendees(5)
        .show_hidden_invitations(true)
        .query("hello world");

    assert_eq!(
        builder.request.url,
        "https://www.googleapis.com/calendar/v3/calendars/primary/events"
    );
    assert_eq!(builder.request.method, HttpMethod::Get);

    let p = &builder.request;
    assert_eq!(p.param("singleEvents").as_deref(), Some("true"));
    assert_eq!(p.param("eventTypes").as_deref(), Some("birthday"));
    assert_eq!(p.param("orderBy").as_deref(), Some("startTime"));
    assert_eq!(p.param("maxAttendees").as_deref(), Some("5"));
    assert_eq!(p.param("showHiddenInvitations").as_deref(), Some("true"));
    assert_eq!(p.param("q").as_deref(), Some("hello world"));
}

#[test]
fn time_filters_are_serialized_as_rfc3339() {
    let _gc = dummy_google_client_valid();

    let now = Utc::now();
    let later = now + Duration::days(1);

    let builder = CalendarEventsClient::new()
        .get_events("primary")
        .time_min(utc(now))
        .time_max(utc(later));

    let p = &builder.request;
    assert_eq!(p.param("timeMin").unwrap(), now.to_rfc3339());
    assert_eq!(p.param("timeMax").unwrap(), later.to_rfc3339());
}

#[test]
fn make_request_unsupported_method_errors() {
    let _gc = dummy_google_client_valid();
    // start from the list mode, then force a verb that this builder never sends
    let mut client = CalendarEventsClient::new().get_events("primary");
    client.request.method = HttpMethod::Delete;

    let res = client.outgoing_body(None);
    assert!(res.is_err());
    assert!(matches!(res, Err(ApiError::UnsupportedMethod)));
}

#[test]
fn calendar_bodies_by_verb() {
    let mut client = CalendarEventsClient::new().get_events("primary");
    assert!(matches!(client.outgoing_body(Some("{}".into())), Ok(None)));
    client.request.method = HttpMethod::Post;
    assert_eq!(client.outgoing_body(Some("{}".into())).unwrap().as_deref(), Some("{}"));
    client.request.method = HttpMethod::Patch;
    assert!(client.outgoing_body(None).is_err());
}

#[test]
fn insert_event_builds_body_and_setters_apply() {
    let start = sample_dt("2025-07-28");
    let end = sample_dt("2025-07-28");
    let attendees = vec![EventAttendee {
        id: String::new(),
        email: "a@example.com".into(),
        display_name: String::new(),
        organizer: None,
        self_: None,
        resource: None,
        optional: None,
        response_status: String::new(),
        comment: String::new(),
        additional_guests: 0,
    }];

    let builder = CalendarEventsClient::new()
        .insert_event("cal_123", start.clone(), end.clone())
        .set_event_summary("My Summary")
        .and_then(|b| b.set_event_location("Somewhere"))
        .and_then(|b| b.set_event_attendees(attendees.clone()))
        .and_then(|b| b.set_event_type(EventType::Default))
        .and_then(|b| b.set_color_id("5"))
        .and_then(|b| b.set_recurrence(vec!["RRULE:FREQ=DAILY".into()]))
        .and_then(|b| b.set_guests_can_invite_others(true))
        .and_then(|b| b.set_guests_can_modify(false))
        .and_then(|b| b.set_guests_can_see_other_guests(true))
        .and_then(|b| b.set_id("new-id"))
        .and_then(|b| {
            b.set_birtday_properties(BirthdayProperties {
                contact: "people/c1".into(),
                custom_type_name: String::new(),
                birthday_type: "birthday".into(),
            })
        })
        .and_then(|b| {
            b.set_out_of_office_properties(OutOfOfficeProperties {
                auto_decline_mode: "declineNone".into(),
                decline_message: "away".into(),
            })
        })
        .unwrap();

    assert_eq!(
        builder.request.url,
        "https://www.googleapis.com/calendar/v3/calendars/cal_123/events"
    );
    assert_eq!(builder.request.method, HttpMethod::Post);

    let payload = builder.event.as_ref().unwrap();
    assert_eq!(payload.start, start);
    assert_eq!(payload.end, end);
    assert_eq!(payload.summary.as_deref(), Some("My Summary"));
    assert_eq!(payload.location.as_deref(), Some("Somewhere"));
    assert_eq!(payload.color_id.as_deref(), Some("5"));
    assert_eq!(payload.attendees, attendees);
    assert_eq!(payload.recurrence, vec!["RRULE:FREQ=DAILY".to_string()]);
    assert_eq!(payload.event_type.as_deref(), Some("default"));
    assert_eq!(payload.guests_can_invite_others, Some(true));
    assert_eq!(payload.guests_can_modify, Some(false));
    assert_eq!(payload.guests_can_see_other_guests, Some(true));
    assert_eq!(payload.id.as_deref(), Some("new-id"));
    assert_eq!(payload.birthday_properties.as_ref().unwrap().contact, "people/c1");
    assert_eq!(payload.out_of_office_properties.as_ref().unwrap().decline_message, "away");
    assert_eq!(builder.outgoing_body(Some("{}".into())).unwrap().as_deref(), Some("{}"));
}

#[test]
fn setter_without_payload_reports_uninitialized() {
    let mut builder = CalendarEventsClient::new().insert_event("primary", sample_dt("2026-02-01"), sample_dt("2026-02-02"));
    builder.event = None;
    assert!(matches!(builder.set_event_summary("x"), Err(ApiError::BuilderNotInitialized)));
}
