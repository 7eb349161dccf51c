use vstd::prelude::*;

use crate::request::{ApiError, bool_text, bool_to_text, decimal, decimal_text, HttpMethod, PaginationRequestTrait, Request,
    TimeRequestTrait};
use crate::token::{format_utc_time, rfc3339_text, UtcTime};

verus! {

/// Builder mode before an operation is chosen.
pub struct Uninitialized;

/// Builder mode for reading one event.
pub struct EventGetMode;

/// Builder mode for listing events; the list filters apply here.
pub struct EventListMode;

/// Builder mode for inserting an event.
pub struct EventInsertMode;

/// A request builder for the Calendar events resource. The mode `T` decides
/// which settings are offered.
pub struct CalendarEventsClient<T> {
    pub request: Request,
    /// The event to insert, in insert mode.
    pub event: Option<CreateEventRequest>,
    pub mode: std::marker::PhantomData<T>,
}

/// The list address of a calendar's events.
pub open spec fn events_url(calendar_id: Seq<char>) -> Seq<char> {
    "https://www.googleapis.com/calendar/v3/calendars/"@ + calendar_id + "/events"@
}

fn events_address(calendar_id: &str) -> (r: String)
    ensures
        r@ == events_url(calendar_id@),
{
    let mut url = String::from_str("https://www.googleapis.com/calendar/v3/calendars/");
    url.append(calendar_id);
    url.append("/events");
    url
}

/// The start or end of an event: a whole-day `date` (`yyyy-mm-dd`) or an
/// instant, with an optional time zone name.
#[derive(Clone, Debug, PartialEq)]
pub struct EventDateTime {
    pub date: Option<String>,
    pub date_time: Option<UtcTime>,
    pub time_zone: Option<String>,
}

/// A guest of an event.
#[derive(Clone, Debug, PartialEq)]
pub struct EventAttendee {
    pub id: String,
    pub email: String,
    pub display_name: String,
    pub organizer: Option<bool>,
    pub self_: Option<bool>,
    pub resource: Option<bool>,
    pub optional: Option<bool>,
    pub response_status: String,
    pub comment: String,
    pub additional_guests: i64,
}

/// The data of a birthday event.
#[derive(Clone, Debug, PartialEq)]
pub struct BirthdayProperties {
    pub contact: String,
    pub custom_type_name: String,
    pub birthday_type: String,
}

/// The data of an out-of-office event.
#[derive(Clone, Debug, PartialEq)]
pub struct OutOfOfficeProperties {
    pub auto_decline_mode: String,
    pub decline_message: String,
}

/// The payload of an event insertion.
#[derive(Clone, Debug, PartialEq)]
pub struct CreateEventRequest {
    pub start: EventDateTime,
    pub end: EventDateTime,
    pub summary: Option<String>,
    pub location: Option<String>,
    pub attendees: Vec<EventAttendee>,
    pub event_type: Option<String>,
    pub birthday_properties: Option<BirthdayProperties>,
    pub color_id: Option<String>,
    pub guests_can_invite_others: Option<bool>,
    pub guests_can_modify: Option<bool>,
    pub guests_can_see_other_guests: Option<bool>,
    pub id: Option<String>,
    pub out_of_office_properties: Option<OutOfOfficeProperties>,
    pub recurrence: Vec<String>,
}

impl CreateEventRequest {
    /// `self` is the payload for an event from `start` to `end` with nothing
    /// else set.
    pub open spec fn is_initial(&self, start: EventDateTime, end: EventDateTime) -> bool {
        &&& self.start == start
        &&& self.end == end
        &&& self.summary is None
        &&& self.location is None
        &&& self.attendees@.len() == 0
        &&& self.event_type is None
        &&& self.birthday_properties is None
        &&& self.color_id is None
        &&& self.guests_can_invite_others is None
        &&& self.guests_can_modify is None
        &&& self.guests_can_see_other_guests is None
        &&& self.id is None
        &&& self.out_of_office_properties is None
        &&& self.recurrence@.len() == 0
    }

    /// The payload for an event from `start` to `end` with nothing else set.
    pub fn new(start: EventDateTime, end: EventDateTime) -> (r: CreateEventRequest)
        ensures
            r.is_initial(start, end),
    {
        CreateEventRequest {
            start,
            end,
            summary: None,
            location: None,
            attendees: Vec::new(),
            event_type: None,
            birthday_properties: None,
            color_id: None,
            guests_can_invite_others: None,
            guests_can_modify: None,
            guests_can_see_other_guests: None,
            id: None,
            out_of_office_properties: None,
            recurrence: Vec::new(),
        }
    }
}

/// The order in which listed events come.
#[derive(Clone, Copy, Debug, PartialEq, Eq, Structural)]
pub enum EventOrderBy {
    StartTime,
    Updated,
}

/// The API's name of an event order.
pub open spec fn order_text(o: EventOrderBy) -> Seq<char> {
    match o {
        EventOrderBy::StartTime => "startTime"@,
        EventOrderBy::Updated => "updated"@,
    }
}

impl EventOrderBy {
    /// The API's name of this order.
    pub fn as_str(&self) -> (r: &'static str)
        ensures
            r@ == order_text(*self),
    {
        match self {
            EventOrderBy::StartTime => "startTime",
            EventOrderBy::Updated => "updated",
        }
    }
}

/// The kinds of calendar event that a listing can be filtered by.
#[derive(Clone, Copy, Debug, PartialEq, Eq, Structural)]
pub enum EventType {
    Birthday,
    Default,
    FocusTime,
    FromGmail,
    OutOfOffice,
    WorkingLocation,
}

/// The API's name of an event type.
pub open spec fn event_type_text(t: EventType) -> Seq<char> {
    match t {
        EventType::Birthday => "birthday"@,
        EventType::Default => "default"@,
        EventType::FocusTime => "focusTime"@,
        EventType::FromGmail => "fromGmail"@,
        EventType::OutOfOffice => "outOfOffice"@,
        EventType::WorkingLocation => "workingLocation"@,
    }
}

impl EventType {
    /// The API's name of this event type.
    pub fn as_str(&self) -> (r: &'static str)
        ensures
            r@ == event_type_text(*self),
    {
        match self {
            EventType::Birthday => "birthday",
            EventType::Default => "default",
            EventType::FocusTime => "focusTime",
            EventType::FromGmail => "fromGmail",
            EventType::OutOfOffice => "outOfOffice",
            EventType::WorkingLocation => "workingLocation",
        }
    }
}

impl CalendarEventsClient<Uninitialized> {
    /// A builder with no operation chosen yet.
    pub fn new() -> (r: CalendarEventsClient<Uninitialized>)
        ensures
            r.request.url@ == Seq::<char>::empty(),
            r.request.method == HttpMethod::Get,
            r.request.params@.len() == 0,
            r.request.body is None,
            r.event is None,
    {
        CalendarEventsClient { request: Request::new(), event: None, mode: std::marker::PhantomData }
    }

    /// Lists the events of `calendar_id`: a GET on the calendar's events.
    pub fn get_events(self, calendar_id: &str) -> (r: CalendarEventsClient<EventListMode>)
        ensures
            r.request.url@ == events_url(calendar_id@),
            r.request.method == HttpMethod::Get,
            r.request.params == self.request.params,
            r.request.body == self.request.body,
            r.event is None,
    {
        let mut request = self.request;
        request.url = events_address(calendar_id);
        request.method = HttpMethod::Get;
        CalendarEventsClient { request, event: None, mode: std::marker::PhantomData }
    }

    /// Inserts an event from `start` to `end` into `calendar_id`: a POST on
    /// the calendar's events, with an event payload that the setters fill.
    pub fn insert_event(self, calendar_id: &str, start: EventDateTime, end: EventDateTime) -> (r: CalendarEventsClient<EventInsertMode>)
        ensures
            r.request.url@ == events_url(calendar_id@),
            r.request.method == HttpMethod::Post,
            r.request.params == self.request.params,
            r.request.body == self.request.body,
            r.event is Some,
            r.event->0.is_initial(start, end),
    {
        let mut request = self.request;
        request.url = events_address(calendar_id);
        request.method = HttpMethod::Post;
        let event = CreateEventRequest::new(start, end);
        CalendarEventsClient { request, event: Some(event), mode: std::marker::PhantomData }
    }
}

impl<T> CalendarEventsClient<T> {
    /// The body to send with the request: none for a GET, the serialized
    /// event `payload` for a POST; the other verbs are not sent by this
    /// builder.
    pub fn outgoing_body(&self, payload: Option<String>) -> (r: Result<Option<String>, ApiError>)
        ensures
            self.request.method == HttpMethod::Get ==> r == Ok::<Option<String>, ApiError>(None),
            self.request.method == HttpMethod::Post ==> r == Ok::<Option<String>, ApiError>(payload),
            self.request.method == HttpMethod::Patch || self.request.method == HttpMethod::Delete
                ==> r == Err::<Option<String>, ApiError>(ApiError::UnsupportedMethod),
    {
        match self.request.method {
            HttpMethod::Get => Ok(None),
            HttpMethod::Post => Ok(payload),
            _ => Err(ApiError::UnsupportedMethod),
        }
    }
}

impl CalendarEventsClient<EventListMode> {
    fn with_param(self, key: &str, value: String) -> (r: CalendarEventsClient<EventListMode>)
        ensures
            self.request.sets(r.request, key@, value@),
    {
        let mut request = self.request;
        request.insert_param(String::from_str(key), value);
        CalendarEventsClient { request, event: self.event, mode: std::marker::PhantomData }
    }

    /// Lists only events of the type `type_` (`eventTypes`).
    pub fn event_type(self, type_: EventType) -> (r: CalendarEventsClient<EventListMode>)
        ensures
            self.request.sets(r.request, "eventTypes"@, event_type_text(type_)),
    {
        self.with_param("eventTypes", String::from_str(type_.as_str()))
    }

    /// Orders the listed events (`orderBy`).
    pub fn order_by(self, by: EventOrderBy) -> (r: CalendarEventsClient<EventListMode>)
        ensures
            self.request.sets(r.request, "orderBy"@, order_text(by)),
    {
        self.with_param("orderBy", String::from_str(by.as_str()))
    }

    /// Caps the attendees returned per event (`maxAttendees`).
    pub fn max_attendees(self, max: i64) -> (r: CalendarEventsClient<EventListMode>)
        ensures
            self.request.sets(r.request, "maxAttendees"@, decimal(max as int)),
    {
        self.with_param("maxAttendees", decimal_text(max))
    }

    /// Expands recurring events into single instances (`singleEvents`).
    pub fn single_events(self, single: bool) -> (r: CalendarEventsClient<EventListMode>)
        ensures
            self.request.sets(r.request, "singleEvents"@, bool_text(single)),
    {
        self.with_param("singleEvents", bool_to_text(single))
    }

    /// Includes hidden invitations (`showHiddenInvitations`).
    pub fn show_hidden_invitations(self, show: bool) -> (r: CalendarEventsClient<EventListMode>)
        ensures
            self.request.sets(r.request, "showHiddenInvitations"@, bool_text(show)),
    {
        self.with_param("showHiddenInvitations", bool_to_text(show))
    }

    /// Free-text search in summary, description, location and attendees (`q`).
    pub fn query(self, query_str: &str) -> (r: CalendarEventsClient<EventListMode>)
        ensures
            self.request.sets(r.request, "q"@, query_str@),
    {
        self.with_param("q", String::from_str(query_str))
    }

    fn with_time(self, key: &str, t: UtcTime) -> (r: CalendarEventsClient<EventListMode>)
        ensures
            match rfc3339_text(t.secs, t.nanos) {
                Some(s) => self.request.sets(r.request, key@, s),
                None => r.request == self.request,
            },
    {
        match format_utc_time(&t) {
            Some(s) => self.with_param(key, s),
            None => self,
        }
    }
}

impl CalendarEventsClient<EventInsertMode> {
    /// `r` is `self` with its payload changed as `f` relates the old payload
    /// to the new one, the request kept; `BuilderNotInitialized` where there
    /// is no payload.
    pub open spec fn payload_set(
        &self,
        r: Result<CalendarEventsClient<EventInsertMode>, ApiError>,
        f: spec_fn(CreateEventRequest, CreateEventRequest) -> bool,
    ) -> bool {
        match self.event {
            Some(a) => r is Ok && r->Ok_0.request == self.request && r->Ok_0.event is Some && f(a, r->Ok_0.event->0),
            None => r is Err && r->Err_0 == ApiError::BuilderNotInitialized,
        }
    }

    /// Sets the title of the event.
    pub fn set_event_summary(self, summary: &str) -> (r: Result<CalendarEventsClient<EventInsertMode>, ApiError>)
        ensures
            self.payload_set(r, |a: CreateEventRequest, b: CreateEventRequest|
                b == (CreateEventRequest { summary: b.summary, ..a }) && b.summary is Some && b.summary->0@ == summary@),
    {
        match self.event {
            Some(mut e) => {
                e.summary = Some(String::from_str(summary));
                Ok(CalendarEventsClient { request: self.request, event: Some(e), mode: std::marker::PhantomData })
            },
            None => Err(ApiError::BuilderNotInitialized),
        }
    }

    /// Sets the location of the event.
    pub fn set_event_location(self, location: &str) -> (r: Result<CalendarEventsClient<EventInsertMode>, ApiError>)
        ensures
            self.payload_set(r, |a: CreateEventRequest, b: CreateEventRequest|
                b == (CreateEventRequest { location: b.location, ..a }) && b.location is Some && b.location->0@ == location@),
    {
        match self.event {
            Some(mut e) => {
                e.location = Some(String::from_str(location));
                Ok(CalendarEventsClient { request: self.request, event: Some(e), mode: std::marker::PhantomData })
            },
            None => Err(ApiError::BuilderNotInitialized),
        }
    }

    /// Sets the guests of the event.
    pub fn set_event_attendees(self, attendees: Vec<EventAttendee>) -> (r: Result<CalendarEventsClient<EventInsertMode>, ApiError>)
        ensures
            self.payload_set(r, |a: CreateEventRequest, b: CreateEventRequest|
                b == (CreateEventRequest { attendees: b.attendees, ..a }) && b.attendees == attendees),
    {
        match self.event {
            Some(mut e) => {
                e.attendees = attendees;
                Ok(CalendarEventsClient { request: self.request, event: Some(e), mode: std::marker::PhantomData })
            },
            None => Err(ApiError::BuilderNotInitialized),
        }
    }

    /// Sets the type of the event.
    pub fn set_event_type(self, type_: EventType) -> (r: Result<CalendarEventsClient<EventInsertMode>, ApiError>)
        ensures
            self.payload_set(r, |a: CreateEventRequest, b: CreateEventRequest|
                b == (CreateEventRequest { event_type: b.event_type, ..a }) && b.event_type is Some && b.event_type->0@ == event_type_text(type_)),
    {
        match self.event {
            Some(mut e) => {
                e.event_type = Some(String::from_str(type_.as_str()));
                Ok(CalendarEventsClient { request: self.request, event: Some(e), mode: std::marker::PhantomData })
            },
            None => Err(ApiError::BuilderNotInitialized),
        }
    }

    /// Sets the birthday data of the event.
    pub fn set_birtday_properties(self, birtday_properties: BirthdayProperties) -> (r: Result<CalendarEventsClient<EventInsertMode>, ApiError>)
        ensures
            self.payload_set(r, |a: CreateEventRequest, b: CreateEventRequest|
                b == (CreateEventRequest { birthday_properties: b.birthday_properties, ..a }) && b.birthday_properties == Some(birtday_properties)),
    {
        match self.event {
            Some(mut e) => {
                e.birthday_properties = Some(birtday_properties);
                Ok(CalendarEventsClient { request: self.request, event: Some(e), mode: std::marker::PhantomData })
            },
            None => Err(ApiError::BuilderNotInitialized),
        }
    }

    /// Sets the color of the event.
    pub fn set_color_id(self, color_id: &str) -> (r: Result<CalendarEventsClient<EventInsertMode>, ApiError>)
        ensures
            self.payload_set(r, |a: CreateEventRequest, b: CreateEventRequest|
                b == (CreateEventRequest { color_id: b.color_id, ..a }) && b.color_id is Some && b.color_id->0@ == color_id@),
    {
        match self.event {
            Some(mut e) => {
                e.color_id = Some(String::from_str(color_id));
                Ok(CalendarEventsClient { request: self.request, event: Some(e), mode: std::marker::PhantomData })
            },
            None => Err(ApiError::BuilderNotInitialized),
        }
    }

    /// Sets whether guests may invite others.
    pub fn set_guests_can_invite_others(self, can_invite: bool) -> (r: Result<CalendarEventsClient<EventInsertMode>, ApiError>)
        ensures
            self.payload_set(r, |a: CreateEventRequest, b: CreateEventRequest|
                b == (CreateEventRequest { guests_can_invite_others: b.guests_can_invite_others, ..a }) && b.guests_can_invite_others == Some(can_invite)),
    {
        match self.event {
            Some(mut e) => {
                e.guests_can_invite_others = Some(can_invite);
                Ok(CalendarEventsClient { request: self.request, event: Some(e), mode: std::marker::PhantomData })
            },
            None => Err(ApiError::BuilderNotInitialized),
        }
    }

    /// Sets whether guests may modify the event.
    pub fn set_guests_can_modify(self, can_modify: bool) -> (r: Result<CalendarEventsClient<EventInsertMode>, ApiError>)
        ensures
            self.payload_set(r, |a: CreateEventRequest, b: CreateEventRequest|
                b == (CreateEventRequest { guests_can_modify: b.guests_can_modify, ..a }) && b.guests_can_modify == Some(can_modify)),
    {
        match self.event {
            Some(mut e) => {
                e.guests_can_modify = Some(can_modify);
                Ok(CalendarEventsClient { request: self.request, event: Some(e), mode: std::marker::PhantomData })
            },
            None => Err(ApiError::BuilderNotInitialized),
        }
    }

    /// Sets whether guests see one another.
    pub fn set_guests_can_see_other_guests(self, can_see: bool) -> (r: Result<CalendarEventsClient<EventInsertMode>, ApiError>)
        ensures
            self.payload_set(r, |a: CreateEventRequest, b: CreateEventRequest|
                b == (CreateEventRequest { guests_can_see_other_guests: b.guests_can_see_other_guests, ..a }) && b.guests_can_see_other_guests == Some(can_see)),
    {
        match self.event {
            Some(mut e) => {
                e.guests_can_see_other_guests = Some(can_see);
                Ok(CalendarEventsClient { request: self.request, event: Some(e), mode: std::marker::PhantomData })
            },
            None => Err(ApiError::BuilderNotInitialized),
        }
    }

    /// Sets the identifier of the event.
    pub fn set_id(self, id: &str) -> (r: Result<CalendarEventsClient<EventInsertMode>, ApiError>)
        ensures
            self.payload_set(r, |a: CreateEventRequest, b: CreateEventRequest|
                b == (CreateEventRequest { id: b.id, ..a }) && b.id is Some && b.id->0@ == id@),
    {
        match self.event {
            Some(mut e) => {
                e.id = Some(String::from_str(id));
                Ok(CalendarEventsClient { request: self.request, event: Some(e), mode: std::marker::PhantomData })
            },
            None => Err(ApiError::BuilderNotInitialized),
        }
    }

    /// Sets the out-of-office data of the event.
    pub fn set_out_of_office_properties(self, out_of_office_properties: OutOfOfficeProperties) -> (r: Result<CalendarEventsClient<EventInsertMode>, ApiError>)
        ensures
            self.payload_set(r, |a: CreateEventRequest, b: CreateEventRequest|
                b == (CreateEventRequest { out_of_office_properties: b.out_of_office_properties, ..a }) && b.out_of_office_properties == Some(out_of_office_properties)),
    {
        match self.event {
            Some(mut e) => {
                e.out_of_office_properties = Some(out_of_office_properties);
                Ok(CalendarEventsClient { request: self.request, event: Some(e), mode: std::marker::PhantomData })
            },
            None => Err(ApiError::BuilderNotInitialized),
        }
    }

    /// Sets the recurrence rules (RFC 5545 lines) of the event.
    pub fn set_recurrence(self, recurrence: Vec<String>) -> (r: Result<CalendarEventsClient<EventInsertMode>, ApiError>)
        ensures
            self.payload_set(r, |a: CreateEventRequest, b: CreateEventRequest|
                b == (CreateEventRequest { recurrence: b.recurrence, ..a }) && b.recurrence == recurrence),
    {
        match self.event {
            Some(mut e) => {
                e.recurrence = recurrence;
                Ok(CalendarEventsClient { request: self.request, event: Some(e), mode: std::marker::PhantomData })
            },
            None => Err(ApiError::BuilderNotInitialized),
        }
    }
}

impl PaginationRequestTrait for CalendarEventsClient<EventListMode> {
    /// The most events on one page (`maxResults`).
    fn max_results(self, max: i64) -> (r: CalendarEventsClient<EventListMode>)
        ensures
            self.request.sets(r.request, "maxResults"@, decimal(max as int)),
    {
        self.with_param("maxResults", decimal_text(max))
    }

    /// The page to return (`pageToken`).
    fn page_token(self, token: &str) -> (r: CalendarEventsClient<EventListMode>)
        ensures
            self.request.sets(r.request, "pageToken"@, token@),
    {
        self.with_param("pageToken", String::from_str(token))
    }
}

impl TimeRequestTrait for CalendarEventsClient<EventListMode> {
    /// Lists only events ending after `time_min` (`timeMin`, RFC 3339). An
    /// instant that has no RFC 3339 text leaves the request as it was.
    fn time_min(self, time_min: UtcTime) -> (r: CalendarEventsClient<EventListMode>)
        ensures
            match rfc3339_text(time_min.secs, time_min.nanos) {
                Some(s) => self.request.sets(r.request, "timeMin"@, s),
                None => r.request == self.request,
            },
    {
        self.with_time("timeMin", time_min)
    }

    /// Lists only events starting before `time_max` (`timeMax`, RFC 3339). An
    /// instant that has no RFC 3339 text leaves the request as it was.
    fn time_max(self, time_max: UtcTime) -> (r: CalendarEventsClient<EventListMode>)
        ensures
            match rfc3339_text(time_max.secs, time_max.nanos) {
                Some(s) => self.request.sets(r.request, "timeMax"@, s),
                None => r.request == self.request,
            },
    {
        self.with_time("timeMax", time_max)
    }
}

} // verus!
