use vstd::prelude::*;

verus! {

/// A permission that the application may request during authorization.
#[derive(Clone, Copy, Debug, PartialEq, Eq, Structural)]
pub enum Scope {
    Calendar,
    CalendarEvents,
    CalendarEventsReadonly,
    CalendarReadOnly,
    CalendarAppCreated,
    CalendarEventsFreeBusy,
    CalendarEventsOwned,
    CalendarEventsOwnedReadonly,
    CalendarEventsPublicReadonly,
    TasksReadOnly,
    Tasks,
    Mail,
    MailModify,
    MailReadonly,
    MailMetadata,
}

/// The provider's permission string for each scope.
pub open spec fn scope_text(s: Scope) -> Seq<char> {
    match s {
        Scope::Calendar => "https://www.googleapis.com/auth/calendar"@,
        Scope::CalendarEvents => "https://www.googleapis.com/auth/calendar.events"@,
        Scope::CalendarEventsReadonly => "https://www.googleapis.com/auth/calendar.events.readonly"@,
        Scope::CalendarReadOnly => "https://www.googleapis.com/auth/calendar.readonly"@,
        Scope::CalendarAppCreated => "https://www.googleapis.com/auth/calendar.app.created"@,
        Scope::CalendarEventsFreeBusy => "https://www.googleapis.com/auth/calendar.events.freebusy"@,
        Scope::CalendarEventsOwned => "https://www.googleapis.com/auth/calendar.events.owned"@,
        Scope::CalendarEventsOwnedReadonly => "https://www.googleapis.com/auth/calendar.events.owned.readonly"@,
        Scope::CalendarEventsPublicReadonly => "https://www.googleapis.com/auth/calendar.events.public.readonly"@,
        Scope::TasksReadOnly => "https://www.googleapis.com/auth/tasks.readonly"@,
        Scope::Tasks => "https://www.googleapis.com/auth/tasks"@,
        Scope::Mail => "https://mail.google.com"@,
        Scope::MailModify => "https://www.googleapis.com/auth/gmail.modify"@,
        Scope::MailReadonly => "https://www.googleapis.com/auth/gmail.readonly"@,
        Scope::MailMetadata => "https://www.googleapis.com/auth/gmail.metadata"@,
    }
}

impl Scope {
    /// The permission string sent in the `scope` parameter.
    pub fn as_str(&self) -> (r: &'static str)
        ensures
            r@ == scope_text(*self),
    {
        match self {
            Scope::Calendar => "https://www.googleapis.com/auth/calendar",
            Scope::CalendarEvents => "https://www.googleapis.com/auth/calendar.events",
            Scope::CalendarEventsReadonly => "https://www.googleapis.com/auth/calendar.events.readonly",
            Scope::CalendarReadOnly => "https://www.googleapis.com/auth/calendar.readonly",
            Scope::CalendarAppCreated => "https://www.googleapis.com/auth/calendar.app.created",
            Scope::CalendarEventsFreeBusy => "https://www.googleapis.com/auth/calendar.events.freebusy",
            Scope::CalendarEventsOwned => "https://www.googleapis.com/auth/calendar.events.owned",
            Scope::CalendarEventsOwnedReadonly => "https://www.googleapis.com/auth/calendar.events.owned.readonly",
            Scope::CalendarEventsPublicReadonly => "https://www.googleapis.com/auth/calendar.events.public.readonly",
            Scope::TasksReadOnly => "https://www.googleapis.com/auth/tasks.readonly",
            Scope::Tasks => "https://www.googleapis.com/auth/tasks",
            Scope::Mail => "https://mail.google.com",
            Scope::MailModify => "https://www.googleapis.com/auth/gmail.modify",
            Scope::MailReadonly => "https://www.googleapis.com/auth/gmail.readonly",
            Scope::MailMetadata => "https://www.googleapis.com/auth/gmail.metadata",
        }
    }
}

/// Each scope has its own permission string: distinct scopes never share one.
pub proof fn lemma_scope_text_injective(a: Scope, b: Scope)
    requires
        a != b,
    ensures
        scope_text(a) != scope_text(b),
{
        reveal_strlit("https://www.googleapis.com/auth/calendar");
        reveal_strlit("https://www.googleapis.com/auth/calendar.events");
        reveal_strlit("https://www.googleapis.com/auth/calendar.events.readonly");
        reveal_strlit("https://www.googleapis.com/auth/calendar.readonly");
        reveal_strlit("https://www.googleapis.com/auth/calendar.app.created");
        reveal_strlit("https://www.googleapis.com/auth/calendar.events.freebusy");
        reveal_strlit("https://www.googleapis.com/auth/calendar.events.owned");
        reveal_strlit("https://www.googleapis.com/auth/calendar.events.owned.readonly");
        reveal_strlit("https://www.googleapis.com/auth/calendar.events.public.readonly");
        reveal_strlit("https://www.googleapis.com/auth/tasks.readonly");
        reveal_strlit("https://www.googleapis.com/auth/tasks");
        reveal_strlit("https://mail.google.com");
        reveal_strlit("https://www.googleapis.com/auth/gmail.modify");
        reveal_strlit("https://www.googleapis.com/auth/gmail.readonly");
        reveal_strlit("https://www.googleapis.com/auth/gmail.metadata");
    if scope_text(a) == scope_text(b) {
        let (x, y) = (scope_text(a), scope_text(b));
        assert(x.len() == y.len());
        if x.len() > 48 {
            assert(x[32] == y[32] && x[38] == y[38] && x[48] == y[48]);
        } else if x.len() > 38 {
            assert(x[32] == y[32] && x[38] == y[38]);
        } else if x.len() > 32 {
            assert(x[32] == y[32]);
        }
    }
}

} // verus!
