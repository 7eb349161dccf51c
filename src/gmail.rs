use vstd::prelude::*;

use crate::request::{bool_text, bool_to_text, decimal, decimal_text, HttpMethod, Request};

verus! {

/// An email message.
#[derive(Debug)]
pub struct Message {
    pub id: String,
    pub thread_id: String,
    pub label_ids: Vec<String>,
    pub snippet: String,
    pub history_id: String,
    pub internal_date: String,
    pub payload: Option<MessagePart>,
    pub size_estimate: i64,
    pub raw: String,
}

/// One part of a MIME message; multipart parts hold their children.
#[derive(Debug)]
pub struct MessagePart {
    pub part_id: String,
    pub mime_type: String,
    pub filename: String,
    pub headers: Vec<Header>,
    pub body: Option<MessagePartBody>,
    pub parts: Vec<MessagePart>,
}

/// A header of a message part.
#[derive(Clone, Debug, PartialEq)]
pub struct Header {
    pub name: String,
    pub value: String,
}

/// The body of a message part.
#[derive(Clone, Debug, PartialEq)]
pub struct MessagePartBody {
    pub data: String,
    pub size: i64,
    pub attachment_id: String,
}

/// A page of messages.
#[derive(Debug)]
pub struct MessageList {
    pub messages: Vec<Message>,
    pub next_page_token: String,
    pub result_size_estimate: i64,
}

/// Labels to add to and remove from a message.
#[derive(Clone, Debug, PartialEq)]
pub struct ModifyMessageRequest {
    pub add_label_ids: Vec<String>,
    pub remove_label_ids: Vec<String>,
}

/// The formats in which a message can be fetched.
#[derive(Clone, Copy, Debug, PartialEq, Eq)]
pub enum GetMessageFormat {
    Minimal,
    Full,
    Raw,
    Metadata,
}

impl MessagePartBody {
    /// An empty body.
    pub fn new() -> (r: MessagePartBody)
        ensures
            r.data@.len() == 0,
            r.size == 0,
            r.attachment_id@.len() == 0,
    {
        MessagePartBody { data: String::new(), size: 0, attachment_id: String::new() }
    }
}

impl MessagePart {
    /// An empty part: no headers, no body, no children.
    pub fn new() -> (r: MessagePart)
        ensures
            r.part_id@.len() == 0,
            r.mime_type@.len() == 0,
            r.filename@.len() == 0,
            r.headers@.len() == 0,
            r.body is None,
            r.parts@.len() == 0,
    {
        MessagePart {
            part_id: String::new(),
            mime_type: String::new(),
            filename: String::new(),
            headers: Vec::new(),
            body: None,
            parts: Vec::new(),
        }
    }
}

impl Default for MessagePartBody {
    fn default() -> (r: MessagePartBody)
        ensures
            r.data@.len() == 0,
            r.size == 0,
            r.attachment_id@.len() == 0,
    {
        MessagePartBody::new()
    }
}

impl Default for MessagePart {
    fn default() -> (r: MessagePart)
        ensures
            r.part_id@.len() == 0,
            r.mime_type@.len() == 0,
            r.filename@.len() == 0,
            r.headers@.len() == 0,
            r.body is None,
            r.parts@.len() == 0,
    {
        MessagePart::new()
    }
}

/// Builder mode for listing messages; the list filters apply here.
pub struct EmailListMode;

/// Builder mode for fetching one message.
pub struct EmailGetMode;

/// Builder mode for deleting a message for good.
pub struct EmailDeleteMode;

/// Builder mode for moving a message to or from the trash.
pub struct TrashEmailMode;

/// A request builder for the Gmail messages resource. The mode `T` decides
/// which settings are offered.
pub struct GmailClient<T> {
    pub request: Request,
    pub mode: std::marker::PhantomData<T>,
}

/// The address of a user's messages.
pub open spec fn messages_url(user_id: Seq<char>) -> Seq<char> {
    "https://gmail.googleapis.com/gmail/v1/users/"@ + user_id + "/messages"@
}

/// The address of one message, followed by `suffix`.
pub open spec fn message_url(user_id: Seq<char>, email_id: Seq<char>, suffix: Seq<char>) -> Seq<char> {
    messages_url(user_id) + "/"@ + email_id + suffix
}

fn message_address(user_id: &str, email_id: &str, suffix: &str) -> (r: String)
    ensures
        r@ == message_url(user_id@, email_id@, suffix@),
{
    let mut url = String::from_str("https://gmail.googleapis.com/gmail/v1/users/");
    url.append(user_id);
    url.append("/messages");
    url.append("/");
    url.append(email_id);
    url.append(suffix);
    url
}

impl GmailClient<()> {
    /// A builder with no operation chosen yet.
    pub fn new() -> (r: GmailClient<()>)
        ensures
            r.request.url@ == Seq::<char>::empty(),
            r.request.method == HttpMethod::Get,
            r.request.params@.len() == 0,
            r.request.body is None,
    {
        GmailClient { request: Request::new(), mode: std::marker::PhantomData }
    }

    /// Lists the messages of `user_id` (`me` for the signed-in user).
    pub fn get_emails(self, user_id: &str) -> (r: GmailClient<EmailListMode>)
        ensures
            r.request.url@ == messages_url(user_id@),
            r.request.method == HttpMethod::Get,
            r.request.params == self.request.params,
            r.request.body == self.request.body,
    {
        let mut request = self.request;
        let mut url = String::from_str("https://gmail.googleapis.com/gmail/v1/users/");
        url.append(user_id);
        url.append("/messages");
        request.url = url;
        request.method = HttpMethod::Get;
        GmailClient { request, mode: std::marker::PhantomData }
    }

    /// Fetches the message `email_id` of `user_id`.
    pub fn get_email(self, user_id: &str, email_id: &str) -> (r: GmailClient<EmailGetMode>)
        ensures
            r.request.url@ == message_url(user_id@, email_id@, Seq::empty()),
            r.request.method == HttpMethod::Get,
            r.request.params == self.request.params,
            r.request.body == self.request.body,
    {
        let mut request = self.request;
        request.url = message_address(user_id, email_id, "");
        proof {
            reveal_strlit("");
        }
        request.method = HttpMethod::Get;
        GmailClient { request, mode: std::marker::PhantomData }
    }

    /// Deletes the message `email_id` of `user_id` for good, bypassing the trash.
    pub fn delete_email(self, user_id: &str, email_id: &str) -> (r: GmailClient<EmailDeleteMode>)
        ensures
            r.request.url@ == message_url(user_id@, email_id@, Seq::empty()),
            r.request.method == HttpMethod::Delete,
            r.request.params == self.request.params,
            r.request.body == self.request.body,
    {
        let mut request = self.request;
        request.url = message_address(user_id, email_id, "");
        proof {
            reveal_strlit("");
        }
        request.method = HttpMethod::Delete;
        GmailClient { request, mode: std::marker::PhantomData }
    }

    /// Moves the message `email_id` of `user_id` to the trash.
    pub fn trash_email(self, user_id: &str, email_id: &str) -> (r: GmailClient<TrashEmailMode>)
        ensures
            r.request.url@ == message_url(user_id@, email_id@, "/trash"@),
            r.request.method == HttpMethod::Post,
            r.request.params == self.request.params,
            r.request.body == self.request.body,
    {
        let mut request = self.request;
        request.url = message_address(user_id, email_id, "/trash");
        request.method = HttpMethod::Post;
        GmailClient { request, mode: std::marker::PhantomData }
    }

    /// Takes the message `email_id` of `user_id` out of the trash.
    pub fn untrash_email(self, user_id: &str, email_id: &str) -> (r: GmailClient<TrashEmailMode>)
        ensures
            r.request.url@ == message_url(user_id@, email_id@, "/untrash"@),
            r.request.method == HttpMethod::Post,
            r.request.params == self.request.params,
            r.request.body == self.request.body,
    {
        let mut request = self.request;
        request.url = message_address(user_id, email_id, "/untrash");
        request.method = HttpMethod::Post;
        GmailClient { request, mode: std::marker::PhantomData }
    }
}

impl<T> GmailClient<T> {
    /// The body to send with the request: none for a GET or a DELETE, the
    /// serialized message `payload` for a POST or a PATCH.
    pub fn outgoing_body(&self, payload: Option<String>) -> (r: Option<String>)
        ensures
            self.request.method == HttpMethod::Get || self.request.method == HttpMethod::Delete ==> r is None,
            self.request.method == HttpMethod::Post || self.request.method == HttpMethod::Patch ==> r == payload,
    {
        match self.request.method {
            HttpMethod::Get => None,
            HttpMethod::Delete => None,
            _ => payload,
        }
    }
}

impl GmailClient<EmailListMode> {
    fn with_param(self, key: &str, value: String) -> (r: GmailClient<EmailListMode>)
        ensures
            self.request.sets(r.request, key@, value@),
    {
        let mut request = self.request;
        request.insert_param(String::from_str(key), value);
        GmailClient { request, mode: std::marker::PhantomData }
    }

    /// Includes messages in SPAM and TRASH (`includeSpamTrash`).
    pub fn include_spam_trash(self, incl: bool) -> (r: GmailClient<EmailListMode>)
        ensures
            self.request.sets(r.request, "includeSpamTrash"@, bool_text(incl)),
    {
        self.with_param("includeSpamTrash", bool_to_text(incl))
    }

    /// The page of results to return (`pageToken`).
    pub fn page_token(self, token: i32) -> (r: GmailClient<EmailListMode>)
        ensures
            self.request.sets(r.request, "pageToken"@, decimal(token as int)),
    {
        self.with_param("pageToken", decimal_text(token as i64))
    }

    /// The most messages to return (`maxResults`; the API allows up to 500).
    pub fn max_results(self, max: u32) -> (r: GmailClient<EmailListMode>)
        ensures
            self.request.sets(r.request, "maxResults"@, decimal(max as int)),
    {
        self.with_param("maxResults", decimal_text(max as i64))
    }

    /// Only messages matching a Gmail search query (`q`).
    pub fn query(self, query: &str) -> (r: GmailClient<EmailListMode>)
        ensures
            self.request.sets(r.request, "q"@, query@),
    {
        self.with_param("q", String::from_str(query))
    }
}

} // verus!
