//! The rejection as a plain HTTP response: a status, a body and headers.

use crate::decimal::decimal;
use crate::errors::{wait_message, wait_text, GovernorError, Rejection};
use crate::http_model::{empty_headers, header_entries, status_from_u16, status_number, HeaderEntry};
use http::{HeaderMap, StatusCode};
use vstd::pervasive::unreached;
use vstd::prelude::*;
use vstd::string::*;

verus! {

/// A rejection, written out for HTTP.
#[derive(Debug)]
pub struct HttpResponse {
    pub status: StatusCode,
    pub body: String,
    pub headers: HeaderMap,
}

/// An HTTP response as plain data: the number of its status, its body as
/// characters, its headers as entries.
pub struct HttpResponseView {
    pub status: u16,
    pub body: Seq<char>,
    pub headers: Seq<HeaderEntry>,
}

impl View for HttpResponse {
    type V = HttpResponseView;

    open spec fn view(&self) -> HttpResponseView {
        HttpResponseView {
            status: status_number(self.status),
            body: self.body@,
            headers: header_entries(self.headers),
        }
    }
}

impl Rejection {
    /// The number of the HTTP status that answers the rejection: 429 for a
    /// used-up quota, 500 for a key that could not be derived, and for a
    /// failure in an extractor's own terms the status it chose.
    pub open spec fn http_status(self) -> u16 {
        match self {
            Rejection::TooManyRequests { .. } => 429,
            Rejection::UnableToExtractKey => 500,
            Rejection::Other { code, .. } => code,
        }
    }

    /// The body of the HTTP response. An extractor's own message stands for
    /// `Other Error!` where it gave one.
    pub open spec fn http_body(self) -> Seq<char> {
        match self {
            Rejection::TooManyRequests { wait_time, .. } => wait_text(wait_time),
            Rejection::UnableToExtractKey => "Unable To Extract Key!"@,
            Rejection::Other { msg: Some(text), .. } => text,
            Rejection::Other { msg: None, .. } => "Other Error!"@,
        }
    }

    /// The headers of the HTTP response: the ones that the rejection
    /// carries, all of them and no other, and without them none at all.
    pub open spec fn http_headers(self) -> Seq<HeaderEntry> {
        match self.headers() {
            Some(given) => given,
            None => Seq::empty(),
        }
    }

    /// The rejection written out for HTTP.
    pub open spec fn http_response(self) -> HttpResponseView {
        HttpResponseView {
            status: self.http_status(),
            body: self.http_body(),
            headers: self.http_headers(),
        }
    }
}

/// The status code that holds `number`.
fn status_of(number: u16) -> (code: StatusCode)
    requires
        100 <= number <= 999,
    ensures
        status_number(code) == number,
{
    match status_from_u16(number) {
        Some(code) => code,
        None => unreached(),
    }
}

/// The headers of a response: the ones supplied, or none at all.
fn headers_or_none(supplied: Option<HeaderMap>) -> (headers: HeaderMap)
    ensures
        match supplied {
            Some(given) => headers == given,
            None => header_entries(headers) == Seq::<HeaderEntry>::empty(),
        },
{
    match supplied {
        Some(given) => given,
        None => empty_headers(),
    }
}

impl GovernorError {
    /// Writes the rejection out for HTTP, and uses it up in doing so. The
    /// status that an extractor chose and the headers that the rejection
    /// carries pass into the response as the values they are.
    pub fn render_http(self) -> (response: HttpResponse)
        ensures
            response@ == self@.http_response(),
            self matches GovernorError::Other { code, .. } ==> response.status == code,
            self.headers() matches Some(given) ==> response.headers == given,
    {
        match self {
            GovernorError::TooManyRequests { wait_time, headers } => HttpResponse {
                status: status_of(429),
                body: wait_message(wait_time),
                headers: headers_or_none(headers),
            },
            GovernorError::UnableToExtractKey => HttpResponse {
                status: status_of(500),
                body: String::from_str("Unable To Extract Key!"),
                headers: empty_headers(),
            },
            GovernorError::Other { code, msg, headers } => HttpResponse {
                status: code,
                body: match msg {
                    Some(text) => text,
                    None => String::from_str("Other Error!"),
                },
                headers: headers_or_none(headers),
            },
        }
    }
}

/// A used-up quota that carries no headers is answered with status 429 and
/// with the text `Too Many Requests! Wait for {wait_time}s`, whatever the
/// waiting time.
pub proof fn lemma_quota_is_429(wait_time: nat)
    ensures
        (Rejection::TooManyRequests { wait_time, headers: None }).http_response() == (
        HttpResponseView {
            status: 429,
            body: "Too Many Requests! Wait for "@ + decimal(wait_time) + "s"@,
            headers: Seq::empty(),
        }),
{
}

/// The headers that a used-up quota carries are the headers of its
/// response, whatever they are: nothing is added to them and nothing of
/// them is left out.
pub proof fn lemma_quota_headers_supersede(wait_time: nat, headers: Seq<HeaderEntry>)
    ensures
        (Rejection::TooManyRequests { wait_time, headers: Some(headers) }).http_response().headers
            == headers,
{
}

/// A key that could not be derived is answered with status 500 and the text
/// `Unable To Extract Key!`; nothing else enters into it.
pub proof fn lemma_missing_key_is_500()
    ensures
        Rejection::UnableToExtractKey.http_response() == (HttpResponseView {
            status: 500,
            body: "Unable To Extract Key!"@,
            headers: Seq::empty(),
        }),
{
}

/// A failure in an extractor's own terms, without headers, is answered with
/// the status it chose and with its message, or with `Other Error!` where it
/// gave none.
pub proof fn lemma_custom_is_taken_over(code: u16, msg: Option<Seq<char>>)
    ensures
        (Rejection::Other { code, msg, headers: None }).http_response() == (HttpResponseView {
            status: code,
            body: match msg {
                Some(text) => text,
                None => "Other Error!"@,
            },
            headers: Seq::empty(),
        }),
{
}

} // verus!
