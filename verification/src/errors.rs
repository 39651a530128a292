//! The rejections themselves: why a request was turned away, and the texts
//! that say so.

use crate::decimal::{decimal, u64_to_decimal};
use crate::http_model::{clone_headers, header_entries, status_number, HeaderEntry};
use http::{HeaderMap, StatusCode};
use vstd::prelude::*;
use vstd::string::*;

verus! {

/// Why a request was turned away.
#[derive(Debug)]
pub enum GovernorError {
    /// The caller's quota is used up. `wait_time` is the number of whole
    /// seconds to wait; `headers`, where present, go out with the rejection.
    TooManyRequests { wait_time: u64, headers: Option<HeaderMap> },
    /// No rate-limit key could be derived from the request.
    UnableToExtractKey,
    /// A failure that a key extractor reports in its own terms.
    Other { code: StatusCode, msg: Option<String>, headers: Option<HeaderMap> },
}

/// A rejection as plain data: the seconds to wait, the number of the status
/// code, the message as characters, the headers as entries.
pub enum Rejection {
    TooManyRequests { wait_time: nat, headers: Option<Seq<HeaderEntry>> },
    UnableToExtractKey,
    Other { code: u16, msg: Option<Seq<char>>, headers: Option<Seq<HeaderEntry>> },
}

/// What optional headers hold, where there are any.
pub open spec fn optional_entries(headers: Option<HeaderMap>) -> Option<Seq<HeaderEntry>> {
    match headers {
        Some(given) => Some(header_entries(given)),
        None => None,
    }
}

impl View for GovernorError {
    type V = Rejection;

    open spec fn view(&self) -> Rejection {
        match *self {
            GovernorError::TooManyRequests { wait_time, headers } => Rejection::TooManyRequests {
                wait_time: wait_time as nat,
                headers: optional_entries(headers),
            },
            GovernorError::UnableToExtractKey => Rejection::UnableToExtractKey,
            GovernorError::Other { code, msg, headers } => Rejection::Other {
                code: status_number(code),
                msg: match msg {
                    Some(text) => Some(text@),
                    None => None,
                },
                headers: optional_entries(headers),
            },
        }
    }
}

/// The text that tells a caller how long to wait:
/// `Too Many Requests! Wait for {wait_time}s`.
pub open spec fn wait_text(wait_time: nat) -> Seq<char> {
    "Too Many Requests! Wait for "@ + decimal(wait_time) + "s"@
}

impl Rejection {
    /// The headers that the rejection carries, if any.
    pub open spec fn headers(self) -> Option<Seq<HeaderEntry>> {
        match self {
            Rejection::TooManyRequests { headers, .. } => headers,
            Rejection::UnableToExtractKey => None,
            Rejection::Other { headers, .. } => headers,
        }
    }

    /// The one-line description of the rejection, as it is logged and passed
    /// along error channels. What an extractor reports in its own terms is
    /// described alike, whatever it reports.
    pub open spec fn description(self) -> Seq<char> {
        match self {
            Rejection::TooManyRequests { wait_time, .. } => wait_text(wait_time),
            Rejection::UnableToExtractKey => "Unable to extract key!"@,
            Rejection::Other { .. } => "Other Error"@,
        }
    }
}

/// Writes [`wait_text`].
pub fn wait_message(wait_time: u64) -> (text: String)
    ensures
        text@ == wait_text(wait_time as nat),
{
    let mut text = String::from_str("Too Many Requests! Wait for ");
    let seconds = u64_to_decimal(wait_time);
    text.append(seconds.as_str());
    text.append("s");
    text
}

/// A second set of the same headers, where there are any.
fn clone_optional_headers(headers: &Option<HeaderMap>) -> (copy: Option<HeaderMap>)
    ensures
        copy == *headers,
{
    match headers {
        Some(given) => Some(clone_headers(given)),
        None => None,
    }
}

impl Clone for GovernorError {
    /// A second rejection that says the same.
    fn clone(&self) -> (copy: Self)
        ensures
            copy == *self,
    {
        match self {
            GovernorError::TooManyRequests { wait_time, headers } => GovernorError::TooManyRequests {
                wait_time: *wait_time,
                headers: clone_optional_headers(headers),
            },
            GovernorError::UnableToExtractKey => GovernorError::UnableToExtractKey,
            GovernorError::Other { code, msg, headers } => GovernorError::Other {
                code: *code,
                msg: msg.clone(),
                headers: clone_optional_headers(headers),
            },
        }
    }
}

impl GovernorError {
    /// The headers that the rejection carries, if any, as the value that
    /// carries them.
    pub open spec fn headers(self) -> Option<HeaderMap> {
        match self {
            GovernorError::TooManyRequests { headers, .. } => headers,
            GovernorError::UnableToExtractKey => None,
            GovernorError::Other { headers, .. } => headers,
        }
    }

    /// Describes the rejection in one line. The value is left as it was.
    pub fn description(&self) -> (text: String)
        ensures
            text@ == self@.description(),
    {
        match self {
            GovernorError::TooManyRequests { wait_time, .. } => wait_message(*wait_time),
            GovernorError::UnableToExtractKey => String::from_str("Unable to extract key!"),
            GovernorError::Other { .. } => String::from_str("Other Error"),
        }
    }
}

} // verus!
