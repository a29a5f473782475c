//! What reqwest hands back, read into the plain values that the engine
//! decides on.
//!
//! A response of reqwest is opaque here: its status, its URL and its headers
//! are fetched by calls of its methods and go by names, and all that is
//! decided on them is decided by functions that are proved for every value
//! of them. Of an error of reqwest the caller reports the signs.

use vstd::prelude::*;
use crate::http::client::engine::{
    fault_of, reset_moment, reset_of, settle, settled, status_fault, Cause, Error, Fault, Moment,
};

verus! {

/// The header in which the service says when a rate limit lifts, as a Unix
/// time in seconds.
pub const RESET_HEADER: &'static str = "x-ratelimit-reset";

/// The status of a response of reqwest.
pub uninterp spec fn status_of(response: reqwest::blocking::Response) -> u16;

/// The URL that a response of reqwest came from, as text.
pub uninterp spec fn url_of(response: reqwest::blocking::Response) -> Seq<char>;

/// The first value that a response of reqwest holds for the header `name`,
/// as text; none where the header is absent or its value is not visible
/// ASCII.
pub uninterp spec fn header_of(response: reqwest::blocking::Response, name: Seq<char>) -> Option<
    Seq<char>,
>;

/// `Response::status` of reqwest's blocking response, and
/// `StatusCode::as_u16` on what it gives: the status of the answer, which
/// the response holds for good.
#[verifier::external_body]
fn response_status(response: &reqwest::blocking::Response) -> (status: u16)
    ensures
        status == status_of(*response),
{
    response.status().as_u16()
}

/// `Response::url` of reqwest's blocking response, as text: the URL that
/// the answer came from, which the response holds for good.
#[verifier::external_body]
fn response_url(response: &reqwest::blocking::Response) -> (url: String)
    ensures
        url@ == url_of(*response),
{
    response.url().as_str().to_string()
}

/// `Response::headers` of reqwest's blocking response, `HeaderMap::get` on
/// them and `HeaderValue::to_str` on what is found: the first value of the
/// header `name`, if it is there and is visible ASCII. The headers of a
/// response do not change.
#[verifier::external_body]
fn response_header(response: &reqwest::blocking::Response, name: &str) -> (value: Option<String>)
    ensures
        match value {
            Some(text) => header_of(*response, name@) == Some(text@),
            None => header_of(*response, name@) is None,
        },
{
    match response.headers().get(name) {
        Some(value) => match value.to_str() {
            Ok(text) => Some(text.to_string()),
            Err(_) => None,
        },
        None => None,
    }
}

/// What reqwest says of an error when asked: each field is the answer of
/// the method of that name on the error.
#[derive(Clone, Copy, Debug, PartialEq, Eq, Structural)]
pub struct Signs {
    /// The error was made from the status of a response.
    pub is_status: bool,
    /// The error came from following redirects.
    pub is_redirect: bool,
    /// The body of a response could not be decoded.
    pub is_decode: bool,
    /// The error is about a body.
    pub is_body: bool,
    /// The error is about sending the request.
    pub is_request: bool,
    /// The error is about connecting.
    pub is_connect: bool,
    /// The error is about a timeout.
    pub is_timeout: bool,
}

impl Signs {
    /// The kind of failure that the signs and the status make out. A status
    /// decides first, by its side; then redirects; then bodies that could
    /// not be written or read; then everything about getting the request
    /// across, which is the transport's own failure. What is left is of no
    /// kind.
    pub open spec fn fault(self, status: Option<u16>) -> Fault {
        if self.is_status {
            if status is Some && fault_of(status->Some_0) is Some {
                fault_of(status->Some_0)->Some_0
            } else {
                Fault::Other
            }
        } else if self.is_redirect {
            Fault::Redirect
        } else if self.is_decode || self.is_body {
            Fault::Serialization
        } else if self.is_request || self.is_connect || self.is_timeout {
            Fault::Http
        } else {
            Fault::Other
        }
    }

    /// Makes out the kind of failure.
    pub fn tell(&self, status: Option<u16>) -> (fault: Fault)
        ensures
            fault == self.fault(status),
    {
        if self.is_status {
            match status {
                Some(code) => match status_fault(code) {
                    Some(fault) => fault,
                    None => Fault::Other,
                },
                None => Fault::Other,
            }
        } else if self.is_redirect {
            Fault::Redirect
        } else if self.is_decode || self.is_body {
            Fault::Serialization
        } else if self.is_request || self.is_connect || self.is_timeout {
            Fault::Http
        } else {
            Fault::Other
        }
    }
}

impl Cause {
    /// Whether the kind of the failure and its status agree: a failure of
    /// the client's making has a status from 400 to 499, and one of the
    /// server's a status from 500 to 599.
    pub open spec fn coherent(self) -> bool {
        &&& self.fault is Client ==> self.status is Some && 400 <= self.status->Some_0 <= 499
        &&& self.fault is Server ==> self.status is Some && 500 <= self.status->Some_0 <= 599
    }

    /// Puts together the cause of an error of the transport from what the
    /// transport says of it, making out its kind by [`Signs::fault`].
    pub fn assemble(signs: Signs, status: Option<u16>, url: Option<String>, message: String) -> (cause:
        Cause)
        ensures
            cause == (Cause { fault: signs.fault(status), status, url, message }),
            cause.coherent(),
    {
        Cause { fault: signs.tell(status), status, url, message }
    }
}

/// Judges an answer of the service by its status, as [`settle`] does. The
/// cause of an error holds the URL of the response and the words of
/// [`status_line`] for its status; a rate limit lifts when the header
/// [`RESET_HEADER`] of the response says, as [`reset_of`] reads it. `now`
/// and `unix_now` are the monotonic and the wall clock, read together.
pub fn judge(response: &reqwest::blocking::Response, now: Moment, unix_now: u64) -> (r: Result<
    (),
    Error,
>)
    ensures
        exists|url: String, message: String|
            url@ == url_of(*response) && message@ == status_line(status_of(*response)) && r
                == settled(
                status_of(*response),
                url,
                message,
                reset_of(header_of(*response, RESET_HEADER@), now, unix_now),
            ),
{
    let status = response_status(response);
    let url = response_url(response);
    let header = response_header(response, RESET_HEADER);
    let reset = match &header {
        Some(text) => reset_moment(Some(text.as_str()), now, unix_now),
        None => reset_moment(None, now, unix_now),
    };
    let message = status_words(status);
    let r = settle(status, url, message, reset);
    assert(url@ == url_of(*response) && message@ == status_line(status_of(*response)) && r
        == settled(
        status_of(*response),
        url,
        message,
        reset_of(header_of(*response, RESET_HEADER@), now, unix_now),
    ));
    r
}

/// The words under which a status is kept in the cause of an error.
pub open spec fn status_line(status: u16) -> Seq<char> {
    "HTTP status "@ + crate::http::text::decimal(status as nat)
}

/// Writes the words under which a status is kept in the cause of an error.
pub fn status_words(status: u16) -> (words: String)
    ensures
        words@ == status_line(status),
{
    let mut words = String::from_str("HTTP status ");
    crate::http::text::push_decimal(&mut words, status as u64);
    words
}

} // verus!
