//! What sending a request decides: how an answer is classified, when a rate
//! limit lifts, and whether a request is sent again.
//!
//! Nothing here touches the network. The caller sends, hands in what came
//! back as plain values, and carries out the step that is returned.

use vstd::prelude::*;
use crate::http::client::Budget;
use crate::http::text::{read_u64, u64_read};

verus! {

/// A moment on the monotonic clock, told by the time between it and an
/// origin which the caller fixes once. What the clock reads lies after the
/// origin; a moment reckoned from a reading may lie before it.
#[derive(Clone, Copy, Debug, PartialEq, Eq, Structural)]
pub struct Moment {
    /// Whole seconds since the origin; below zero for a moment before it.
    pub secs: i64,
    /// The nanoseconds beyond them, counted forward.
    pub nanos: u32,
}

/// What kind of failure the transport reports.
#[derive(Clone, Copy, Debug, PartialEq, Eq, Structural)]
pub enum Fault {
    /// The service answered with a status from 400 to 499.
    Client,
    /// The service answered with a status from 500 to 599.
    Server,
    /// The exchange failed below the answer: name lookup, connection, TLS.
    Http,
    /// A body could not be written or read.
    Serialization,
    /// The redirects looped or were too many.
    Redirect,
    /// None of the others.
    Other,
}

/// The failure underneath an [`Error`], as the transport reports it.
#[derive(Clone, Debug, PartialEq, Eq)]
pub struct Cause {
    /// What kind of failure it is.
    pub fault: Fault,
    /// The status of the answer, where there was one.
    pub status: Option<u16>,
    /// The URL that was asked for, where it is known.
    pub url: Option<String>,
    /// The transport's own words.
    pub message: String,
}

/// Represents an error encountered when sending a request.
///
/// Errors may come from a variety of sources, but the ones handled most directly by this crate are
/// client errors. If a client error occurs, we map it to a user-friendly error variant; if another
/// error occurs, we just wrap it and return it.
#[derive(Clone, Debug, PartialEq, Eq)]
pub enum Error {
    /// The API is enforcing a rate limit. The associated value is the time at which the rate limit
    /// will be lifted, if it was specified.
    RateLimited(Option<Moment>),
    /// The request was malformed and should not be reattempted (HTTP 400 or 422).
    BadRequest,
    /// The specified access token was invalid (HTTP 401).
    BadAccessToken,
    /// The requested OAuth scope was invalid (HTTP 403).
    BadOAuthScope,
    /// The given selector (or scene UUID) did not match anything associated with this account
    /// (HTTP 404). The URL is returned as well, if possible, to help with troubleshooting.
    NotFound(Option<String>),
    /// The API server encountered an error, but the request was (seemingly) valid (HTTP 5xx).
    Server(Option<u16>, Cause),
    /// An HTTP stack error was encountered.
    Http(Cause),
    /// A serialization error was encountered.
    Serialization(Cause),
    /// A bad redirect was encountered.
    Redirect(Cause),
    /// A miscellaneous client error occurred (HTTP 4xx).
    Client(Option<u16>, Cause),
    /// Some other error occured.
    Other(Cause),
}

impl Error {
    /// Whether the error is a client error (indicating that the request should not be retried
    /// without modification).
    pub open spec fn client_error(self) -> bool {
        self is RateLimited || self is BadRequest || self is BadAccessToken
            || self is BadOAuthScope || self is NotFound || self is Client
    }

    /// Whether the error is a client error (indicating that the request should not be retried
    /// without modification).
    pub fn is_client_error(&self) -> (r: bool)
        ensures
            r == self.client_error(),
    {
        match self {
            Error::RateLimited(_)
            | Error::BadRequest
            | Error::BadAccessToken
            | Error::BadOAuthScope
            | Error::NotFound(_)
            | Error::Client(_, _) => true,
            _ => false,
        }
    }

    /// The error that a failure of the transport stands for. A status from
    /// 400 to 499 is told apart by its number; every other failure is kept
    /// whole under the variant of its kind.
    pub open spec fn of(cause: Cause) -> Error {
        match cause.fault {
            Fault::Client => if cause.status == Some(400u16) || cause.status == Some(422u16) {
                Error::BadRequest
            } else if cause.status == Some(401u16) {
                Error::BadAccessToken
            } else if cause.status == Some(403u16) {
                Error::BadOAuthScope
            } else if cause.status == Some(404u16) {
                Error::NotFound(cause.url)
            } else {
                Error::Client(cause.status, cause)
            },
            Fault::Http => Error::Http(cause),
            Fault::Serialization => Error::Serialization(cause),
            Fault::Redirect => Error::Redirect(cause),
            Fault::Server => Error::Server(cause.status, cause),
            Fault::Other => Error::Other(cause),
        }
    }

    /// The error that one attempt ends in: a rate limit, with the moment at
    /// which it lifts, when the status is 429, and else what the failure
    /// stands for by itself.
    pub open spec fn of_attempt(cause: Cause, reset: Option<Moment>) -> Error {
        if cause.status == Some(TOO_MANY_REQUESTS) {
            Error::RateLimited(reset)
        } else {
            Error::of(cause)
        }
    }

    /// Classifies the failure of one attempt. `reset` is the moment at which
    /// the service said a rate limit lifts, as [`reset_moment`] gives it.
    pub fn from_attempt(cause: Cause, reset: Option<Moment>) -> (e: Error)
        ensures
            e == Error::of_attempt(cause, reset),
    {
        match cause.status {
            Some(status) => {
                if status == TOO_MANY_REQUESTS {
                    return Error::RateLimited(reset);
                }
            },
            None => {},
        }
        Error::from(cause)
    }
}

impl From<Cause> for Error {
    fn from(cause: Cause) -> (e: Error)
        ensures
            e == Error::of(cause),
    {
        match cause.fault {
            Fault::Client => match cause.status {
                Some(400) | Some(422) => Error::BadRequest,
                Some(401) => Error::BadAccessToken,
                Some(403) => Error::BadOAuthScope,
                Some(404) => Error::NotFound(cause.url),
                s => Error::Client(s, cause),
            },
            Fault::Http => Error::Http(cause),
            Fault::Serialization => Error::Serialization(cause),
            Fault::Redirect => Error::Redirect(cause),
            Fault::Server => Error::Server(cause.status, cause),
            Fault::Other => Error::Other(cause),
        }
    }
}

impl vstd::std_specs::convert::FromSpecImpl<Cause> for Error {
    open spec fn obeys_from_spec() -> bool {
        true
    }

    open spec fn from_spec(cause: Cause) -> Error {
        Error::of(cause)
    }
}

/// The status with which the service says that a rate limit is in force.
pub const TOO_MANY_REQUESTS: u16 = 429;

/// How long to wait, in seconds, when the service limits the rate and does
/// not say until when.
pub const FALLBACK_WAIT: u64 = 60;

/// Where the API lives: every path is relative to it.
pub open spec fn origin() -> Seq<char> {
    "https://api.lifx.com/v1"@
}

/// What a status says of an answer: nothing from 400 to 599 is a success,
/// everything else is.
pub open spec fn fault_of(status: u16) -> Option<Fault> {
    if 400 <= status <= 499 {
        Some(Fault::Client)
    } else if 500 <= status <= 599 {
        Some(Fault::Server)
    } else {
        None
    }
}

/// Tells whether a status is a failure, and of which side.
pub fn status_fault(status: u16) -> (fault: Option<Fault>)
    ensures
        fault == fault_of(status),
{
    if 400 <= status && status <= 499 {
        Some(Fault::Client)
    } else if 500 <= status && status <= 599 {
        Some(Fault::Server)
    } else {
        None
    }
}

/// The moment at which a rate limit lifts: as far from `now` as the Unix
/// time `reset` lies from the Unix time `unix_now`, after it or before it. A
/// reset that has passed gives a moment that has passed. There is none only
/// where the seconds of the moment cannot be held.
pub open spec fn deadline(now: Moment, unix_now: u64, reset: u64) -> Option<Moment> {
    if i64::MIN <= now.secs + reset - unix_now <= i64::MAX {
        Some(Moment { secs: (now.secs + reset - unix_now) as i64, nanos: now.nanos })
    } else {
        None
    }
}

/// What the header `x-ratelimit-reset` says of the moment at which a rate
/// limit lifts. An absent header says nothing, and neither does one that is
/// no Unix time in seconds; every other header gives the moment that
/// [`deadline`] reckons.
pub open spec fn reset_of(header: Option<Seq<char>>, now: Moment, unix_now: u64) -> Option<
    Moment,
> {
    match header {
        Some(text) => match u64_read(text) {
            Some(reset) => deadline(now, unix_now, reset),
            None => None,
        },
        None => None,
    }
}

/// Reads the header `x-ratelimit-reset` of an answer. `now` and `unix_now`
/// are the monotonic and the wall clock, read together; the two drift apart,
/// so the moment is a good guess and no promise.
pub fn reset_moment(header: Option<&str>, now: Moment, unix_now: u64) -> (reset: Option<Moment>)
    ensures
        reset == reset_of(
            match header {
                Some(text) => Some(text@),
                None => None,
            },
            now,
            unix_now,
        ),
{
    let text = match header {
        Some(text) => text,
        None => {
            return None;
        },
    };
    let reset = match read_u64(text) {
        Some(reset) => reset,
        None => {
            return None;
        },
    };
    let secs: i128 = now.secs as i128 + reset as i128 - unix_now as i128;
    if secs < i64::MIN as i128 || secs > i64::MAX as i128 {
        None
    } else {
        Some(Moment { secs: secs as i64, nanos: now.nanos })
    }
}

/// How one attempt ended, from the status of the answer: well, unless the
/// status lies from 400 to 599, and then in the error that the status
/// stands for, with the URL and the transport's words kept in its cause.
pub open spec fn settled(status: u16, url: String, message: String, reset: Option<Moment>) -> Result<
    (),
    Error,
> {
    match fault_of(status) {
        None => Ok(()),
        Some(fault) => Err(
            Error::of_attempt(Cause { fault, status: Some(status), url: Some(url), message }, reset),
        ),
    }
}

/// Classifies the answer to one attempt by its status.
pub fn settle(status: u16, url: String, message: String, reset: Option<Moment>) -> (r: Result<
    (),
    Error,
>)
    ensures
        r == settled(status, url, message, reset),
{
    match status_fault(status) {
        None => Ok(()),
        Some(fault) => Err(
            Error::from_attempt(Cause { fault, status: Some(status), url: Some(url), message }, reset),
        ),
    }
}

/// What to do before a request is sent again.
#[derive(Clone, Copy, Debug, PartialEq, Eq, Structural)]
pub enum Pause {
    /// Nothing: send at once.
    Nothing,
    /// Block until the monotonic clock reads this moment.
    Until(Moment),
    /// Block for this many seconds.
    For(u64),
}

/// What follows an attempt.
#[derive(Clone, Copy, Debug, PartialEq, Eq, Structural)]
pub enum Step {
    /// Hand the outcome of the attempt to the caller.
    Return,
    /// Pause as told, then send the request again.
    Again(Pause),
}

/// What follows the attempt that was number `made` of at most `budget`:
/// `failure` is the error it ended in, if it did.
///
/// With the budget used up the outcome is returned, whatever it is, and so
/// is a success. A rate limit is waited out, until the moment the service
/// named or else for [`FALLBACK_WAIT`] seconds, and the request sent anew.
/// Any other client error is returned at once. Every other error is
/// answered by sending again.
pub open spec fn step_after(budget: nat, made: nat, failure: Option<Error>) -> Step {
    if made >= budget {
        Step::Return
    } else {
        match failure {
            None => Step::Return,
            Some(Error::RateLimited(Some(moment))) => Step::Again(Pause::Until(moment)),
            Some(Error::RateLimited(None)) => Step::Again(Pause::For(FALLBACK_WAIT)),
            Some(e) => if e.client_error() {
                Step::Return
            } else {
                Step::Again(Pause::Nothing)
            },
        }
    }
}

/// The number of attempts that are made when the attempt number `i`, counted
/// from 1, ends in `failures[i - 1]`, given that `made` of them have been
/// made.
pub open spec fn attempts_from(budget: nat, failures: Seq<Option<Error>>, made: nat) -> nat
    decreases budget - made,
{
    if step_after(budget, made, failures[made - 1]) is Return {
        made
    } else {
        attempts_from(budget, failures, made + 1)
    }
}

/// The number of attempts that a request with the given budget takes when
/// the attempt number `i`, counted from 1, ends in `failures[i - 1]`.
pub open spec fn attempts(budget: nat, failures: Seq<Option<Error>>) -> nat {
    attempts_from(budget, failures, 1)
}

/// Keeps count of the attempts of one request.
pub struct Retrier {
    budget: Budget,
    made: u8,
}

impl Retrier {
    #[verifier::type_invariant]
    spec fn counted(self) -> bool {
        self.made <= self.budget.count()
    }

    /// The most attempts that will be made.
    pub closed spec fn budget(self) -> nat {
        self.budget.count()
    }

    /// The attempts made so far.
    pub closed spec fn made(self) -> nat {
        self.made as nat
    }

    /// Begins the count for a request that has not been sent yet.
    pub fn new(budget: Budget) -> (r: Retrier)
        ensures
            r.budget() == budget.count(),
            r.made() == 0,
    {
        Retrier { budget, made: 0 }
    }

    /// The attempts made so far.
    pub fn attempts_made(&self) -> (made: u8)
        ensures
            made == self.made(),
            made <= self.budget(),
    {
        proof {
            use_type_invariant(self);
        }
        self.made
    }

    /// Counts the attempt that has just ended, in `failure` if it failed,
    /// and tells what follows it. Once the budget is used up nothing more is
    /// counted, and the step is to return.
    pub fn record(&mut self, failure: Option<&Error>) -> (step: Step)
        ensures
            final(self).budget() == old(self).budget(),
            old(self).made() < old(self).budget() ==> final(self).made() == old(self).made() + 1
                && step == step_after(
                old(self).budget(),
                old(self).made() + 1,
                match failure {
                    Some(e) => Some(*e),
                    None => None,
                },
            ),
            old(self).made() >= old(self).budget() ==> final(self).made() == old(self).made()
                && step == Step::Return,
            step is Again ==> final(self).made() < final(self).budget(),
    {
        proof {
            use_type_invariant(&*self);
        }
        let budget = self.budget.get();
        if self.made >= budget {
            return Step::Return;
        }
        self.made = self.made + 1;
        if self.made >= budget {
            return Step::Return;
        }
        match failure {
            None => Step::Return,
            Some(Error::RateLimited(Some(moment))) => Step::Again(Pause::Until(*moment)),
            Some(Error::RateLimited(None)) => Step::Again(Pause::For(FALLBACK_WAIT)),
            Some(e) => if e.is_client_error() {
                Step::Return
            } else {
                Step::Again(Pause::Nothing)
            },
        }
    }
}

/// No request takes more attempts than its budget, and each takes one.
pub proof fn lemma_attempts_within_budget(budget: nat, failures: Seq<Option<Error>>)
    requires
        budget >= 1,
    ensures
        1 <= attempts(budget, failures) <= budget,
{
    lemma_attempts_from(budget, failures, 1);
}

proof fn lemma_attempts_from(budget: nat, failures: Seq<Option<Error>>, made: nat)
    requires
        1 <= made <= budget,
    ensures
        made <= attempts_from(budget, failures, made) <= budget,
    decreases budget - made,
{
    if !(step_after(budget, made, failures[made - 1]) is Return) {
        lemma_attempts_from(budget, failures, made + 1);
    }
}

/// Against a server that fails every time, the whole budget is spent: the
/// attempts are as many as the budget, so that the error returned is that in
/// which the last of them ended.
pub proof fn lemma_server_errors_spend_budget(budget: nat, failures: Seq<Option<Error>>)
    requires
        budget >= 1,
        failures.len() >= budget,
        forall|i: int| 0 <= i < budget ==> (#[trigger] failures[i]) is Some && failures[i]->Some_0 is Server,
    ensures
        attempts(budget, failures) == budget,
{
    lemma_spend_from(budget, failures, 1);
}

proof fn lemma_spend_from(budget: nat, failures: Seq<Option<Error>>, made: nat)
    requires
        1 <= made <= budget,
        failures.len() >= budget,
        forall|i: int| 0 <= i < budget ==> (#[trigger] failures[i]) is Some && failures[i]->Some_0 is Server,
    ensures
        attempts_from(budget, failures, made) == budget,
    decreases budget - made,
{
    if made < budget {
        assert(failures[made - 1] is Some && failures[made - 1]->Some_0 is Server);
        lemma_spend_from(budget, failures, made + 1);
    }
}

/// A first attempt that ends in a client error other than a rate limit, such
/// as a refused access token, is the only one, whatever the budget.
pub proof fn lemma_client_error_ends_at_once(budget: nat, failures: Seq<Option<Error>>)
    requires
        budget >= 1,
        failures.len() >= 1,
        failures[0] is Some,
        failures[0]->Some_0.client_error(),
        !(failures[0]->Some_0 is RateLimited),
    ensures
        attempts(budget, failures) == 1,
{
}

/// A rate limit that lifts at the Unix time `reset` gives a moment that lies
/// as many seconds from `now` as `reset` lies from `unix_now`, to the
/// nanosecond, wherever the moment can be held; and it can be held whenever
/// it lies after the origin and no more than the greatest count of seconds
/// after it.
pub proof fn lemma_deadline_distance(now: Moment, unix_now: u64, reset: u64)
    ensures
        deadline(now, unix_now, reset) is Some ==> deadline(now, unix_now, reset)->Some_0.secs
            - now.secs == reset - unix_now && deadline(now, unix_now, reset)->Some_0.nanos
            == now.nanos,
        0 <= now.secs + reset - unix_now <= i64::MAX ==> deadline(now, unix_now, reset) is Some,
{
}

} // verus!
