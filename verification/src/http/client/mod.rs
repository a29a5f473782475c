//! Requests: how they are described, and what governs sending them.

use vstd::prelude::*;
use crate::http::client::engine::origin;
use crate::http::client::effects::{Breathe, Pulse};
use crate::http::client::scenes::Scenes;
use crate::http::client::states::{ChangeState, Cycle, SetState, SetStates, Toggle};
use crate::http::color::Color;
use crate::http::selector::Select;

pub mod effects;
pub mod engine;
pub mod outside;
pub mod prelude;
pub mod reply;
pub mod scenes;
pub mod states;

verus! {

/// The number of attempts that a request may take: at least one.
#[derive(Clone, Copy, Debug, PartialEq, Eq)]
pub struct Budget {
    attempts: u8,
}

impl Budget {
    #[verifier::type_invariant]
    spec fn positive(self) -> bool {
        self.attempts >= 1
    }

    /// The number of attempts.
    pub closed spec fn count(self) -> nat {
        self.attempts as nat
    }

    /// The budget of `attempts` attempts; there is none of zero.
    pub fn new(attempts: u8) -> (budget: Option<Budget>)
        ensures
            attempts == 0 ==> budget is None,
            attempts > 0 ==> budget is Some && budget->Some_0.count() == attempts,
    {
        if attempts == 0 {
            None
        } else {
            Some(Budget { attempts })
        }
    }

    /// The number of attempts.
    pub fn get(self) -> (attempts: u8)
        ensures
            attempts == self.count(),
            attempts >= 1,
    {
        proof {
            use_type_invariant(self);
        }
        self.attempts
    }
}

/// The budget of a request that is sent once and never again: the default.
pub closed spec fn unity_budget() -> Budget {
    Budget { attempts: 1 }
}

/// The budget of a single attempt counts one.
pub proof fn lemma_unity_counts_one()
    ensures
        unity_budget().count() == 1,
{
}

/// The budget of a request that is sent once and never again: the default.
pub fn unity() -> (budget: Budget)
    ensures
        budget == unity_budget(),
        budget.count() == 1,
{
    Budget { attempts: 1 }
}

/// The result type for all requests made with the client.
pub type ClientResult = Result<reqwest::blocking::Response, engine::Error>;

/// The HTTP verbs that the API is spoken in.
#[derive(Clone, Copy, Debug, PartialEq, Eq, Structural)]
pub enum Method {
    /// Asks for what is.
    Get,
    /// Puts a whole state in place.
    Put,
    /// Sets something going.
    Post,
}

impl Method {
    /// The verb as it stands in a request line.
    pub open spec fn word(self) -> Seq<char> {
        match self {
            Method::Get => "GET"@,
            Method::Put => "PUT"@,
            Method::Post => "POST"@,
        }
    }

    /// The verb as it stands in a request line.
    pub fn as_str(&self) -> (word: &'static str)
        ensures
            word@ == self.word(),
    {
        match self {
            Method::Get => "GET",
            Method::Put => "PUT",
            Method::Post => "POST",
        }
    }
}

/// The crux of the HTTP API. Start here.
///
/// The client is the entry point for the web API interface. First construct a client, then use it
/// to describe whatever requests are necessary. It holds the access token and
/// is never changed once made, so it can be shared freely.
pub struct Client {
    /// The access token, sent with every request as a bearer token.
    pub token: String,
}

impl Client {
    /// Constructs a new `Client` with the given access token.
    pub fn new(token: &str) -> (client: Client)
        ensures
            client.token@ == token@,
    {
        Client { token: token.to_owned() }
    }

    /// What the header `Authorization` of every request holds: the token,
    /// as a bearer token.
    pub fn authorization(&self) -> (value: String)
        ensures
            value@ == "Bearer "@ + self.token@,
    {
        let mut value = String::from_str("Bearer ");
        value.append(self.token.as_str());
        value
    }

    /// Specifies the lights upon which to act.
    pub fn select<T: Select>(&self, selector: T) -> (selected: Selected<'_, T>)
        ensures
            selected == (Selected { client: self, selector }),
    {
        Selected { client: self, selector }
    }

    /// Creates a request to set multiple states (on multiple lights).
    ///
    /// For a simpler API when working with a single state on one or multiple lights, see
    /// [`Selected::set_state`].
    pub fn set_states(&self) -> (request: SetStates<'_>)
        ensures
            request.fresh(self),
    {
        SetStates::new(self)
    }

    /// Entry point for working with scenes.
    pub fn scenes(&self) -> (scenes: Scenes<'_>)
        ensures
            scenes == (Scenes { client: self }),
    {
        Scenes { client: self }
    }

    /// Creates a request to validate the given color. `number` is the text
    /// of the number that [`Color::number`] names; other colors ignore it.
    pub fn validate(&self, color: &Color, number: &str) -> (request: Request<'_, ()>)
        ensures
            request.client == self,
            request.path@ == "/color?string="@ + color@.rendered(number@),
            request.body == (),
            request.method == Method::Get,
            request.attempts.count() == 1,
    {
        let mut path = String::from_str("/color?string=");
        path.append(color.render(number).as_str());
        Request { client: self, path, body: (), method: Method::Get, attempts: unity() }
    }
}

/// Represents a terminal request: the verb, the path below the origin of
/// the API, the body, and the attempts it may take. Nothing is left to
/// configure; it is there to be sent.
pub struct Request<'a, S> {
    /// The client on whose behalf the request is made.
    pub client: &'a Client,
    /// The path, relative to the origin of the API.
    pub path: String,
    /// What is sent along.
    pub body: S,
    /// The verb.
    pub method: Method,
    /// The attempts that sending may take.
    pub attempts: Budget,
}

impl<'a, S> Request<'a, S> {
    /// The absolute URL of the request: the origin of the API and the path.
    pub fn url(&self) -> (url: String)
        ensures
            url@ == origin() + self.path@,
    {
        let mut url = String::from_str("https://api.lifx.com/v1");
        url.append(self.path.as_str());
        url
    }
}

/// What can be told how many attempts to take.
pub trait Attempts: Sized {
    /// The same request with the attempts set.
    spec fn with_attempts(self, attempts: Budget) -> Self;

    /// Updates the number of attempts to be made.
    fn set_attempts(&mut self, attempts: Budget)
        ensures
            *final(self) == old(self).with_attempts(attempts),
    ;
}

impl<'a, S> Attempts for Request<'a, S> {
    open spec fn with_attempts(self, attempts: Budget) -> Self {
        Request { attempts, ..self }
    }

    fn set_attempts(&mut self, attempts: Budget)
        ensures
            final(self).attempts == attempts,
    {
        self.attempts = attempts;
    }
}

/// Trait enabling retrying of failed requests.
pub trait Retry: Attempts {
    /// Sets the attempts to the default of one.
    fn retry(self) -> (r: Self)
        ensures
            r == self.with_attempts(unity_budget()),
    ;

    /// Sets the number of attempts that the request may take.
    fn retries(self, n: Budget) -> (r: Self)
        ensures
            r == self.with_attempts(n),
    ;
}

impl<T: Attempts> Retry for T {
    fn retry(self) -> (r: Self)
        ensures
            r == self.with_attempts(unity_budget()),
    {
        self.retries(unity())
    }

    fn retries(self, n: Budget) -> (r: Self)
        ensures
            r == self.with_attempts(n),
    {
        let mut r = self;
        r.set_attempts(n);
        r
    }
}

/// Trait enabling conversion of non-terminal request builders to requests.
pub trait AsRequest<S> {
    /// The HTTP verb to be used.
    spec fn verb() -> Method;

    /// The client that the request belongs to.
    spec fn owner(&self) -> &Client;

    /// The relative path of the endpoint.
    spec fn route(&self) -> Seq<char>;

    /// The body as configured.
    spec fn payload(&self) -> &S;

    /// The attempts that will be made.
    spec fn budget(&self) -> nat;

    /// The HTTP verb to be used.
    fn method() -> (method: Method)
        ensures
            method == Self::verb(),
    ;

    /// A reference to the shared client.
    fn client(&self) -> (client: &Client)
        ensures
            client == self.owner(),
    ;

    /// The relative path (to the API root) of the appropriate endpoint.
    fn path(&self) -> (path: String)
        ensures
            path@ == self.route(),
    ;

    /// The request body to be used, as configured by the user.
    fn body(&self) -> (body: &S)
        ensures
            body == self.payload(),
    ;

    /// The number of attempts to be made: what was set, or else one.
    fn attempts(&self) -> (attempts: Budget)
        ensures
            attempts.count() == self.budget(),
    ;
}

/// Describes the request that a builder stands for, as it is when sent.
pub fn request<S, T: AsRequest<S>>(builder: &T) -> (request: Request<'_, &S>)
    ensures
        request.client == builder.owner(),
        request.path@ == builder.route(),
        request.body == builder.payload(),
        request.method == T::verb(),
        request.attempts.count() == builder.budget(),
{
    Request {
        body: builder.body(),
        client: builder.client(),
        method: T::method(),
        path: builder.path(),
        attempts: builder.attempts(),
    }
}

/// The attempts that a builder resolves to: what was set, or else one.
pub open spec fn resolved(attempts: Option<Budget>) -> nat {
    match attempts {
        Some(budget) => budget.count(),
        None => 1,
    }
}

/// Resolves the attempts of a builder: what was set, or else one.
pub fn resolve(attempts: Option<Budget>) -> (budget: Budget)
    ensures
        budget.count() == resolved(attempts),
{
    match attempts {
        Some(budget) => budget,
        None => unity(),
    }
}

/// A scoped request that can be used to get or set light states.
///
/// Created by [`Client::select`].
pub struct Selected<'a, T: Select> {
    /// The client that the lights belong to.
    pub client: &'a Client,
    /// The lights to act on.
    pub selector: T,
}

/// The path under which the selected lights are reached, with `tail` added.
pub open spec fn lights<T: Select>(selector: &T, tail: Seq<char>) -> Seq<char> {
    "/lights/"@ + selector.rendered() + tail
}

/// Writes the path under which the selected lights are reached, with `tail` added.
pub fn lights_path<T: Select>(selector: &T, tail: &str) -> (path: String)
    ensures
        path@ == lights(selector, tail@),
{
    let mut path = String::from_str("/lights/");
    path.append(selector.render().as_str());
    path.append(tail);
    path
}

impl<'a, T: Select> Selected<'a, T> {
    /// Creates a request to get information about the selected lights (including their states).
    pub fn list(&'a self) -> (request: Request<'a, ()>)
        ensures
            request.client == self.client,
            request.path@ == lights(&self.selector, Seq::empty()),
            request.body == (),
            request.method == Method::Get,
            request.attempts.count() == 1,
    {
        proof {
            reveal_strlit("");
        }
        let path = lights_path(&self.selector, "");
        assert(path@ =~= lights(&self.selector, Seq::empty()));
        Request { client: self.client, path, body: (), method: Method::Get, attempts: unity() }
    }

    /// Creates a request to set a uniform state on one or more lights.
    pub fn set_state(&'a self) -> (request: SetState<'a, T>)
        ensures
            request == SetState::fresh(self),
    {
        SetState::new(self)
    }

    /// Creates a request to incrementally change state on one or more lights.
    pub fn change_state(&'a self) -> (request: ChangeState<'a, T>)
        ensures
            request == ChangeState::fresh(self),
    {
        ChangeState::new(self)
    }

    /// Creates a request to begin a "breathe" effect.
    pub fn breathe(&'a self, color: Color) -> (request: Breathe<'a, T>)
        ensures
            request == Breathe::fresh(self, color),
    {
        Breathe::new(self, color)
    }

    /// Creates a request to begin a "pulse" effect.
    pub fn pulse(&'a self, color: Color) -> (request: Pulse<'a, T>)
        ensures
            request == Pulse::fresh(self, color),
    {
        Pulse::new(self, color)
    }

    /// Begins the process of specifying a cycle.
    ///
    /// Cycles provide a convenient method of moving through a set of changes without client-side
    /// logic; the API keeps track of the state of the bulb and will move to the next appropriate
    /// state upon repeated requests.
    pub fn cycle(&'a self) -> (request: Cycle<'a, T>)
        ensures
            request.fresh(self),
    {
        Cycle::new(self)
    }

    /// Creates a request to toggle power to the selected light(s), with an optional transition
    /// time (see [`Toggle::transition`]).
    ///
    /// All selected lights will have the same power state after this request is processed; if all
    /// are off, all will be turned on, but if any are on, all will be turned off.
    pub fn toggle(&'a self) -> (request: Toggle<'a, T>)
        ensures
            request == Toggle::fresh(self),
    {
        Toggle::new(self)
    }
}

} // verus!
