//! Requests about scenes.

use vstd::prelude::*;
use crate::http::client::{
    resolve, resolved, unity, AsRequest, Attempts, Budget, Client, Method, Request,
};
use crate::http::state::{Duration, State};

verus! {

/// A waypoint in working with scenes.
///
/// Call one of its methods to describe a request.
pub struct Scenes<'a> {
    /// The client that the scenes belong to.
    pub client: &'a Client,
}

impl<'a> Scenes<'a> {
    /// Creates a terminal request to list all scenes.
    pub fn list(&'a self) -> (request: Request<'a, ()>)
        ensures
            request.client == self.client,
            request.path@ == "/scenes"@,
            request.body == (),
            request.method == Method::Get,
            request.attempts.count() == 1,
    {
        Request {
            client: self.client,
            path: String::from_str("/scenes"),
            body: (),
            method: Method::Get,
            attempts: unity(),
        }
    }

    /// Creates a configurable request for activating a specific scene.
    pub fn activate(&'a self, uuid: &str) -> (request: Activate<'a>)
        ensures
            request.fresh(self, uuid@),
    {
        Activate::new(self, uuid.to_owned())
    }
}

/// The body of a request to activate a scene.
#[derive(Clone, Debug, PartialEq)]
pub struct ActivatePayload {
    /// How long the transition takes.
    pub transition: Option<Duration>,
    /// The properties of the scene that are left as they are.
    pub ignore: Vec<String>,
    /// A state that takes priority over what the scene says.
    pub overrides: Option<State>,
    /// Whether the service is to answer before it knows the outcome.
    pub fast: Option<bool>,
}

/// A configurable request for activating a scene.
pub struct Activate<'a> {
    /// Where the request came from.
    pub parent: &'a Scenes<'a>,
    /// The scene to activate.
    pub uuid: String,
    /// The body as built so far.
    pub inner: ActivatePayload,
    /// The attempts to take, if set.
    pub attempts: Option<Budget>,
}

impl<'a> Activate<'a> {
    /// Whether the request is as it is before anything is set.
    pub open spec fn fresh(self, parent: &'a Scenes<'a>, uuid: Seq<char>) -> bool {
        &&& self.parent == parent
        &&& self.uuid@ == uuid
        &&& self.inner.transition is None
        &&& self.inner.ignore@.len() == 0
        &&& self.inner.overrides is None
        &&& self.inner.fast is None
        &&& self.attempts is None
    }

    /// Begins a request to activate the scene `uuid`.
    pub fn new(parent: &'a Scenes<'a>, uuid: String) -> (request: Self)
        ensures
            request.fresh(parent, uuid@),
    {
        Activate {
            parent,
            uuid,
            inner: ActivatePayload {
                transition: None,
                ignore: Vec::new(),
                overrides: None,
                fast: None,
            },
            attempts: None,
        }
    }

    /// Sets the transition time for the scene activation.
    pub fn transition<D: Into<Duration>>(self, transition: D) -> (request: Self)
        ensures
            request.inner.transition is Some,
            call_ensures(<D as Into<Duration>>::into, (transition,), request.inner.transition->Some_0),
            request == (Activate { inner: ActivatePayload { transition: request.inner.transition, ..self.inner }, ..self }),
    {
        Activate { inner: ActivatePayload { transition: Some(transition.into()), ..self.inner }, ..self }
    }

    /// Adds a property to the list of ignored properties when changing.
    pub fn ignore(self, s: &str) -> (request: Self)
        ensures
            request.inner.ignore@.len() == self.inner.ignore@.len() + 1,
            request.inner.ignore@.drop_last() == self.inner.ignore@,
            request.inner.ignore@.last()@ == s@,
            request.parent == self.parent,
            request.uuid == self.uuid,
            request.inner.transition == self.inner.transition,
            request.inner.overrides == self.inner.overrides,
            request.inner.fast == self.inner.fast,
            request.attempts == self.attempts,
    {
        let mut request = self;
        let ghost before = request.inner.ignore@;
        request.inner.ignore.push(s.to_owned());
        assert(request.inner.ignore@.drop_last() =~= before);
        request
    }

    /// Sets an overriding state that will take priority over all scene attributes.
    pub fn overwrite(self, state: State) -> (request: Self)
        ensures
            request == (Activate { inner: ActivatePayload { overrides: Some(state), ..self.inner }, ..self }),
    {
        Activate { inner: ActivatePayload { overrides: Some(state), ..self.inner }, ..self }
    }

    /// Sets whether the service answers at once, without waiting for the lights.
    pub fn fast(self, fast: bool) -> (request: Self)
        ensures
            request == (Activate { inner: ActivatePayload { fast: Some(fast), ..self.inner }, ..self }),
    {
        Activate { inner: ActivatePayload { fast: Some(fast), ..self.inner }, ..self }
    }
}

/// The path under which the scene `uuid` is activated.
pub open spec fn activation(uuid: Seq<char>) -> Seq<char> {
    "/scenes/scene_id:"@ + uuid + "/activate"@
}

impl<'a> Attempts for Activate<'a> {
    open spec fn with_attempts(self, attempts: Budget) -> Self {
        Activate { attempts: Some(attempts), ..self }
    }

    fn set_attempts(&mut self, attempts: Budget)
        ensures
            final(self).attempts == Some(attempts),
    {
        self.attempts = Some(attempts);
    }
}

impl<'a> AsRequest<ActivatePayload> for Activate<'a> {
    open spec fn verb() -> Method {
        Method::Put
    }

    open spec fn owner(&self) -> &Client {
        self.parent.client
    }

    open spec fn route(&self) -> Seq<char> {
        activation(self.uuid@)
    }

    open spec fn payload(&self) -> &ActivatePayload {
        &self.inner
    }

    open spec fn budget(&self) -> nat {
        resolved(self.attempts)
    }

    fn method() -> (method: Method)
        ensures
            method == Method::Put,
    {
        Method::Put
    }

    fn client(&self) -> (client: &Client)
        ensures
            client == self.parent.client,
    {
        self.parent.client
    }

    fn path(&self) -> (path: String)
        ensures
            path@ == self.route(),
    {
        let mut path = String::from_str("/scenes/scene_id:");
        path.append(self.uuid.as_str());
        path.append("/activate");
        path
    }

    fn body(&self) -> (body: &ActivatePayload)
        ensures
            body == &self.inner,
    {
        &self.inner
    }

    fn attempts(&self) -> (attempts: Budget)
        ensures
            attempts.count() == resolved(self.attempts),
    {
        resolve(self.attempts)
    }
}

} // verus!
