//! Requests that set or change the state of lights.

use vstd::prelude::*;
use crate::http::client::{
    lights, lights_path, resolve, resolved, AsRequest, Attempts, Budget, Client, Method, Request,
    Selected,
};
use crate::http::color::Color;
use crate::http::number::Binary32;
use crate::http::selector::Select;
use crate::http::state::{Duration, Power, State, StateChange};

verus! {

/// A scoped request to toggle specific lights which may be further customized.
pub struct Toggle<'a, T: Select> {
    /// The lights to toggle.
    pub parent: &'a Selected<'a, T>,
    /// The attempts to take, if set.
    pub attempts: Option<Budget>,
}

impl<'a, T: Select> Toggle<'a, T> {
    /// The request as it is before anything is set.
    pub open spec fn fresh(parent: &'a Selected<'a, T>) -> Self {
        Toggle { parent, attempts: None }
    }

    /// Begins a request to toggle the lights of `parent`.
    pub fn new(parent: &'a Selected<'a, T>) -> (request: Self)
        ensures
            request == Self::fresh(parent),
    {
        Toggle { parent, attempts: None }
    }

    /// Sets the transition time for the toggle, which ends the building:
    /// what comes back is the request itself.
    pub fn transition<D: Into<Duration>>(&self, duration: D) -> (request: Request<'_, Duration>)
        ensures
            request.client == self.parent.client,
            request.path@ == lights(&self.parent.selector, "/toggle"@),
            call_ensures(<D as Into<Duration>>::into, (duration,), request.body),
            request.method == Method::Post,
            request.attempts.count() == resolved(self.attempts),
    {
        Request {
            client: self.parent.client,
            path: lights_path(&self.parent.selector, "/toggle"),
            body: duration.into(),
            method: Method::Post,
            attempts: resolve(self.attempts),
        }
    }
}

impl<'a, T: Select> Attempts for Toggle<'a, T> {
    open spec fn with_attempts(self, attempts: Budget) -> Self {
        Toggle { attempts: Some(attempts), ..self }
    }

    fn set_attempts(&mut self, attempts: Budget)
        ensures
            final(self).attempts == Some(attempts),
    {
        self.attempts = Some(attempts);
    }
}

impl<'a, T: Select> AsRequest<()> for Toggle<'a, T> {
    open spec fn verb() -> Method {
        Method::Post
    }

    open spec fn owner(&self) -> &Client {
        self.parent.client
    }

    open spec fn route(&self) -> Seq<char> {
        lights(&self.parent.selector, "/toggle"@)
    }

    open spec fn payload(&self) -> &() {
        &()
    }

    open spec fn budget(&self) -> nat {
        resolved(self.attempts)
    }

    fn method() -> (method: Method)
        ensures
            method == Method::Post,
    {
        Method::Post
    }

    fn client(&self) -> (client: &Client)
        ensures
            client == self.parent.client,
    {
        self.parent.client
    }

    fn path(&self) -> (path: String)
        ensures
            path@ == self.route(),
    {
        lights_path(&self.parent.selector, "/toggle")
    }

    fn body(&self) -> (body: &()) {
        &()
    }

    fn attempts(&self) -> (attempts: Budget)
        ensures
            attempts.count() == resolved(self.attempts),
    {
        resolve(self.attempts)
    }
}

/// The body of a request to set a state: the state, and whether to skip the
/// checks that slow the answer down.
#[derive(Clone, Debug, PartialEq)]
pub struct SetStatePayload {
    /// The state to set.
    pub state: State,
    /// Whether the service is to answer before it knows the outcome.
    pub fast: Option<bool>,
}

impl Default for SetStatePayload {
    fn default() -> (payload: SetStatePayload)
        ensures
            payload == SetStatePayload::empty(),
    {
        SetStatePayload { state: State::default(), fast: None }
    }
}

impl SetStatePayload {
    /// The body that asks for nothing.
    pub open spec fn empty() -> SetStatePayload {
        SetStatePayload { state: State::empty(), fast: None }
    }
}

/// A scoped request to uniformly set the state for all selected bulbs.
pub struct SetState<'a, T: Select> {
    /// The lights to set.
    pub parent: &'a Selected<'a, T>,
    /// The attempts to take, if set.
    pub attempts: Option<Budget>,
    /// The body as built so far.
    pub payload: SetStatePayload,
}

impl<'a, T: Select> SetState<'a, T> {
    /// The request as it is before anything is set.
    pub open spec fn fresh(parent: &'a Selected<'a, T>) -> Self {
        SetState { parent, attempts: None, payload: SetStatePayload::empty() }
    }

    /// Begins a request to set the state of the lights of `parent`.
    pub fn new(parent: &'a Selected<'a, T>) -> (request: Self)
        ensures
            request == Self::fresh(parent),
    {
        SetState { parent, payload: SetStatePayload::default(), attempts: None }
    }

    /// Sets the power state of all selected bulbs.
    pub fn power<P: Into<Power>>(self, on: P) -> (request: Self)
        ensures
            request.payload.state.power is Some,
            call_ensures(<P as Into<Power>>::into, (on,), request.payload.state.power->Some_0),
            request == (SetState { payload: SetStatePayload { state: State { power: request.payload.state.power, ..self.payload.state }, ..self.payload }, ..self }),
    {
        SetState { payload: SetStatePayload { state: State { power: Some(on.into()), ..self.payload.state }, ..self.payload }, ..self }
    }

    /// Sets the color of all selected bulbs.
    pub fn color(self, color: Color) -> (request: Self)
        ensures
            request == (SetState { payload: SetStatePayload { state: State { color: Some(color), ..self.payload.state }, ..self.payload }, ..self }),
    {
        SetState { payload: SetStatePayload { state: State { color: Some(color), ..self.payload.state }, ..self.payload }, ..self }
    }

    /// Sets the brightness of all selected bulbs (overriding color settings).
    pub fn brightness(self, brightness: Binary32) -> (request: Self)
        ensures
            request == (SetState { payload: SetStatePayload { state: State { brightness: Some(brightness), ..self.payload.state }, ..self.payload }, ..self }),
    {
        SetState { payload: SetStatePayload { state: State { brightness: Some(brightness), ..self.payload.state }, ..self.payload }, ..self }
    }

    /// Sets the transition time (duration) for the change.
    pub fn transition<D: Into<Duration>>(self, duration: D) -> (request: Self)
        ensures
            request.payload.state.duration is Some,
            call_ensures(<D as Into<Duration>>::into, (duration,), request.payload.state.duration->Some_0),
            request == (SetState { payload: SetStatePayload { state: State { duration: request.payload.state.duration, ..self.payload.state }, ..self.payload }, ..self }),
    {
        SetState { payload: SetStatePayload { state: State { duration: Some(duration.into()), ..self.payload.state }, ..self.payload }, ..self }
    }

    /// Sets the infrared level, if applicable.
    pub fn infrared(self, ir: Binary32) -> (request: Self)
        ensures
            request == (SetState { payload: SetStatePayload { state: State { infrared: Some(ir), ..self.payload.state }, ..self.payload }, ..self }),
    {
        SetState { payload: SetStatePayload { state: State { infrared: Some(ir), ..self.payload.state }, ..self.payload }, ..self }
    }

    /// Sets whether the service answers at once, without waiting for the lights.
    pub fn fast(self, quickly: bool) -> (request: Self)
        ensures
            request == (SetState { payload: SetStatePayload { fast: Some(quickly), ..self.payload }, ..self }),
    {
        SetState { payload: SetStatePayload { fast: Some(quickly), ..self.payload }, ..self }
    }
}

impl<'a, T: Select> Attempts for SetState<'a, T> {
    open spec fn with_attempts(self, attempts: Budget) -> Self {
        SetState { attempts: Some(attempts), ..self }
    }

    fn set_attempts(&mut self, attempts: Budget)
        ensures
            final(self).attempts == Some(attempts),
    {
        self.attempts = Some(attempts);
    }
}

impl<'a, T: Select> AsRequest<SetStatePayload> for SetState<'a, T> {
    open spec fn verb() -> Method {
        Method::Put
    }

    open spec fn owner(&self) -> &Client {
        self.parent.client
    }

    open spec fn route(&self) -> Seq<char> {
        lights(&self.parent.selector, "/state"@)
    }

    open spec fn payload(&self) -> &SetStatePayload {
        &self.payload
    }

    open spec fn budget(&self) -> nat {
        resolved(self.attempts)
    }

    fn method() -> (method: Method)
        ensures
            method == Method::Put,
    {
        Method::Put
    }

    fn client(&self) -> (client: &Client)
        ensures
            client == self.parent.client,
    {
        self.parent.client
    }

    fn path(&self) -> (path: String)
        ensures
            path@ == self.route(),
    {
        lights_path(&self.parent.selector, "/state")
    }

    fn body(&self) -> (body: &SetStatePayload)
        ensures
            body == &self.payload,
    {
        &self.payload
    }

    fn attempts(&self) -> (attempts: Budget)
        ensures
            attempts.count() == resolved(self.attempts),
    {
        resolve(self.attempts)
    }
}

/// One entry of a request to set several states: the lights, as text, and
/// the state they are to take.
#[derive(Clone, Debug, PartialEq)]
pub struct StateExt {
    /// The text of the selector.
    pub selector: String,
    /// The state for the lights it selects.
    pub state: State,
}

/// The body of a request to set several states at once.
#[derive(Clone, Debug, PartialEq)]
pub struct SetStatesPayload {
    /// The states to set, in the order in which they were added.
    pub new: Vec<StateExt>,
    /// What holds for every entry that does not say otherwise.
    pub default: Option<State>,
    /// Whether the service is to answer before it knows the outcome.
    pub fast: Option<bool>,
}

/// A request to set the states of several sets of lights at once.
pub struct SetStates<'a> {
    /// The client that the lights belong to.
    pub parent: &'a Client,
    /// The body as built so far.
    pub inner: SetStatesPayload,
    /// The attempts to take, if set.
    pub attempts: Option<Budget>,
}

impl<'a> SetStates<'a> {
    /// Whether the request is as it is before anything is set.
    pub open spec fn fresh(self, parent: &'a Client) -> bool {
        &&& self.parent == parent
        &&& self.inner.new@.len() == 0
        &&& self.inner.default is None
        &&& self.inner.fast is None
        &&& self.attempts is None
    }

    /// Begins a request to set several states.
    pub fn new(parent: &'a Client) -> (request: Self)
        ensures
            request.fresh(parent),
    {
        SetStates {
            parent,
            inner: SetStatesPayload { new: Vec::new(), default: None, fast: None },
            attempts: None,
        }
    }

    /// Adds a state for the lights that `selector` names, after those added before.
    pub fn add<T: Select>(self, selector: T, state: State) -> (request: Self)
        ensures
            request.inner.new@.len() == self.inner.new@.len() + 1,
            request.inner.new@.drop_last() == self.inner.new@,
            request.inner.new@.last().selector@ == selector.rendered(),
            request.inner.new@.last().state == state,
            request.parent == self.parent,
            request.inner.default == self.inner.default,
            request.inner.fast == self.inner.fast,
            request.attempts == self.attempts,
    {
        let mut request = self;
        let ghost before = request.inner.new@;
        request.inner.new.push(StateExt { selector: selector.render(), state });
        assert(request.inner.new@.drop_last() =~= before);
        request
    }

    /// Sets the state that holds where an entry says nothing.
    pub fn default(self, state: State) -> (request: Self)
        ensures
            request == (SetStates { inner: SetStatesPayload { default: Some(state), ..self.inner }, ..self }),
    {
        SetStates { inner: SetStatesPayload { default: Some(state), ..self.inner }, ..self }
    }

    /// Sets whether the service answers at once, without waiting for the lights.
    pub fn fast(self, fast: bool) -> (request: Self)
        ensures
            request == (SetStates { inner: SetStatesPayload { fast: Some(fast), ..self.inner }, ..self }),
    {
        SetStates { inner: SetStatesPayload { fast: Some(fast), ..self.inner }, ..self }
    }
}

impl<'a> Attempts for SetStates<'a> {
    open spec fn with_attempts(self, attempts: Budget) -> Self {
        SetStates { attempts: Some(attempts), ..self }
    }

    fn set_attempts(&mut self, attempts: Budget)
        ensures
            final(self).attempts == Some(attempts),
    {
        self.attempts = Some(attempts);
    }
}

impl<'a> AsRequest<SetStatesPayload> for SetStates<'a> {
    open spec fn verb() -> Method {
        Method::Put
    }

    open spec fn owner(&self) -> &Client {
        self.parent
    }

    open spec fn route(&self) -> Seq<char> {
        "/lights/states"@
    }

    open spec fn payload(&self) -> &SetStatesPayload {
        &self.inner
    }

    open spec fn budget(&self) -> nat {
        resolved(self.attempts)
    }

    fn method() -> (method: Method)
        ensures
            method == Method::Put,
    {
        Method::Put
    }

    fn client(&self) -> (client: &Client)
        ensures
            client == self.parent,
    {
        self.parent
    }

    fn path(&self) -> (path: String)
        ensures
            path@ == self.route(),
    {
        String::from_str("/lights/states")
    }

    fn body(&self) -> (body: &SetStatesPayload)
        ensures
            body == &self.inner,
    {
        &self.inner
    }

    fn attempts(&self) -> (attempts: Budget)
        ensures
            attempts.count() == resolved(self.attempts),
    {
        resolve(self.attempts)
    }
}

/// A scoped request to uniformly change the state for all selected bulbs.
pub struct ChangeState<'a, T: Select> {
    /// The lights to change.
    pub parent: &'a Selected<'a, T>,
    /// The change as built so far.
    pub change: StateChange,
    /// The attempts to take, if set.
    pub attempts: Option<Budget>,
}

impl<'a, T: Select> ChangeState<'a, T> {
    /// The request as it is before anything is set.
    pub open spec fn fresh(parent: &'a Selected<'a, T>) -> Self {
        ChangeState { parent, change: StateChange::empty(), attempts: None }
    }

    /// Begins a request to change the state of the lights of `parent`.
    pub fn new(parent: &'a Selected<'a, T>) -> (request: Self)
        ensures
            request == Self::fresh(parent),
    {
        ChangeState { parent, change: StateChange::default(), attempts: None }
    }

    /// Sets target power state.
    pub fn power<P: Into<Power>>(self, on: P) -> (request: Self)
        ensures
            request.change.power is Some,
            call_ensures(<P as Into<Power>>::into, (on,), request.change.power->Some_0),
            request == (ChangeState { change: StateChange { power: request.change.power, ..self.change }, ..self }),
    {
        ChangeState { change: StateChange { power: Some(on.into()), ..self.change }, ..self }
    }

    /// Sets transition duration.
    pub fn transition<D: Into<Duration>>(self, duration: D) -> (request: Self)
        ensures
            request.change.duration is Some,
            call_ensures(<D as Into<Duration>>::into, (duration,), request.change.duration->Some_0),
            request == (ChangeState { change: StateChange { duration: request.change.duration, ..self.change }, ..self }),
    {
        ChangeState { change: StateChange { duration: Some(duration.into()), ..self.change }, ..self }
    }

    /// Sets change in hue.
    pub fn hue(self, hue: i16) -> (request: Self)
        ensures
            request == (ChangeState { change: StateChange { hue: Some(hue), ..self.change }, ..self }),
    {
        ChangeState { change: StateChange { hue: Some(hue), ..self.change }, ..self }
    }

    /// Sets change in saturation.
    pub fn saturation(self, saturation: Binary32) -> (request: Self)
        ensures
            request == (ChangeState { change: StateChange { saturation: Some(saturation), ..self.change }, ..self }),
    {
        ChangeState { change: StateChange { saturation: Some(saturation), ..self.change }, ..self }
    }

    /// Sets change in brightness.
    pub fn brightness(self, brightness: Binary32) -> (request: Self)
        ensures
            request == (ChangeState { change: StateChange { brightness: Some(brightness), ..self.change }, ..self }),
    {
        ChangeState { change: StateChange { brightness: Some(brightness), ..self.change }, ..self }
    }

    /// Sets change in color temperature.
    pub fn kelvin(self, temp: i16) -> (request: Self)
        ensures
            request == (ChangeState { change: StateChange { kelvin: Some(temp), ..self.change }, ..self }),
    {
        ChangeState { change: StateChange { kelvin: Some(temp), ..self.change }, ..self }
    }

    /// Sets change in infrared level.
    pub fn infrared(self, ir: Binary32) -> (request: Self)
        ensures
            request == (ChangeState { change: StateChange { infrared: Some(ir), ..self.change }, ..self }),
    {
        ChangeState { change: StateChange { infrared: Some(ir), ..self.change }, ..self }
    }
}

impl<'a, T: Select> Attempts for ChangeState<'a, T> {
    open spec fn with_attempts(self, attempts: Budget) -> Self {
        ChangeState { attempts: Some(attempts), ..self }
    }

    fn set_attempts(&mut self, attempts: Budget)
        ensures
            final(self).attempts == Some(attempts),
    {
        self.attempts = Some(attempts);
    }
}

impl<'a, T: Select> AsRequest<StateChange> for ChangeState<'a, T> {
    open spec fn verb() -> Method {
        Method::Post
    }

    open spec fn owner(&self) -> &Client {
        self.parent.client
    }

    open spec fn route(&self) -> Seq<char> {
        lights(&self.parent.selector, "/state/delta"@)
    }

    open spec fn payload(&self) -> &StateChange {
        &self.change
    }

    open spec fn budget(&self) -> nat {
        resolved(self.attempts)
    }

    fn method() -> (method: Method)
        ensures
            method == Method::Post,
    {
        Method::Post
    }

    fn client(&self) -> (client: &Client)
        ensures
            client == self.parent.client,
    {
        self.parent.client
    }

    fn path(&self) -> (path: String)
        ensures
            path@ == self.route(),
    {
        lights_path(&self.parent.selector, "/state/delta")
    }

    fn body(&self) -> (body: &StateChange)
        ensures
            body == &self.change,
    {
        &self.change
    }

    fn attempts(&self) -> (attempts: Budget)
        ensures
            attempts.count() == resolved(self.attempts),
    {
        resolve(self.attempts)
    }
}

/// The way in which a cycle moves through its states.
#[derive(Clone, Copy, Debug, PartialEq, Eq, Structural)]
pub enum Direction {
    /// From the first state to the last.
    Forward,
    /// From the last state to the first.
    Backward,
}

impl Direction {
    /// The word that the API has for the direction.
    pub open spec fn word(self) -> Seq<char> {
        match self {
            Direction::Forward => "forward"@,
            Direction::Backward => "backward"@,
        }
    }

    /// The other direction.
    pub open spec fn turned(self) -> Direction {
        match self {
            Direction::Forward => Direction::Backward,
            Direction::Backward => Direction::Forward,
        }
    }

    /// The word that the API has for the direction.
    pub fn as_str(&self) -> (word: &'static str)
        ensures
            word@ == self.word(),
    {
        match self {
            Direction::Forward => "forward",
            Direction::Backward => "backward",
        }
    }
}

/// The body of a request to move lights on to the next state of a cycle.
pub struct CyclePayload<'a, T: Select> {
    /// The lights to move on.
    pub selector: &'a T,
    /// The way in which the cycle moves.
    pub direction: Direction,
    /// The states of the cycle, in order.
    pub states: Vec<State>,
    /// What holds for every state that does not say otherwise.
    pub default: Option<State>,
}

/// Specifies a list of states to cycle through. Each request causes the cycle to advance.
///
/// The service keeps track of where the lights are in the cycle and moves
/// them to the state that follows.
pub struct Cycle<'a, T: Select> {
    /// The lights to move on.
    pub parent: &'a Selected<'a, T>,
    /// The body as built so far.
    pub inner: CyclePayload<'a, T>,
    /// The attempts to take, if set.
    pub attempts: Option<Budget>,
}

impl<'a, T: Select> Cycle<'a, T> {
    /// Whether the request is as it is before anything is set.
    pub open spec fn fresh(self, parent: &'a Selected<'a, T>) -> bool {
        &&& self.parent == parent
        &&& self.inner.selector == &parent.selector
        &&& self.inner.direction == Direction::Forward
        &&& self.inner.states@.len() == 0
        &&& self.inner.default is None
        &&& self.attempts is None
    }

    /// Begins a cycle for the lights of `parent`.
    pub fn new(parent: &'a Selected<'a, T>) -> (request: Self)
        ensures
            request.fresh(parent),
    {
        Cycle {
            parent,
            inner: CyclePayload {
                selector: &parent.selector,
                direction: Direction::Forward,
                states: Vec::new(),
                default: None,
            },
            attempts: None,
        }
    }

    /// Adds a state to the cycle, after those added before.
    pub fn add(self, next: State) -> (request: Self)
        ensures
            request.inner.states@ == self.inner.states@.push(next),
            request.parent == self.parent,
            request.inner.selector == self.inner.selector,
            request.inner.direction == self.inner.direction,
            request.inner.default == self.inner.default,
            request.attempts == self.attempts,
    {
        let mut request = self;
        request.inner.states.push(next);
        request
    }

    /// Sets the state that holds where a state of the cycle says nothing.
    pub fn default(self, state: State) -> (request: Self)
        ensures
            request == (Cycle { inner: CyclePayload { default: Some(state), ..self.inner }, ..self }),
    {
        Cycle { inner: CyclePayload { default: Some(state), ..self.inner }, ..self }
    }

    /// Reverses the direction of the cycle.
    pub fn rev(self) -> (request: Self)
        ensures
            request == (Cycle {
                inner: CyclePayload {
                    direction: self.inner.direction.turned(),
                    ..self.inner
                },
                ..self
            }),
    {
        let direction = match self.inner.direction {
            Direction::Forward => Direction::Backward,
            Direction::Backward => Direction::Forward,
        };
        Cycle { inner: CyclePayload { direction, ..self.inner }, ..self }
    }
}

impl<'a, T: Select> Attempts for Cycle<'a, T> {
    open spec fn with_attempts(self, attempts: Budget) -> Self {
        Cycle { attempts: Some(attempts), ..self }
    }

    fn set_attempts(&mut self, attempts: Budget)
        ensures
            final(self).attempts == Some(attempts),
    {
        self.attempts = Some(attempts);
    }
}

impl<'a, T: Select> AsRequest<CyclePayload<'a, T>> for Cycle<'a, T> {
    open spec fn verb() -> Method {
        Method::Post
    }

    open spec fn owner(&self) -> &Client {
        self.parent.client
    }

    open spec fn route(&self) -> Seq<char> {
        lights(&self.parent.selector, "/cycle"@)
    }

    open spec fn payload(&self) -> &CyclePayload<'a, T> {
        &self.inner
    }

    open spec fn budget(&self) -> nat {
        resolved(self.attempts)
    }

    fn method() -> (method: Method)
        ensures
            method == Method::Post,
    {
        Method::Post
    }

    fn client(&self) -> (client: &Client)
        ensures
            client == self.parent.client,
    {
        self.parent.client
    }

    fn path(&self) -> (path: String)
        ensures
            path@ == self.route(),
    {
        lights_path(&self.parent.selector, "/cycle")
    }

    fn body(&self) -> (body: &CyclePayload<'a, T>)
        ensures
            body == &self.inner,
    {
        &self.inner
    }

    fn attempts(&self) -> (attempts: Budget)
        ensures
            attempts.count() == resolved(self.attempts),
    {
        resolve(self.attempts)
    }
}

} // verus!
