//! Requests that set an effect going.

use vstd::prelude::*;
use crate::http::client::{
    lights, lights_path, resolve, resolved, AsRequest, Attempts, Budget, Client, Method, Selected,
};
use crate::http::color::Color;
use crate::http::number::Binary32;
use crate::http::selector::Select;
use crate::http::state::Duration;

verus! {

/// The body of a request for the breathe effect.
#[derive(Clone)]
pub struct BreathePayload<'a, T: Select> {
    /// The color to move to.
    pub color: Color,
    /// The lights to act on.
    pub selector: &'a T,
    /// The color to start from; the current one when absent.
    pub from: Option<Color>,
    /// How long one cycle takes.
    pub period: Option<Duration>,
    /// How many cycles are run.
    pub cycles: Option<u16>,
    /// Whether the lights keep the last color when the effect ends.
    pub persist: Option<bool>,
    /// Whether lights that are off are turned on first.
    pub power_on: Option<bool>,
    /// The share of a cycle at which the color is at its fullest, from 0 to 1.
    pub peak: Option<Binary32>,
}

impl<'a, T: Select> BreathePayload<'a, T> {
    /// The body as it is before anything but the color is set.
    pub open spec fn fresh(selector: &'a T, color: Color) -> Self {
        BreathePayload {
            selector,
            color,
            from: None,
            period: None,
            cycles: None,
            persist: None,
            power_on: None,
            peak: None,
        }
    }

    fn new(selector: &'a T, color: Color) -> (payload: Self)
        ensures
            payload == Self::fresh(selector, color),
    {
        BreathePayload {
            selector,
            color,
            from: None,
            period: None,
            cycles: None,
            persist: None,
            power_on: None,
            peak: None,
        }
    }
}

/// Specifies a "breathe" effect, wherein the light color fades smoothly to transition.
pub struct Breathe<'a, T: Select> {
    /// The lights to act on.
    pub parent: &'a Selected<'a, T>,
    /// The body as built so far.
    pub inner: BreathePayload<'a, T>,
    /// The attempts to take, if set.
    pub attempts: Option<Budget>,
}

impl<'a, T: Select> Breathe<'a, T> {
    /// The request as it is before anything but the color is set.
    pub open spec fn fresh(parent: &'a Selected<'a, T>, color: Color) -> Self {
        Breathe { parent, inner: BreathePayload::fresh(&parent.selector, color), attempts: None }
    }

    /// Begins a request for the effect on the lights of `parent`.
    pub fn new(parent: &'a Selected<'a, T>, color: Color) -> (request: Self)
        ensures
            request == Self::fresh(parent, color),
    {
        Breathe { parent, inner: BreathePayload::new(&parent.selector, color), attempts: None }
    }

    /// Sets the starting color.
    pub fn from(self, color: Color) -> (request: Self)
        ensures
            request == (Breathe { inner: BreathePayload { from: Some(color), ..self.inner }, ..self }),
    {
        Breathe { inner: BreathePayload { from: Some(color), ..self.inner }, ..self }
    }

    /// Sets the animation duration.
    pub fn period<D: Into<Duration>>(self, period: D) -> (request: Self)
        ensures
            request.inner.period is Some,
            call_ensures(<D as Into<Duration>>::into, (period,), request.inner.period->Some_0),
            request == (Breathe { inner: BreathePayload { period: request.inner.period, ..self.inner }, ..self }),
    {
        Breathe { inner: BreathePayload { period: Some(period.into()), ..self.inner }, ..self }
    }

    /// Sets the number of cycles to execute.
    pub fn cycles(self, count: u16) -> (request: Self)
        ensures
            request == (Breathe { inner: BreathePayload { cycles: Some(count), ..self.inner }, ..self }),
    {
        Breathe { inner: BreathePayload { cycles: Some(count), ..self.inner }, ..self }
    }

    /// Sets whether to keep the bulb at the last color when the effect ends.
    pub fn persist(self, keep: bool) -> (request: Self)
        ensures
            request == (Breathe { inner: BreathePayload { persist: Some(keep), ..self.inner }, ..self }),
    {
        Breathe { inner: BreathePayload { persist: Some(keep), ..self.inner }, ..self }
    }

    /// Sets whether to turn the lights on first, should they be off.
    pub fn power(self, force: bool) -> (request: Self)
        ensures
            request == (Breathe { inner: BreathePayload { power_on: Some(force), ..self.inner }, ..self }),
    {
        Breathe { inner: BreathePayload { power_on: Some(force), ..self.inner }, ..self }
    }

    /// Sets where in a cycle the color is at its fullest, from 0 to 1.
    pub fn peak(self, frac: Binary32) -> (request: Self)
        ensures
            request == (Breathe { inner: BreathePayload { peak: Some(frac), ..self.inner }, ..self }),
    {
        Breathe { inner: BreathePayload { peak: Some(frac), ..self.inner }, ..self }
    }
}

impl<'a, T: Select> Attempts for Breathe<'a, T> {
    open spec fn with_attempts(self, attempts: Budget) -> Self {
        Breathe { attempts: Some(attempts), ..self }
    }

    fn set_attempts(&mut self, attempts: Budget)
        ensures
            final(self).attempts == Some(attempts),
    {
        self.attempts = Some(attempts);
    }
}

impl<'a, T: Select> AsRequest<BreathePayload<'a, T>> for Breathe<'a, T> {
    open spec fn verb() -> Method {
        Method::Post
    }

    open spec fn owner(&self) -> &Client {
        self.parent.client
    }

    open spec fn route(&self) -> Seq<char> {
        lights(&self.parent.selector, "/effects/breathe"@)
    }

    open spec fn payload(&self) -> &BreathePayload<'a, T> {
        &self.inner
    }

    open spec fn budget(&self) -> nat {
        resolved(self.attempts)
    }

    fn method() -> (method: Method)
        ensures
            method == Method::Post,
    {
        Method::Post
    }

    fn client(&self) -> (client: &Client)
        ensures
            client == self.parent.client,
    {
        self.parent.client
    }

    fn path(&self) -> (path: String)
        ensures
            path@ == self.route(),
    {
        lights_path(&self.parent.selector, "/effects/breathe")
    }

    fn body(&self) -> (body: &BreathePayload<'a, T>)
        ensures
            body == &self.inner,
    {
        &self.inner
    }

    fn attempts(&self) -> (attempts: Budget)
        ensures
            attempts.count() == resolved(self.attempts),
    {
        resolve(self.attempts)
    }
}

/// The body of a request for the pulse effect.
#[derive(Clone)]
pub struct PulsePayload<'a, T: Select> {
    /// The color to move to.
    pub color: Color,
    /// The lights to act on.
    pub selector: &'a T,
    /// The color to start from; the current one when absent.
    pub from: Option<Color>,
    /// How long one cycle takes.
    pub period: Option<Duration>,
    /// How many cycles are run.
    pub cycles: Option<u16>,
    /// Whether the lights keep the last color when the effect ends.
    pub persist: Option<bool>,
    /// Whether lights that are off are turned on first.
    pub power_on: Option<bool>,
}

impl<'a, T: Select> PulsePayload<'a, T> {
    /// The body as it is before anything but the color is set.
    pub open spec fn fresh(selector: &'a T, color: Color) -> Self {
        PulsePayload {
            selector,
            color,
            from: None,
            period: None,
            cycles: None,
            persist: None,
            power_on: None,
        }
    }

    fn new(selector: &'a T, color: Color) -> (payload: Self)
        ensures
            payload == Self::fresh(selector, color),
    {
        PulsePayload {
            selector,
            color,
            from: None,
            period: None,
            cycles: None,
            persist: None,
            power_on: None,
        }
    }
}

/// Specifies a "pulse" effect, wherein the light color abruptly changes.
pub struct Pulse<'a, T: Select> {
    /// The lights to act on.
    pub parent: &'a Selected<'a, T>,
    /// The body as built so far.
    pub inner: PulsePayload<'a, T>,
    /// The attempts to take, if set.
    pub attempts: Option<Budget>,
}

impl<'a, T: Select> Pulse<'a, T> {
    /// The request as it is before anything but the color is set.
    pub open spec fn fresh(parent: &'a Selected<'a, T>, color: Color) -> Self {
        Pulse { parent, inner: PulsePayload::fresh(&parent.selector, color), attempts: None }
    }

    /// Begins a request for the effect on the lights of `parent`.
    pub fn new(parent: &'a Selected<'a, T>, color: Color) -> (request: Self)
        ensures
            request == Self::fresh(parent, color),
    {
        Pulse { parent, inner: PulsePayload::new(&parent.selector, color), attempts: None }
    }

    /// Sets the starting color.
    pub fn from(self, color: Color) -> (request: Self)
        ensures
            request == (Pulse { inner: PulsePayload { from: Some(color), ..self.inner }, ..self }),
    {
        Pulse { inner: PulsePayload { from: Some(color), ..self.inner }, ..self }
    }

    /// Sets the animation duration.
    pub fn period<D: Into<Duration>>(self, period: D) -> (request: Self)
        ensures
            request.inner.period is Some,
            call_ensures(<D as Into<Duration>>::into, (period,), request.inner.period->Some_0),
            request == (Pulse { inner: PulsePayload { period: request.inner.period, ..self.inner }, ..self }),
    {
        Pulse { inner: PulsePayload { period: Some(period.into()), ..self.inner }, ..self }
    }

    /// Sets the number of cycles to execute.
    pub fn cycles(self, count: u16) -> (request: Self)
        ensures
            request == (Pulse { inner: PulsePayload { cycles: Some(count), ..self.inner }, ..self }),
    {
        Pulse { inner: PulsePayload { cycles: Some(count), ..self.inner }, ..self }
    }

    /// Sets whether to keep the bulb at the last color when the effect ends.
    pub fn persist(self, keep: bool) -> (request: Self)
        ensures
            request == (Pulse { inner: PulsePayload { persist: Some(keep), ..self.inner }, ..self }),
    {
        Pulse { inner: PulsePayload { persist: Some(keep), ..self.inner }, ..self }
    }

    /// Sets whether to turn the lights on first, should they be off.
    pub fn power(self, force: bool) -> (request: Self)
        ensures
            request == (Pulse { inner: PulsePayload { power_on: Some(force), ..self.inner }, ..self }),
    {
        Pulse { inner: PulsePayload { power_on: Some(force), ..self.inner }, ..self }
    }
}

impl<'a, T: Select> Attempts for Pulse<'a, T> {
    open spec fn with_attempts(self, attempts: Budget) -> Self {
        Pulse { attempts: Some(attempts), ..self }
    }

    fn set_attempts(&mut self, attempts: Budget)
        ensures
            final(self).attempts == Some(attempts),
    {
        self.attempts = Some(attempts);
    }
}

impl<'a, T: Select> AsRequest<PulsePayload<'a, T>> for Pulse<'a, T> {
    open spec fn verb() -> Method {
        Method::Post
    }

    open spec fn owner(&self) -> &Client {
        self.parent.client
    }

    open spec fn route(&self) -> Seq<char> {
        lights(&self.parent.selector, "/effects/pulse"@)
    }

    open spec fn payload(&self) -> &PulsePayload<'a, T> {
        &self.inner
    }

    open spec fn budget(&self) -> nat {
        resolved(self.attempts)
    }

    fn method() -> (method: Method)
        ensures
            method == Method::Post,
    {
        Method::Post
    }

    fn client(&self) -> (client: &Client)
        ensures
            client == self.parent.client,
    {
        self.parent.client
    }

    fn path(&self) -> (path: String)
        ensures
            path@ == self.route(),
    {
        lights_path(&self.parent.selector, "/effects/pulse")
    }

    fn body(&self) -> (body: &PulsePayload<'a, T>)
        ensures
            body == &self.inner,
    {
        &self.inner
    }

    fn attempts(&self) -> (attempts: Budget)
        ensures
            attempts.count() == resolved(self.attempts),
    {
        resolve(self.attempts)
    }
}

} // verus!
