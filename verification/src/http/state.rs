//! States of lights: what a light is to become, and by how much it is to change.

use vstd::prelude::*;
use crate::http::color::Color;
use crate::http::number::Binary32;
use crate::http::text::same;

verus! {

/// The nanoseconds in a second.
pub const NANOS_PER_SEC: u32 = 1_000_000_000;

/// A span of time: whole seconds and the nanoseconds beyond them, which are
/// always fewer than a second.
#[derive(Clone, Copy, Debug, Eq, Ord, PartialEq, PartialOrd)]
pub struct Duration {
    secs: u64,
    nanos: u32,
}

impl Duration {
    #[verifier::type_invariant]
    spec fn carried(self) -> bool {
        self.nanos < NANOS_PER_SEC
    }

    /// The whole seconds of the span.
    pub closed spec fn secs(self) -> nat {
        self.secs as nat
    }

    /// The nanoseconds beyond the whole seconds.
    pub closed spec fn nanos(self) -> nat {
        self.nanos as nat
    }

    /// The span of `secs` seconds.
    pub fn from_secs(secs: u64) -> (d: Duration)
        ensures
            d.secs() == secs,
            d.nanos() == 0,
    {
        Duration { secs, nanos: 0 }
    }

    /// The span of `secs` seconds and `nanos` nanoseconds, where `nanos` is
    /// less than a second.
    pub fn new(secs: u64, nanos: u32) -> (d: Option<Duration>)
        ensures
            nanos >= NANOS_PER_SEC ==> d is None,
            nanos < NANOS_PER_SEC ==> d is Some && d->Some_0.secs() == secs && d->Some_0.nanos()
                == nanos,
    {
        if nanos < NANOS_PER_SEC {
            Some(Duration { secs, nanos })
        } else {
            None
        }
    }

    /// The whole seconds of the span.
    pub fn as_secs(&self) -> (secs: u64)
        ensures
            secs == self.secs(),
    {
        self.secs
    }

    /// The nanoseconds beyond the whole seconds.
    pub fn subsec_nanos(&self) -> (nanos: u32)
        ensures
            nanos == self.nanos(),
            nanos < NANOS_PER_SEC,
    {
        proof {
            use_type_invariant(self);
        }
        self.nanos
    }

    /// The whole milliseconds beyond the whole seconds.
    pub fn subsec_millis(&self) -> (millis: u32)
        ensures
            millis == self.nanos() / 1_000_000,
            millis < 1000,
    {
        proof {
            use_type_invariant(self);
        }
        self.nanos / 1_000_000
    }
}

/// The whole seconds that a span of std holds.
pub uninterp spec fn span_secs(duration: std::time::Duration) -> u64;

/// What a span of std holds beyond its whole seconds, in nanoseconds.
pub uninterp spec fn span_nanos(duration: std::time::Duration) -> u32;

/// `Duration::as_secs` of std: the whole seconds that the span holds.
#[verifier::external_body]
fn whole_secs(duration: &std::time::Duration) -> (secs: u64)
    ensures
        secs == span_secs(*duration),
{
    duration.as_secs()
}

/// `Duration::subsec_nanos` of std: what the span holds beyond its whole
/// seconds, in nanoseconds, which is always less than a second.
#[verifier::external_body]
fn fractional_nanos(duration: &std::time::Duration) -> (nanos: u32)
    ensures
        nanos == span_nanos(*duration),
        nanos < NANOS_PER_SEC,
{
    duration.subsec_nanos()
}

/// `Duration::from_secs` of std: the span of that many whole seconds and
/// nothing beyond them.
pub assume_specification[ std::time::Duration::from_secs ](whole: u64) -> (span:
    std::time::Duration)
    ensures
        span_secs(span) == whole,
        span_nanos(span) == 0,
;

impl From<std::time::Duration> for Duration {
    fn from(duration: std::time::Duration) -> (d: Duration)
        ensures
            d.secs() == span_secs(duration),
            d.nanos() == span_nanos(duration),
    {
        Duration { secs: whole_secs(&duration), nanos: fractional_nanos(&duration) }
    }
}

impl vstd::std_specs::convert::FromSpecImpl<std::time::Duration> for Duration {
    open spec fn obeys_from_spec() -> bool {
        false
    }

    open spec fn from_spec(duration: std::time::Duration) -> Duration {
        arbitrary()
    }
}

/// A power state: on or off.
#[derive(Clone, Copy, Debug, Eq, PartialEq, Structural)]
pub struct Power(pub bool);

impl From<bool> for Power {
    fn from(on: bool) -> (power: Power)
        ensures
            power.0 == on,
    {
        Power(on)
    }
}

impl vstd::std_specs::convert::FromSpecImpl<bool> for Power {
    open spec fn obeys_from_spec() -> bool {
        true
    }

    open spec fn from_spec(on: bool) -> Power {
        Power(on)
    }
}

impl Power {
    /// The word that the API has for the power state.
    pub open spec fn word(self) -> Seq<char> {
        if self.0 {
            "on"@
        } else {
            "off"@
        }
    }

    /// The word that the API has for the power state: `on` or `off`.
    pub fn as_str(&self) -> (word: &'static str)
        ensures
            word@ == self.word(),
    {
        if self.0 {
            "on"
        } else {
            "off"
        }
    }

    /// The power state that a word of the API names: on for `on`, and off for
    /// every other word.
    pub fn from_word(word: &str) -> (power: Power)
        ensures
            power.0 == (word@ == "on"@),
    {
        Power(same(word, "on"))
    }
}

/// Encodes a desired final state.
///
/// Every field is optional by itself. A field that is absent is left out of
/// what is sent, and the light keeps what it has.
#[derive(Clone, Debug, PartialEq)]
pub struct State {
    /// The desired power state, if appropriate.
    pub power: Option<Power>,
    /// The desired color setting, if appropriate.
    pub color: Option<Color>,
    /// The desired brightness level (0–1), if appropriate. Will take priority over any brightness
    /// specified in a color setting.
    pub brightness: Option<Binary32>,
    /// How long the transition should take.
    pub duration: Option<Duration>,
    /// If appropriate, the desired infrared light level (0–1).
    pub infrared: Option<Binary32>,
}

impl Default for State {
    fn default() -> (state: State)
        ensures
            state == State::empty(),
    {
        State { power: None, color: None, brightness: None, duration: None, infrared: None }
    }
}

impl State {
    /// The state that asks for nothing.
    pub open spec fn empty() -> State {
        State { power: None, color: None, brightness: None, duration: None, infrared: None }
    }

    /// Constructs an empty state.
    ///
    /// Identical to [`State::builder`].
    pub fn new() -> (state: State)
        ensures
            state == State::empty(),
    {
        State::default()
    }

    /// Creates a new builder.
    pub fn builder() -> (state: State)
        ensures
            state == State::empty(),
    {
        State::default()
    }

    /// Builder function to set target power setting.
    pub fn power<P: Into<Power>>(self, on: P) -> (state: State)
        ensures
            state.power is Some,
            call_ensures(<P as Into<Power>>::into, (on,), state.power->Some_0),
            state == (State { power: state.power, ..self }),
    {
        State { power: Some(on.into()), ..self }
    }

    /// Builder function to set target color setting.
    pub fn color(self, color: Color) -> (state: State)
        ensures
            state == (State { color: Some(color), ..self }),
    {
        State { color: Some(color), ..self }
    }

    /// Builder function to set target brightness setting.
    pub fn brightness(self, brightness: Binary32) -> (state: State)
        ensures
            state == (State { brightness: Some(brightness), ..self }),
    {
        State { brightness: Some(brightness), ..self }
    }

    /// Builder function to set animation duration.
    pub fn transition<D: Into<Duration>>(self, duration: D) -> (state: State)
        ensures
            state.duration is Some,
            call_ensures(<D as Into<Duration>>::into, (duration,), state.duration->Some_0),
            state == (State { duration: state.duration, ..self }),
    {
        State { duration: Some(duration.into()), ..self }
    }

    /// Builder function to set target maximum infrared level.
    pub fn infrared(self, infrared: Binary32) -> (state: State)
        ensures
            state == (State { infrared: Some(infrared), ..self }),
    {
        State { infrared: Some(infrared), ..self }
    }
}

/// Encodes a desired state change: each field is a step away from what the
/// light has now, taken by the service, and not a value to arrive at.
#[derive(Clone, Debug, PartialEq)]
pub struct StateChange {
    /// The desired power state.
    pub power: Option<Power>,
    /// How long the transition should take.
    pub duration: Option<Duration>,
    /// The desired change in infrared light level.
    pub infrared: Option<Binary32>,
    /// The desired change in hue.
    pub hue: Option<i16>,
    /// The desired change in saturation.
    pub saturation: Option<Binary32>,
    /// The desired change in brightness.
    pub brightness: Option<Binary32>,
    /// The desired change in color temperature.
    pub kelvin: Option<i16>,
}

impl Default for StateChange {
    fn default() -> (change: StateChange)
        ensures
            change == StateChange::empty(),
    {
        StateChange {
            power: None,
            duration: None,
            infrared: None,
            hue: None,
            saturation: None,
            brightness: None,
            kelvin: None,
        }
    }
}

impl StateChange {
    /// The change that changes nothing.
    pub open spec fn empty() -> StateChange {
        StateChange {
            power: None,
            duration: None,
            infrared: None,
            hue: None,
            saturation: None,
            brightness: None,
            kelvin: None,
        }
    }

    /// Constructs an empty state change.
    ///
    /// Identical to [`StateChange::builder`].
    pub fn new() -> (change: StateChange)
        ensures
            change == StateChange::empty(),
    {
        StateChange::builder()
    }

    /// Creates a new builder.
    pub fn builder() -> (change: StateChange)
        ensures
            change == StateChange::empty(),
    {
        StateChange::default()
    }

    /// Builder function to change target power state.
    pub fn power<P: Into<Power>>(self, on: P) -> (change: StateChange)
        ensures
            change.power is Some,
            call_ensures(<P as Into<Power>>::into, (on,), change.power->Some_0),
            change == (StateChange { power: change.power, ..self }),
    {
        StateChange { power: Some(on.into()), ..self }
    }

    /// Builder function to change transition duration.
    pub fn transition<T: Into<Duration>>(self, duration: T) -> (change: StateChange)
        ensures
            change.duration is Some,
            call_ensures(<T as Into<Duration>>::into, (duration,), change.duration->Some_0),
            change == (StateChange { duration: change.duration, ..self }),
    {
        StateChange { duration: Some(duration.into()), ..self }
    }

    /// Builder function to set target change in infrared level.
    pub fn infrared(self, infrared: Binary32) -> (change: StateChange)
        ensures
            change == (StateChange { infrared: Some(infrared), ..self }),
    {
        StateChange { infrared: Some(infrared), ..self }
    }

    /// Builder function to set target change in hue.
    pub fn hue(self, hue: i16) -> (change: StateChange)
        ensures
            change == (StateChange { hue: Some(hue), ..self }),
    {
        StateChange { hue: Some(hue), ..self }
    }

    /// Builder function to set target change in saturation.
    pub fn saturation(self, saturation: Binary32) -> (change: StateChange)
        ensures
            change == (StateChange { saturation: Some(saturation), ..self }),
    {
        StateChange { saturation: Some(saturation), ..self }
    }

    /// Builder function to set target change in brightness.
    pub fn brightness(self, brightness: Binary32) -> (change: StateChange)
        ensures
            change == (StateChange { brightness: Some(brightness), ..self }),
    {
        StateChange { brightness: Some(brightness), ..self }
    }

    /// Builder function to set target change in color temperature.
    pub fn kelvin(self, temp: i16) -> (change: StateChange)
        ensures
            change == (StateChange { kelvin: Some(temp), ..self }),
    {
        StateChange { kelvin: Some(temp), ..self }
    }
}

} // verus!
