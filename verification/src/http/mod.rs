//! Control LIFX lights over the internet.

pub mod client;
pub mod color;
pub mod number;
pub mod reachability;
pub mod selector;
pub mod state;
pub mod text;

pub use self::client::effects::{Breathe, BreathePayload, Pulse, PulsePayload};
pub use self::client::engine::{Cause, Error, Fault, Moment, Pause, Retrier, Step};
pub use self::client::prelude;
pub use self::client::reply::{judge, Signs};
pub use self::client::scenes::{Activate, ActivatePayload, Scenes};
pub use self::client::states::{
    ChangeState, Cycle, CyclePayload, Direction, SetState, SetStatePayload, SetStates,
    SetStatesPayload, StateExt, Toggle,
};
pub use self::client::{
    unity, AsRequest, Attempts, Budget, Client, ClientResult, Method, Request, Retry, Selected,
};
pub use self::color::Error as ColorValidationError;
pub use self::color::{Color, ColorParseError, Draft};
pub use self::number::Binary32;
pub use self::reachability::Reachability;
pub use self::state::{Duration, Power, State, StateChange};
pub use self::selector::{
    PureSelect, Random, Randomize, Select, Selector, SelectorParseError, Zoned, Zones,
};
