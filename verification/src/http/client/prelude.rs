//! Contains useful utilities for working with the LIFX HTTP API.
//!
//! Use the prelude to maintain the convenience of glob importing without overly polluting the
//! namespace.

pub use crate::http::Client;
pub use crate::http::Color;
pub use crate::http::ColorParseError;
pub use crate::http::ColorValidationError;
pub use crate::http::Error;
pub use crate::http::Randomize;
pub use crate::http::Retry;
pub use crate::http::Selector;
pub use crate::http::SelectorParseError;
pub use crate::http::State;
pub use crate::http::StateChange;
