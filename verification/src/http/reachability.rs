//! How a device answered a request.

use vstd::prelude::*;

verus! {

/// Represents the reachability status of a device.
#[derive(Clone, Copy, Debug, PartialEq, Eq, Structural)]
pub enum Reachability {
    /// The light is reachable and has received the request.
    Reachable,
    /// The light did not acknowledge the request.
    TimedOut,
    /// The light is currently offline (physically powered off or unreachable over the network).
    Offline,
}

} // verus!
