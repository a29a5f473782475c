//! Control interface for LIFX lights over the internet: selectors, colors,
//! states, request descriptions and the retry policy that governs sending them.

pub mod common;
pub mod http;
