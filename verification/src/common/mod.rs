//! What holds of the hardware, whatever the transport.

pub mod convert;
pub mod product;
