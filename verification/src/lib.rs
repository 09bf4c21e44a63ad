//! Decoding of the Apple Accessory Protocol (AAP) spoken by AirPods over the
//! L2CAP control channel: the protocol's constants and value types, and a
//! parser that turns raw packets into typed events.

pub mod parser;
pub mod laws;
pub mod protocol;
pub mod text;
