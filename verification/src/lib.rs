//! Session client for a racing simulator's UDP broadcasting interface: the
//! wire format, the framed codec, the connection life cycle, the facts derived
//! from successive snapshots, and the fuel estimate built on them.

pub mod connection;
pub mod fuel_calculator;
pub mod session;
pub mod setup;
pub mod telemetry;
