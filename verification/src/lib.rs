//! Driver core for the ZyAura ZG family of USB CO₂/temperature/humidity
//! monitors.
//!
//! The crate covers the algorithmic heart of the sensor protocol: the
//! fixed frame cipher ([`decrypt`]), the five-byte packet format
//! ([`protocol::decode`]), the per-frame handling with the cleartext
//! shortcut ([`driver::decode_frame`]), and the accumulation state machine
//! that combines successive single readings into one temperature/CO₂ pair
//! ([`driver::Accumulator`]). Opening the HID device and reading raw frames
//! from it is left to a thin unverified layer around this crate.

pub mod cipher;
pub mod driver;
pub mod options;
pub mod protocol;

pub use cipher::decrypt;
pub use driver::Accumulator;
pub use driver::Error;
pub use driver::Reading;
pub use options::OpenOptions;
pub use protocol::SingleReading;
