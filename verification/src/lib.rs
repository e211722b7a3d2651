//! Reads the hardware serial number of a physical storage device.
//!
//! The library holds everything about the exchange that can be decided
//! without touching the operating system: what is asked when a device is
//! opened and queried, in which order the three system requests follow one
//! another, and how the byte block that the query fills is decoded. The
//! caller performs the requests and hands back what the system answered.

pub mod attempt;
pub mod descriptor;
pub mod drive;
pub mod error;
pub mod layout;
pub mod request;
pub mod serial;
pub mod text;
pub mod trace;
