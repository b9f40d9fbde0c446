//! Client side of a line-oriented `AT` command protocol for a serial modem:
//! commands and their exact wire encoding, the reading of the device's short
//! replies, and one error taxonomy for device errors and transport faults.

pub mod commands;
pub mod errors;
pub mod responses;
pub mod text;
