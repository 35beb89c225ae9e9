//! Host-side protocol core for configuring a VIA-compatible keyboard.
//!
//! The crate holds no device handle. It turns each keyboard operation into the
//! frames that go over the raw HID channel and folds the device's answers into
//! a typed result; the caller owns the channel, performs the writes and reads
//! that the client asks for, and reports back what happened.

pub mod utils;
pub mod api_commands;
pub mod error;
pub mod frame;
pub mod transfer;
pub mod session;
pub mod matrix;
pub mod macros;
pub mod api;
pub mod lighting;
pub mod runs;
pub mod scan;
