//! The failures that an operation can end with.

use crate::api_commands::ViaCommandId;
use vstd::prelude::*;

verus! {

/// Names what a size failure measured: the payload of a request.
pub const PAYLOAD: &'static str = "payload";

/// Names what a size failure measured: the window of a chunked transfer.
pub const WINDOW: &'static str = "window";

/// Names what a size failure measured: a buffer that is read or written in
/// windows.
pub const BUFFER: &'static str = "buffer";

/// Names what a size failure measured: the layers of a keymap.
pub const LAYERS: &'static str = "keymap layers";

/// Names what a size failure measured: the keycodes of one layer.
pub const KEYCODES: &'static str = "layer keycodes";

/// Names what a size failure measured: the data of a macro write.
pub const MACRO_DATA: &'static str = "macro data";

/// Why an operation did not produce its result.
#[derive(Clone, Copy, Debug, PartialEq, Eq)]
pub enum Error {
    /// The channel failed to write or to read a report, or reported something
    /// that the client had not asked for.
    Io,
    /// The answer to the given command did not begin with the bytes of the
    /// request, or was too short to hold the fields that the command returns.
    BadResponse(ViaCommandId),
    /// The keyboard's protocol version is too old for the operation. `None`
    /// where the version could not be read at all.
    UnsupportedProtocol(Option<u16>),
    /// A payload, a window, a keymap or a macro is larger than the frame, the
    /// address range or the device's buffer can take: `actual` exceeds
    /// `expected`, and `context` names what was measured.
    SizeExceeded { expected: usize, actual: usize, context: &'static str },
    /// No connected device matched the identifiers asked for.
    NoSuchDevice { vid: u16, pid: u16, usage_page: u16 },
}

impl Error {
    /// The size failure for a value of `actual` bytes or entries where at most
    /// `expected` fit.
    pub fn size_mismatch(context: &'static str, expected: usize, actual: usize) -> (error: Error)
        ensures
            error == (Error::SizeExceeded { expected, actual, context }),
    {
        Error::SizeExceeded { expected, actual, context }
    }
}

} // verus!
