//! Error types returned by the verified selection logic.
//!
//! The connection-level errors of the X client library never reach this
//! crate: callers that talk to the X server keep those on their side and
//! only hand plain values in.  The variants that carry no payload here mark
//! the failures this library itself decides on.

use vstd::prelude::*;

verus! {

/// Failure while parsing a hex colour argument.
#[derive(Clone, Copy, Debug, PartialEq, Eq, Structural)]
pub enum ParseHexError {
    /// The digit string was empty.
    Empty,
    /// A character was not a hexadecimal digit.
    InvalidDigit,
    /// The value does not fit in 32 bits.
    Overflow,
    /// After stripping `#`, the colour was not 3, 4, 6 or 8 digits long.
    BadLength,
}

/// Failure while resolving the escape keycode.
#[derive(Clone, Copy, Debug, PartialEq, Eq, Structural)]
pub enum KeyboardError {
    /// The connection to the server broke down.
    ConnectionError,
    /// No keycode maps to the escape keysym.
    NotFound,
    /// The server answered with an error.
    Misc,
}

} // verus!
