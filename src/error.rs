//! Errors of the protocol core.

use vstd::prelude::*;

verus! {

/// What went wrong while encoding, decoding or converting a frame.
#[derive(Debug, Clone, Copy, PartialEq, Eq, Structural)]
pub enum Error {
    /// A bus number outside `0..=15`.
    RangeError,
    /// A CAN payload longer than 8 bytes, or a data length code above 8.
    LengthError,
    /// A buffer whose length is not the exact size of the unit it should hold.
    MalformedLength,
    /// An identifier that does not fit the 11 or 29 bits its frame kind allows.
    InvalidIdentifier,
}

} // verus!
