//! The ways in which decoding an image can fail.

use vstd::prelude::*;

verus! {

/// Why decoding stopped. The first failure ends the whole decode; there is
/// no partial result.
#[derive(Debug, Clone, Copy, PartialEq, Eq, Structural)]
pub enum DecodeError {
    /// A read reached past the end of the image, or a seek left the range of
    /// positions.
    Io,
    /// The signature, the machine type or the optional-header magic is not
    /// the expected one.
    Format,
    /// A relative virtual address lies in no section.
    AddressResolution,
    /// The bytes of a name are not valid UTF-8.
    Encoding,
}

} // verus!
