//! Decode failures. Every decode step returns its outcome explicitly; no
//! verified function of this crate panics.

use vstd::prelude::*;

verus! {

/// Why a decode step failed.
///
/// Decoding is field-by-field, so a buffer's address never matters and there
/// is no misalignment failure.
#[derive(Clone, Copy, Debug, PartialEq, Eq, Structural)]
pub enum DecodeError {
    /// The leading four bytes of the buffer are not the APOB magic.
    SignatureMismatch,
    /// A cast asked for more bytes than the buffer holds at the given offset.
    TooShort,
    /// A computed sub-region (an offset field's target, or the hole array)
    /// extends past the end of the buffer.
    OutOfBounds,
    /// A memory-hole kind field holds this raw value, which is outside the
    /// defined enumerants.
    InvalidEnumValue(u32),
}

} // verus!
