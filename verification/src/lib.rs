//! Decoder for the APOB firmware blob: a byte buffer holding a signed base
//! header, an extended header of subsystem offsets, and, at one of those
//! offsets, a system-memory-map record that carries a trailing array of
//! memory-hole descriptors.
//!
//! Every record is decoded field by field from the buffer, little-endian,
//! against the C-style layout of the on-disk format; each decode step returns
//! an explicit [`error::DecodeError`] instead of panicking. Because the
//! decoding is field-by-field rather than a reinterpretation of memory, no
//! alignment of the buffer is required and there is no misalignment failure.

pub mod decode;
pub mod error;
pub mod laws;
pub mod layout;
pub mod wire;

pub use error::DecodeError;
pub use layout::{
    ApobBaseHeader, ApobHeader, ApobHmac, ApobSystemMemoryMapType, ApobTypeHeader,
    MemoryHoleDescriptor, MemoryHoleTypes, RawHoleDescriptor, SystemMemoryMap,
};
