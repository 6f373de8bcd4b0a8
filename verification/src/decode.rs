//! Safe view casting and the variable-length hole-array projection.
//!
//! Each `cast` checks that the buffer holds enough bytes for the record and
//! then decodes it field by field; the returned value is proved to hold
//! exactly the bytes' field values. `hole_info` computes the byte range of the
//! trailing hole array from the already-decoded `number_of_holes`, checks it
//! against the buffer, and decodes the entries, leaving each entry's kind raw
//! so that one malformed entry does not hide the others.

use crate::error::DecodeError;
use crate::layout::{
    base_header_matches, has_signature, header_matches, hole_kind_of, memory_map_record_matches,
    raw_hole_matches, system_map_matches, type_header_matches, ApobBaseHeader, ApobHeader,
    ApobHmac, ApobSystemMemoryMapType, ApobTypeHeader, MemoryHoleDescriptor, MemoryHoleTypes,
    RawHoleDescriptor, SystemMemoryMap, BASE_HEADER_SIZE, HEADER_SIZE, HOLE_DESCRIPTOR_SIZE,
    MEMORY_MAP_RECORD_SIZE, SYSTEM_MEMORY_MAP_SIZE, SYS_MAP_OFFSET_FIELD, TYPE_HEADER_SIZE,
};
use crate::wire::{le_u32_at, read_bytes, read_u32_le, read_u64_le};
use vstd::prelude::*;

verus! {

/// Checks that the buffer begins with the four magic bytes `b"APOB"`.
pub fn validate_signature(bytes: &[u8]) -> (r: Result<(), DecodeError>)
    ensures
        match r {
            Ok(_) => has_signature(bytes@),
            Err(e) => e == DecodeError::SignatureMismatch && !has_signature(bytes@),
        },
{
    let n = bytes.len();
    if n < 4 {
        return Err(DecodeError::SignatureMismatch);
    }
    if bytes[0] == 0x41 && bytes[1] == 0x50 && bytes[2] == 0x4F && bytes[3] == 0x42 {
        Ok(())
    } else {
        Err(DecodeError::SignatureMismatch)
    }
}

impl ApobBaseHeader {
    /// Casts the first 16 bytes of the buffer as the base header. Succeeds on
    /// any buffer of 16 or more bytes, whatever its content.
    pub fn cast(bytes: &[u8]) -> (r: Result<ApobBaseHeader, DecodeError>)
        ensures
            match r {
                Ok(h) => bytes@.len() >= BASE_HEADER_SIZE && base_header_matches(h, bytes@, 0),
                Err(e) => e == DecodeError::TooShort && bytes@.len() < BASE_HEADER_SIZE,
            },
    {
        let n = bytes.len();
        if n < BASE_HEADER_SIZE {
            return Err(DecodeError::TooShort);
        }
        Ok(ApobBaseHeader {
            signature: read_u32_le(bytes, 0),
            version: read_u32_le(bytes, 4),
            size: read_u32_le(bytes, 8),
            offset_of_first_entry: read_u32_le(bytes, 12),
        })
    }
}

impl ApobHeader {
    /// Casts the first 44 bytes of the buffer as the extended header.
    pub fn cast(bytes: &[u8]) -> (r: Result<ApobHeader, DecodeError>)
        ensures
            match r {
                Ok(h) => bytes@.len() >= HEADER_SIZE && header_matches(h, bytes@, 0),
                Err(e) => e == DecodeError::TooShort && bytes@.len() < HEADER_SIZE,
            },
    {
        let n = bytes.len();
        if n < HEADER_SIZE {
            return Err(DecodeError::TooShort);
        }
        let reserved = [read_u32_le(bytes, 36), read_u32_le(bytes, 40)];
        Ok(ApobHeader {
            header: ApobBaseHeader {
                signature: read_u32_le(bytes, 0),
                version: read_u32_le(bytes, 4),
                size: read_u32_le(bytes, 8),
                offset_of_first_entry: read_u32_le(bytes, 12),
            },
            sys_map_offset: read_u32_le(bytes, 16),
            mem_smbios_offset: read_u32_le(bytes, 20),
            nvdimm_info_offset: read_u32_le(bytes, 24),
            apob_apcb_boot_info_offset: read_u32_le(bytes, 28),
            sys_nps_offset: read_u32_le(bytes, 32),
            reserved,
        })
    }
}

impl ApobTypeHeader {
    /// Casts the 48 bytes at `off` as a type header.
    pub fn cast_at(bytes: &[u8], off: usize) -> (r: Result<ApobTypeHeader, DecodeError>)
        ensures
            match r {
                Ok(t) => off + TYPE_HEADER_SIZE <= bytes@.len()
                    && type_header_matches(t, bytes@, off as int),
                Err(e) => e == DecodeError::TooShort
                    && off + TYPE_HEADER_SIZE > bytes@.len(),
            },
    {
        let n = bytes.len();
        if n < TYPE_HEADER_SIZE || off > n - TYPE_HEADER_SIZE {
            return Err(DecodeError::TooShort);
        }
        let hmac = read_bytes(bytes, off + 16, 32);
        Ok(ApobTypeHeader {
            group_id: read_u32_le(bytes, off),
            data_type_id: read_u32_le(bytes, off + 4),
            instance_id: read_u32_le(bytes, off + 8),
            type_size: read_u32_le(bytes, off + 12),
            apob_type_hmac: ApobHmac { apob_hmac: hmac },
        })
    }
}

impl ApobSystemMemoryMapType {
    /// Casts the 64 bytes at `off` as the system-memory-map record: a type
    /// header followed by the fixed map header.
    pub fn cast_at(bytes: &[u8], off: usize) -> (r: Result<ApobSystemMemoryMapType, DecodeError>)
        ensures
            match r {
                Ok(rec) => off + MEMORY_MAP_RECORD_SIZE <= bytes@.len()
                    && memory_map_record_matches(rec, bytes@, off as int),
                Err(e) => e == DecodeError::TooShort
                    && off + MEMORY_MAP_RECORD_SIZE > bytes@.len(),
            },
    {
        let n = bytes.len();
        if n < MEMORY_MAP_RECORD_SIZE || off > n - MEMORY_MAP_RECORD_SIZE {
            return Err(DecodeError::TooShort);
        }
        let apob_type_header = match ApobTypeHeader::cast_at(bytes, off) {
            Ok(t) => t,
            Err(e) => return Err(e),
        };
        let apob_system_map = SystemMemoryMap {
            top_of_system_memory: read_u64_le(bytes, off + TYPE_HEADER_SIZE),
            number_of_holes: read_u32_le(bytes, off + TYPE_HEADER_SIZE + 8),
        };
        Ok(ApobSystemMemoryMapType { apob_type_header, apob_system_map })
    }
}

impl SystemMemoryMap {
    /// Projects the hole array that trails this map in the buffer.
    ///
    /// `map_offset` is the byte offset of the fixed map part (not of the whole
    /// record); the array begins right after its padded 16 bytes and holds
    /// `number_of_holes` entries of 24 bytes each. Fails with `OutOfBounds`
    /// when the array's end would pass the end of the buffer; a count of zero
    /// yields an empty vector, not an error.
    pub fn hole_info(&self, bytes: &[u8], map_offset: usize) -> (r: Result<
        Vec<RawHoleDescriptor>,
        DecodeError,
    >)
        ensures
            ({
                let start = map_offset + SYSTEM_MEMORY_MAP_SIZE;
                let end = start + self.number_of_holes * HOLE_DESCRIPTOR_SIZE;
                match r {
                    Ok(v) => end <= bytes@.len() && v@.len() == self.number_of_holes
                        && forall|i: int|
                            0 <= i < v@.len() ==> raw_hole_matches(
                                #[trigger] v@[i],
                                bytes@,
                                start + i * HOLE_DESCRIPTOR_SIZE,
                            ),
                    Err(e) => e == DecodeError::OutOfBounds && end > bytes@.len(),
                }
            }),
    {
        let n = bytes.len();
        let count = self.number_of_holes;
        let end: u128 = map_offset as u128 + SYSTEM_MEMORY_MAP_SIZE as u128
            + count as u128 * HOLE_DESCRIPTOR_SIZE as u128;
        if end > n as u128 {
            return Err(DecodeError::OutOfBounds);
        }
        let start = map_offset + SYSTEM_MEMORY_MAP_SIZE;
        let count = count as usize;
        let mut v: Vec<RawHoleDescriptor> = Vec::new();
        let mut i: usize = 0;
        while i < count
            invariant
                i <= count,
                count == self.number_of_holes,
                start == map_offset + SYSTEM_MEMORY_MAP_SIZE,
                start + count * HOLE_DESCRIPTOR_SIZE <= n,
                n == bytes@.len(),
                v@.len() == i,
                forall|j: int|
                    0 <= j < i ==> raw_hole_matches(
                        #[trigger] v@[j],
                        bytes@,
                        start + j * HOLE_DESCRIPTOR_SIZE,
                    ),
            decreases count - i,
        {
            let off = start + i * HOLE_DESCRIPTOR_SIZE;
            v.push(RawHoleDescriptor {
                base: read_u64_le(bytes, off),
                size: read_u64_le(bytes, off + 8),
                kind: read_u32_le(bytes, off + 16),
            });
            i = i + 1;
        }
        Ok(v)
    }
}

impl MemoryHoleTypes {
    /// Decodes a raw on-disk kind value: 0 through 3 name the defined
    /// enumerants in declaration order; the sentinel value and everything
    /// above it fail with `InvalidEnumValue`.
    pub fn from_raw(raw: u32) -> (r: Result<MemoryHoleTypes, DecodeError>)
        ensures
            match r {
                Ok(k) => hole_kind_of(raw as int) == Some(k),
                Err(e) => hole_kind_of(raw as int) is None
                    && e == DecodeError::InvalidEnumValue(raw),
            },
    {
        match raw {
            0 => Ok(MemoryHoleTypes::UMA),
            1 => Ok(MemoryHoleTypes::MMIO),
            2 => Ok(MemoryHoleTypes::PrivilegedDRAM),
            3 => Ok(MemoryHoleTypes::Reserved1TbRemap),
            _ => Err(DecodeError::InvalidEnumValue(raw)),
        }
    }
}

impl RawHoleDescriptor {
    /// Decodes this entry's kind, yielding the typed descriptor. The base and
    /// size carry over unchanged; a raw kind outside the defined enumerants
    /// fails with `InvalidEnumValue` holding that raw value.
    pub fn decode(&self) -> (r: Result<MemoryHoleDescriptor, DecodeError>)
        ensures
            match r {
                Ok(d) => d.base == self.base && d.size == self.size
                    && hole_kind_of(self.kind as int) == Some(d.kind),
                Err(e) => hole_kind_of(self.kind as int) is None
                    && e == DecodeError::InvalidEnumValue(self.kind),
            },
    {
        match MemoryHoleTypes::from_raw(self.kind) {
            Ok(kind) => Ok(MemoryHoleDescriptor { base: self.base, size: self.size, kind }),
            Err(e) => Err(e),
        }
    }
}

/// Resolves the offset indirection: bounds-checks `header.sys_map_offset`
/// against the buffer, then casts the record found there.
pub fn resolve_system_map(header: &ApobHeader, bytes: &[u8]) -> (r: Result<
    ApobSystemMemoryMapType,
    DecodeError,
>)
    ensures
        ({
            let off = header.sys_map_offset as int;
            match r {
                Ok(rec) => off + MEMORY_MAP_RECORD_SIZE <= bytes@.len()
                    && memory_map_record_matches(rec, bytes@, off),
                Err(e) => match e {
                    DecodeError::OutOfBounds => off >= bytes@.len(),
                    DecodeError::TooShort => off < bytes@.len()
                        && off + MEMORY_MAP_RECORD_SIZE > bytes@.len(),
                    _ => false,
                },
            }
        }),
{
    let n = bytes.len();
    let off = header.sys_map_offset as usize;
    if off >= n {
        return Err(DecodeError::OutOfBounds);
    }
    ApobSystemMemoryMapType::cast_at(bytes, off)
}

/// Decodes a whole blob down to its system-memory-map record: validates the
/// signature, casts the extended header, and resolves its `sys_map_offset`.
/// The first failing step's error is returned.
pub fn decode_system_map(bytes: &[u8]) -> (r: Result<ApobSystemMemoryMapType, DecodeError>)
    ensures
        ({
            let s = bytes@;
            let off = le_u32_at(s, SYS_MAP_OFFSET_FIELD as int);
            match r {
                Ok(rec) => has_signature(s) && s.len() >= HEADER_SIZE
                    && off + MEMORY_MAP_RECORD_SIZE <= s.len()
                    && memory_map_record_matches(rec, s, off),
                Err(e) => match e {
                    DecodeError::SignatureMismatch => !has_signature(s),
                    DecodeError::TooShort => has_signature(s) && (s.len() < HEADER_SIZE
                        || (off < s.len() && off + MEMORY_MAP_RECORD_SIZE > s.len())),
                    DecodeError::OutOfBounds => has_signature(s) && s.len() >= HEADER_SIZE
                        && off >= s.len(),
                    _ => false,
                },
            }
        }),
{
    match validate_signature(bytes) {
        Ok(_) => {},
        Err(e) => return Err(e),
    }
    let header = match ApobHeader::cast(bytes) {
        Ok(h) => h,
        Err(e) => return Err(e),
    };
    resolve_system_map(&header, bytes)
}

} // verus!
