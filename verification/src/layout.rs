//! The on-disk shapes of the APOB records, and the spec predicates that say
//! when a decoded value matches the bytes it came from.
//!
//! All multi-byte integers are little-endian. Sizes follow the format's
//! C-style layout: `SystemMemoryMap` is padded from 12 to 16 bytes and each
//! `MemoryHoleDescriptor` from 20 to 24 bytes, to eight-byte alignment; the
//! padding bytes carry no information and decoding ignores them.

use crate::wire::{le_u32_at, le_u64_at};
use vstd::prelude::*;

verus! {

/// Size in bytes of [`ApobBaseHeader`].
pub const BASE_HEADER_SIZE: usize = 16;

/// Size in bytes of [`ApobHeader`].
pub const HEADER_SIZE: usize = 44;

/// Size in bytes of [`ApobTypeHeader`].
pub const TYPE_HEADER_SIZE: usize = 48;

/// Size in bytes of the fixed part of [`SystemMemoryMap`] (12 bytes of fields,
/// padded to eight-byte alignment).
pub const SYSTEM_MEMORY_MAP_SIZE: usize = 16;

/// Size in bytes of the fixed part of [`ApobSystemMemoryMapType`].
pub const MEMORY_MAP_RECORD_SIZE: usize = 64;

/// Stride in bytes of one [`MemoryHoleDescriptor`] entry (20 bytes of fields,
/// padded to eight-byte alignment).
pub const HOLE_DESCRIPTOR_SIZE: usize = 24;

/// The magic signature `b"APOB"` as a little-endian u32.
pub const APOB_SIGNATURE: u32 = 0x424F_5041;

/// Byte offset within [`ApobHeader`] of its `sys_map_offset` field.
pub const SYS_MAP_OFFSET_FIELD: usize = 16;

/// Top-level blob header: the first 16 bytes of the buffer.
#[derive(Clone, Copy, Debug, PartialEq, Eq, Structural)]
pub struct ApobBaseHeader {
    pub signature: u32,
    pub version: u32,
    pub size: u32,
    pub offset_of_first_entry: u32,
}

/// Extended top-level header: the base header followed by five subsystem
/// offsets (each a byte offset from the start of the whole buffer) and two
/// reserved words. 44 bytes.
#[derive(Clone, Copy, Debug, PartialEq, Eq)]
pub struct ApobHeader {
    pub header: ApobBaseHeader,
    pub sys_map_offset: u32,
    pub mem_smbios_offset: u32,
    pub nvdimm_info_offset: u32,
    pub apob_apcb_boot_info_offset: u32,
    pub sys_nps_offset: u32,
    pub reserved: [u32; 2],
}

/// The 32 HMAC bytes of a type header, carried through opaquely: they are
/// never validated or interpreted.
#[derive(Clone, Debug, PartialEq, Eq)]
pub struct ApobHmac {
    pub apob_hmac: Vec<u8>,
}

/// Header preceding every typed record. 48 bytes.
#[derive(Clone, Debug, PartialEq, Eq)]
pub struct ApobTypeHeader {
    pub group_id: u32,
    pub data_type_id: u32,
    pub instance_id: u32,
    pub type_size: u32,
    pub apob_type_hmac: ApobHmac,
}

/// Classification of a memory hole. Stored on disk as a u32 equal to the
/// variant's position in declaration order; `MaxMemoryHoleTypes` is the
/// sentinel one past the last defined kind and never decodes.
#[derive(Clone, Copy, Debug, PartialEq, Eq, Structural)]
pub enum MemoryHoleTypes {
    UMA,
    MMIO,
    PrivilegedDRAM,
    Reserved1TbRemap,
    MaxMemoryHoleTypes,
}

/// One memory-hole entry with its kind decoded.
#[derive(Clone, Copy, Debug, PartialEq, Eq, Structural)]
pub struct MemoryHoleDescriptor {
    pub base: u64,
    pub size: u64,
    pub kind: MemoryHoleTypes,
}

/// One memory-hole entry as it sits in the buffer, its kind still the raw
/// integer. The kind decodes per access through [`RawHoleDescriptor::decode`],
/// so one malformed entry does not hide its neighbours.
#[derive(Clone, Copy, Debug, PartialEq, Eq, Structural)]
pub struct RawHoleDescriptor {
    pub base: u64,
    pub size: u64,
    pub kind: u32,
}

/// Fixed part of the system memory map: immediately followed in the buffer by
/// `number_of_holes` contiguous hole descriptors.
#[derive(Clone, Copy, Debug, PartialEq, Eq, Structural)]
pub struct SystemMemoryMap {
    pub top_of_system_memory: u64,
    pub number_of_holes: u32,
}

/// The system-memory-map record: a type header followed by the map header.
#[derive(Clone, Debug, PartialEq, Eq)]
pub struct ApobSystemMemoryMapType {
    pub apob_type_header: ApobTypeHeader,
    pub apob_system_map: SystemMemoryMap,
}

/// The buffer begins with the four magic bytes `b"APOB"`.
pub open spec fn has_signature(s: Seq<u8>) -> bool {
    &&& s.len() >= 4
    &&& s[0] == 0x41u8
    &&& s[1] == 0x50u8
    &&& s[2] == 0x4Fu8
    &&& s[3] == 0x42u8
}

/// `h` holds exactly the base-header fields written at `s[off..off + 16]`.
pub open spec fn base_header_matches(h: ApobBaseHeader, s: Seq<u8>, off: int) -> bool {
    &&& h.signature == le_u32_at(s, off)
    &&& h.version == le_u32_at(s, off + 4)
    &&& h.size == le_u32_at(s, off + 8)
    &&& h.offset_of_first_entry == le_u32_at(s, off + 12)
}

/// `h` holds exactly the extended-header fields written at `s[off..off + 44]`.
pub open spec fn header_matches(h: ApobHeader, s: Seq<u8>, off: int) -> bool {
    &&& base_header_matches(h.header, s, off)
    &&& h.sys_map_offset == le_u32_at(s, off + 16)
    &&& h.mem_smbios_offset == le_u32_at(s, off + 20)
    &&& h.nvdimm_info_offset == le_u32_at(s, off + 24)
    &&& h.apob_apcb_boot_info_offset == le_u32_at(s, off + 28)
    &&& h.sys_nps_offset == le_u32_at(s, off + 32)
    &&& h.reserved@[0] == le_u32_at(s, off + 36)
    &&& h.reserved@[1] == le_u32_at(s, off + 40)
}

/// `t` holds exactly the type-header fields written at `s[off..off + 48]`.
pub open spec fn type_header_matches(t: ApobTypeHeader, s: Seq<u8>, off: int) -> bool {
    &&& t.group_id == le_u32_at(s, off)
    &&& t.data_type_id == le_u32_at(s, off + 4)
    &&& t.instance_id == le_u32_at(s, off + 8)
    &&& t.type_size == le_u32_at(s, off + 12)
    &&& t.apob_type_hmac.apob_hmac@ == s.subrange(off + 16, off + 48)
}

/// `m` holds exactly the map-header fields written at `s[off..off + 12]`.
pub open spec fn system_map_matches(m: SystemMemoryMap, s: Seq<u8>, off: int) -> bool {
    &&& m.top_of_system_memory == le_u64_at(s, off)
    &&& m.number_of_holes == le_u32_at(s, off + 8)
}

/// `r` holds exactly the record fields written at `s[off..off + 64]`.
pub open spec fn memory_map_record_matches(
    r: ApobSystemMemoryMapType,
    s: Seq<u8>,
    off: int,
) -> bool {
    &&& type_header_matches(r.apob_type_header, s, off)
    &&& system_map_matches(r.apob_system_map, s, off + 48)
}

/// `h` holds exactly the hole fields written at `s[off..off + 20]`, the kind
/// still raw.
pub open spec fn raw_hole_matches(h: RawHoleDescriptor, s: Seq<u8>, off: int) -> bool {
    &&& h.base == le_u64_at(s, off)
    &&& h.size == le_u64_at(s, off + 8)
    &&& h.kind == le_u32_at(s, off + 16)
}

/// The kind named by a raw on-disk value: the four defined enumerants in
/// declaration order; the sentinel and everything above it name nothing.
pub open spec fn hole_kind_of(raw: int) -> Option<MemoryHoleTypes> {
    if raw == 0 {
        Some(MemoryHoleTypes::UMA)
    } else if raw == 1 {
        Some(MemoryHoleTypes::MMIO)
    } else if raw == 2 {
        Some(MemoryHoleTypes::PrivilegedDRAM)
    } else if raw == 3 {
        Some(MemoryHoleTypes::Reserved1TbRemap)
    } else {
        None
    }
}

/// The raw on-disk value of a kind: its position in declaration order.
pub open spec fn raw_of_kind(kind: MemoryHoleTypes) -> u32 {
    match kind {
        MemoryHoleTypes::UMA => 0,
        MemoryHoleTypes::MMIO => 1,
        MemoryHoleTypes::PrivilegedDRAM => 2,
        MemoryHoleTypes::Reserved1TbRemap => 3,
        MemoryHoleTypes::MaxMemoryHoleTypes => 4,
    }
}

} // verus!
