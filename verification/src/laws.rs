//! Laws of the decoder, stated over the same spec functions that the decode
//! contracts use, and proved once for all buffers.

use crate::layout::{
    has_signature, header_matches, hole_kind_of, memory_map_record_matches, raw_hole_matches,
    raw_of_kind, ApobHeader, ApobSystemMemoryMapType, MemoryHoleDescriptor, MemoryHoleTypes,
    RawHoleDescriptor, APOB_SIGNATURE, HEADER_SIZE, HOLE_DESCRIPTOR_SIZE, MEMORY_MAP_RECORD_SIZE,
    TYPE_HEADER_SIZE,
};
use crate::wire::{
    le_u32_at, le_u64_at, lemma_le_u32_at_subrange, lemma_le_u64_at_subrange, u32_le_bytes,
    u64_le_bytes,
};
use vstd::prelude::*;

verus! {

/// The magic-byte check and the decoded `signature` field agree: a buffer of
/// at least four bytes carries the signature exactly when its leading
/// four-byte field equals [`APOB_SIGNATURE`].
pub proof fn lemma_signature_iff(s: Seq<u8>)
    requires
        s.len() >= 4,
    ensures
        has_signature(s) <==> le_u32_at(s, 0) == APOB_SIGNATURE,
{
    let b0 = s[0];
    let b1 = s[1];
    let b2 = s[2];
    let b3 = s[3];
    assert(b0 + b1 * 0x100 + b2 * 0x10000 + b3 * 0x1000000 == 0x424F5041 ==> b0 == 0x41 && b1
        == 0x50 && b2 == 0x4F && b3 == 0x42) by (bit_vector);
}

/// `s` holds at `off` the 20 field bytes of the synthetic descriptor `d`:
/// base, size, and the raw value of its kind. (The four padding bytes that
/// complete the 24-byte stride carry no information.)
pub open spec fn hole_encoded_at(s: Seq<u8>, off: int, d: MemoryHoleDescriptor) -> bool {
    &&& s.subrange(off, off + 8) == u64_le_bytes(d.base)
    &&& s.subrange(off + 8, off + 16) == u64_le_bytes(d.size)
    &&& s.subrange(off + 16, off + 20) == u32_le_bytes(raw_of_kind(d.kind))
}

/// The hole fields at `s[off..]` decode to exactly the descriptor `d`.
pub open spec fn hole_decodes_to(s: Seq<u8>, off: int, d: MemoryHoleDescriptor) -> bool {
    &&& le_u64_at(s, off) == d.base
    &&& le_u64_at(s, off + 8) == d.size
    &&& hole_kind_of(le_u32_at(s, off + 16)) == Some(d.kind)
}

/// Round trip for the extended header: a buffer whose first 44 bytes are
/// assembled field for field from a synthetic `h` decodes back to `h`.
pub proof fn lemma_header_round_trip(s: Seq<u8>, h: ApobHeader)
    requires
        s.len() >= HEADER_SIZE,
        s.subrange(0, 4) == u32_le_bytes(h.header.signature),
        s.subrange(4, 8) == u32_le_bytes(h.header.version),
        s.subrange(8, 12) == u32_le_bytes(h.header.size),
        s.subrange(12, 16) == u32_le_bytes(h.header.offset_of_first_entry),
        s.subrange(16, 20) == u32_le_bytes(h.sys_map_offset),
        s.subrange(20, 24) == u32_le_bytes(h.mem_smbios_offset),
        s.subrange(24, 28) == u32_le_bytes(h.nvdimm_info_offset),
        s.subrange(28, 32) == u32_le_bytes(h.apob_apcb_boot_info_offset),
        s.subrange(32, 36) == u32_le_bytes(h.sys_nps_offset),
        s.subrange(36, 40) == u32_le_bytes(h.reserved@[0]),
        s.subrange(40, 44) == u32_le_bytes(h.reserved@[1]),
    ensures
        header_matches(h, s, 0),
{
    lemma_le_u32_at_subrange(s, 0, h.header.signature);
    lemma_le_u32_at_subrange(s, 4, h.header.version);
    lemma_le_u32_at_subrange(s, 8, h.header.size);
    lemma_le_u32_at_subrange(s, 12, h.header.offset_of_first_entry);
    lemma_le_u32_at_subrange(s, 16, h.sys_map_offset);
    lemma_le_u32_at_subrange(s, 20, h.mem_smbios_offset);
    lemma_le_u32_at_subrange(s, 24, h.nvdimm_info_offset);
    lemma_le_u32_at_subrange(s, 28, h.apob_apcb_boot_info_offset);
    lemma_le_u32_at_subrange(s, 32, h.sys_nps_offset);
    lemma_le_u32_at_subrange(s, 36, h.reserved@[0]);
    lemma_le_u32_at_subrange(s, 40, h.reserved@[1]);
}

/// Round trip for the memory map: a buffer holding a synthetic record at
/// `off` — top of memory, hole count `k`, and `k` descriptors whose kinds are
/// among the four defined enumerants, each written field for field — decodes
/// to exactly those values, hole by hole, in order.
pub proof fn lemma_memory_map_round_trip(
    s: Seq<u8>,
    off: int,
    top: u64,
    holes: Seq<MemoryHoleDescriptor>,
)
    requires
        0 <= off,
        off + MEMORY_MAP_RECORD_SIZE + holes.len() * HOLE_DESCRIPTOR_SIZE <= s.len(),
        holes.len() <= u32::MAX,
        forall|i: int|
            0 <= i < holes.len() ==> (#[trigger] holes[i]).kind
                != MemoryHoleTypes::MaxMemoryHoleTypes,
        s.subrange(off + TYPE_HEADER_SIZE, off + TYPE_HEADER_SIZE + 8) == u64_le_bytes(top),
        s.subrange(off + TYPE_HEADER_SIZE + 8, off + TYPE_HEADER_SIZE + 12) == u32_le_bytes(
            holes.len() as u32,
        ),
        forall|i: int|
            0 <= i < holes.len() ==> hole_encoded_at(
                s,
                off + MEMORY_MAP_RECORD_SIZE + i * HOLE_DESCRIPTOR_SIZE,
                #[trigger] holes[i],
            ),
    ensures
        le_u64_at(s, off + TYPE_HEADER_SIZE) == top,
        le_u32_at(s, off + TYPE_HEADER_SIZE + 8) == holes.len(),
        forall|i: int|
            0 <= i < holes.len() ==> hole_decodes_to(
                s,
                off + MEMORY_MAP_RECORD_SIZE + i * HOLE_DESCRIPTOR_SIZE,
                #[trigger] holes[i],
            ),
{
    lemma_le_u64_at_subrange(s, off + TYPE_HEADER_SIZE, top);
    lemma_le_u32_at_subrange(s, off + TYPE_HEADER_SIZE + 8, holes.len() as u32);
    assert forall|i: int|
        0 <= i < holes.len() implies hole_decodes_to(
        s,
        off + MEMORY_MAP_RECORD_SIZE + i * HOLE_DESCRIPTOR_SIZE,
        #[trigger] holes[i],
    ) by {
        let hoff = off + MEMORY_MAP_RECORD_SIZE + i * HOLE_DESCRIPTOR_SIZE;
        lemma_le_u64_at_subrange(s, hoff, holes[i].base);
        lemma_le_u64_at_subrange(s, hoff + 8, holes[i].size);
        lemma_le_u32_at_subrange(s, hoff + 16, raw_of_kind(holes[i].kind));
    }
}

/// Idempotence: decoding is a function of the bytes alone, so any two decodes
/// of the same record bytes agree field for field.
pub proof fn lemma_record_decode_idempotent(
    s: Seq<u8>,
    off: int,
    r1: ApobSystemMemoryMapType,
    r2: ApobSystemMemoryMapType,
)
    requires
        memory_map_record_matches(r1, s, off),
        memory_map_record_matches(r2, s, off),
    ensures
        r1.apob_type_header.group_id == r2.apob_type_header.group_id,
        r1.apob_type_header.data_type_id == r2.apob_type_header.data_type_id,
        r1.apob_type_header.instance_id == r2.apob_type_header.instance_id,
        r1.apob_type_header.type_size == r2.apob_type_header.type_size,
        r1.apob_type_header.apob_type_hmac.apob_hmac@
            == r2.apob_type_header.apob_type_hmac.apob_hmac@,
        r1.apob_system_map == r2.apob_system_map,
{
}

/// Idempotence for the hole array: two projections of the same buffer region
/// agree entry for entry, so they are the same sequence.
pub proof fn lemma_hole_info_idempotent(
    s: Seq<u8>,
    start: int,
    v1: Seq<RawHoleDescriptor>,
    v2: Seq<RawHoleDescriptor>,
)
    requires
        v1.len() == v2.len(),
        forall|i: int|
            0 <= i < v1.len() ==> raw_hole_matches(
                #[trigger] v1[i],
                s,
                start + i * HOLE_DESCRIPTOR_SIZE,
            ),
        forall|i: int|
            0 <= i < v2.len() ==> raw_hole_matches(
                #[trigger] v2[i],
                s,
                start + i * HOLE_DESCRIPTOR_SIZE,
            ),
    ensures
        v1 == v2,
{
    assert forall|i: int| 0 <= i < v1.len() implies v1[i] == v2[i] by {
        assert(raw_hole_matches(v1[i], s, start + i * HOLE_DESCRIPTOR_SIZE));
        assert(raw_hole_matches(v2[i], s, start + i * HOLE_DESCRIPTOR_SIZE));
    }
    assert(v1 =~= v2);
}

} // verus!
