use apob::decode::{decode_system_map, resolve_system_map, validate_signature};
use apob::layout::{
    ApobBaseHeader, ApobHeader, ApobSystemMemoryMapType, MemoryHoleDescriptor, MemoryHoleTypes,
    HEADER_SIZE, HOLE_DESCRIPTOR_SIZE, MEMORY_MAP_RECORD_SIZE, SYSTEM_MEMORY_MAP_SIZE,
    TYPE_HEADER_SIZE,
};
use apob::DecodeError;

fn push_u32(buf: &mut Vec<u8>, v: u32) {
    buf.extend_from_slice(&v.to_le_bytes());
}

fn push_u64(buf: &mut Vec<u8>, v: u64) {
    buf.extend_from_slice(&v.to_le_bytes());
}

/// A 44-byte extended header: magic signature, version 1, the given blob size
/// and system-map offset, everything else zero.
fn header_bytes(size: u32, sys_map_offset: u32) -> Vec<u8> {
    let mut buf = Vec::new();
    buf.extend_from_slice(b"APOB");
    push_u32(&mut buf, 1); // version
    push_u32(&mut buf, size);
    push_u32(&mut buf, 16); // offset_of_first_entry
    push_u32(&mut buf, sys_map_offset);
    for _ in 0..6 {
        push_u32(&mut buf, 0); // remaining offsets and reserved words
    }
    assert_eq!(buf.len(), HEADER_SIZE);
    buf
}

/// A 64-byte memory-map record followed by its hole entries, each hole given
/// as (base, size, raw kind).
fn record_bytes(top_of_memory: u64, hole_count: u32, holes: &[(u64, u64, u32)]) -> Vec<u8> {
    let mut buf = Vec::new();
    push_u32(&mut buf, 7); // group_id
    push_u32(&mut buf, 9); // data_type_id
    push_u32(&mut buf, 0); // instance_id
    push_u32(&mut buf, 0x30); // type_size
    for i in 0..32 {
        buf.push(0xA0 + i as u8); // hmac bytes
    }
    assert_eq!(buf.len(), TYPE_HEADER_SIZE);
    push_u64(&mut buf, top_of_memory);
    push_u32(&mut buf, hole_count);
    push_u32(&mut buf, 0); // padding to the 16-byte map header
    assert_eq!(buf.len(), MEMORY_MAP_RECORD_SIZE);
    for &(base, size, kind) in holes {
        push_u64(&mut buf, base);
        push_u64(&mut buf, size);
        push_u32(&mut buf, kind);
        push_u32(&mut buf, 0); // padding to the 24-byte stride
    }
    buf
}

fn blob(top_of_memory: u64, hole_count: u32, holes: &[(u64, u64, u32)]) -> Vec<u8> {
    let mut buf = header_bytes(64, HEADER_SIZE as u32);
    buf.extend_from_slice(&record_bytes(top_of_memory, hole_count, holes));
    buf
}

#[test]
fn base_header_too_short_below_sixteen() {
    for len in 0..16 {
        let buf = vec![0xFFu8; len];
        assert_eq!(ApobBaseHeader::cast(&buf), Err(DecodeError::TooShort));
    }
}

#[test]
fn base_header_succeeds_at_sixteen_regardless_of_content() {
    let buf = vec![0xFFu8; 16];
    let h = ApobBaseHeader::cast(&buf).unwrap();
    assert_eq!(h.signature, 0xFFFF_FFFF);
    let mut buf = Vec::new();
    push_u32(&mut buf, 0x424F_5041);
    push_u32(&mut buf, 1);
    push_u32(&mut buf, 64);
    push_u32(&mut buf, 16);
    buf.push(0x55); // a seventeenth byte is ignored
    let h = ApobBaseHeader::cast(&buf).unwrap();
    assert_eq!(h.signature, 0x424F_5041);
    assert_eq!(h.version, 1);
    assert_eq!(h.size, 64);
    assert_eq!(h.offset_of_first_entry, 16);
}

#[test]
fn signature_mismatch_on_other_bytes() {
    assert_eq!(validate_signature(b"APOC"), Err(DecodeError::SignatureMismatch));
    assert_eq!(validate_signature(b"BPOB"), Err(DecodeError::SignatureMismatch));
    assert_eq!(validate_signature(b"apob"), Err(DecodeError::SignatureMismatch));
    assert_eq!(validate_signature(b""), Err(DecodeError::SignatureMismatch));
    assert_eq!(validate_signature(b"APO"), Err(DecodeError::SignatureMismatch));
    assert_eq!(validate_signature(b"APOB"), Ok(()));
    assert_eq!(validate_signature(b"APOB and more"), Ok(()));
}

#[test]
fn header_cast_reads_every_field() {
    let mut buf = Vec::new();
    buf.extend_from_slice(b"APOB");
    for v in 1..=10u32 {
        push_u32(&mut buf, v);
    }
    let h = ApobHeader::cast(&buf).unwrap();
    assert_eq!(h.header.signature, 0x424F_5041);
    assert_eq!(h.header.version, 1);
    assert_eq!(h.header.size, 2);
    assert_eq!(h.header.offset_of_first_entry, 3);
    assert_eq!(h.sys_map_offset, 4);
    assert_eq!(h.mem_smbios_offset, 5);
    assert_eq!(h.nvdimm_info_offset, 6);
    assert_eq!(h.apob_apcb_boot_info_offset, 7);
    assert_eq!(h.sys_nps_offset, 8);
    assert_eq!(h.reserved, [9, 10]);
    assert_eq!(ApobHeader::cast(&buf[..43]), Err(DecodeError::TooShort));
}

#[test]
fn record_cast_reads_type_header_and_map() {
    let buf = blob(0x2_0000_0000, 0, &[]);
    let rec = decode_system_map(&buf).unwrap();
    assert_eq!(rec.apob_type_header.group_id, 7);
    assert_eq!(rec.apob_type_header.data_type_id, 9);
    assert_eq!(rec.apob_type_header.instance_id, 0);
    assert_eq!(rec.apob_type_header.type_size, 0x30);
    let hmac: Vec<u8> = (0..32).map(|i| 0xA0 + i as u8).collect();
    assert_eq!(rec.apob_type_header.apob_type_hmac.apob_hmac, hmac);
    assert_eq!(rec.apob_system_map.top_of_system_memory, 0x2_0000_0000);
    assert_eq!(rec.apob_system_map.number_of_holes, 0);
}

#[test]
fn zero_holes_yields_empty_sequence_not_error() {
    let buf = blob(0x1000, 0, &[]);
    let rec = decode_system_map(&buf).unwrap();
    let map_offset = HEADER_SIZE + TYPE_HEADER_SIZE;
    let holes = rec.apob_system_map.hole_info(&buf, map_offset).unwrap();
    assert!(holes.is_empty());
}

#[test]
fn hole_array_exact_fit_succeeds_one_byte_short_fails() {
    let holes = [(0u64, 0x1000u64, 0u32), (0x1000, 0x2000, 1)];
    let buf = blob(0x1000, 2, &holes);
    let map_offset = HEADER_SIZE + TYPE_HEADER_SIZE;
    assert_eq!(
        buf.len(),
        map_offset + SYSTEM_MEMORY_MAP_SIZE + 2 * HOLE_DESCRIPTOR_SIZE
    );
    let rec = decode_system_map(&buf).unwrap();
    let got = rec.apob_system_map.hole_info(&buf, map_offset).unwrap();
    assert_eq!(got.len(), 2);
    let short = &buf[..buf.len() - 1];
    assert_eq!(
        rec.apob_system_map.hole_info(short, map_offset),
        Err(DecodeError::OutOfBounds)
    );
}

#[test]
fn decoding_twice_yields_field_equal_results() {
    let holes = [(0u64, 0x1000u64, 0u32), (0x1000, 0x2000, 1)];
    let buf = blob(0xF000_0000, 2, &holes);
    let map_offset = HEADER_SIZE + TYPE_HEADER_SIZE;
    let first = decode_system_map(&buf).unwrap();
    let second = decode_system_map(&buf).unwrap();
    assert_eq!(first, second);
    let holes_first = first.apob_system_map.hole_info(&buf, map_offset).unwrap();
    let holes_second = second.apob_system_map.hole_info(&buf, map_offset).unwrap();
    assert_eq!(holes_first, holes_second);
}

#[test]
fn hole_kinds_zero_to_three_decode_to_named_variants() {
    assert_eq!(MemoryHoleTypes::from_raw(0), Ok(MemoryHoleTypes::UMA));
    assert_eq!(MemoryHoleTypes::from_raw(1), Ok(MemoryHoleTypes::MMIO));
    assert_eq!(MemoryHoleTypes::from_raw(2), Ok(MemoryHoleTypes::PrivilegedDRAM));
    assert_eq!(MemoryHoleTypes::from_raw(3), Ok(MemoryHoleTypes::Reserved1TbRemap));
}

#[test]
fn hole_kind_sentinel_and_above_fail_with_invalid_enum_value() {
    assert_eq!(MemoryHoleTypes::from_raw(4), Err(DecodeError::InvalidEnumValue(4)));
    assert_eq!(MemoryHoleTypes::from_raw(5), Err(DecodeError::InvalidEnumValue(5)));
    assert_eq!(
        MemoryHoleTypes::from_raw(0xFFFF_FFFF),
        Err(DecodeError::InvalidEnumValue(0xFFFF_FFFF))
    );
}

#[test]
fn one_malformed_hole_does_not_hide_the_others() {
    let holes = [(0u64, 0x1000u64, 0u32), (0x1000, 0x2000, 4), (0x3000, 0x4000, 1)];
    let buf = blob(0x1000, 3, &holes);
    let map_offset = HEADER_SIZE + TYPE_HEADER_SIZE;
    let rec = decode_system_map(&buf).unwrap();
    let got = rec.apob_system_map.hole_info(&buf, map_offset).unwrap();
    assert_eq!(got.len(), 3);
    assert!(got[0].decode().is_ok());
    assert_eq!(got[1].decode(), Err(DecodeError::InvalidEnumValue(4)));
    assert_eq!(
        got[2].decode(),
        Ok(MemoryHoleDescriptor { base: 0x3000, size: 0x4000, kind: MemoryHoleTypes::MMIO })
    );
}

#[test]
fn resolve_rejects_offset_at_or_past_buffer_end() {
    let mut buf = header_bytes(64, 1000);
    buf.extend_from_slice(&record_bytes(0, 0, &[]));
    let header = ApobHeader::cast(&buf).unwrap();
    assert_eq!(resolve_system_map(&header, &buf), Err(DecodeError::OutOfBounds));
    assert_eq!(decode_system_map(&buf), Err(DecodeError::OutOfBounds));
}

#[test]
fn resolve_rejects_record_clipped_by_buffer_end() {
    let mut buf = header_bytes(64, HEADER_SIZE as u32);
    buf.extend_from_slice(&record_bytes(0, 0, &[]));
    buf.truncate(HEADER_SIZE + MEMORY_MAP_RECORD_SIZE - 1);
    let header = ApobHeader::cast(&buf).unwrap();
    assert_eq!(resolve_system_map(&header, &buf), Err(DecodeError::TooShort));
    assert_eq!(decode_system_map(&buf), Err(DecodeError::TooShort));
}

#[test]
fn decode_rejects_blob_shorter_than_header() {
    let buf = header_bytes(64, 44);
    assert_eq!(decode_system_map(&buf[..20]), Err(DecodeError::TooShort));
}

#[test]
fn record_cast_at_too_short() {
    let buf = vec![0u8; MEMORY_MAP_RECORD_SIZE];
    assert_eq!(
        ApobSystemMemoryMapType::cast_at(&buf, 1),
        Err(DecodeError::TooShort)
    );
    assert!(ApobSystemMemoryMapType::cast_at(&buf, 0).is_ok());
}

#[test]
fn end_to_end_two_hole_scenario() {
    // 16-byte base header, padded to the 44-byte extended header whose
    // sys_map_offset is 44; there, a record with two holes.
    let mut buf = Vec::new();
    buf.extend_from_slice(b"APOB");
    push_u32(&mut buf, 1); // version
    push_u32(&mut buf, 64); // size
    push_u32(&mut buf, 16); // offset_of_first_entry
    push_u32(&mut buf, 44); // sys_map_offset
    while buf.len() < 44 {
        buf.push(0);
    }
    buf.extend_from_slice(&record_bytes(
        0x8000_0000,
        2,
        &[(0, 0x1000, 0), (0x1000, 0x2000, 1)],
    ));
    let header = ApobHeader::cast(&buf).unwrap();
    assert_eq!(header.header.signature, 0x424F_5041);
    assert_eq!(header.header.version, 1);
    assert_eq!(header.header.size, 64);
    assert_eq!(header.header.offset_of_first_entry, 16);
    assert_eq!(header.sys_map_offset, 44);
    let rec = decode_system_map(&buf).unwrap();
    assert_eq!(rec.apob_system_map.number_of_holes, 2);
    let map_offset = header.sys_map_offset as usize + TYPE_HEADER_SIZE;
    let raw = rec.apob_system_map.hole_info(&buf, map_offset).unwrap();
    assert_eq!(raw.len(), 2);
    let first = raw[0].decode().unwrap();
    let second = raw[1].decode().unwrap();
    assert_eq!(
        first,
        MemoryHoleDescriptor { base: 0, size: 0x1000, kind: MemoryHoleTypes::UMA }
    );
    assert_eq!(
        second,
        MemoryHoleDescriptor { base: 0x1000, size: 0x2000, kind: MemoryHoleTypes::MMIO }
    );
}
