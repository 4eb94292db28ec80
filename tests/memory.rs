use wasmer_api::memory::{MemoryError, MemoryRegion, ViewKind, PAGE_SIZE};

#[test]
fn new_region_is_zeroed() {
    let m = MemoryRegion::new(1, Some(3)).unwrap();
    assert_eq!(m.byte_length(), PAGE_SIZE);
    assert_eq!(m.pages(), 1);
    assert_eq!(m.generation(), 0);
    let v = m.create_view(ViewKind::Bytes, 0, 16).unwrap();
    assert_eq!(m.read_bytes(&v, 0, 16).unwrap(), vec![0u8; 16]);
}

#[test]
fn bad_limits_are_refused() {
    assert_eq!(MemoryRegion::new(2, Some(1)).err(), Some(MemoryError::Limits));
    assert_eq!(MemoryRegion::new(65537, None).err(), Some(MemoryError::Limits));
}

#[test]
fn grow_returns_previous_pages() {
    let mut m = MemoryRegion::new(1, Some(3)).unwrap();
    assert_eq!(m.grow(2), Ok(1));
    assert_eq!(m.pages(), 3);
    assert_eq!(m.byte_length(), 3 * PAGE_SIZE);
    assert_eq!(m.generation(), 1);
}

#[test]
fn grow_past_maximum_fails_and_leaves_memory() {
    let mut m = MemoryRegion::new(1, Some(2)).unwrap();
    let v = m.create_view(ViewKind::Uint8, 0, 4).unwrap();
    assert_eq!(m.grow(2), Err(MemoryError::Growth));
    assert_eq!(m.pages(), 1);
    assert_eq!(m.generation(), 0);
    assert_eq!(m.read_element(&v, 0), Ok(0));
}

#[test]
fn stale_view_fails_after_growth() {
    let mut m = MemoryRegion::new(1, None).unwrap();
    let old_bytes = m.create_view(ViewKind::Bytes, 0, 8).unwrap();
    let old_ints = m.create_view(ViewKind::Int32, 0, 2).unwrap();
    assert_eq!(m.grow(1), Ok(1));
    assert_eq!(m.read_bytes(&old_bytes, 0, 4), Err(MemoryError::StaleView));
    assert_eq!(m.write_bytes(&old_bytes, 0, &[1, 2]), Err(MemoryError::StaleView));
    assert_eq!(m.read_element(&old_ints, 0), Err(MemoryError::StaleView));
    assert_eq!(m.write_element(&old_ints, 1, 5), Err(MemoryError::StaleView));
    let fresh = m.create_view(ViewKind::Int32, PAGE_SIZE, 2).unwrap();
    assert_eq!(m.write_element(&fresh, 1, -7), Ok(()));
    assert_eq!(m.read_element(&fresh, 1), Ok(-7));
}

#[test]
fn grow_by_zero_still_invalidates() {
    let mut m = MemoryRegion::new(1, None).unwrap();
    let v = m.create_view(ViewKind::Bytes, 0, 1).unwrap();
    assert_eq!(m.grow(0), Ok(1));
    assert_eq!(m.read_bytes(&v, 0, 1), Err(MemoryError::StaleView));
}

#[test]
fn view_bounds_at_creation() {
    let m = MemoryRegion::new(1, None).unwrap();
    assert!(m.create_view(ViewKind::Uint32, PAGE_SIZE - 4, 1).is_ok());
    assert_eq!(m.create_view(ViewKind::Uint32, PAGE_SIZE - 3, 1).err(), Some(MemoryError::Bounds));
    assert_eq!(m.create_view(ViewKind::Bytes, PAGE_SIZE + 1, 0).err(), Some(MemoryError::Bounds));
    assert!(m.create_view(ViewKind::Bytes, PAGE_SIZE, 0).is_ok());
}

#[test]
fn access_bounds() {
    let mut m = MemoryRegion::new(1, None).unwrap();
    let v = m.create_view(ViewKind::Int16, 10, 3).unwrap();
    assert_eq!(m.read_element(&v, 3), Err(MemoryError::Bounds));
    assert_eq!(m.write_element(&v, 3, 1), Err(MemoryError::Bounds));
    let b = m.create_view(ViewKind::Bytes, 10, 4).unwrap();
    assert_eq!(m.read_bytes(&b, 2, 3), Err(MemoryError::Bounds));
    assert_eq!(m.write_bytes(&b, 3, &[1, 2]), Err(MemoryError::Bounds));
    assert_eq!(m.read_bytes(&b, 2, 2), Ok(vec![0, 0]));
}

#[test]
fn lane_range_is_checked() {
    let mut m = MemoryRegion::new(1, None).unwrap();
    let i8v = m.create_view(ViewKind::Int8, 0, 4).unwrap();
    let u8v = m.create_view(ViewKind::Uint8, 0, 4).unwrap();
    let u32v = m.create_view(ViewKind::Uint32, 0, 1).unwrap();
    assert_eq!(m.write_element(&i8v, 0, 128), Err(MemoryError::Range));
    assert_eq!(m.write_element(&i8v, 0, -129), Err(MemoryError::Range));
    assert_eq!(m.write_element(&u8v, 0, -1), Err(MemoryError::Range));
    assert_eq!(m.write_element(&u8v, 0, 256), Err(MemoryError::Range));
    assert_eq!(m.write_element(&u32v, 0, 4294967296), Err(MemoryError::Range));
    assert_eq!(m.write_element(&u32v, 0, 4294967295), Ok(()));
    assert_eq!(m.read_element(&u32v, 0), Ok(4294967295));
}

#[test]
fn typed_access_matches_byte_access() {
    let mut m = MemoryRegion::new(1, None).unwrap();
    let bytes = m.create_view(ViewKind::Bytes, 0, 64).unwrap();
    m.write_bytes(&bytes, 8, &[0x01, 0x02, 0x03, 0x84, 0xff, 0xfe, 0x80, 0x7f]).unwrap();
    let cases: [(ViewKind, i64, i64); 6] = [
        (ViewKind::Uint8, 11, 0x84),
        (ViewKind::Int8, 11, -124),
        (ViewKind::Uint16, 6, 0xfeff),
        (ViewKind::Int16, 6, -257),
        (ViewKind::Uint32, 2, 0x84030201),
        (ViewKind::Int32, 2, 0x84030201u32 as i32 as i64),
    ];
    for (kind, index, expected) in cases {
        let v = m.create_view(kind, 0, 16).unwrap();
        let w = match kind {
            ViewKind::Uint8 | ViewKind::Int8 | ViewKind::Bytes => 1,
            ViewKind::Uint16 | ViewKind::Int16 => 2,
            ViewKind::Uint32 | ViewKind::Int32 => 4,
        };
        let got = m.read_element(&v, index as usize).unwrap();
        assert_eq!(got, expected);
        let raw = m.read_bytes(&bytes, index as usize * w, w).unwrap();
        let mut u: i64 = 0;
        for (k, b) in raw.iter().enumerate() {
            u += (*b as i64) << (8 * k);
        }
        let signed = matches!(kind, ViewKind::Int8 | ViewKind::Int16 | ViewKind::Int32);
        let bits = 8 * w as i64;
        let decoded = if signed && u >= 1 << (bits - 1) { u - (1 << bits) } else { u };
        assert_eq!(got, decoded);
    }
}

#[test]
fn element_write_is_little_endian() {
    let mut m = MemoryRegion::new(1, None).unwrap();
    let v = m.create_view(ViewKind::Int32, 4, 2).unwrap();
    m.write_element(&v, 1, -2).unwrap();
    let b = m.create_view(ViewKind::Bytes, 0, 16).unwrap();
    assert_eq!(m.read_bytes(&b, 8, 4).unwrap(), vec![0xfe, 0xff, 0xff, 0xff]);
    let h = m.create_view(ViewKind::Uint16, 0, 8).unwrap();
    m.write_element(&h, 0, 0x1234).unwrap();
    assert_eq!(m.read_bytes(&b, 0, 2).unwrap(), vec![0x34, 0x12]);
}
