use tilda_bridge::DescriptorBuilder;

#[test]
fn write_u16_is_little_endian() {
    let mut db = DescriptorBuilder::new(vec![0u8; 8]);
    db.write_u16(0x00FF);
    assert_eq!(db.buf(), &[0xFF, 0x00]);
    assert_eq!(db.position(), 2);
}

#[test]
fn write_u32_is_little_endian() {
    let mut db = DescriptorBuilder::new(vec![0u8; 8]);
    db.write_u32(0x0102_0304);
    assert_eq!(db.buf(), &[0x04, 0x03, 0x02, 0x01]);
    assert_eq!(db.position(), 4);
}

#[test]
fn fields_match_bytewise_writes() {
    let mut whole = DescriptorBuilder::new(vec![0u8; 32]);
    whole.write_u16(0);
    whole.write_u16(1);
    whole.write_u16(0xABCD);
    whole.write_u32(0);
    whole.write_u32(0xFFFF_FFFF);
    whole.write_utf16("Az");
    whole.write(&[7, 8, 9]);

    let mut bytes = DescriptorBuilder::new(vec![0u8; 32]);
    for b in [0x00u8, 0x00, 0x01, 0x00, 0xCD, 0xAB, 0, 0, 0, 0, 0xFF, 0xFF, 0xFF, 0xFF, 0x41, 0x00, 0x7A, 0x00, 7, 8, 9] {
        bytes.write(&[b]);
    }
    assert_eq!(whole.buf(), bytes.buf());
    assert_eq!(whole.position(), 21);
}

#[test]
fn write_utf16_encodes_units() {
    let mut db = DescriptorBuilder::new(vec![0u8; 16]);
    db.write_utf16("a\u{20AC}\u{1F600}");
    assert_eq!(db.buf(), &[0x61, 0x00, 0xAC, 0x20, 0x3D, 0xD8, 0x00, 0xDE]);
}

#[test]
fn write_utf16_of_empty_string_writes_nothing() {
    let mut db = DescriptorBuilder::new(vec![0u8; 4]);
    db.write_utf16("");
    assert_eq!(db.position(), 0);
    assert!(db.buf().is_empty());
}

#[test]
fn builder_fills_region_exactly() {
    let mut db = DescriptorBuilder::new(vec![0u8; 3]);
    db.write(&[]);
    db.write(&[1, 2, 3]);
    assert_eq!(db.buf(), &[1, 2, 3]);
}
