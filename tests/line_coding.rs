use tilda_bridge::{LineCoding, ParityType, StopBits};

#[test]
fn default_line_coding_values() {
    let lc = LineCoding::default();
    assert_eq!(lc.data_rate(), 8000);
    assert_eq!(lc.stop_bits(), StopBits::One);
    assert_eq!(lc.parity_type(), ParityType::NoParity);
    assert_eq!(lc.data_bits(), 8);
    assert_eq!(lc.to_bytes(), vec![0x40, 0x1F, 0, 0, 0, 0, 8]);
}

#[test]
fn line_coding_round_trip() {
    let bytes = [0x00, 0xC2, 0x01, 0x00, 2, 3, 7];
    let lc = LineCoding::from_bytes(&bytes).unwrap();
    assert_eq!(lc.data_rate(), 115_200);
    assert_eq!(lc.stop_bits(), StopBits::Two);
    assert_eq!(lc.parity_type(), ParityType::Mark);
    assert_eq!(lc.data_bits(), 7);
    assert_eq!(lc.to_bytes(), bytes.to_vec());
}

#[test]
fn out_of_range_codes_decode_to_defaults() {
    for (stop, parity) in [(3u8, 5u8), (0xFF, 0xFF), (200, 9)] {
        let lc = LineCoding::from_bytes(&[1, 2, 3, 4, stop, parity, 8]).unwrap();
        assert_eq!(lc.stop_bits(), StopBits::One);
        assert_eq!(lc.parity_type(), ParityType::NoParity);
        assert_eq!(lc.data_rate(), 0x0403_0201);
    }
}

#[test]
fn enum_codes_decode() {
    assert_eq!(StopBits::from(1), StopBits::OnePointFive);
    assert_eq!(StopBits::from(2), StopBits::Two);
    assert_eq!(ParityType::from(1), ParityType::Odd);
    assert_eq!(ParityType::from(2), ParityType::Even);
    assert_eq!(ParityType::from(4), ParityType::Space);
    assert_eq!(StopBits::OnePointFive.code(), 1);
    assert_eq!(ParityType::Space.code(), 4);
}

#[test]
fn short_payload_is_not_a_line_coding() {
    assert!(LineCoding::from_bytes(&[1, 2, 3, 4, 0, 0]).is_none());
    assert!(LineCoding::from_bytes(&[]).is_none());
    assert!(LineCoding::from_bytes(&[1, 2, 3, 4, 0, 0, 8, 9]).is_some());
}
