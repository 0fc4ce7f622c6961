use tilda_bridge::packet::{PacketReader, PacketWriter};
use tilda_bridge::WebUSB;

fn drain(w: &mut PacketWriter) -> Vec<Vec<u8>> {
    let mut out = Vec::new();
    while let Some(p) = w.next_packet() {
        out.push(p);
        w.packet_sent();
    }
    out
}

#[test]
fn full_packets_end_with_zlp() {
    let mut w = PacketWriter::new(128, 8);
    assert_eq!(w.write(&[1; 10]), 10);
    assert_eq!(w.write(&[2; 6]), 6);
    let packets = drain(&mut w);
    assert_eq!(packets.len(), 3);
    assert_eq!(packets[0], vec![1; 8]);
    assert_eq!(packets[1], vec![1, 1, 2, 2, 2, 2, 2, 2]);
    assert!(packets[2].is_empty());
    assert!(w.next_packet().is_none());
}

#[test]
fn zlp_goes_before_later_data() {
    let mut w = PacketWriter::new(16, 4);
    w.write(&[9, 9, 9, 9]);
    assert_eq!(w.next_packet(), Some(vec![9, 9, 9, 9]));
    w.packet_sent();
    w.write(&[5]);
    assert_eq!(w.next_packet(), Some(vec![]));
    w.packet_sent();
    assert_eq!(w.next_packet(), Some(vec![5]));
    w.packet_sent();
    assert_eq!(w.next_packet(), None);
}

#[test]
fn short_packet_needs_no_zlp() {
    let mut w = PacketWriter::new(16, 4);
    w.write(&[1, 2, 3]);
    assert_eq!(drain(&mut w), vec![vec![1, 2, 3]]);
}

#[test]
fn writer_takes_only_what_fits() {
    let mut w = PacketWriter::new(8, 4);
    assert_eq!(w.write(&[0; 6]), 6);
    assert_eq!(w.write(&[1; 6]), 2);
    assert_eq!(w.write(&[1]), 0);
    assert_eq!(w.pending_len(), 8);
}

#[test]
fn reader_hands_out_oldest_first() {
    let mut r = PacketReader::new(16);
    assert!(r.has_room(16));
    r.packet_received(&[1, 2, 3]);
    r.packet_received(&[4]);
    assert!(!r.has_room(13));
    assert_eq!(r.read(2), vec![1, 2]);
    assert_eq!(r.read(10), vec![3, 4]);
    assert_eq!(r.read(10), Vec::<u8>::new());
    assert_eq!(r.pending_len(), 0);
}

#[test]
fn device_stream_both_ways() {
    let mut dev = WebUSB::new(0, 1, 64);
    assert_eq!(dev.max_packet_size(), 64);
    assert!(dev.wants_packet());
    dev.packet_received(b"hello");
    assert!(!dev.wants_packet());
    assert_eq!(dev.read(64), b"hello".to_vec());
    assert_eq!(dev.write(&[7; 64]), 64);
    assert_eq!(dev.next_packet(), Some(vec![7; 64]));
    dev.packet_sent();
    assert_eq!(dev.next_packet(), Some(vec![]));
    dev.packet_sent();
    assert_eq!(dev.next_packet(), None);
    assert!(!dev.dtr());
    assert!(!dev.rts());
}
