use alchemist::i2c;
use alchemist::uart;

#[test]
fn link_serialize_writes_expected_frames() {
    let mut buf = [0u8; 4];
    assert_eq!(i2c::Packet::Down(3, 4).serialize(&mut buf), 3);
    assert_eq!(buf, [1, 3, 4, 0]);
    assert_eq!(i2c::Packet::Up(11, 2).serialize(&mut buf), 3);
    assert_eq!(buf, [2, 11, 2, 0]);
    assert_eq!(i2c::Packet::EncoderCw.serialize(&mut buf), 1);
    assert_eq!(buf[0], 5);
    assert_eq!(i2c::Packet::EncoderCcw.serialize(&mut buf), 1);
    assert_eq!(buf[0], 6);
    assert_eq!(i2c::Packet::Noop.serialize(&mut buf), 1);
    assert_eq!(buf[0], 0xFF);
}

#[test]
fn link_round_trip() {
    let packets = [
        i2c::Packet::Down(0, 0),
        i2c::Packet::Down(9, 4),
        i2c::Packet::Up(5, 1),
        i2c::Packet::EncoderCw,
        i2c::Packet::EncoderCcw,
        i2c::Packet::Noop,
    ];
    for p in packets {
        let mut buf = [0u8; 4];
        let sz = p.serialize(&mut buf);
        assert!(buf[0] != 0);
        assert_eq!(i2c::Packet::deserialize(&buf[..sz]), Some(p));
    }
}

#[test]
fn link_deserialize_rejects_bad_frames() {
    assert_eq!(i2c::Packet::deserialize(&[]), None);
    assert_eq!(i2c::Packet::deserialize(&[0]), None);
    assert_eq!(i2c::Packet::deserialize(&[3]), None);
    assert_eq!(i2c::Packet::deserialize(&[7, 1, 2]), None);
    // A truncated key frame is rejected.
    assert_eq!(i2c::Packet::deserialize(&[1, 2]), None);
    assert_eq!(i2c::Packet::deserialize(&[2]), None);
}

#[test]
fn incoming_filter_drops_keep_alives() {
    assert_eq!(i2c::incoming_packet(&[0xFF]), None);
    assert_eq!(i2c::incoming_packet(&[9]), None);
    assert_eq!(i2c::incoming_packet(&[1, 2, 3]), Some(i2c::Packet::Down(2, 3)));
    assert_eq!(i2c::incoming_packet(&[5]), Some(i2c::Packet::EncoderCw));
}

#[test]
fn serial_serialize_writes_expected_frames() {
    let mut buf = [0u8; 3];
    uart::Packet::Down(1, 2).serialize(&mut buf);
    assert_eq!(buf, [1, 1, 2]);
    uart::Packet::Up(3, 4).serialize(&mut buf);
    assert_eq!(buf, [2, 3, 4]);
    uart::Packet::EncoderCw.serialize(&mut buf);
    assert_eq!(buf, [5, 0, 0]);
    uart::Packet::EncoderCcw.serialize(&mut buf);
    assert_eq!(buf, [6, 0, 0]);
}

#[test]
fn serial_round_trip() {
    let packets = [
        uart::Packet::Down(0, 4),
        uart::Packet::Up(5, 0),
        uart::Packet::EncoderCw,
        uart::Packet::EncoderCcw,
    ];
    for p in packets {
        let mut buf = [0u8; 3];
        p.serialize(&mut buf);
        assert!(buf[0] != 0);
        assert_eq!(uart::Packet::deserialize(buf), Some(p));
    }
}

#[test]
fn serial_deserialize_rejects_unknown_tags() {
    assert_eq!(uart::Packet::deserialize([0, 0, 0]), None);
    assert_eq!(uart::Packet::deserialize([3, 1, 2]), None);
    assert_eq!(uart::Packet::deserialize([0xFF, 0, 0]), None);
}
