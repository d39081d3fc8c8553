use boosterpack::codec::{to_u16, to_u8, Command};

#[test]
fn le16_round_trip_all_values() {
    for n in 0..=u16::MAX {
        let split = to_u8(n);
        assert_eq!(to_u16(&split), n);
    }
}

#[test]
fn le16_edges() {
    assert_eq!(to_u8(0x0000), [0x00, 0x00]);
    assert_eq!(to_u8(0xFFFF), [0xFF, 0xFF]);
    assert_eq!(to_u8(0x0102), [0x02, 0x01]);
    assert_eq!(to_u16(&[0x34, 0x12]), 0x1234);
    assert_eq!(to_u16(&[0x00, 0x01, 0x99]), 256);
}

#[test]
fn command_encoding_is_stable() {
    assert_eq!(Command::QueryImageCount.encode(), vec![0xFF, 0x01]);
    assert_eq!(Command::FetchImage(0x0102).encode(), vec![0xFF, 0x02, 0x02, 0x01]);
    assert_eq!(Command::StartStream.encode(), vec![0xFF, 0x03]);
    assert_eq!(Command::FetchImage(3).encode(), vec![0xFF, 0x02, 0x03, 0x00]);
}

#[test]
fn command_opcodes() {
    assert_eq!(u8::from(Command::QueryImageCount), 0x01);
    assert_eq!(u8::from(Command::FetchImage(9)), 0x02);
    assert_eq!(u8::from(Command::StartStream), 0x03);
    assert_eq!(Command::FetchImage(0xFFFF).opcode(), 0x02);
}
