use adb_rs::client::ConnectionPacket;
use adb_rs::message::HeaderBuilder;
use adb_rs::result::AdbError;
use adb_rs::sync::{SyncCommand, SyncHeader, SyncPacket};
use adb_rs::{crc, crc_seed, Command, Header};

#[test]
fn crc_of_empty_payload_is_zero() {
    assert_eq!(crc(&[]), 0);
}

#[test]
fn crc_is_byte_sum() {
    assert_eq!(crc(b"host::"), 0x232);
    assert_eq!(crc(&[1, 2, 3, 250]), 256);
}

#[test]
fn crc_seed_wraps_modulo_two_to_the_32() {
    assert_eq!(crc_seed(&[0x10, 0x01], 0xffff_fff0), 1);
    assert_eq!(crc_seed(&[], 7), 7);
}

#[test]
fn command_opcodes() {
    assert_eq!(Command::A_SYNC.code(), 0x434e5953);
    assert_eq!(Command::A_CNXN.code(), 0x4e584e43);
    assert_eq!(Command::A_AUTH.code(), 0x48545541);
    assert_eq!(Command::A_OPEN.code(), 0x4e45504f);
    assert_eq!(Command::A_OKAY.code(), 0x59414b4f);
    assert_eq!(Command::A_CLSE.code(), 0x45534c43);
    assert_eq!(Command::A_WRTE.code(), 0x45545257);
    assert_eq!(Command::from_u32(0x45545257), Some(Command::A_WRTE));
    assert_eq!(Command::from_u32(0xdeadbeef), None);
}

#[test]
fn builder_sets_magic_and_payload_fields() {
    let h = Header::new(Command::A_OPEN).arg0(3).arg1(9).data(b"abc").finalize();
    assert_eq!(h.command, 0x4e45504f);
    assert_eq!(h.magic, 0x4e45504f ^ 0xffffffff);
    assert_eq!(h.magic ^ h.command, 0xffffffff);
    assert_eq!(h.arg0, 3);
    assert_eq!(h.arg1, 9);
    assert_eq!(h.data_length, 3);
    assert_eq!(h.data_crc32, 97 + 98 + 99);
    assert_eq!(h.get_command(), Some(Command::A_OPEN));
}

#[test]
fn builder_from_header_derives_magic() {
    let h = Header {
        command: 0x45545257,
        arg0: 5,
        arg1: 6,
        data_length: 7,
        data_crc32: 8,
        magic: 0,
    };
    let b = HeaderBuilder::from(&h).finalize();
    assert_eq!(HeaderBuilder::from_header(&h).finalize(), b);
    assert_eq!(b.magic, 0x45545257 ^ 0xffffffff);
    assert_eq!(b.magic ^ b.command, 0xffffffff);
    assert_eq!(b.arg0, 5);
    assert_eq!(b.arg1, 6);
    assert_eq!(b.data_length, 7);
    assert_eq!(b.data_crc32, 8);
    assert_eq!(b.command, h.command);
}

#[test]
fn header_encodes_little_endian_with_derived_magic() {
    let h = Header {
        command: 0x4e584e43,
        arg0: 0x01000000,
        arg1: 0x00100000,
        data_length: 6,
        data_crc32: 0x225,
        magic: 0,
    };
    let bytes = h.encode();
    assert_eq!(
        bytes,
        vec![
            0x43, 0x4e, 0x58, 0x4e, 0x00, 0x00, 0x00, 0x01, 0x00, 0x00, 0x10, 0x00, 0x06, 0x00,
            0x00, 0x00, 0x25, 0x02, 0x00, 0x00, 0xbc, 0xb1, 0xa7, 0xb1
        ]
    );
    let back = Header::decode(&bytes).unwrap();
    assert_eq!(back.magic ^ back.command, 0xffffffff);
}

#[test]
fn header_round_trip() {
    let h = Header::new(Command::A_WRTE).arg0(0x12345678).arg1(0x9abcdef0).data(&[0xff; 300]).finalize();
    let back = Header::decode(&h.encode()).unwrap();
    assert_eq!(back, h);
    assert_eq!(back.data_crc32, 300 * 0xff);
}

#[test]
fn header_decode_needs_24_bytes() {
    assert_eq!(Header::decode(&[0; 23]), None);
    assert_eq!(Header::decode(&[0; 25]), None);
}

#[test]
fn decode_data_checks_crc() {
    let h = Header::new(Command::A_CNXN).data(b"device::01").finalize();
    assert_eq!(h.decode_data(b"device::01".to_vec()).unwrap(), b"device::01".to_vec());
    assert!(matches!(h.decode_data(b"device::02".to_vec()), Err(AdbError::Crc)));
}

#[test]
fn frame_is_header_then_payload() {
    let header = Header::new(Command::A_WRTE).arg0(1).arg1(2).data(b"xy").finalize();
    let p = ConnectionPacket { header, payload: b"xy".to_vec() };
    let f = p.frame();
    assert_eq!(f.len(), 26);
    assert_eq!(&f[..24], &header.encode()[..]);
    assert_eq!(&f[24..], b"xy");
}

#[test]
fn sync_header_round_trip() {
    let h = SyncHeader { id: SyncCommand::DATA.tag(), length: 0xdeadbeef };
    let bytes = h.bytes();
    assert_eq!(bytes, vec![0x44, 0x41, 0x54, 0x41, 0xef, 0xbe, 0xad, 0xde]);
    assert_eq!(SyncHeader::from_bytes(&bytes), Some(h));
    assert_eq!(SyncHeader::from_bytes(&bytes[..7]), None);
}

#[test]
fn sync_tags_are_ascii_names() {
    assert_eq!(SyncCommand::LIST.tag().to_le_bytes(), *b"LIST");
    assert_eq!(SyncCommand::RECV.tag().to_le_bytes(), *b"RECV");
    assert_eq!(SyncCommand::SEND.tag().to_le_bytes(), *b"SEND");
    assert_eq!(SyncCommand::STAT.tag().to_le_bytes(), *b"STAT");
    assert_eq!(SyncCommand::DATA.tag().to_le_bytes(), *b"DATA");
    assert_eq!(SyncCommand::DENT.tag().to_le_bytes(), *b"DENT");
    assert_eq!(SyncCommand::OKAY.tag().to_le_bytes(), *b"OKAY");
    assert_eq!(SyncCommand::DONE.tag().to_le_bytes(), *b"DONE");
    assert_eq!(SyncCommand::QUIT.tag().to_le_bytes(), *b"QUIT");
    assert_eq!(SyncCommand::FAIL.tag().to_le_bytes(), *b"FAIL");
}

#[test]
fn sync_requests() {
    let send = SyncCommand::new_send("/sdcard/a.txt", 0o100644);
    assert_eq!(&send.bytes[..4], b"SEND");
    assert_eq!(&send.bytes[8..], b"/sdcard/a.txt,33188");
    assert_eq!(send.header.length, 19);
    let stat = SyncCommand::new_stat("/x");
    assert_eq!(stat.bytes, b"STAT\x03\x00\x00\x00/x\x00".to_vec());
    assert_eq!(SyncCommand::new_done(0x01020304), b"DONE\x04\x03\x02\x01".to_vec());
    assert_eq!(SyncCommand::new_quit(), b"QUIT\x00\x00\x00\x00".to_vec());
    let zero = SyncCommand::new_send("a", 0);
    assert_eq!(&zero.bytes[8..], b"a,0");
}

#[test]
fn sync_data_packet_is_refilled() {
    let mut data: SyncPacket = SyncCommand::new_data(16);
    assert_eq!(data.header.length, 8);
    assert_eq!(data.len(), 8);
    assert_eq!(data.read_payload_from(b"abc"), 3);
    assert_eq!(data.bytes, b"DATA\x03\x00\x00\x00abc".to_vec());
    data.extend(b"!");
    assert_eq!(data.len(), 12);
    assert_eq!(data.read_payload_from(b"12345678"), 8);
    assert_eq!(data.bytes, b"DATA\x08\x00\x00\x0012345678".to_vec());
}

#[test]
fn unexpected_command_errors() {
    assert!(matches!(
        AdbError::from_unexpected_command_u32(0x45534c43),
        AdbError::UnexpectedCommand(Command::A_CLSE)
    ));
    assert!(matches!(
        AdbError::from_unexpected_command_u32(7),
        AdbError::UnknownCommand(7)
    ));
}
