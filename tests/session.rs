use adb_rs::client::{AdbStreamPacket, StreamIds};
use adb_rs::result::AdbError;
use adb_rs::session::{InboundRoute, OutboundRoute, PendingRemovals, Registry};
use adb_rs::shell::{shell_destination, ShellOutput, ShellStep};
use adb_rs::{AdbClient, Command, Header};

fn reply(cmd: u32, arg0: u32, arg1: u32, payload: &[u8]) -> Header {
    let h = Header::new(Command::A_OKAY).arg0(arg0).arg1(arg1).data(payload).finalize();
    Header { command: cmd, magic: cmd ^ 0xffffffff, ..h }
}

#[test]
fn handshake_round_trip() {
    let client = AdbClient::new("host::");
    let hello = client.handshake_request();
    assert_eq!(hello.len(), 30);
    assert_eq!(
        &hello[..24],
        &[
            0x43, 0x4e, 0x58, 0x4e, 0x00, 0x00, 0x00, 0x01, 0x00, 0x00, 0x10, 0x00, 0x06, 0x00,
            0x00, 0x00, 0x32, 0x02, 0x00, 0x00, 0xbc, 0xb1, 0xa7, 0xb1
        ]
    );
    assert_eq!(&hello[24..], b"host::");

    let r = reply(Command::A_CNXN.code(), 0x01000000, 0x00100000, b"device::01");
    assert!(AdbClient::handshake_reply(&r).is_ok());
    let session = client.establish(&r, b"device::01".to_vec()).unwrap();
    assert_eq!(session.max_data_len(), 0x00100000);
    assert_eq!(session.device_version_number(), 0x01000000);
    assert_eq!(session.device_system_identity(), "device::01");
}

#[test]
fn handshake_auth_rejected() {
    let r = reply(Command::A_AUTH.code(), 1, 0, b"token");
    assert!(matches!(AdbClient::handshake_reply(&r), Err(AdbError::AuthNotSupported)));
    let client = AdbClient::new("host::");
    assert!(matches!(client.establish(&r, b"token".to_vec()), Err(AdbError::AuthNotSupported)));
}

#[test]
fn handshake_unknown_opcode() {
    let r = reply(0xdeadbeef, 0, 0, b"");
    assert!(matches!(
        AdbClient::handshake_reply(&r),
        Err(AdbError::UnknownCommand(0xdeadbeef))
    ));
}

#[test]
fn handshake_unexpected_command() {
    let r = reply(Command::A_OKAY.code(), 0, 0, b"");
    assert!(matches!(
        AdbClient::handshake_reply(&r),
        Err(AdbError::UnexpectedCommand(Command::A_OKAY))
    ));
}

#[test]
fn handshake_payload_checksum_mismatch() {
    let r = reply(Command::A_CNXN.code(), 0x01000000, 0x1000, b"device::01");
    let client = AdbClient::new("host::");
    assert!(matches!(client.establish(&r, b"device::02".to_vec()), Err(AdbError::Crc)));
}

#[test]
fn handshake_identity_decoded_lossily() {
    let payload = [b'd', 0xff, b'x'];
    let r = reply(Command::A_CNXN.code(), 1, 2, &payload);
    let session = AdbClient::new("h").establish(&r, payload.to_vec()).unwrap();
    assert_eq!(session.device_system_identity(), "d\u{fffd}x");
}

#[test]
fn local_ids_start_at_one_and_increase() {
    let r = reply(Command::A_CNXN.code(), 1, 4096, b"");
    let mut session = AdbClient::new("h").establish(&r, vec![]).unwrap();
    assert_eq!(session.next_local_id(), Some(1));
    assert_eq!(session.next_local_id(), Some(2));
    assert_eq!(session.next_local_id(), Some(3));
}

#[test]
fn shell_exec_dialog() {
    let dest = shell_destination("echo hi");
    let open = StreamIds::open_request(1, &dest);
    assert_eq!(open.payload, b"shell:echo hi\0".to_vec());
    assert_eq!(open.payload.len(), 14);
    assert_eq!(open.header.command, Command::A_OPEN.code());
    assert_eq!(open.header.arg0, 1);
    assert_eq!(open.header.arg1, 0);
    assert_eq!(open.header.data_length, 14);

    let okay = reply(Command::A_OKAY.code(), 7, 1, b"");
    let ids = StreamIds::open_reply(&okay).unwrap();
    assert_eq!(ids, StreamIds { local_id: 1, remote_id: 7 });

    let mut out = ShellOutput::new();
    let wrte = AdbStreamPacket::new_write(b"hi\n");
    assert_eq!(out.on_packet(&wrte).unwrap(), ShellStep::Acknowledge);
    let ack = ids.outbound(AdbStreamPacket::okay());
    assert_eq!(ack.header.command, Command::A_OKAY.code());
    assert_eq!(ack.header.arg0, 1);
    assert_eq!(ack.header.arg1, 7);
    assert_eq!(ack.header.data_length, 0);
    assert_eq!(out.on_packet(&AdbStreamPacket::close()).unwrap(), ShellStep::Finished);
    assert_eq!(out.into_bytes(), b"hi\n".to_vec());
}

#[test]
fn shell_rejects_other_commands() {
    let mut out = ShellOutput::new();
    let p = AdbStreamPacket { command: Command::A_OPEN, payload: vec![] };
    assert!(matches!(out.on_packet(&p), Err(AdbError::UnexpectedCommand(Command::A_OPEN))));
}

#[test]
fn open_reply_errors() {
    let clse = reply(Command::A_CLSE.code(), 0, 1, b"");
    assert!(matches!(
        StreamIds::open_reply(&clse),
        Err(AdbError::UnexpectedCommand(Command::A_CLSE))
    ));
    let odd = reply(0x12345678, 0, 1, b"");
    assert!(matches!(StreamIds::open_reply(&odd), Err(AdbError::UnknownCommand(0x12345678))));
}

#[test]
fn stream_packets_from_wire() {
    let h = reply(Command::A_WRTE.code(), 7, 1, b"abc");
    let p = AdbStreamPacket::from_wire(&h, b"abc".to_vec()).unwrap();
    assert_eq!(p.command, Command::A_WRTE);
    assert_eq!(p.payload, b"abc".to_vec());
    assert!(p.check_command(Command::A_WRTE).is_ok());
    assert!(matches!(
        p.check_command(Command::A_OKAY),
        Err(AdbError::UnexpectedCommand(Command::A_WRTE))
    ));
    let bad = reply(0xdeadbeef, 7, 1, b"");
    assert!(matches!(
        AdbStreamPacket::from_wire(&bad, vec![]),
        Err(AdbError::UnknownCommand(0xdeadbeef))
    ));
}

#[test]
fn registry_routes_and_sweeps() {
    let mut reg: Registry<&str> = Registry::new();
    reg.register(1, "one");
    reg.register(2, "two");
    assert_eq!(reg.len(), 2);
    assert_eq!(reg.get(2), Some(&"two"));

    let to_one = reply(Command::A_WRTE.code(), 7, 1, b"");
    assert_eq!(reg.route_inbound(&to_one), InboundRoute::Deliver(1));
    let unknown = reply(0xdeadbeef, 7, 1, b"");
    assert_eq!(reg.route_inbound(&unknown), InboundRoute::UnknownCommand(1));
    let nobody = reply(Command::A_WRTE.code(), 7, 9, b"");
    assert_eq!(reg.route_inbound(&nobody), InboundRoute::NoStream(9));

    let from_two = Header::new(Command::A_WRTE).arg0(2).arg1(7).finalize();
    assert_eq!(reg.route_outbound(&from_two), OutboundRoute::Write(2));

    let mut pending = PendingRemovals::new();
    assert!(pending.is_empty());
    pending.mark(2);
    reg.sweep(&mut pending);
    assert!(pending.is_empty());
    assert!(!reg.contains(2));
    assert!(reg.contains(1));
    assert_eq!(reg.route_outbound(&from_two), OutboundRoute::Discard(2));
}
