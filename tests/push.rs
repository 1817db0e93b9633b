use adb_rs::client::AdbStreamPacket;
use adb_rs::push::{PushAction, PushSession, PushStage};
use adb_rs::result::AdbError;
use adb_rs::sync::{fail_drain_step, sync_fail_length, SyncCommand, SyncHeader};
use adb_rs::Command;

fn sent(a: PushAction) -> Vec<AdbStreamPacket> {
    match a {
        PushAction::Send(v) => v,
        other => panic!("expected packets to send, got {:?}", other),
    }
}

fn okay() -> AdbStreamPacket {
    AdbStreamPacket::okay()
}

fn wrte(b: &[u8]) -> AdbStreamPacket {
    AdbStreamPacket::new_write(b)
}

/// Runs the dialog up to the first chunk request.
fn through_send(file_size: u64, max_data: usize) -> PushSession {
    let (mut s, a) = PushSession::start("/sdcard/f", file_size, max_data);
    let stat = sent(a);
    assert_eq!(stat.len(), 1);
    assert_eq!(stat[0].command, Command::A_WRTE);
    assert_eq!(stat[0].payload, b"STAT\x0a\x00\x00\x00/sdcard/f\x00".to_vec());
    assert!(sent(s.on_packet(okay()).unwrap()).is_empty());
    let v = sent(s.on_packet(wrte(b"STAT-REPLY-16-BY")).unwrap());
    assert_eq!(v.len(), 2);
    assert_eq!(v[0].command, Command::A_OKAY);
    assert_eq!(v[1].payload, b"SEND\x0f\x00\x00\x00/sdcard/f,33188".to_vec());
    assert!(matches!(s.on_packet(okay()).unwrap(), PushAction::ReadChunk));
    s
}

fn finish(s: &mut PushSession) {
    let v = sent(s.on_packet(wrte(b"OKAY\0\0\0\0")).unwrap());
    assert_eq!(v.len(), 2);
    assert_eq!(v[0].command, Command::A_OKAY);
    assert_eq!(v[1].payload, SyncCommand::new_quit());
    let v = sent(s.on_packet(okay()).unwrap());
    assert_eq!(v.len(), 1);
    assert_eq!(v[0].command, Command::A_CLSE);
    assert!(matches!(s.on_packet(AdbStreamPacket::close()).unwrap(), PushAction::Finished));
}

#[test]
fn push_short_file_done_fits() {
    let mut s = through_send(100, 0x100000);
    let file = vec![0x5a; 100];
    let v = sent(s.on_chunk(&file, 1_700_000_000).unwrap());
    assert_eq!(v.len(), 1);
    assert_eq!(v[0].command, Command::A_WRTE);
    assert_eq!(v[0].payload.len(), 116);
    assert_eq!(&v[0].payload[..8], b"DATA\x64\x00\x00\x00");
    assert_eq!(&v[0].payload[8..108], &file[..]);
    assert_eq!(&v[0].payload[108..], &SyncCommand::new_done(1_700_000_000)[..]);
    assert!(sent(s.on_packet(okay()).unwrap()).is_empty());
    finish(&mut s);
}

#[test]
fn push_file_fills_max_data() {
    let max = 0x100000usize;
    let mut s = through_send((max - 8) as u64, max);
    let file = vec![7u8; max - 8];
    let v = sent(s.on_chunk(&file, 42).unwrap());
    assert_eq!(v.len(), 1);
    assert_eq!(v[0].payload.len(), max);
    assert_eq!(s.on_packet(AdbStreamPacket::close()).is_err(), true);
    let v = sent(s.on_packet(okay()).unwrap());
    assert_eq!(v.len(), 1);
    assert_eq!(v[0].payload, SyncCommand::new_done(42));
    assert!(sent(s.on_packet(okay()).unwrap()).is_empty());
    finish(&mut s);
}

#[test]
fn push_done_split_across_packets() {
    let mut s = through_send(13, 24);
    let v = sent(s.on_chunk(&[1; 13], 5).unwrap());
    assert_eq!(v[0].payload.len(), 24);
    assert_eq!(&v[0].payload[21..], b"DON");
    let v = sent(s.on_packet(okay()).unwrap());
    assert_eq!(v[0].payload, b"E\x05\x00\x00\x00".to_vec());
    assert!(sent(s.on_packet(okay()).unwrap()).is_empty());
    finish(&mut s);
}

#[test]
fn push_many_chunks_add_up() {
    let mut s = through_send(40, 24);
    let mut total = 0;
    for n in [16usize, 16, 8] {
        let v = sent(s.on_chunk(&vec![3u8; n], 9).unwrap());
        let h = SyncHeader::from_bytes(&v[0].payload[..8]).unwrap();
        assert_eq!(h.id, SyncCommand::DATA.tag());
        assert!(h.length as usize <= 24 - 8);
        total += h.length as usize;
        if total < 40 {
            assert!(matches!(s.on_packet(okay()).unwrap(), PushAction::ReadChunk));
        }
    }
    assert_eq!(total, 40);
    assert!(sent(s.on_packet(okay()).unwrap()).is_empty());
    finish(&mut s);
}

#[test]
fn push_refuses_oversized_and_excess_chunks() {
    let mut s = through_send(10, 24);
    assert!(matches!(s.on_chunk(&[0; 17], 0), Err(AdbError::UnexpectedData(_))));
    assert!(matches!(s.on_chunk(&[0; 11], 0), Err(AdbError::UnexpectedData(_))));
    assert!(matches!(s.on_chunk(&[], 0), Err(AdbError::UnexpectedData(_))));
}

#[test]
fn push_empty_file() {
    let mut s = through_send(0, 24);
    let v = sent(s.on_chunk(&[], 77).unwrap());
    assert_eq!(v.len(), 1);
    assert_eq!(v[0].command, Command::A_WRTE);
    assert_eq!(v[0].payload, b"DATA\x00\x00\x00\x00DONE\x4d\x00\x00\x00".to_vec());
    assert!(sent(s.on_packet(okay()).unwrap()).is_empty());
    finish(&mut s);
}

#[test]
fn push_empty_read_before_end_is_refused() {
    let mut s = through_send(5, 24);
    assert!(matches!(s.on_chunk(&[], 0), Err(AdbError::UnexpectedData(_))));
    assert_eq!(s.current_stage(), PushStage::ReadChunk);
}

#[test]
fn push_payloads_never_exceed_max_data() {
    for size in [1usize, 15, 16, 17, 31, 40] {
        let mut s = through_send(size as u64, 24);
        let mut left = size;
        loop {
            let n = left.min(16);
            left -= n;
            for p in sent(s.on_chunk(&vec![9u8; n], 3).unwrap()) {
                assert!(p.payload.len() <= 24);
            }
            if left == 0 {
                break;
            }
            assert!(matches!(s.on_packet(okay()).unwrap(), PushAction::ReadChunk));
        }
        assert_eq!(s.sent_so_far(), size as u64);
    }
}

#[test]
fn push_sync_fail_propagates() {
    let (mut s, _) = PushSession::start("/nope", 3, 64);
    s.on_packet(okay()).unwrap();
    s.on_packet(wrte(b"stat")).unwrap();
    let fail = SyncHeader { id: SyncCommand::FAIL.tag(), length: 9 }.bytes();
    assert!(sent(s.on_packet(wrte(&fail)).unwrap()).is_empty());
    let v = sent(s.on_packet(okay()).unwrap());
    assert_eq!(v[0].command, Command::A_OKAY);
    match s.on_packet(wrte(b"not found")) {
        Err(AdbError::Fail(msg)) => assert_eq!(msg, "not found"),
        other => panic!("expected a failure, got {:?}", other.is_ok()),
    }
}

#[test]
fn push_unexpected_reply() {
    let (mut s, _) = PushSession::start("/x", 3, 64);
    assert!(matches!(
        s.on_packet(wrte(b"no")),
        Err(AdbError::UnexpectedCommand(Command::A_WRTE))
    ));
}

#[test]
fn fail_detection_and_drain() {
    let fail = SyncHeader { id: SyncCommand::FAIL.tag(), length: 4 }.bytes();
    assert_eq!(sync_fail_length(&wrte(&fail)), Some(4));
    assert_eq!(sync_fail_length(&wrte(b"OKAY\0\0\0\0")), None);
    assert_eq!(sync_fail_length(&AdbStreamPacket { command: Command::A_OKAY, payload: fail.clone() }), None);
    assert!(fail_drain_step(&okay(), 4).is_ok());
    match fail_drain_step(&wrte(b"gone!!"), 4) {
        Err(AdbError::Fail(msg)) => assert_eq!(msg, "gone"),
        _ => panic!("expected a failure"),
    }
    match fail_drain_step(&wrte(b"ab"), 4) {
        Err(AdbError::Fail(msg)) => assert_eq!(msg, "ab"),
        _ => panic!("expected a failure"),
    }
    assert!(matches!(
        fail_drain_step(&AdbStreamPacket::close(), 4),
        Err(AdbError::UnexpectedCommand(Command::A_CLSE))
    ));
}

#[test]
fn push_stage_starts_waiting_for_stat() {
    let (s, _) = PushSession::start("/x", 1, 64);
    assert_eq!(s.current_stage(), PushStage::AwaitStatOk);
}
