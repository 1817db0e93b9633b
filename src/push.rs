//! Pushing a file over a `sync:` stream, as a state machine: the caller
//! performs each action (sending packets, reading the next piece of the
//! file) and hands back what came of it.
use vstd::prelude::*;
use vstd::utf8::encode_utf8;

use crate::client::AdbStreamPacket;
use crate::message::Command;
use crate::result::{AdbError, AdbResult};
use crate::sync::{
    fail_announcement, fail_drain_step, fail_message, send_body, stat_body, sync_fail_length,
    sync_header_bytes, SyncCommand, SyncHeader, DEFAULT_FILE_MODE,
};
use crate::utils::{append_bytes, utf8_lossy};

verus! {

/// Pushes a local file to a path on the device.
pub trait AdbPush {
    fn push(&mut self, local_path: &str, remote_path: &str) -> AdbResult<()>;
}

/// Where a push stands.
#[derive(Debug, Clone, Copy, PartialEq, Eq, Structural)]
pub enum PushStage {
    /// The STAT request went out; its OKAY is due.
    AwaitStatOk,
    /// The device's answer to STAT is due.
    AwaitStatReply,
    /// The SEND request went out; its OKAY is due.
    AwaitSendOk,
    /// The next piece of the file is due from the caller.
    ReadChunk,
    /// A DATA chunk went out; its OKAY is due.
    AwaitChunkOk,
    /// The last chunk went out with only the start of the DONE marker.
    AwaitDoneSplitOk,
    /// The DONE marker is complete on the wire; its OKAY is due.
    AwaitLastOk,
    /// The device's textual result is due.
    AwaitResult,
    /// QUIT went out; its OKAY is due.
    AwaitQuitOk,
    /// CLSE went out; the device's CLSE is due.
    AwaitClose,
    /// The device announced a failure whose text has this length.
    Draining(u32),
    /// The push is complete.
    Finished,
}

/// What the caller does next.
#[derive(Debug)]
pub enum PushAction {
    /// Send these packets in order, then hand over the next packet received.
    Send(Vec<AdbStreamPacket>),
    /// Read at most `max_data - 8` bytes of the file and hand them over.
    ReadChunk,
    /// The push is complete.
    Finished,
}

/// A packet as plain values: its command and payload.
pub open spec fn packet_view(p: AdbStreamPacket) -> (Command, Seq<u8>) {
    (p.command, p.payload@)
}

impl PushAction {
    /// The packets this action sends; none for the other actions.
    pub open spec fn sends(self) -> Seq<(Command, Seq<u8>)> {
        match self {
            PushAction::Send(v) => v@.map_values(|p: AdbStreamPacket| packet_view(p)),
            _ => Seq::empty(),
        }
    }
}

/// A WRTE with `payload`.
pub open spec fn wrte(payload: Seq<u8>) -> (Command, Seq<u8>) {
    (Command::A_WRTE, payload)
}

/// An OKAY or CLSE without payload.
pub open spec fn bare(c: Command) -> (Command, Seq<u8>) {
    (c, Seq::empty())
}

/// The command awaited in `stage`, if a packet is awaited at all.
pub open spec fn awaited(stage: PushStage) -> Option<Command> {
    match stage {
        PushStage::AwaitStatOk => Some(Command::A_OKAY),
        PushStage::AwaitStatReply => Some(Command::A_WRTE),
        PushStage::AwaitSendOk => Some(Command::A_OKAY),
        PushStage::AwaitChunkOk => Some(Command::A_OKAY),
        PushStage::AwaitDoneSplitOk => Some(Command::A_OKAY),
        PushStage::AwaitLastOk => Some(Command::A_OKAY),
        PushStage::AwaitResult => Some(Command::A_WRTE),
        PushStage::AwaitQuitOk => Some(Command::A_OKAY),
        PushStage::AwaitClose => Some(Command::A_CLSE),
        _ => None,
    }
}

/// The stage after the awaited packet of `stage` arrived.
pub open spec fn stage_after(stage: PushStage) -> PushStage {
    match stage {
        PushStage::AwaitStatOk => PushStage::AwaitStatReply,
        PushStage::AwaitStatReply => PushStage::AwaitSendOk,
        PushStage::AwaitSendOk => PushStage::ReadChunk,
        PushStage::AwaitChunkOk => PushStage::ReadChunk,
        PushStage::AwaitDoneSplitOk => PushStage::AwaitLastOk,
        PushStage::AwaitLastOk => PushStage::AwaitResult,
        PushStage::AwaitResult => PushStage::AwaitQuitOk,
        PushStage::AwaitQuitOk => PushStage::AwaitClose,
        _ => PushStage::Finished,
    }
}

/// The stages in which all of the file has gone out.
pub open spec fn data_complete(stage: PushStage) -> bool {
    match stage {
        PushStage::AwaitDoneSplitOk | PushStage::AwaitLastOk | PushStage::AwaitResult
        | PushStage::AwaitQuitOk | PushStage::AwaitClose | PushStage::Finished => true,
        _ => false,
    }
}

/// The sum of a sequence of sizes.
pub open spec fn total(s: Seq<nat>) -> nat
    decreases s.len(),
{
    if s.len() == 0 {
        0
    } else {
        total(s.drop_last()) + s.last()
    }
}

/// The DATA header for a body of `n` bytes.
pub open spec fn data_header(n: nat) -> SyncHeader {
    SyncHeader { id: SyncCommand::DATA.spec_tag(), length: n as u32 }
}

/// The DONE marker for `mtime`.
pub open spec fn done_marker(mtime: u32) -> Seq<u8> {
    sync_header_bytes(SyncHeader { id: SyncCommand::DONE.spec_tag(), length: mtime })
}

/// The QUIT request.
pub open spec fn quit_request() -> Seq<u8> {
    sync_header_bytes(SyncHeader { id: SyncCommand::QUIT.spec_tag(), length: 0 })
}

/// The progress of one push.
pub struct PushSession {
    stage: PushStage,
    file_size: u64,
    bytes_sent: u64,
    max_data: usize,
    send_request: Vec<u8>,
    done_rest: Vec<u8>,
    chunk_sizes: Ghost<Seq<nat>>,
}

impl PushSession {
    pub closed spec fn stage(&self) -> PushStage {
        self.stage
    }

    pub closed spec fn file_size(&self) -> nat {
        self.file_size as nat
    }

    /// How many bytes of the file went out in DATA chunks.
    pub closed spec fn bytes_sent(&self) -> nat {
        self.bytes_sent as nat
    }

    pub closed spec fn max_data(&self) -> nat {
        self.max_data as nat
    }

    /// The SEND request, sent once STAT was answered.
    pub closed spec fn send_request(&self) -> Seq<u8> {
        self.send_request@
    }

    /// The part of the DONE marker still to go out in a packet of its own.
    pub closed spec fn done_rest(&self) -> Seq<u8> {
        self.done_rest@
    }

    /// The body sizes of the DATA chunks sent so far, in order.
    pub closed spec fn chunk_sizes(&self) -> Seq<nat> {
        self.chunk_sizes@
    }

    /// The push's invariant: the chunks sent so far add up to the bytes
    /// sent, none exceeds `max_data - 8`, and once the data is complete the
    /// bytes sent are exactly the file's size.
    pub open spec fn wf(&self) -> bool {
        &&& 8 < self.max_data() <= u32::MAX
        &&& self.bytes_sent() <= self.file_size()
        &&& total(self.chunk_sizes()) == self.bytes_sent()
        &&& forall|i: int|
            0 <= i < self.chunk_sizes().len() ==> #[trigger] self.chunk_sizes()[i] <= self.max_data()
                - 8
        &&& data_complete(self.stage()) ==> self.bytes_sent() == self.file_size()
    }

    pub fn current_stage(&self) -> (r: PushStage)
        ensures
            r == self.stage(),
    {
        self.stage
    }

    /// How many bytes of the file went out so far.
    pub fn sent_so_far(&self) -> (r: u64)
        ensures
            r == self.bytes_sent(),
    {
        self.bytes_sent
    }

    /// Starts pushing a file of `file_size` bytes to `remote_path` on a
    /// device that takes packets of up to `max_data` bytes: the first
    /// action sends the STAT request.
    pub fn start(remote_path: &str, file_size: u64, max_data: usize) -> (r: (
        PushSession,
        PushAction,
    ))
        requires
            encode_utf8(remote_path@).len() + 19 <= u32::MAX,
            8 < max_data <= u32::MAX,
        ensures
            r.0.wf(),
            r.0.stage() == PushStage::AwaitStatOk,
            r.0.file_size() == file_size,
            r.0.bytes_sent() == 0,
            r.0.max_data() == max_data,
            r.0.chunk_sizes() == Seq::<nat>::empty(),
            r.0.send_request() == sync_header_bytes(
                SyncHeader {
                    id: SyncCommand::SEND.spec_tag(),
                    length: send_body(encode_utf8(remote_path@), DEFAULT_FILE_MODE).len() as u32,
                },
            ) + send_body(encode_utf8(remote_path@), DEFAULT_FILE_MODE),
            r.1.sends() == seq![
                wrte(
                    sync_header_bytes(
                        SyncHeader {
                            id: SyncCommand::STAT.spec_tag(),
                            length: stat_body(encode_utf8(remote_path@)).len() as u32,
                        },
                    ) + stat_body(encode_utf8(remote_path@)),
                ),
            ],
            r.1 is Send,
    {
        let stat = SyncCommand::new_stat(remote_path);
        let send = SyncCommand::new_send(remote_path, DEFAULT_FILE_MODE);
        let session = PushSession {
            stage: PushStage::AwaitStatOk,
            file_size,
            bytes_sent: 0,
            max_data,
            send_request: send.bytes,
            done_rest: Vec::new(),
            chunk_sizes: Ghost(Seq::empty()),
        };
        let mut packets: Vec<AdbStreamPacket> = Vec::new();
        packets.push(AdbStreamPacket::new_write(stat.bytes.as_slice()));
        let action = PushAction::Send(packets);
        assert(action.sends() =~= seq![wrte(stat.bytes@)]);
        (session, action)
    }

    /// Takes the next packet received on the stream.
    pub fn on_packet(&mut self, packet: AdbStreamPacket) -> (r: AdbResult<PushAction>)
        requires
            old(self).wf(),
        ensures
            final(self).wf(),
            final(self).file_size() == old(self).file_size(),
            final(self).bytes_sent() == old(self).bytes_sent(),
            final(self).max_data() == old(self).max_data(),
            final(self).chunk_sizes() == old(self).chunk_sizes(),
            final(self).send_request() == old(self).send_request(),
            final(self).done_rest() == old(self).done_rest(),
            // draining after a FAIL announcement
            old(self).stage() matches PushStage::Draining(len) ==> {
                &&& final(self).stage() == old(self).stage()
                &&& packet.command == Command::A_OKAY ==> (r matches Ok(a) && a is Send
                    && a.sends() == seq![bare(Command::A_OKAY)])
                &&& packet.command == Command::A_WRTE ==> (r matches Err(AdbError::Fail(msg))
                    && msg@ == utf8_lossy(fail_message(packet.payload@, len)))
                &&& packet.command != Command::A_OKAY && packet.command != Command::A_WRTE
                    ==> r == Err::<PushAction, AdbError>(
                    AdbError::UnexpectedCommand(packet.command),
                )
            },
            // a FAIL announcement
            !(old(self).stage() is Draining) && awaited(old(self).stage()) is Some
                && fail_announcement(packet) is Some ==> final(self).stage()
                == PushStage::Draining(fail_announcement(packet)->Some_0) && (r matches Ok(a)
                && a is Send && a.sends() =~= Seq::<(Command, Seq<u8>)>::empty()),
            // a packet where none is awaited, or not the awaited one
            !(old(self).stage() is Draining) && (awaited(old(self).stage()) is None || (
            fail_announcement(packet) is None && awaited(old(self).stage()) != Some(
                packet.command,
            ))) ==> final(self).stage() == old(self).stage() && r == Err::<
                PushAction,
                AdbError,
            >(AdbError::UnexpectedCommand(packet.command)),
            // the awaited packet
            !(old(self).stage() is Draining) && fail_announcement(packet) is None && awaited(
                old(self).stage(),
            ) == Some(packet.command) ==> {
                &&& final(self).stage() == stage_after(old(self).stage())
                &&& r is Ok
                &&& old(self).stage() == PushStage::AwaitStatReply ==> (r matches Ok(a)
                    && a is Send && a.sends() == seq![
                    bare(Command::A_OKAY),
                    wrte(old(self).send_request()),
                ])
                &&& old(self).stage() == PushStage::AwaitDoneSplitOk ==> (r matches Ok(a)
                    && a is Send && a.sends() == seq![wrte(old(self).done_rest())])
                &&& old(self).stage() == PushStage::AwaitResult ==> (r matches Ok(a)
                    && a is Send && a.sends() == seq![
                    bare(Command::A_OKAY),
                    wrte(quit_request()),
                ])
                &&& old(self).stage() == PushStage::AwaitQuitOk ==> (r matches Ok(a)
                    && a is Send && a.sends() == seq![bare(Command::A_CLSE)])
                &&& (old(self).stage() == PushStage::AwaitSendOk || old(self).stage()
                    == PushStage::AwaitChunkOk) ==> (r matches Ok(a) && a is ReadChunk)
                &&& old(self).stage() == PushStage::AwaitClose ==> (r matches Ok(a)
                    && a is Finished)
                &&& (old(self).stage() == PushStage::AwaitStatOk || old(self).stage()
                    == PushStage::AwaitLastOk) ==> (r matches Ok(a) && a is Send && a.sends()
                    =~= Seq::<(Command, Seq<u8>)>::empty())
            },
    {
        match self.stage {
            PushStage::Draining(len) => {
                return match fail_drain_step(&packet, len) {
                    Ok(()) => {
                        let mut v: Vec<AdbStreamPacket> = Vec::new();
                        v.push(AdbStreamPacket::okay());
                        let a = PushAction::Send(v);
                        assert(a.sends() =~= seq![bare(Command::A_OKAY)]);
                        Ok(a)
                    },
                    Err(e) => Err(e),
                };
            },
            PushStage::ReadChunk | PushStage::Finished => {
                return Err(AdbError::UnexpectedCommand(packet.command));
            },
            _ => {},
        }
        match sync_fail_length(&packet) {
            Some(len) => {
                self.stage = PushStage::Draining(len);
                let a = PushAction::Send(Vec::new());
                assert(a.sends() =~= Seq::<(Command, Seq<u8>)>::empty());
                return Ok(a);
            },
            None => {},
        }
        let expected = match self.stage {
            PushStage::AwaitStatReply | PushStage::AwaitResult => Command::A_WRTE,
            PushStage::AwaitClose => Command::A_CLSE,
            _ => Command::A_OKAY,
        };
        if packet.command != expected {
            return Err(AdbError::UnexpectedCommand(packet.command));
        }
        let mut out: Vec<AdbStreamPacket> = Vec::new();
        match self.stage {
            PushStage::AwaitStatOk => {
                self.stage = PushStage::AwaitStatReply;
            },
            PushStage::AwaitStatReply => {
                out.push(AdbStreamPacket::okay());
                out.push(AdbStreamPacket::new_write(self.send_request.as_slice()));
                self.stage = PushStage::AwaitSendOk;
            },
            PushStage::AwaitSendOk | PushStage::AwaitChunkOk => {
                self.stage = PushStage::ReadChunk;
                return Ok(PushAction::ReadChunk);
            },
            PushStage::AwaitDoneSplitOk => {
                out.push(AdbStreamPacket::new_write(self.done_rest.as_slice()));
                self.stage = PushStage::AwaitLastOk;
            },
            PushStage::AwaitLastOk => {
                self.stage = PushStage::AwaitResult;
            },
            PushStage::AwaitResult => {
                out.push(AdbStreamPacket::okay());
                let quit = SyncCommand::new_quit();
                out.push(AdbStreamPacket::new_write(quit.as_slice()));
                self.stage = PushStage::AwaitQuitOk;
            },
            PushStage::AwaitQuitOk => {
                out.push(AdbStreamPacket::close());
                self.stage = PushStage::AwaitClose;
            },
            _ => {
                self.stage = PushStage::Finished;
                return Ok(PushAction::Finished);
            },
        }
        let ghost before = old(self).stage;
        let a = PushAction::Send(out);
        proof {
            if before == PushStage::AwaitStatReply {
                assert(a.sends() =~= seq![bare(Command::A_OKAY), wrte(old(self).send_request())]);
            } else if before == PushStage::AwaitDoneSplitOk {
                assert(a.sends() =~= seq![wrte(old(self).done_rest())]);
            } else if before == PushStage::AwaitResult {
                assert(a.sends() =~= seq![bare(Command::A_OKAY), wrte(quit_request())]);
            } else if before == PushStage::AwaitQuitOk {
                assert(a.sends() =~= seq![bare(Command::A_CLSE)]);
            } else {
                assert(a.sends() =~= Seq::<(Command, Seq<u8>)>::empty());
            }
        }
        Ok(a)
    }

    /// Takes the next piece of the file, read after a `ReadChunk` action,
    /// and the current time in seconds since the Unix epoch. An empty piece
    /// is the end of the file, accepted only once all of it went out. The
    /// piece that completes the file (for an empty file, the empty piece)
    /// carries the DONE marker, split over two packets when it does not fit.
    pub fn on_chunk(&mut self, chunk: &[u8], mtime: u32) -> (r: AdbResult<PushAction>)
        requires
            old(self).wf(),
        ensures
            final(self).wf(),
            final(self).file_size() == old(self).file_size(),
            final(self).max_data() == old(self).max_data(),
            final(self).send_request() == old(self).send_request(),
            // refused: no piece was due, it is too long, the file ended early
            // or grew
            old(self).stage() != PushStage::ReadChunk || chunk@.len() > old(self).max_data() - 8
                || (chunk@.len() == 0 && old(self).bytes_sent() != old(self).file_size())
                || old(self).bytes_sent() + chunk@.len() > old(self).file_size() ==> {
                &&& r matches Err(AdbError::UnexpectedData(d)) && d@ == chunk@
                &&& final(self).stage() == old(self).stage()
                &&& final(self).bytes_sent() == old(self).bytes_sent()
                &&& final(self).chunk_sizes() == old(self).chunk_sizes()
            },
            // a DATA chunk goes out
            old(self).stage() == PushStage::ReadChunk && chunk@.len() <= old(self).max_data() - 8
                && old(self).bytes_sent() + chunk@.len() <= old(self).file_size() && (chunk@.len()
                > 0 || old(self).bytes_sent() == old(self).file_size()) ==> {
                let data = sync_header_bytes(data_header(chunk@.len())) + chunk@;
                let done = done_marker(mtime);
                let space = old(self).max_data() - data.len();
                &&& final(self).bytes_sent() == old(self).bytes_sent() + chunk@.len()
                &&& final(self).chunk_sizes() == old(self).chunk_sizes().push(chunk@.len())
                &&& r matches Ok(a) && a is Send
                &&& forall|i: int|
                    0 <= i < r->Ok_0.sends().len() ==> #[trigger] r->Ok_0.sends()[i].1.len()
                        <= old(self).max_data()
                &&& final(self).bytes_sent() < final(self).file_size() ==> {
                    &&& final(self).stage() == PushStage::AwaitChunkOk
                    &&& r->Ok_0.sends() == seq![wrte(data)]
                }
                &&& final(self).bytes_sent() == final(self).file_size() && space >= 8 ==> {
                    &&& final(self).stage() == PushStage::AwaitLastOk
                    &&& r->Ok_0.sends() == seq![wrte(data + done)]
                }
                &&& final(self).bytes_sent() == final(self).file_size() && space < 8 ==> {
                    &&& final(self).stage() == PushStage::AwaitDoneSplitOk
                    &&& r->Ok_0.sends() == seq![wrte(data + done.take(space))]
                    &&& final(self).done_rest() == done.skip(space)
                }
            },
    {
        let n = chunk.len();
        if !(self.stage == PushStage::ReadChunk) || n > self.max_data - 8 || (n == 0
            && self.bytes_sent != self.file_size) || n as u64 > self.file_size - self.bytes_sent {
            let mut d: Vec<u8> = Vec::new();
            append_bytes(&mut d, chunk);
            return Err(AdbError::UnexpectedData(d));
        }
        let mut data = SyncCommand::new_data(self.max_data);
        data.read_payload_from(chunk);
        let ghost old_sizes = self.chunk_sizes@;
        self.bytes_sent = self.bytes_sent + n as u64;
        self.chunk_sizes = Ghost(self.chunk_sizes@.push(n as nat));
        proof {
            assert(self.chunk_sizes@.drop_last() =~= old_sizes);
        }
        let mut out: Vec<AdbStreamPacket> = Vec::new();
        if self.bytes_sent < self.file_size {
            out.push(AdbStreamPacket::new_write(data.bytes.as_slice()));
            self.stage = PushStage::AwaitChunkOk;
            let a = PushAction::Send(out);
            assert(a.sends() =~= seq![wrte(data.bytes@)]);
            return Ok(a);
        }
        let done = SyncCommand::new_done(mtime);
        let space = self.max_data - data.len();
        if space >= 8 {
            data.extend(done.as_slice());
            out.push(AdbStreamPacket::new_write(data.bytes.as_slice()));
            self.stage = PushStage::AwaitLastOk;
            let a = PushAction::Send(out);
            assert(a.sends() =~= seq![wrte(data.bytes@)]);
            Ok(a)
        } else {
            let head = vstd::slice::slice_subrange(done.as_slice(), 0, space);
            let tail = vstd::slice::slice_subrange(done.as_slice(), space, 8);
            data.extend(head);
            let mut rest: Vec<u8> = Vec::new();
            append_bytes(&mut rest, tail);
            self.done_rest = rest;
            out.push(AdbStreamPacket::new_write(data.bytes.as_slice()));
            self.stage = PushStage::AwaitDoneSplitOk;
            let a = PushAction::Send(out);
            assert(a.sends() =~= seq![wrte(data.bytes@)]);
            assert(head@ =~= done@.take(space as int));
            assert(tail@ =~= done@.skip(space as int));
            Ok(a)
        }
    }

}

/// Once a push has sent all of the file, its DATA chunk bodies add up to
/// exactly the file's size, and none is longer than `max_data - 8`.
pub proof fn lemma_chunks_cover_file(p: PushSession)
    requires
        p.wf(),
        data_complete(p.stage()),
    ensures
        total(p.chunk_sizes()) == p.file_size(),
        forall|i: int|
            0 <= i < p.chunk_sizes().len() ==> #[trigger] p.chunk_sizes()[i] <= p.max_data() - 8,
{
}

} // verus!
