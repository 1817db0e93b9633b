//! The state a session keeps besides its transport: what the device
//! announced, the local id counter, and the registry of live streams.
use std::collections::HashMap;
use vstd::prelude::*;

use crate::message::{Command, Header};

verus! {

/// One session with a device.
#[derive(Debug)]
pub struct Session {
    system_identity: String,
    device_system_identity: String,
    device_version: u32,
    device_max_data: u32,
    local_id_counter: u32,
}

impl Session {
    pub closed spec fn identity(&self) -> Seq<char> {
        self.system_identity@
    }

    pub closed spec fn device_identity(&self) -> Seq<char> {
        self.device_system_identity@
    }

    pub closed spec fn device_version(&self) -> u32 {
        self.device_version
    }

    pub closed spec fn device_max_data(&self) -> u32 {
        self.device_max_data
    }

    /// The last local id handed out; zero before the first.
    pub closed spec fn last_local_id(&self) -> u32 {
        self.local_id_counter
    }

    /// The local ids handed out so far.
    pub open spec fn issued_ids(&self) -> Set<u32> {
        Set::new(|id: u32| 1 <= id <= self.last_local_id())
    }

    pub fn new(
        system_identity: String,
        device_system_identity: String,
        device_version: u32,
        device_max_data: u32,
    ) -> (r: Self)
        ensures
            r.identity() == system_identity@,
            r.device_identity() == device_system_identity@,
            r.device_version() == device_version,
            r.device_max_data() == device_max_data,
            r.last_local_id() == 0,
    {
        Session {
            system_identity,
            device_system_identity,
            device_version,
            device_max_data,
            local_id_counter: 0,
        }
    }

    /// The largest payload the device accepts in one packet.
    pub fn max_data_len(&self) -> (r: usize)
        ensures
            r == self.device_max_data(),
    {
        self.device_max_data as usize
    }

    pub fn device_version_number(&self) -> (r: u32)
        ensures
            r == self.device_version(),
    {
        self.device_version
    }

    pub fn device_system_identity(&self) -> (r: &String)
        ensures
            r@ == self.device_identity(),
    {
        &self.device_system_identity
    }

    /// Hands out the next local id: one more than the last, so ids grow
    /// strictly and none is handed out twice. `None` once all 32-bit ids
    /// are used up.
    pub fn next_local_id(&mut self) -> (r: Option<u32>)
        ensures
            old(self).last_local_id() < u32::MAX ==> r == Some((old(self).last_local_id()
                + 1) as u32) && final(self).last_local_id() == r->Some_0,
            old(self).last_local_id() == u32::MAX ==> r is None && final(self).last_local_id()
                == old(self).last_local_id(),
            r matches Some(id) ==> !old(self).issued_ids().contains(id) && (forall|j: u32|
                old(self).issued_ids().contains(j) ==> j < id) && final(self).issued_ids()
                == old(self).issued_ids().insert(id),
            final(self).identity() == old(self).identity(),
            final(self).device_identity() == old(self).device_identity(),
            final(self).device_version() == old(self).device_version(),
            final(self).device_max_data() == old(self).device_max_data(),
    {
        if self.local_id_counter == u32::MAX {
            return None;
        }
        self.local_id_counter = self.local_id_counter + 1;
        let id = self.local_id_counter;
        assert(self.issued_ids() =~= old(self).issued_ids().insert(id));
        Some(id)
    }
}

/// The live streams of a session, by local id, each with the context its
/// workers deliver through.
#[derive(Debug)]
pub struct Registry<C> {
    streams: HashMap<u32, C>,
}

/// Where the dispatcher sends an inbound packet.
#[derive(Debug, Clone, Copy, PartialEq, Eq, Structural)]
pub enum InboundRoute {
    /// Into the mailbox of the stream with this local id.
    Deliver(u32),
    /// Dropped: the stream exists but the opcode is unknown.
    UnknownCommand(u32),
    /// Dropped: no stream has this local id.
    NoStream(u32),
}

/// What the writer does with an outbound packet.
#[derive(Debug, Clone, Copy, PartialEq, Eq, Structural)]
pub enum OutboundRoute {
    /// Write it and report to the stream with this local id.
    Write(u32),
    /// Discard it: the stream with this local id was released.
    Discard(u32),
}

/// Inbound packets are addressed by `arg1`, the id the peer echoes back.
pub open spec fn inbound_route(live: Set<u32>, header: Header) -> InboundRoute {
    if !live.contains(header.arg1) {
        InboundRoute::NoStream(header.arg1)
    } else if Command::spec_from_u32(header.command) is Some {
        InboundRoute::Deliver(header.arg1)
    } else {
        InboundRoute::UnknownCommand(header.arg1)
    }
}

/// Outbound packets carry the sender's local id in `arg0`.
pub open spec fn outbound_route(live: Set<u32>, header: Header) -> OutboundRoute {
    if live.contains(header.arg0) {
        OutboundRoute::Write(header.arg0)
    } else {
        OutboundRoute::Discard(header.arg0)
    }
}

/// The local ids a worker found released during one iteration.
#[derive(Debug)]
pub struct PendingRemovals {
    ids: Vec<u32>,
}

impl View for PendingRemovals {
    type V = Seq<u32>;

    closed spec fn view(&self) -> Seq<u32> {
        self.ids@
    }
}

impl PendingRemovals {
    pub fn new() -> (r: Self)
        ensures
            r@ == Seq::<u32>::empty(),
    {
        PendingRemovals { ids: Vec::new() }
    }

    /// Records that the handle of stream `local_id` is gone.
    pub fn mark(&mut self, local_id: u32)
        ensures
            final(self)@ == old(self)@.push(local_id),
    {
        self.ids.push(local_id);
    }

    pub fn is_empty(&self) -> (r: bool)
        ensures
            r == (self@.len() == 0),
    {
        self.ids.len() == 0
    }
}

impl<C> View for Registry<C> {
    type V = Map<u32, C>;

    closed spec fn view(&self) -> Map<u32, C> {
        self.streams@
    }
}

impl<C> Registry<C> {
    pub fn new() -> (r: Self)
        ensures
            r@ == Map::<u32, C>::empty(),
    {
        Registry { streams: HashMap::new() }
    }

    /// Registers the context of a newly opened stream.
    pub fn register(&mut self, local_id: u32, ctx: C)
        ensures
            final(self)@ == old(self)@.insert(local_id, ctx),
    {
        broadcast use vstd::std_specs::hash::group_hash_axioms;

        self.streams.insert(local_id, ctx);
    }

    pub fn get(&self, local_id: u32) -> (r: Option<&C>)
        ensures
            r matches Some(c) ==> self@.contains_key(local_id) && *c == self@[local_id],
            r is None ==> !self@.contains_key(local_id),
    {
        broadcast use vstd::std_specs::hash::group_hash_axioms;

        self.streams.get(&local_id)
    }

    pub fn contains(&self, local_id: u32) -> (r: bool)
        ensures
            r == self@.contains_key(local_id),
    {
        broadcast use vstd::std_specs::hash::group_hash_axioms;

        self.streams.contains_key(&local_id)
    }

    pub fn len(&self) -> (r: usize)
        ensures
            r == self@.len(),
    {
        broadcast use vstd::std_specs::hash::group_hash_axioms;

        self.streams.len()
    }

    /// The dispatcher's decision for an inbound packet.
    pub fn route_inbound(&self, header: &Header) -> (r: InboundRoute)
        ensures
            r == inbound_route(self@.dom(), *header),
    {
        if !self.contains(header.arg1) {
            InboundRoute::NoStream(header.arg1)
        } else if header.get_command().is_some() {
            InboundRoute::Deliver(header.arg1)
        } else {
            InboundRoute::UnknownCommand(header.arg1)
        }
    }

    /// The writer's decision for an outbound packet.
    pub fn route_outbound(&self, header: &Header) -> (r: OutboundRoute)
        ensures
            r == outbound_route(self@.dom(), *header),
    {
        if self.contains(header.arg0) {
            OutboundRoute::Write(header.arg0)
        } else {
            OutboundRoute::Discard(header.arg0)
        }
    }

    /// The cleanup that ends a worker iteration: every stream marked as
    /// released leaves the registry, and the marks are cleared.
    pub fn sweep(&mut self, pending: &mut PendingRemovals)
        ensures
            final(self)@ == old(self)@.remove_keys(old(pending)@.to_set()),
            final(pending)@ == Seq::<u32>::empty(),
    {
        broadcast use vstd::std_specs::hash::group_hash_axioms;

        let mut i: usize = 0;
        while i < pending.ids.len()
            invariant
                0 <= i <= pending@.len(),
                pending@ == old(pending)@,
                self@ == old(self)@.remove_keys(pending@.subrange(0, i as int).to_set()),
            decreases pending@.len() - i,
        {
            let id = pending.ids[i];
            self.streams.remove(&id);
            proof {
                let before = pending@.subrange(0, i as int);
                let after = pending@.subrange(0, i as int + 1);
                assert(after =~= before.push(id));
                assert(after.to_set() =~= before.to_set().insert(id)) by {
                    before.lemma_push_to_set_commute(id);
                }
                assert(self@ =~= old(self)@.remove_keys(after.to_set()));
            }
            i = i + 1;
        }
        assert(pending@.subrange(0, pending@.len() as int) =~= pending@);
        pending.ids.clear();
    }
}

/// A released stream is gone from the registry once the worker iteration
/// that noticed the release has swept: within that one iteration.
pub proof fn lemma_released_stream_swept<C>(
    streams: Map<u32, C>,
    pending: Seq<u32>,
    local_id: u32,
)
    requires
        pending.contains(local_id),
    ensures
        !streams.remove_keys(pending.to_set()).contains_key(local_id),
{
}

} // verus!
