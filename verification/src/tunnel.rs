//! Tunnel framing and the routing tables that connect tunnels of players
//! in the same game.
use vstd::prelude::*;
use std::collections::HashMap;
use vstd::std_specs::iter::IteratorSpec;
use crate::packet::{be16, read_be16, copy_range, extend_bytes};

verus! {

broadcast use vstd::std_specs::hash::group_hash_axioms;

/// Port of the local end of the tunnel that clients connect to as the
/// host of a tunnelled game.
pub const TUNNEL_HOST_LOCAL_PORT: u16 = 42132;

/// Whether `x` comes before `to` when counting up from `from`, wrapping
/// around after the largest ID.
pub open spec fn counted_before(from: u32, to: u32, x: u32) -> bool {
    if from <= to {
        from <= x && x < to
    } else {
        from <= x || x < to
    }
}

/// Header portion of a tunnel message: the index of the message and the
/// length of the expected payload.
pub struct TunnelMessageHeader {
    /// Socket index to use
    pub index: u8,
    /// The length of the tunnel message bytes
    pub length: u16,
}

/// Message sent through the tunnel.
pub struct TunnelMessage {
    /// Socket index to use
    pub index: u8,
    /// The message contents
    pub message: Vec<u8>,
}

/// The bytes of a framed tunnel message: index, 16 bit length, payload.
pub open spec fn tunnel_frame_bytes(index: u8, message: Seq<u8>) -> Seq<u8> {
    seq![index] + be16((message.len() % 65536) as u16) + message
}

/// Codec for encoding and decoding tunnel messages.
pub struct TunnelCodec {
    /// Stores the current message header while its waiting for the full
    /// payload to become available
    pub partial: Option<TunnelMessageHeader>,
}

impl TunnelCodec {
    pub fn new() -> (r: TunnelCodec)
        ensures
            r.partial is None,
    {
        TunnelCodec { partial: None }
    }

    /// Decodes the next message from `src`. The three-byte header (index
    /// and 16-bit length) is taken once three bytes are buffered; it is then
    /// kept until its whole payload has arrived.
    pub fn decode(&mut self, src: &mut Vec<u8>) -> (r: Option<TunnelMessage>)
        ensures
            ({
                // The header in force after the header step
                let (hdr_index, hdr_len, after) = match old(self).partial {
                    Some(h) => (h.index, h.length, old(src)@),
                    None => (old(src)@[0], read_be16(old(src)@[1], old(src)@[2]) as u16, old(src)@.skip(3)),
                };
                if old(self).partial is None && old(src)@.len() < 3 {
                    &&& r is None
                    &&& final(src)@ == old(src)@
                    &&& final(self).partial is None
                } else if after.len() < hdr_len {
                    &&& r is None
                    &&& final(src)@ == after
                    &&& final(self).partial matches Some(h) && h.index == hdr_index && h.length == hdr_len
                } else {
                    &&& r matches Some(m) && m.index == hdr_index && m.message@ == after.take(hdr_len as int)
                    &&& final(src)@ == after.skip(hdr_len as int)
                    &&& final(self).partial is None
                }
            }),
    {
        let (index, length) = match &self.partial {
            Some(h) => (h.index, h.length),
            None => {
                if src.len() < 3 {
                    return None;
                }
                let index = src[0];
                let length = (src[1] as u16) * 256 + (src[2] as u16);
                let rest = copy_range(src.as_slice(), 3, src.len());
                *src = rest;
                proof {
                    assert(src@ =~= old(src)@.skip(3));
                }
                self.partial = Some(TunnelMessageHeader { index, length });
                (index, length)
            },
        };
        if src.len() < length as usize {
            return None;
        }
        self.partial = None;
        let message = copy_range(src.as_slice(), 0, length as usize);
        let rest = copy_range(src.as_slice(), length as usize, src.len());
        proof {
            assert(message@ =~= src@.take(length as int));
            assert(rest@ =~= src@.skip(length as int));
        }
        *src = rest;
        Some(TunnelMessage { index, message })
    }

    /// Writes a framed message to `dst`; the length field holds the low 16
    /// bits of the payload length.
    pub fn encode(&mut self, item: TunnelMessage, dst: &mut Vec<u8>)
        ensures
            final(dst)@ == old(dst)@ + tunnel_frame_bytes(item.index, item.message@),
            final(self).partial == old(self).partial,
    {
        let len = (item.message.len() % 65536) as u16;
        dst.push(item.index);
        dst.push((len / 256) as u8);
        dst.push((len % 256) as u8);
        extend_bytes(dst, item.message.as_slice());
        assert(final(dst)@ =~= old(dst)@ + tunnel_frame_bytes(item.index, item.message@));
    }
}

/// Decoding what was encoded gives back the message and leaves the bytes
/// that followed it, whenever the payload fits in 16 bits and at least five
/// bytes are buffered.
pub proof fn lemma_tunnel_frame_roundtrip(index: u8, message: Seq<u8>, rest: Seq<u8>)
    requires
        message.len() < 65536,
    ensures
        ({
            let s = tunnel_frame_bytes(index, message) + rest;
            &&& s[0] == index
            &&& read_be16(s[1], s[2]) == message.len()
            &&& s.skip(3).take(message.len() as int) == message
            &&& s.skip(3).skip(message.len() as int) == rest
        }),
{
    let s = tunnel_frame_bytes(index, message) + rest;
    assert(s.skip(3) =~= message + rest);
    assert((message + rest).take(message.len() as int) =~= message);
    assert((message + rest).skip(message.len() as int) =~= rest);
}

/// ID for a tunnel.
pub type TunnelId = u32;
/// Index into a pool of tunnels.
pub type PoolIndex = u8;
/// ID of a pool (a game).
pub type PoolId = u32;
/// Unique ID given to clients before connecting, held as its 128 bit value.
pub type AssociationId = u128;

/// A [PoolId] and [PoolIndex] combined into a single value.
#[derive(Clone, Copy, PartialEq, Eq, Structural)]
pub struct PoolKey(pub u64);

impl PoolKey {
    pub open spec fn spec_new(pool_id: PoolId, pool_index: PoolIndex) -> PoolKey {
        PoolKey((pool_id * 0x1_0000_0000 + pool_index) as u64)
    }

    /// Creates a new pool key from its components.
    pub fn new(pool_id: PoolId, pool_index: PoolIndex) -> (r: PoolKey)
        ensures
            r == PoolKey::spec_new(pool_id, pool_index),
    {
        PoolKey((pool_id as u64) * 0x1_0000_0000 + (pool_index as u64))
    }

    /// Converts the key into its underlying parts.
    pub fn parts(&self) -> (r: (PoolId, PoolIndex))
        ensures
            r == ((self.0 / 0x1_0000_0000) as u32, (self.0 % 256) as u8),
    {
        ((self.0 / 0x1_0000_0000) as u32, (self.0 % 256) as u8)
    }
}

/// A pool key gives back the pool and index it was made from.
pub proof fn lemma_pool_key_roundtrip(pool_id: PoolId, pool_index: PoolIndex)
    ensures
        ({
            let k = PoolKey::spec_new(pool_id, pool_index);
            (k.0 / 0x1_0000_0000) as u32 == pool_id && (k.0 % 256) as u8 == pool_index
        }),
{
    let k = PoolKey::spec_new(pool_id, pool_index);
    assert(k.0 == pool_id * 0x1_0000_0000 + pool_index);
    assert(k.0 / 0x1_0000_0000 == pool_id) by (nonlinear_arith)
        requires k.0 == pool_id * 0x1_0000_0000 + pool_index, pool_index < 256;
    assert(k.0 % 256 == pool_index) by (nonlinear_arith)
        requires k.0 == pool_id * 0x1_0000_0000 + pool_index, pool_index < 256;
}

/// Whether the two routing maps are inverse to each other: each tunnel
/// holds at most one slot, each slot holds at most one tunnel, and a
/// tunnel holds a slot exactly when that slot holds the tunnel.
pub open spec fn routes_inverse(slots: Map<TunnelId, PoolKey>, tunnels: Map<u64, TunnelId>) -> bool {
    &&& forall|t: TunnelId| #[trigger] slots.contains_key(t)
        ==> tunnels.contains_key(slots[t].0) && tunnels[slots[t].0] == t
    &&& forall|k: u64| #[trigger] tunnels.contains_key(k)
        ==> slots.contains_key(tunnels[k]) && slots[tunnels[k]].0 == k
}

/// Data about a connected tunnel.
#[derive(Clone, Copy)]
pub struct TunnelData<Handle> {
    /// Association ID for the tunnel
    pub association: AssociationId,
    /// Handle to the tunnel
    pub handle: Handle,
    /// Last time (in milliseconds) a keep alive was obtained for the tunnel
    pub last_alive: u64,
}

/// Mappings between tunnels, client associations and game pool slots.
pub struct TunnelMappings<Handle> {
    /// Next available tunnel ID
    pub next_tunnel_id: TunnelId,
    /// Tunnels by ID
    pub id_to_tunnel: HashMap<TunnelId, TunnelData<Handle>>,
    /// Tunnel of each client association
    pub association_to_tunnel: HashMap<AssociationId, TunnelId>,
    /// Pool slot of each tunnel (the inverse of `index_to_tunnel`)
    pub tunnel_to_index: HashMap<TunnelId, PoolKey>,
    /// Tunnel in each pool slot, keyed by the pool key's value (the
    /// inverse of `tunnel_to_index`)
    pub index_to_tunnel: HashMap<u64, TunnelId>,
}

impl<Handle> TunnelMappings<Handle> {
    /// The invariant of the mappings: the routing maps are inverse.
    pub open spec fn wf(&self) -> bool {
        routes_inverse(self.tunnel_to_index@, self.index_to_tunnel@)
    }
}

impl<Handle: Copy> TunnelMappings<Handle> {
    pub fn new() -> (r: TunnelMappings<Handle>)
        ensures
            r.next_tunnel_id == 0,
            r.id_to_tunnel@ == Map::<TunnelId, TunnelData<Handle>>::empty(),
            r.association_to_tunnel@ == Map::<AssociationId, TunnelId>::empty(),
            r.tunnel_to_index@ == Map::<TunnelId, PoolKey>::empty(),
            r.index_to_tunnel@ == Map::<u64, TunnelId>::empty(),
            r.wf(),
    {
        TunnelMappings {
            next_tunnel_id: 0,
            id_to_tunnel: HashMap::new(),
            association_to_tunnel: HashMap::new(),
            tunnel_to_index: HashMap::new(),
            index_to_tunnel: HashMap::new(),
        }
    }

    /// Obtains the next tunnel ID not in use, counting up from
    /// `next_tunnel_id` and wrapping around; `None` when every ID is in use.
    pub fn acquire_tunnel_id(&mut self) -> (r: Option<TunnelId>)
        ensures
            r matches Some(id) ==> forall|x: TunnelId| #[trigger] counted_before(old(self).next_tunnel_id, id, x)
                ==> old(self).id_to_tunnel@.contains_key(x),
            final(self).id_to_tunnel@ == old(self).id_to_tunnel@,
            final(self).association_to_tunnel@ == old(self).association_to_tunnel@,
            final(self).tunnel_to_index@ == old(self).tunnel_to_index@,
            final(self).index_to_tunnel@ == old(self).index_to_tunnel@,
            r matches Some(id) ==> !old(self).id_to_tunnel@.contains_key(id)
                && final(self).next_tunnel_id == id.wrapping_add(1),
            r is None ==> forall|id: TunnelId| #[trigger] old(self).id_to_tunnel@.contains_key(id),
            r is None ==> final(self).next_tunnel_id == 0,
    {
        let mut addr_exhausted: u32 = 0;
        loop
            invariant
                self.id_to_tunnel@ == old(self).id_to_tunnel@,
                self.association_to_tunnel@ == old(self).association_to_tunnel@,
                self.tunnel_to_index@ == old(self).tunnel_to_index@,
                self.index_to_tunnel@ == old(self).index_to_tunnel@,
                addr_exhausted <= 2,
                addr_exhausted == 0 ==> old(self).next_tunnel_id <= self.next_tunnel_id,
                addr_exhausted == 0 ==> forall|x: TunnelId| old(self).next_tunnel_id <= x < self.next_tunnel_id
                    ==> #[trigger] self.id_to_tunnel@.contains_key(x),
                addr_exhausted >= 1 ==> forall|x: TunnelId| x >= old(self).next_tunnel_id
                    ==> #[trigger] self.id_to_tunnel@.contains_key(x),
                addr_exhausted >= 1 ==> forall|x: TunnelId| x < self.next_tunnel_id
                    ==> #[trigger] self.id_to_tunnel@.contains_key(x),
                addr_exhausted >= 2 ==> forall|x: TunnelId| #[trigger] self.id_to_tunnel@.contains_key(x),
            decreases (3 - addr_exhausted) * 0x1_0000_0000 + (0xFFFF_FFFF - self.next_tunnel_id),
        {
            let tunnel_id = self.next_tunnel_id;
            self.next_tunnel_id = self.next_tunnel_id.wrapping_add(1);
            if tunnel_id == u32::MAX {
                addr_exhausted += 1;
            }
            if !self.id_to_tunnel.contains_key(&tunnel_id) {
                return Some(tunnel_id);
            }
            if addr_exhausted > 2 {
                return None;
            }
        }
    }

    /// Inserts a new tunnel and associates it to `association`; `None` when
    /// no tunnel ID is free.
    pub fn insert_tunnel(&mut self, association: AssociationId, tunnel: TunnelData<Handle>) -> (r: Option<TunnelId>)
        ensures
            final(self).tunnel_to_index@ == old(self).tunnel_to_index@,
            final(self).index_to_tunnel@ == old(self).index_to_tunnel@,
            r matches Some(id) ==> {
                &&& !old(self).id_to_tunnel@.contains_key(id)
                &&& forall|x: TunnelId| #[trigger] counted_before(old(self).next_tunnel_id, id, x)
                    ==> old(self).id_to_tunnel@.contains_key(x)
                &&& final(self).next_tunnel_id == id.wrapping_add(1)
                &&& final(self).id_to_tunnel@ == old(self).id_to_tunnel@.insert(id, tunnel)
                &&& final(self).association_to_tunnel@ == old(self).association_to_tunnel@.insert(association, id)
            },
            r is None ==> {
                &&& forall|id: TunnelId| #[trigger] old(self).id_to_tunnel@.contains_key(id)
                &&& final(self).next_tunnel_id == 0
                &&& final(self).id_to_tunnel@ == old(self).id_to_tunnel@
                &&& final(self).association_to_tunnel@ == old(self).association_to_tunnel@
            },
    {
        let tunnel_id = match self.acquire_tunnel_id() {
            Some(value) => value,
            None => return None,
        };
        self.id_to_tunnel.insert(tunnel_id, tunnel);
        self.association_to_tunnel.insert(association, tunnel_id);
        Some(tunnel_id)
    }

    /// Replaces the handle of a known tunnel.
    pub fn update_tunnel_handle(&mut self, tunnel_id: TunnelId, handle: Handle)
        ensures
            final(self).id_to_tunnel@ == (if old(self).id_to_tunnel@.contains_key(tunnel_id) {
                old(self).id_to_tunnel@.insert(tunnel_id, TunnelData { handle, ..old(self).id_to_tunnel@[tunnel_id] })
            } else {
                old(self).id_to_tunnel@
            }),
            final(self).next_tunnel_id == old(self).next_tunnel_id,
            final(self).association_to_tunnel@ == old(self).association_to_tunnel@,
            final(self).tunnel_to_index@ == old(self).tunnel_to_index@,
            final(self).index_to_tunnel@ == old(self).index_to_tunnel@,
    {
        if let Some(data) = self.id_to_tunnel.get(&tunnel_id) {
            let updated = TunnelData { handle, association: data.association, last_alive: data.last_alive };
            self.id_to_tunnel.insert(tunnel_id, updated);
        }
    }

    /// Records the last time a keep-alive came through a known tunnel.
    pub fn update_tunnel_last_alive(&mut self, tunnel_id: TunnelId, last_alive: u64)
        ensures
            final(self).id_to_tunnel@ == (if old(self).id_to_tunnel@.contains_key(tunnel_id) {
                old(self).id_to_tunnel@.insert(tunnel_id, TunnelData { last_alive, ..old(self).id_to_tunnel@[tunnel_id] })
            } else {
                old(self).id_to_tunnel@
            }),
            final(self).next_tunnel_id == old(self).next_tunnel_id,
            final(self).association_to_tunnel@ == old(self).association_to_tunnel@,
            final(self).tunnel_to_index@ == old(self).tunnel_to_index@,
            final(self).index_to_tunnel@ == old(self).index_to_tunnel@,
    {
        if let Some(data) = self.id_to_tunnel.get(&tunnel_id) {
            let updated = TunnelData { handle: data.handle, association: data.association, last_alive };
            self.id_to_tunnel.insert(tunnel_id, updated);
        }
    }

    /// Associates the tunnel of `association` (if it has one) with slot
    /// `pool_index` of pool `pool_id`: the tunnel leaves the slot it held,
    /// the tunnel that held that slot leaves it, then the two are linked.
    pub fn associate_pool(&mut self, association: AssociationId, pool_id: PoolId, pool_index: PoolIndex)
        requires
            old(self).wf(),
        ensures
            final(self).wf(),
            final(self).next_tunnel_id == old(self).next_tunnel_id,
            final(self).id_to_tunnel@ == old(self).id_to_tunnel@,
            final(self).association_to_tunnel@ == old(self).association_to_tunnel@,
            match old(self).association_to_tunnel@.get(association) {
                Some(t) => {
                    let key = PoolKey::spec_new(pool_id, pool_index);
                    let slots = old(self).tunnel_to_index@;
                    let tunnels = old(self).index_to_tunnel@;
                    &&& final(self).tunnel_to_index@ == (if tunnels.contains_key(key.0) {
                        slots.remove(tunnels[key.0])
                    } else {
                        slots
                    }).insert(t, key)
                    &&& final(self).index_to_tunnel@ == (if slots.contains_key(t) {
                        tunnels.remove(slots[t].0)
                    } else {
                        tunnels
                    }).insert(key.0, t)
                },
                None => {
                    &&& final(self).tunnel_to_index@ == old(self).tunnel_to_index@
                    &&& final(self).index_to_tunnel@ == old(self).index_to_tunnel@
                },
            },
    {
        let tunnel_id = match self.association_to_tunnel.get(&association) {
            Some(value) => *value,
            None => return,
        };
        let key = PoolKey::new(pool_id, pool_index);
        let ghost slots = self.tunnel_to_index@;
        let ghost tunnels = self.index_to_tunnel@;
        // Leave the slot the tunnel held
        if let Some(old_key) = self.tunnel_to_index.remove(&tunnel_id) {
            self.index_to_tunnel.remove(&old_key.0);
        }
        // Take the slot from the tunnel that held it
        if let Some(holder) = self.index_to_tunnel.remove(&key.0) {
            self.tunnel_to_index.remove(&holder);
        }
        self.tunnel_to_index.insert(tunnel_id, key);
        self.index_to_tunnel.insert(key.0, tunnel_id);
        proof {
            let new_slots = (if tunnels.contains_key(key.0) { slots.remove(tunnels[key.0]) } else { slots }).insert(tunnel_id, key);
            let new_tunnels = (if slots.contains_key(tunnel_id) { tunnels.remove(slots[tunnel_id].0) } else { tunnels }).insert(key.0, tunnel_id);
            assert(self.tunnel_to_index@ =~= new_slots);
            assert(self.index_to_tunnel@ =~= new_tunnels);
        }
    }

    /// The route from `tunnel_id` to slot `pool_index` of its pool: the
    /// handle of the tunnel in that slot and the slot of `tunnel_id`.
    pub open spec fn spec_route(&self, tunnel_id: TunnelId, pool_index: PoolIndex) -> Option<(Handle, PoolIndex)> {
        if !self.tunnel_to_index@.contains_key(tunnel_id) {
            None
        } else {
            let key = self.tunnel_to_index@[tunnel_id];
            let pool_id = (key.0 / 0x1_0000_0000) as u32;
            let self_index = (key.0 % 256) as u8;
            let other = PoolKey::spec_new(pool_id, pool_index);
            if !self.index_to_tunnel@.contains_key(other.0) {
                None
            } else {
                let other_tunnel = self.index_to_tunnel@[other.0];
                if !self.id_to_tunnel@.contains_key(other_tunnel) {
                    None
                } else {
                    Some((self.id_to_tunnel@[other_tunnel].handle, self_index))
                }
            }
        }
    }

    /// The tunnel in slot `pool_index` of the pool that `tunnel_id` is
    /// placed in, if both exist.
    pub open spec fn route_target(&self, tunnel_id: TunnelId, pool_index: PoolIndex) -> Option<TunnelId> {
        if !self.tunnel_to_index@.contains_key(tunnel_id) {
            None
        } else {
            let key = self.tunnel_to_index@[tunnel_id];
            let other = PoolKey::spec_new((key.0 / 0x1_0000_0000) as u32, pool_index);
            if self.index_to_tunnel@.contains_key(other.0) {
                Some(self.index_to_tunnel@[other.0])
            } else {
                None
            }
        }
    }

    /// Finds the handle of another tunnel within the same pool as
    /// `tunnel_id` at `pool_index`, with the pool index of `tunnel_id`.
    pub fn get_tunnel_route(&self, tunnel_id: TunnelId, pool_index: PoolIndex) -> (r: Option<(Handle, PoolIndex)>)
        ensures
            r == self.spec_route(tunnel_id, pool_index),
    {
        let key = match self.tunnel_to_index.get(&tunnel_id) {
            Some(value) => *value,
            None => return None,
        };
        let (game_id, self_index) = key.parts();
        let other = PoolKey::new(game_id, pool_index);
        let other_tunnel = match self.index_to_tunnel.get(&other.0) {
            Some(value) => *value,
            None => return None,
        };
        let tunnel = match self.id_to_tunnel.get(&other_tunnel) {
            Some(value) => value,
            None => return None,
        };
        Some((tunnel.handle, self_index))
    }

    /// The IDs of the stored tunnels, each once, in no particular order.
    pub fn tunnel_ids(&self) -> (r: Vec<TunnelId>)
        ensures
            r@.no_duplicates(),
            r@.to_set() == self.id_to_tunnel@.dom(),
    {
        broadcast use vstd::std_specs::hash::axiom_spec_keys_iter;
        let mut ids: Vec<TunnelId> = Vec::new();
        let keys = self.id_to_tunnel.keys();
        let ghost all = vstd::std_specs::hash::spec_keys_iter(&self.id_to_tunnel).remaining().unref();
        for id in it: keys
            invariant
                it.seq().unref() == all,
                ids@ == all.take(it.index()),
        {
            ids.push(*id);
            proof {
                assert(all.take(it.index() + 1) =~= all.take(it.index()).push(*id));
            }
        }
        proof {
            assert(ids@ =~= all);
        }
        ids
    }

    /// The stored tunnels with their data, each once, in no particular
    /// order.
    pub fn tunnel_data(&self) -> (r: Vec<(TunnelId, TunnelData<Handle>)>)
        ensures
            forall|j: int| 0 <= j < r@.len() ==> self.id_to_tunnel@.contains_key(#[trigger] r@[j].0)
                && r@[j].1 == self.id_to_tunnel@[r@[j].0],
            forall|id: TunnelId| #[trigger] self.id_to_tunnel@.contains_key(id)
                ==> exists|j: int| 0 <= j < r@.len() && #[trigger] r@[j].0 == id,
            forall|j: int, k: int| 0 <= j < k < r@.len() ==> #[trigger] r@[j].0 != #[trigger] r@[k].0,
    {
        let ids = self.tunnel_ids();
        let mut out: Vec<(TunnelId, TunnelData<Handle>)> = Vec::new();
        let mut i: usize = 0;
        while i < ids.len()
            invariant
                0 <= i <= ids@.len(),
                ids@.no_duplicates(),
                ids@.to_set() == self.id_to_tunnel@.dom(),
                out@.len() == i,
                forall|j: int| 0 <= j < i ==> (#[trigger] out@[j]).0 == ids@[j]
                    && out@[j].1 == self.id_to_tunnel@[ids@[j]],
            decreases ids@.len() - i,
        {
            let id = ids[i];
            proof {
                assert(ids@.to_set().contains(id));
            }
            let data = *self.id_to_tunnel.get(&id).unwrap();
            out.push((id, data));
            i = i + 1;
        }
        proof {
            assert forall|j: int| 0 <= j < out@.len() implies self.id_to_tunnel@.contains_key(#[trigger] out@[j].0) by {
                assert(ids@.to_set().contains(ids@[j]));
            }
            assert forall|id: TunnelId| #[trigger] self.id_to_tunnel@.contains_key(id)
                implies exists|j: int| 0 <= j < out@.len() && #[trigger] out@[j].0 == id by {
                assert(ids@.to_set().contains(id));
                let k = choose|k: int| 0 <= k < ids@.len() && ids@[k] == id;
                assert(out@[k].0 == id);
            }
        }
        out
    }

    /// Removes every tunnel that is dead at `now` (see
    /// `spec_tunnel_expired`), with its association and its pool slot, and
    /// gives the ID and handle of each remaining tunnel, each once, in no
    /// particular order: those are the tunnels to send a keep-alive.
    pub fn remove_dead_tunnels(&mut self, now: u64, timeout: u64) -> (r: Vec<(TunnelId, Handle)>)
        ensures
            old(self).wf() ==> final(self).wf(),
            final(self).next_tunnel_id == old(self).next_tunnel_id,
            ({
                let dead = spec_dead_tunnels(old(self).id_to_tunnel@, now, timeout);
                &&& final(self).id_to_tunnel@ == old(self).id_to_tunnel@.remove_keys(dead)
                &&& final(self).association_to_tunnel@ == old(self).association_to_tunnel@.remove_keys(
                    spec_associations_of(old(self).id_to_tunnel@, dead))
                &&& final(self).tunnel_to_index@ == old(self).tunnel_to_index@.remove_keys(dead)
                &&& final(self).index_to_tunnel@ == old(self).index_to_tunnel@.remove_keys(
                    spec_slots_of(old(self).tunnel_to_index@, dead))
            }),
            forall|j: int| 0 <= j < r@.len() ==> {
                let id = #[trigger] r@[j].0;
                &&& old(self).id_to_tunnel@.contains_key(id)
                &&& !spec_tunnel_expired(old(self).id_to_tunnel@[id].last_alive, now, timeout)
                &&& r@[j].1 == old(self).id_to_tunnel@[id].handle
            },
            forall|id: TunnelId| #[trigger] old(self).id_to_tunnel@.contains_key(id)
                && !spec_tunnel_expired(old(self).id_to_tunnel@[id].last_alive, now, timeout)
                ==> exists|j: int| 0 <= j < r@.len() && #[trigger] r@[j].0 == id,
            forall|j: int, k: int| 0 <= j < k < r@.len() ==> #[trigger] r@[j].0 != #[trigger] r@[k].0,
    {
        let ids = self.tunnel_ids();
        let ghost tunnels = self.id_to_tunnel@;
        let ghost associations = self.association_to_tunnel@;
        let ghost slots = self.tunnel_to_index@;
        let ghost pools = self.index_to_tunnel@;
        let ghost dead_all = spec_dead_tunnels(tunnels, now, timeout);
        let mut alive: Vec<(TunnelId, Handle)> = Vec::new();
        let mut i: usize = 0;
        proof {
            assert(ids@.take(0).to_set() =~= Set::<TunnelId>::empty());
            let d = ids@.take(0).to_set().intersect(dead_all);
            assert(d =~= Set::<TunnelId>::empty());
            assert(tunnels.remove_keys(d) =~= tunnels);
            assert(spec_associations_of(tunnels, d) =~= Set::<AssociationId>::empty());
            assert(associations.remove_keys(spec_associations_of(tunnels, d)) =~= associations);
            assert(slots.remove_keys(d) =~= slots);
            assert(spec_slots_of(slots, d) =~= Set::<u64>::empty());
            assert(pools.remove_keys(spec_slots_of(slots, d)) =~= pools);
        }
        while i < ids.len()
            invariant
                0 <= i <= ids@.len(),
                ids@.no_duplicates(),
                ids@.to_set() == tunnels.dom(),
                dead_all == spec_dead_tunnels(tunnels, now, timeout),
                self.next_tunnel_id == old(self).next_tunnel_id,
                ({
                    let d = ids@.take(i as int).to_set().intersect(dead_all);
                    &&& self.id_to_tunnel@ == tunnels.remove_keys(d)
                    &&& self.association_to_tunnel@ == associations.remove_keys(spec_associations_of(tunnels, d))
                    &&& self.tunnel_to_index@ == slots.remove_keys(d)
                    &&& self.index_to_tunnel@ == pools.remove_keys(spec_slots_of(slots, d))
                }),
                forall|j: int| 0 <= j < alive@.len() ==> {
                    let id = #[trigger] alive@[j].0;
                    &&& tunnels.contains_key(id)
                    &&& !spec_tunnel_expired(tunnels[id].last_alive, now, timeout)
                    &&& alive@[j].1 == tunnels[id].handle
                    &&& ids@.take(i as int).contains(id)
                },
                forall|k: int| 0 <= k < i && !dead_all.contains(#[trigger] ids@[k])
                    ==> exists|j: int| 0 <= j < alive@.len() && #[trigger] alive@[j].0 == ids@[k],
                forall|j: int, k: int| 0 <= j < k < alive@.len() ==> #[trigger] alive@[j].0 != #[trigger] alive@[k].0,
            decreases ids@.len() - i,
        {
            let id = ids[i];
            proof {
                assert(ids@.to_set().contains(id));
                assert(ids@.take(i + 1) =~= ids@.take(i as int).push(id));
                assert(!ids@.take(i as int).contains(id)) by {
                    if ids@.take(i as int).contains(id) {
                        let k = choose|k: int| 0 <= k < i && ids@.take(i as int)[k] == id;
                        assert(ids@[k] == ids@[i as int]);
                    }
                }
            }
            let ghost d0 = ids@.take(i as int).to_set().intersect(dead_all);
            let ghost d1 = ids@.take(i + 1).to_set().intersect(dead_all);
            proof {
                ids@.take(i as int).lemma_push_to_set_commute(id);
                assert(ids@.take(i + 1).to_set() =~= ids@.take(i as int).to_set().insert(id));
                assert(!d0.contains(id));
            }
            let data = *self.id_to_tunnel.get(&id).unwrap();
            let ghost alive0 = alive@;
            proof {
                assert(data == tunnels[id]);
            }
            if now >= data.last_alive && now - data.last_alive > timeout {
                proof {
                    assert(dead_all.contains(id));
                    assert(d1 =~= d0.insert(id));
                    assert(tunnels.remove_keys(d1) =~= tunnels.remove_keys(d0).remove(id));
                    assert(d1.contains(id));
                    assert forall|a: AssociationId| #[trigger] spec_associations_of(tunnels, d1).contains(a)
                        implies spec_associations_of(tunnels, d0).insert(data.association).contains(a) by {
                        let w = choose|w: TunnelId| #[trigger] d1.contains(w) && tunnels.contains_key(w)
                            && tunnels[w].association == a;
                        if w != id {
                            assert(d0.contains(w));
                        }
                    }
                    assert forall|a: AssociationId| #[trigger] spec_associations_of(tunnels, d0).insert(data.association).contains(a)
                        implies spec_associations_of(tunnels, d1).contains(a) by {
                        if a == data.association {
                            assert(d1.contains(id) && tunnels.contains_key(id) && tunnels[id].association == a);
                        } else {
                            let w = choose|w: TunnelId| #[trigger] d0.contains(w) && tunnels.contains_key(w)
                                && tunnels[w].association == a;
                            assert(d1.contains(w));
                        }
                    }
                    assert(spec_associations_of(tunnels, d1) =~= spec_associations_of(tunnels, d0).insert(data.association));
                    assert(associations.remove_keys(spec_associations_of(tunnels, d1))
                        =~= associations.remove_keys(spec_associations_of(tunnels, d0)).remove(data.association));
                    assert(slots.remove_keys(d1) =~= slots.remove_keys(d0).remove(id));
                    if slots.contains_key(id) {
                        assert forall|k: u64| #[trigger] spec_slots_of(slots, d1).contains(k)
                            implies spec_slots_of(slots, d0).insert(slots[id].0).contains(k) by {
                            let w = choose|w: TunnelId| #[trigger] d1.contains(w) && slots.contains_key(w) && slots[w].0 == k;
                            if w != id {
                                assert(d0.contains(w));
                            }
                        }
                        assert forall|k: u64| #[trigger] spec_slots_of(slots, d0).insert(slots[id].0).contains(k)
                            implies spec_slots_of(slots, d1).contains(k) by {
                            if k == slots[id].0 {
                                assert(d1.contains(id) && slots.contains_key(id) && slots[id].0 == k);
                            } else {
                                let w = choose|w: TunnelId| #[trigger] d0.contains(w) && slots.contains_key(w) && slots[w].0 == k;
                                assert(d1.contains(w));
                            }
                        }
                        assert(spec_slots_of(slots, d1) =~= spec_slots_of(slots, d0).insert(slots[id].0));
                        assert(pools.remove_keys(spec_slots_of(slots, d1))
                            =~= pools.remove_keys(spec_slots_of(slots, d0)).remove(slots[id].0));
                    } else {
                        assert forall|k: u64| #[trigger] spec_slots_of(slots, d1).contains(k)
                            implies spec_slots_of(slots, d0).contains(k) by {
                            let w = choose|w: TunnelId| #[trigger] d1.contains(w) && slots.contains_key(w) && slots[w].0 == k;
                            assert(d0.contains(w));
                        }
                        assert forall|k: u64| #[trigger] spec_slots_of(slots, d0).contains(k)
                            implies spec_slots_of(slots, d1).contains(k) by {
                            let w = choose|w: TunnelId| #[trigger] d0.contains(w) && slots.contains_key(w) && slots[w].0 == k;
                            assert(d1.contains(w));
                        }
                        assert(spec_slots_of(slots, d1) =~= spec_slots_of(slots, d0));
                    }
                }
                self.dissociate_tunnel(id);
            } else {
                proof {
                    assert(!dead_all.contains(id));
                    assert(d1 =~= d0);
                }
                alive.push((id, data.handle));
                proof {
                    let n = alive@.len() - 1;
                    assert(alive@[n].0 == id);
                    assert forall|j: int, k: int| 0 <= j < k < alive@.len() implies #[trigger] alive@[j].0
                        != #[trigger] alive@[k].0 by {
                        if k == n {
                            assert(ids@.take(i as int).contains(alive@[j].0));
                        }
                    }
                }
            }
            proof {
                assert forall|k: int| 0 <= k < i + 1 && !dead_all.contains(#[trigger] ids@[k])
                    implies exists|j: int| 0 <= j < alive@.len() && #[trigger] alive@[j].0 == ids@[k] by {
                    if k == i {
                        assert(alive@[alive@.len() - 1].0 == ids@[k]);
                    } else {
                        let j = choose|j: int| 0 <= j < alive0.len() && #[trigger] alive0[j].0 == ids@[k];
                        assert(alive@[j] == alive0[j]);
                    }
                }
                assert forall|j: int| 0 <= j < alive@.len() implies ids@.take(i + 1).contains(#[trigger] alive@[j].0) by {
                    if ids@.take(i as int).contains(alive@[j].0) {
                        let k = choose|k: int| 0 <= k < i && ids@.take(i as int)[k] == alive@[j].0;
                        assert(ids@.take(i + 1)[k] == alive@[j].0);
                    } else {
                        assert(ids@.take(i + 1)[i as int] == alive@[j].0);
                    }
                }
            }
            i = i + 1;
        }
        proof {
            assert(ids@.take(i as int) =~= ids@);
            assert(ids@.to_set().intersect(dead_all) =~= dead_all);
            assert forall|id: TunnelId| #[trigger] tunnels.contains_key(id)
                && !spec_tunnel_expired(tunnels[id].last_alive, now, timeout)
                implies exists|j: int| 0 <= j < alive@.len() && #[trigger] alive@[j].0 == id by {
                assert(ids@.to_set().contains(id));
                let k = choose|k: int| 0 <= k < ids@.len() && ids@[k] == id;
                assert(!dead_all.contains(ids@[k]));
            }
        }
        alive
    }

    /// Removes a tunnel, its association and its pool slot.
    pub fn dissociate_tunnel(&mut self, tunnel_id: TunnelId)
        ensures
            old(self).wf() ==> final(self).wf(),
            final(self).next_tunnel_id == old(self).next_tunnel_id,
            final(self).id_to_tunnel@ == old(self).id_to_tunnel@.remove(tunnel_id),
            final(self).association_to_tunnel@ == (if old(self).id_to_tunnel@.contains_key(tunnel_id) {
                old(self).association_to_tunnel@.remove(old(self).id_to_tunnel@[tunnel_id].association)
            } else {
                old(self).association_to_tunnel@
            }),
            final(self).tunnel_to_index@ == old(self).tunnel_to_index@.remove(tunnel_id),
            final(self).index_to_tunnel@ == (if old(self).tunnel_to_index@.contains_key(tunnel_id) {
                old(self).index_to_tunnel@.remove(old(self).tunnel_to_index@[tunnel_id].0)
            } else {
                old(self).index_to_tunnel@
            }),
    {
        let tunnel_data = self.id_to_tunnel.remove(&tunnel_id);
        if let Some(data) = tunnel_data {
            self.association_to_tunnel.remove(&data.association);
        }
        if let Some(key) = self.tunnel_to_index.remove(&tunnel_id) {
            self.index_to_tunnel.remove(&key.0);
        }
    }

    /// Removes the tunnel in slot `pool_index` of pool `pool_id`, if any,
    /// from that slot.
    pub fn dissociate_pool(&mut self, pool_id: PoolId, pool_index: PoolIndex)
        ensures
            old(self).wf() ==> final(self).wf(),
            final(self).next_tunnel_id == old(self).next_tunnel_id,
            final(self).id_to_tunnel@ == old(self).id_to_tunnel@,
            final(self).association_to_tunnel@ == old(self).association_to_tunnel@,
            ({
                let key = PoolKey::spec_new(pool_id, pool_index);
                &&& final(self).index_to_tunnel@ == old(self).index_to_tunnel@.remove(key.0)
                &&& final(self).tunnel_to_index@ == (if old(self).index_to_tunnel@.contains_key(key.0) {
                    old(self).tunnel_to_index@.remove(old(self).index_to_tunnel@[key.0])
                } else {
                    old(self).tunnel_to_index@
                })
            }),
    {
        let key = PoolKey::new(pool_id, pool_index);
        if let Some(tunnel_id) = self.index_to_tunnel.remove(&key.0) {
            self.tunnel_to_index.remove(&tunnel_id);
        }
    }
}

/// Two tunnels placed in slots of the same pool reach each other: a
/// message from the tunnel in slot `from_index` to slot `to_index` goes to
/// the handle of the tunnel placed in `to_index`, marked as coming from
/// `from_index`.
pub proof fn lemma_pool_routing<Handle: Copy>(
    mappings: TunnelMappings<Handle>,
    from_tunnel: TunnelId,
    to_tunnel: TunnelId,
    pool_id: PoolId,
    from_index: PoolIndex,
    to_index: PoolIndex,
)
    requires
        mappings.tunnel_to_index@.contains_key(from_tunnel),
        mappings.tunnel_to_index@[from_tunnel] == PoolKey::spec_new(pool_id, from_index),
        mappings.index_to_tunnel@.contains_key(PoolKey::spec_new(pool_id, to_index).0),
        mappings.index_to_tunnel@[PoolKey::spec_new(pool_id, to_index).0] == to_tunnel,
        mappings.id_to_tunnel@.contains_key(to_tunnel),
    ensures
        mappings.spec_route(from_tunnel, to_index) == Some((mappings.id_to_tunnel@[to_tunnel].handle, from_index)),
{
    lemma_pool_key_roundtrip(pool_id, from_index);
}

/// Associating the tunnel `tunnel_id` with slot `pool_index` of pool
/// `pool_id` (the maps `after` holds once `associate_pool` linked them):
/// the tunnel holds exactly that slot and the slot holds the tunnel, a
/// tunnel that held the slot before holds none, every other tunnel keeps
/// the slot it had, and the two routing maps stay inverse.
pub proof fn lemma_associate_places<Handle: Copy>(
    before: TunnelMappings<Handle>,
    after: TunnelMappings<Handle>,
    tunnel_id: TunnelId,
    pool_id: PoolId,
    pool_index: PoolIndex,
)
    requires
        before.wf(),
        ({
            let key = PoolKey::spec_new(pool_id, pool_index);
            let slots = before.tunnel_to_index@;
            let tunnels = before.index_to_tunnel@;
            &&& after.tunnel_to_index@ == (if tunnels.contains_key(key.0) {
                slots.remove(tunnels[key.0])
            } else {
                slots
            }).insert(tunnel_id, key)
            &&& after.index_to_tunnel@ == (if slots.contains_key(tunnel_id) {
                tunnels.remove(slots[tunnel_id].0)
            } else {
                tunnels
            }).insert(key.0, tunnel_id)
        }),
    ensures
        after.wf(),
        after.tunnel_to_index@.contains_key(tunnel_id),
        after.tunnel_to_index@[tunnel_id] == PoolKey::spec_new(pool_id, pool_index),
        after.index_to_tunnel@.contains_key(PoolKey::spec_new(pool_id, pool_index).0),
        after.index_to_tunnel@[PoolKey::spec_new(pool_id, pool_index).0] == tunnel_id,
        forall|u: TunnelId| u != tunnel_id ==> (#[trigger] after.tunnel_to_index@.contains_key(u)
            <==> before.tunnel_to_index@.contains_key(u)
                && before.tunnel_to_index@[u].0 != PoolKey::spec_new(pool_id, pool_index).0),
        forall|u: TunnelId| u != tunnel_id && #[trigger] after.tunnel_to_index@.contains_key(u)
            ==> after.tunnel_to_index@[u] == before.tunnel_to_index@[u],
{
    let key = PoolKey::spec_new(pool_id, pool_index);
    let slots = before.tunnel_to_index@;
    let tunnels = before.index_to_tunnel@;
    assert forall|u: TunnelId| u != tunnel_id && slots.contains_key(u) && slots[u].0 == key.0
        implies tunnels.contains_key(key.0) && tunnels[key.0] == u by {
    }
}

/// Dissociating the tunnel `tunnel_id` (the maps `after` holds once
/// `dissociate_tunnel` removed it): the tunnel is gone and has no route,
/// a route of another tunnel into the tunnel's slot is gone, and every
/// other route is as it was.
pub proof fn lemma_dissociate_routes<Handle: Copy>(
    before: TunnelMappings<Handle>,
    after: TunnelMappings<Handle>,
    tunnel_id: TunnelId,
)
    requires
        before.wf(),
        after.id_to_tunnel@ == before.id_to_tunnel@.remove(tunnel_id),
        after.tunnel_to_index@ == before.tunnel_to_index@.remove(tunnel_id),
        after.index_to_tunnel@ == (if before.tunnel_to_index@.contains_key(tunnel_id) {
            before.index_to_tunnel@.remove(before.tunnel_to_index@[tunnel_id].0)
        } else {
            before.index_to_tunnel@
        }),
    ensures
        !after.id_to_tunnel@.contains_key(tunnel_id),
        forall|j: PoolIndex| #[trigger] after.spec_route(tunnel_id, j) is None,
        forall|x: TunnelId, j: PoolIndex| x != tunnel_id ==> #[trigger] after.spec_route(x, j) == (if before.route_target(x, j)
            == Some(tunnel_id) {
            None
        } else {
            before.spec_route(x, j)
        }),
{
    assert forall|x: TunnelId, j: PoolIndex| x != tunnel_id implies #[trigger] after.spec_route(x, j) == (if before.route_target(x, j)
        == Some(tunnel_id) {
        None
    } else {
        before.spec_route(x, j)
    }) by {
        if before.tunnel_to_index@.contains_key(x) {
            let key = before.tunnel_to_index@[x];
            let other = PoolKey::spec_new((key.0 / 0x1_0000_0000) as u32, j);
            if before.index_to_tunnel@.contains_key(other.0) {
                let target = before.index_to_tunnel@[other.0];
                if target != tunnel_id && before.tunnel_to_index@.contains_key(tunnel_id) {
                    assert(before.tunnel_to_index@[tunnel_id].0 != other.0);
                }
            }
        }
    }
}

/// Whether a tunnel whose last keep-alive came at `last_alive` is dead at
/// `now`: more than `timeout` has passed since.
pub open spec fn spec_tunnel_expired(last_alive: u64, now: u64, timeout: u64) -> bool {
    now - last_alive > timeout
}

/// The tunnels that are dead at `now`.
pub open spec fn spec_dead_tunnels<Handle>(tunnels: Map<TunnelId, TunnelData<Handle>>, now: u64, timeout: u64) -> Set<TunnelId> {
    Set::new(|id: TunnelId| tunnels.contains_key(id) && spec_tunnel_expired(tunnels[id].last_alive, now, timeout))
}

/// The associations of the tunnels `ids`.
pub open spec fn spec_associations_of<Handle>(tunnels: Map<TunnelId, TunnelData<Handle>>, ids: Set<TunnelId>) -> Set<AssociationId> {
    Set::new(|a: AssociationId| exists|id: TunnelId| #[trigger] ids.contains(id) && tunnels.contains_key(id) && tunnels[id].association == a)
}

/// The pool slots (by the value of their pool key) of the tunnels `ids`.
pub open spec fn spec_slots_of(slots: Map<TunnelId, PoolKey>, ids: Set<TunnelId>) -> Set<u64> {
    Set::new(|k: u64| exists|id: TunnelId| #[trigger] ids.contains(id) && slots.contains_key(id) && slots[id].0 == k)
}

/// A keep-alive sweep at `now` leaves exactly the tunnels that are alive
/// at `now`, each with the data it had.
pub proof fn lemma_sweep_leaves_alive<Handle>(tunnels: Map<TunnelId, TunnelData<Handle>>, now: u64, timeout: u64)
    ensures
        forall|id: TunnelId| #[trigger] tunnels.remove_keys(spec_dead_tunnels(tunnels, now, timeout)).contains_key(id)
            <==> tunnels.contains_key(id) && !spec_tunnel_expired(tunnels[id].last_alive, now, timeout),
        forall|id: TunnelId| #[trigger] tunnels.remove_keys(spec_dead_tunnels(tunnels, now, timeout)).contains_key(id)
            ==> tunnels.remove_keys(spec_dead_tunnels(tunnels, now, timeout))[id] == tunnels[id],
{
}

} // verus!
