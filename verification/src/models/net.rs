//! Networking details that clients report about themselves, and how
//! they are written: an address pair is a group of the external (`EXIP`)
//! and internal (`INIP`) addresses, each a group of `IP` and `PORT`; a
//! network address is a tagged union whose key 2 holds such a pair in the
//! group `VALU`; quality of service data is a group of `DBPS`, `NATT` and
//! `UBPS`.
use vstd::prelude::*;
use crate::encode::{
    Tag, tag_group, tag_group_end, tag_u16, tag_u32, tag_u8, tag_union_start, tag_union_unset,
    tdf_tag_group, tdf_tag_u16, tdf_tag_u32, tdf_tag_u8, tdf_tag_union_start, tdf_tag_union_unset,
    valid_tag,
};

verus! {

/// An IPv4 address (as its 32 bit value) and a port.
#[derive(Clone, Copy, PartialEq, Eq, Structural)]
pub struct PairAddress {
    pub addr: u32,
    pub port: u16,
}

/// Internal and external address of a client.
#[derive(Clone, Copy, PartialEq, Eq, Structural)]
pub struct IpPairAddress {
    pub internal: PairAddress,
    pub external: PairAddress,
}

/// The network address of a client, if it has reported one.
#[derive(Clone, Copy, PartialEq, Eq, Structural)]
pub enum NetworkAddress {
    AddressPair(IpPairAddress),
    Unset,
}

/// NAT type reported by a client.
#[derive(Clone, Copy, PartialEq, Eq, Structural)]
pub enum NatType {
    Open,
    Moderate,
    StrictSequential,
    Strict,
    Unknown,
}

/// Quality of service data reported by a client.
#[derive(Clone, Copy, PartialEq, Eq, Structural)]
pub struct QosNetworkData {
    /// Downstream bits per second
    pub dbps: u32,
    /// NAT type
    pub natt: NatType,
    /// Upstream bits per second
    pub ubps: u32,
}

impl NatType {
    pub open spec fn spec_value(self) -> u8 {
        match self {
            NatType::Open => 0x0,
            NatType::Moderate => 0x1,
            NatType::StrictSequential => 0x2,
            NatType::Strict => 0x3,
            NatType::Unknown => 0x4,
        }
    }

    /// The wire value of the NAT type.
    pub fn value(&self) -> (r: u8)
        ensures
            r == self.spec_value(),
    {
        match self {
            NatType::Open => 0x0,
            NatType::Moderate => 0x1,
            NatType::StrictSequential => 0x2,
            NatType::Strict => 0x3,
            NatType::Unknown => 0x4,
        }
    }
}

/// Bytes of the body of the group of `addr`: its IP address and port,
/// then the end of the group.
pub open spec fn pair_address_body(addr: PairAddress) -> Seq<u8> {
    tdf_tag_u32(['I', 'P', '\0', '\0'], addr.addr) + tdf_tag_u16(['P', 'O', 'R', 'T'], addr.port) + seq![0u8]
}

/// Bytes of the body of the group of `pair`: the external address as the
/// group `EXIP`, the internal address as the group `INIP`, then the end of
/// the group.
pub open spec fn ip_pair_body(pair: IpPairAddress) -> Seq<u8> {
    tdf_tag_group(['E', 'X', 'I', 'P']) + pair_address_body(pair.external) + tdf_tag_group(['I', 'N', 'I', 'P'])
        + pair_address_body(pair.internal) + seq![0u8]
}

/// Bytes of `addr` written as the tagged union `tag`: key 2 and the pair
/// as the group `VALU`, or the union with no value when unset.
pub open spec fn network_address_bytes(tag: Tag, addr: NetworkAddress) -> Seq<u8> {
    match addr {
        NetworkAddress::AddressPair(pair) => tdf_tag_union_start(tag, 2) + tdf_tag_group(['V', 'A', 'L', 'U'])
            + ip_pair_body(pair),
        NetworkAddress::Unset => tdf_tag_union_unset(tag),
    }
}

/// Bytes of `qos` written as the group `tag`.
pub open spec fn qos_bytes(tag: Tag, qos: QosNetworkData) -> Seq<u8> {
    tdf_tag_group(tag) + tdf_tag_u32(['D', 'B', 'P', 'S'], qos.dbps) + tdf_tag_u8(['N', 'A', 'T', 'T'], qos.natt.spec_value())
        + tdf_tag_u32(['U', 'B', 'P', 'S'], qos.ubps) + seq![0u8]
}

impl PairAddress {
    /// Writes the body of the group of this address.
    pub fn serialize(&self, w: &mut Vec<u8>)
        ensures
            final(w)@ == old(w)@ + pair_address_body(*self),
    {
        tag_u32(w, ['I', 'P', '\0', '\0'], self.addr);
        tag_u16(w, ['P', 'O', 'R', 'T'], self.port);
        tag_group_end(w);
        proof {
            assert(w@ =~= old(w)@ + pair_address_body(*self));
        }
    }
}

impl IpPairAddress {
    /// Writes the body of the group of this pair.
    pub fn serialize(&self, w: &mut Vec<u8>)
        ensures
            final(w)@ == old(w)@ + ip_pair_body(*self),
    {
        tag_group(w, ['E', 'X', 'I', 'P']);
        self.external.serialize(w);
        tag_group(w, ['I', 'N', 'I', 'P']);
        self.internal.serialize(w);
        tag_group_end(w);
        proof {
            assert(w@ =~= old(w)@ + ip_pair_body(*self));
        }
    }
}

impl NetworkAddress {
    /// Writes this address as the tagged union `tag`.
    pub fn serialize(&self, tag: Tag, w: &mut Vec<u8>)
        requires
            valid_tag(tag),
        ensures
            final(w)@ == old(w)@ + network_address_bytes(tag, *self),
    {
        match self {
            NetworkAddress::AddressPair(pair) => {
                tag_union_start(w, tag, 2);
                tag_group(w, ['V', 'A', 'L', 'U']);
                pair.serialize(w);
                proof {
                    assert(w@ =~= old(w)@ + network_address_bytes(tag, *self));
                }
            },
            NetworkAddress::Unset => {
                tag_union_unset(w, tag);
            },
        }
    }
}

impl QosNetworkData {
    /// Writes this data as the group `tag`.
    pub fn serialize(&self, tag: Tag, w: &mut Vec<u8>)
        requires
            valid_tag(tag),
        ensures
            final(w)@ == old(w)@ + qos_bytes(tag, *self),
    {
        tag_group(w, tag);
        tag_u32(w, ['D', 'B', 'P', 'S'], self.dbps);
        tag_u8(w, ['N', 'A', 'T', 'T'], self.natt.value());
        tag_u32(w, ['U', 'B', 'P', 'S'], self.ubps);
        tag_group_end(w);
        proof {
            assert(w@ =~= old(w)@ + qos_bytes(tag, *self));
        }
    }
}

/// Hardware flags of a client (bit 0: VOIP headset present).
#[derive(Clone, Copy, PartialEq, Eq, Structural)]
pub struct HardwareFlags {
    pub bits: u8,
}

/// Networking data of a session.
pub struct NetData {
    pub addr: NetworkAddress,
    pub qos: QosNetworkData,
    pub hardware_flags: HardwareFlags,
    pub ping_site_latency: Vec<u32>,
}

impl NetData {
    /// Net data with nothing reported yet.
    pub fn default_data() -> (r: NetData)
        ensures
            r.addr == NetworkAddress::Unset,
            r.qos == (QosNetworkData { dbps: 0, natt: NatType::Open, ubps: 0 }),
            r.hardware_flags.bits == 0,
            r.ping_site_latency@.len() == 0,
    {
        NetData {
            addr: NetworkAddress::Unset,
            qos: QosNetworkData { dbps: 0, natt: NatType::Open, ubps: 0 },
            hardware_flags: HardwareFlags { bits: 0 },
            ping_site_latency: Vec::new(),
        }
    }

    /// A copy of this data.
    pub fn duplicate(&self) -> (r: NetData)
        ensures
            r.addr == self.addr,
            r.qos == self.qos,
            r.hardware_flags == self.hardware_flags,
            r.ping_site_latency@ == self.ping_site_latency@,
    {
        NetData {
            addr: self.addr,
            qos: self.qos,
            hardware_flags: self.hardware_flags,
            ping_site_latency: self.ping_site_latency.clone(),
        }
    }

    /// Re-creates the current net data using the provided address and QOS
    /// data, keeping the hardware flags.
    pub fn with_basic(&self, addr: NetworkAddress, qos: QosNetworkData, ping_site_latency: Vec<u32>) -> (r: NetData)
        ensures
            r.addr == addr,
            r.qos == qos,
            r.hardware_flags == self.hardware_flags,
            r.ping_site_latency@ == ping_site_latency@,
    {
        NetData { addr, qos, hardware_flags: self.hardware_flags, ping_site_latency }
    }

    /// Re-creates the current net data using the provided hardware flags.
    pub fn with_hardware_flags(&self, flags: HardwareFlags) -> (r: NetData)
        ensures
            r.addr == self.addr,
            r.qos == self.qos,
            r.hardware_flags == flags,
            r.ping_site_latency@ == self.ping_site_latency@,
    {
        NetData {
            addr: self.addr,
            qos: self.qos,
            hardware_flags: flags,
            ping_site_latency: self.ping_site_latency.clone(),
        }
    }
}

} // verus!
