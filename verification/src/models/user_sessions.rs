//! User session messages: lookups, session resumption, network and
//! hardware updates, and user notifications.
use vstd::prelude::*;
use crate::encode::{
    tag_blob_empty, tag_group_end, tag_str, tag_u32, tag_u8, tag_zero, tdf_tag_blob_empty,
    tdf_tag_str, tdf_tag_u32, tdf_tag_u8, tdf_tag_zero,
};
use crate::models::Player;
use crate::models::net::{HardwareFlags, IpPairAddress, NetData, NetworkAddress, PairAddress, QosNetworkData};
use crate::models::util::{QosServerConfig, SetClientMetricsRequest, UpnpStatus};

verus! {

/// Error codes of the user sessions component.
#[derive(Debug, Clone, Copy, PartialEq, Eq, Structural)]
pub enum UserSessionsError {
    UserNotFound,
}

impl UserSessionsError {
    /// The error code sent to the client.
    pub open spec fn code(self) -> u16 {
        match self {
            UserSessionsError::UserNotFound => 0xb,
        }
    }

    /// The error code sent to the client.
    pub fn value(&self) -> (r: u16)
        ensures
            r == self.code(),
    {
        match self {
            UserSessionsError::UserNotFound => 0xb,
        }
    }
}

/// Request to resume a session using a session token.
pub struct ResumeSessionRequest {
    /// The session token to use
    pub session_token: String,
}

/// Request to update the stored networking information of a session.
pub struct UpdateNetworkRequest {
    /// The client address
    pub address: NetworkAddress,
    /// Latency to the ping sites, in the order of their names
    pub ping_site_latency: Vec<u32>,
    /// The client quality of service data
    pub qos: QosNetworkData,
}

/// Request to update the stored hardware flags of a session.
pub struct UpdateHardwareFlagsRequest {
    /// The hardware flag value
    pub hardware_flags: HardwareFlags,
}

/// Extended data of a user session.
pub struct UserSessionExtendedData {
    /// Networking data of the session
    pub net: NetData,
    /// ID of the game the player is in (if any)
    pub game: Option<u32>,
}

/// Update of the extended data of a user session.
pub struct UserSessionExtendedDataUpdate {
    pub data: UserSessionExtendedData,
    pub user_id: u32,
}

/// Identification of a user: account ID and name.
pub struct UserIdentification {
    pub id: u32,
    pub name: String,
}

impl UserIdentification {
    /// The identification of `player`: its ID and display name.
    pub fn from_player(player: &Player) -> (r: UserIdentification)
        ensures
            r.id == player.id,
            r.name@ == player.display_name@,
    {
        UserIdentification { id: player.id, name: player.display_name.clone() }
    }

    /// Writes this identification as a group body (then the group end):
    /// account ID, account locale, external blob and ID, Blaze ID, name.
    pub fn serialize(&self, w: &mut Vec<u8>)
        ensures
            final(w)@ == (old(w)@ + tdf_tag_u32(['A', 'I', 'D', '\0'], self.id) + tdf_tag_u32(
                ['A', 'L', 'O', 'C'],
                0x64654445,
            ) + tdf_tag_blob_empty(['E', 'X', 'B', 'B']) + tdf_tag_zero(['E', 'X', 'I', 'D'])
                + tdf_tag_u32(['I', 'D', '\0', '\0'], self.id) + tdf_tag_str(
                ['N', 'A', 'M', 'E'],
                self.name@,
            )).push(0u8),
    {
        tag_u32(w, ['A', 'I', 'D', '\0'], self.id);
        tag_u32(w, ['A', 'L', 'O', 'C'], 0x64654445);
        tag_blob_empty(w, ['E', 'X', 'B', 'B']);
        tag_zero(w, ['E', 'X', 'I', 'D']);
        tag_u32(w, ['I', 'D', '\0', '\0'], self.id);
        tag_str(w, ['N', 'A', 'M', 'E'], self.name.as_str());
        tag_group_end(w);
    }
}

/// Notification that a user was added.
pub struct NotifyUserAdded {
    /// The user session data
    pub session_data: UserSessionExtendedData,
    /// The added user identification
    pub user: UserIdentification,
}

/// Notification that a user was removed.
pub struct NotifyUserRemoved {
    /// The ID of the removed user
    pub player_id: u32,
}

impl NotifyUserRemoved {
    /// Writes this notification to `w`.
    pub fn serialize(&self, w: &mut Vec<u8>)
        ensures
            final(w)@ == old(w)@ + tdf_tag_u32(['B', 'U', 'I', 'D'], self.player_id),
    {
        tag_u32(w, ['B', 'U', 'I', 'D'], self.player_id);
    }
}

/// Flags of a user's data (1: subscribed, 2: online).
#[derive(Clone, Copy, PartialEq, Eq, Structural)]
pub struct UserDataFlags {
    pub bits: u8,
}

impl UserDataFlags {
    pub const NONE: u8 = 0;
    pub const SUBSCRIBED: u8 = 1;
    pub const ONLINE: u8 = 2;
}

/// Notification that a user was updated.
pub struct NotifyUserUpdated {
    pub flags: UserDataFlags,
    /// The ID of the updated user
    pub player_id: u32,
}

impl NotifyUserUpdated {
    /// Writes this notification to `w`.
    pub fn serialize(&self, w: &mut Vec<u8>)
        ensures
            final(w)@ == old(w)@ + tdf_tag_u8(['F', 'L', 'G', 'S'], self.flags.bits) + tdf_tag_u32(
                ['I', 'D', '\0', '\0'],
                self.player_id,
            ),
    {
        tag_u8(w, ['F', 'L', 'G', 'S'], self.flags.bits);
        tag_u32(w, ['I', 'D', '\0', '\0'], self.player_id);
    }
}

/// Request to look up the session details of a user.
pub struct LookupRequest {
    pub player_id: u32,
}

/// Response to a user lookup.
pub struct LookupResponse {
    pub player: Player,
    pub extended_data: UserSessionExtendedData,
}

/// Whether `addr` is an IPv4 loopback address (127.0.0.0/8).
pub open spec fn is_loopback(addr: u32) -> bool {
    addr / 0x1000000 == 127
}

/// The address a session stores when its client reports `address`, given
/// the server's quality of service setup and the address `session_addr`
/// the session connects from:
/// - without a quality of service server, the address as reported;
/// - with Hamachi, the internal address becomes the session address, or
///   the Hamachi host when the session connects from a loopback address;
/// - otherwise a missing (zero) external address becomes the session
///   address, with the internal port.
pub open spec fn fixed_network_address(qos: QosServerConfig, address: NetworkAddress, session_addr: u32) -> NetworkAddress {
    match address {
        NetworkAddress::Unset => NetworkAddress::Unset,
        NetworkAddress::AddressPair(pair) => match qos {
            QosServerConfig::Disabled => address,
            QosServerConfig::Hamachi { host } => NetworkAddress::AddressPair(
                IpPairAddress {
                    internal: PairAddress {
                        addr: if is_loopback(session_addr) { host } else { session_addr },
                        port: pair.internal.port,
                    },
                    external: pair.external,
                },
            ),
            _ => if pair.external.addr == 0 {
                NetworkAddress::AddressPair(
                    IpPairAddress {
                        internal: pair.internal,
                        external: PairAddress { addr: session_addr, port: pair.internal.port },
                    },
                )
            } else {
                address
            },
        },
    }
}

/// The address a session stores when its client reports `address`.
pub fn fix_network_address(qos: &QosServerConfig, address: NetworkAddress, session_addr: u32) -> (r: NetworkAddress)
    ensures
        r == fixed_network_address(*qos, address, session_addr),
{
    match address {
        NetworkAddress::Unset => NetworkAddress::Unset,
        NetworkAddress::AddressPair(pair) => match qos {
            QosServerConfig::Disabled => address,
            QosServerConfig::Hamachi { host } => {
                let addr = if session_addr / 0x1000000 == 127 { *host } else { session_addr };
                NetworkAddress::AddressPair(
                    IpPairAddress {
                        internal: PairAddress { addr, port: pair.internal.port },
                        external: pair.external,
                    },
                )
            },
            _ => if pair.external.addr == 0 {
                NetworkAddress::AddressPair(
                    IpPairAddress {
                        internal: pair.internal,
                        external: PairAddress { addr: session_addr, port: pair.internal.port },
                    },
                )
            } else {
                address
            },
        },
    }
}

/// The address a session switches to after its client reports UPnP
/// metrics: only when UPnP is enabled, reports a WAN address and no double
/// NAT, the external address becomes that WAN address (from the current
/// address pair, or an empty pair); `None` when nothing changes.
pub open spec fn upnp_address(request: SetClientMetricsRequest, current: NetworkAddress) -> Option<NetworkAddress> {
    if request.status != UpnpStatus::Enabled || request.wan == 0 || request.blaze_flags.bits & 0x2 != 0 {
        None
    } else {
        let pair = match current {
            NetworkAddress::AddressPair(p) => p,
            NetworkAddress::Unset => IpPairAddress {
                internal: PairAddress { addr: 0, port: 0 },
                external: PairAddress { addr: 0, port: 0 },
            },
        };
        Some(NetworkAddress::AddressPair(
            IpPairAddress { internal: pair.internal, external: PairAddress { addr: request.wan, port: pair.external.port } },
        ))
    }
}

/// The address a session switches to after its client reports UPnP
/// metrics `request` while its address is `current`.
pub fn upnp_override(request: &SetClientMetricsRequest, current: NetworkAddress) -> (r: Option<NetworkAddress>)
    ensures
        r == upnp_address(*request, current),
{
    let enabled = match request.status {
        UpnpStatus::Enabled => true,
        _ => false,
    };
    if !enabled || request.wan == 0 || request.blaze_flags.is_double_nat() {
        return None;
    }
    let pair = match current {
        NetworkAddress::AddressPair(p) => p,
        NetworkAddress::Unset => IpPairAddress {
            internal: PairAddress { addr: 0, port: 0 },
            external: PairAddress { addr: 0, port: 0 },
        },
    };
    Some(NetworkAddress::AddressPair(
        IpPairAddress { internal: pair.internal, external: PairAddress { addr: request.wan, port: pair.external.port } },
    ))
}

} // verus!
