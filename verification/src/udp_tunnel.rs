//! The UDP tunnel: relaying game traffic between clients whose sessions
//! share a game, over the Pocket Relay tunnel protocol.
use vstd::prelude::*;
use vstd::utf8::encode_utf8;
use crate::packet::be16;
use crate::sessions::{Sessions, assoc_outcome};
use crate::signing::{be32, lemma_be32_roundtrip, read_be32};
use crate::text::utf8_lossy_text;
use crate::tunnel::{TunnelData, TunnelMappings, counted_before};
use pocket_relay_udp_tunnel::TunnelMessage as WireMessage;

verus! {

/// Messages of the tunnel protocol.
pub enum UdpMessage {
    /// Client is requesting to initiate a connection
    Initiate { association_token: String },
    /// Server created and associated the tunnel
    Initiated { tunnel_id: u32 },
    /// Client wants to forward a message to the slot `index` of its pool
    Forward { index: u8, message: Vec<u8> },
    /// Keep alive
    KeepAlive,
}

/// Version of the tunnel protocol written in packet headers.
pub const PROTOCOL_VERSION: u8 = 1;

/// Whether a message fits the protocol's 16 bit length fields.
pub open spec fn fits_lengths(m: UdpMessage) -> bool {
    match m {
        UdpMessage::Initiate { association_token } => encode_utf8(association_token@).len() < 0xFFFF,
        UdpMessage::Forward { message, .. } => message@.len() < 0xFFFF,
        _ => true,
    }
}

/// Bytes of a message body: its type byte, then its fields.
pub open spec fn message_body(m: UdpMessage) -> Seq<u8> {
    match m {
        UdpMessage::Initiate { association_token } => {
            let token = encode_utf8(association_token@);
            seq![0u8] + be16(token.len() as u16) + token
        },
        UdpMessage::Initiated { tunnel_id } => seq![1u8] + be32(tunnel_id),
        UdpMessage::Forward { index, message } => seq![2u8, index] + be16(message@.len() as u16) + message@,
        UdpMessage::KeepAlive => seq![3u8],
    }
}

/// Bytes of a packet: the protocol version, the tunnel ID (big-endian),
/// then the message body.
pub open spec fn packet_bytes(tunnel_id: u32, m: UdpMessage) -> Seq<u8> {
    seq![PROTOCOL_VERSION] + be32(tunnel_id) + message_body(m)
}

/// `pocket_relay_udp_tunnel::serialize_message`: the packet of `message`
/// from the tunnel `tunnel_id`. The crate asserts (in debug builds) that
/// lengths fit in 16 bits.
#[verifier::external_body]
fn serialize_message(tunnel_id: u32, message: &UdpMessage) -> (r: Vec<u8>)
    requires
        fits_lengths(*message),
    ensures
        r@ == packet_bytes(tunnel_id, *message),
{
    let message = match message {
        UdpMessage::Initiate { association_token } => WireMessage::Initiate { association_token: association_token.clone() },
        UdpMessage::Initiated { tunnel_id } => WireMessage::Initiated { tunnel_id: *tunnel_id },
        UdpMessage::Forward { index, message } => WireMessage::Forward { index: *index, message: message.clone() },
        UdpMessage::KeepAlive => WireMessage::KeepAlive,
    };
    pocket_relay_udp_tunnel::serialize_message(tunnel_id, &message)
}

/// The 16 bit length field at `at` of `b`.
pub open spec fn length_at(b: Seq<u8>, at: int) -> int {
    b[at] * 256 + b[at + 1]
}

/// Whether `b` holds a whole packet: a 5 byte header, a known type and
/// all the fields of that type (anything after them is ignored).
pub open spec fn packet_parses(b: Seq<u8>) -> bool {
    &&& b.len() >= 6
    &&& b[5] <= 3
    &&& b[5] == 0 ==> b.len() >= 8 && b.len() >= 8 + length_at(b, 6)
    &&& b[5] == 1 ==> b.len() >= 10
    &&& b[5] == 2 ==> b.len() >= 9 && b.len() >= 9 + length_at(b, 7)
}

/// Whether `m` is the message that the packet `b` holds (with `b`
/// parsing): an initiate token is the text of its bytes (invalid UTF-8
/// replaced).
pub open spec fn packet_message(b: Seq<u8>, m: UdpMessage) -> bool {
    match m {
        UdpMessage::Initiate { association_token } => b[5] == 0 && association_token@ == utf8_lossy_text(
            b.subrange(8, 8 + length_at(b, 6)),
        ),
        UdpMessage::Initiated { tunnel_id } => b[5] == 1 && tunnel_id == read_be32(b.subrange(6, 10)),
        UdpMessage::Forward { index, message } => b[5] == 2 && index == b[6] && message@ == b.subrange(
            9,
            9 + length_at(b, 7),
        ),
        UdpMessage::KeepAlive => b[5] == 3,
    }
}

/// `pocket_relay_udp_tunnel::deserialize_message`: the tunnel ID and the
/// message of the packet in `buffer`, or an error when it holds no whole
/// packet.
#[verifier::external_body]
fn deserialize_message(buffer: &[u8]) -> (r: Option<(u32, UdpMessage)>)
    ensures
        r is Some <==> packet_parses(buffer@),
        r matches Some((id, m)) ==> id == read_be32(buffer@.subrange(1, 5)) && packet_message(buffer@, m),
{
    let packet = match pocket_relay_udp_tunnel::deserialize_message(buffer) {
        Ok(packet) => packet,
        Err(_) => return None,
    };
    let message = match packet.message {
        WireMessage::Initiate { association_token } => UdpMessage::Initiate { association_token },
        WireMessage::Initiated { tunnel_id } => UdpMessage::Initiated { tunnel_id },
        WireMessage::Forward { index, message } => UdpMessage::Forward { index, message },
        WireMessage::KeepAlive => UdpMessage::KeepAlive,
    };
    Some((packet.header.tunnel_id, message))
}

/// Reads a packet received through the tunnel: the tunnel ID it came from
/// and its message; `None` when it holds no whole packet.
pub fn read_packet(buffer: &[u8]) -> (r: Option<(u32, UdpMessage)>)
    ensures
        r is Some <==> packet_parses(buffer@),
        r matches Some((id, m)) ==> id == read_be32(buffer@.subrange(1, 5)) && packet_message(buffer@, m),
{
    deserialize_message(buffer)
}

/// The packet forwarding `message` from the tunnel `from` to a tunnel of
/// its pool, as coming from slot `index`.
pub fn forward_packet(from: u32, index: u8, message: Vec<u8>) -> (r: Vec<u8>)
    requires
        message@.len() < 0xFFFF,
    ensures
        r@ == packet_bytes(from, UdpMessage::Forward { index, message }),
{
    let m = UdpMessage::Forward { index, message };
    serialize_message(from, &m)
}

/// The keep-alive packet sent to the tunnel `tunnel_id`.
pub fn keep_alive_packet(tunnel_id: u32) -> (r: Vec<u8>)
    ensures
        r@ == packet_bytes(tunnel_id, UdpMessage::KeepAlive),
{
    serialize_message(tunnel_id, &UdpMessage::KeepAlive)
}

/// What the tunnel service does after handling a message.
pub enum TunnelAction<Handle> {
    /// Nothing to send
    Nothing,
    /// Send `buffer` to `target`
    Send { target: Handle, buffer: Vec<u8> },
    /// Forward `message` from the tunnel `from` to `target`, as coming from
    /// slot `index` of their pool
    Forward { target: Handle, from: u32, index: u8, message: Vec<u8> },
}

/// Tunnel ID of clients that have not been given one yet.
pub const UNKNOWN_TUNNEL: u32 = 0xFFFF_FFFF;

/// Handles the message `msg` that arrived at time `now` from `addr`
/// through the tunnel `tunnel_id`:
/// - a known tunnel's handle becomes `addr`;
/// - an initiate message with a valid association token gets a new tunnel
///   (with that association, handle `addr` and last keep-alive `now`) and
///   is answered with the new tunnel ID; an invalid token or exhausted IDs
///   get no answer;
/// - a forward message goes to the tunnel in the requested slot of the
///   sender's pool, when there is one;
/// - a keep-alive records `now` as the tunnel's last keep-alive.
pub fn handle_message<Handle: Copy>(
    mappings: &mut TunnelMappings<Handle>,
    sessions: &Sessions,
    tunnel_id: u32,
    msg: UdpMessage,
    addr: Handle,
    now: u64,
) -> (r: TunnelAction<Handle>)
    ensures
        final(mappings).tunnel_to_index@ == old(mappings).tunnel_to_index@,
        final(mappings).index_to_tunnel@ == old(mappings).index_to_tunnel@,
        old(mappings).wf() ==> final(mappings).wf(),
        match msg {
            UdpMessage::Initiate { association_token } => assoc_outcome(sessions.key_bytes(), association_token@) is Err
                ==> final(mappings).next_tunnel_id == old(mappings).next_tunnel_id,
            _ => final(mappings).next_tunnel_id == old(mappings).next_tunnel_id,
        },
        ({
            let known = if tunnel_id != UNKNOWN_TUNNEL && old(mappings).id_to_tunnel@.contains_key(tunnel_id) {
                old(mappings).id_to_tunnel@.insert(tunnel_id, TunnelData { handle: addr, ..old(mappings).id_to_tunnel@[tunnel_id] })
            } else {
                old(mappings).id_to_tunnel@
            };
            match msg {
                UdpMessage::Initiate { association_token } => match assoc_outcome(sessions.key_bytes(), association_token@) {
                    Err(_) => r is Nothing && final(mappings).id_to_tunnel@ == known
                        && final(mappings).association_to_tunnel@ == old(mappings).association_to_tunnel@,
                    Ok(association) => {
                        let tunnel = TunnelData { handle: addr, association, last_alive: now };
                        match r {
                            TunnelAction::Send { target, buffer } => exists|id: u32| {
                                &&& !known.contains_key(id)
                                &&& forall|x: u32| #[trigger] counted_before(old(mappings).next_tunnel_id, id, x)
                                    ==> known.contains_key(x)
                                &&& final(mappings).next_tunnel_id == id.wrapping_add(1)
                                &&& final(mappings).id_to_tunnel@ == known.insert(id, tunnel)
                                &&& final(mappings).association_to_tunnel@
                                    == old(mappings).association_to_tunnel@.insert(association, id)
                                &&& target == addr
                                &&& buffer@ == #[trigger] packet_bytes(id, UdpMessage::Initiated { tunnel_id: id })
                            },
                            TunnelAction::Nothing => (forall|id: u32| #[trigger] known.contains_key(id))
                                && final(mappings).next_tunnel_id == 0
                                && final(mappings).id_to_tunnel@ == known
                                && final(mappings).association_to_tunnel@ == old(mappings).association_to_tunnel@,
                            _ => false,
                        }
                    },
                },
                UdpMessage::Initiated { .. } => r is Nothing && final(mappings).id_to_tunnel@ == known
                    && final(mappings).association_to_tunnel@ == old(mappings).association_to_tunnel@,
                UdpMessage::Forward { index, message } => final(mappings).id_to_tunnel@ == known
                    && final(mappings).association_to_tunnel@ == old(mappings).association_to_tunnel@
                    && match old(mappings).spec_route(tunnel_id, index) {
                        None => r is Nothing,
                        Some((_, self_index)) => r matches TunnelAction::Forward { target, from, index: i, message: m }
                            && Some((target, self_index)) == final(mappings).spec_route(tunnel_id, index)
                            && from == tunnel_id && i == self_index && m@ == message@,
                    },
                UdpMessage::KeepAlive => r is Nothing && final(mappings).association_to_tunnel@
                    == old(mappings).association_to_tunnel@ && final(mappings).id_to_tunnel@ == (
                    if known.contains_key(tunnel_id) {
                        known.insert(tunnel_id, TunnelData { last_alive: now, ..known[tunnel_id] })
                    } else {
                        known
                    }),
            }
        }),
{
    if tunnel_id != UNKNOWN_TUNNEL {
        mappings.update_tunnel_handle(tunnel_id, addr);
    }
    match msg {
        UdpMessage::Initiate { association_token } => {
            let association = match sessions.verify_assoc_token(association_token.as_str()) {
                Ok(value) => value,
                Err(_) => return TunnelAction::Nothing,
            };
            let tunnel = TunnelData { handle: addr, association, last_alive: now };
            match mappings.insert_tunnel(association, tunnel) {
                Some(id) => {
                    let reply = UdpMessage::Initiated { tunnel_id: id };
                    let buffer = serialize_message(id, &reply);
                    TunnelAction::Send { target: addr, buffer }
                },
                None => TunnelAction::Nothing,
            }
        },
        UdpMessage::Initiated { .. } => TunnelAction::Nothing,
        UdpMessage::Forward { index, message } => match mappings.get_tunnel_route(tunnel_id, index) {
            Some((target, self_index)) => TunnelAction::Forward { target, from: tunnel_id, index: self_index, message },
            None => TunnelAction::Nothing,
        },
        UdpMessage::KeepAlive => {
            mappings.update_tunnel_last_alive(tunnel_id, now);
            TunnelAction::Nothing
        },
    }
}

/// A packet written for a message parses back to the tunnel ID it was
/// written for and to that message; an initiate token comes back as the
/// text of its UTF-8 bytes.
pub proof fn lemma_packet_roundtrip(tunnel_id: u32, m: UdpMessage)
    requires
        fits_lengths(m),
    ensures
        packet_parses(packet_bytes(tunnel_id, m)),
        read_be32(packet_bytes(tunnel_id, m).subrange(1, 5)) == tunnel_id,
        !(m is Initiate) ==> packet_message(packet_bytes(tunnel_id, m), m),
        m matches UdpMessage::Initiate { association_token } ==> {
            let b = packet_bytes(tunnel_id, m);
            &&& b[5] == 0
            &&& b.subrange(8, 8 + length_at(b, 6)) == encode_utf8(association_token@)
        },
{
    let b = packet_bytes(tunnel_id, m);
    lemma_be32_roundtrip(tunnel_id);
    assert(b.subrange(1, 5) =~= be32(tunnel_id));
    match m {
        UdpMessage::Initiate { association_token } => {
            let token = encode_utf8(association_token@);
            assert(length_at(b, 6) == token.len());
            assert(b.subrange(8, 8 + length_at(b, 6)) =~= token);
        },
        UdpMessage::Initiated { tunnel_id: id } => {
            lemma_be32_roundtrip(id);
            assert(b.subrange(6, 10) =~= be32(id));
        },
        UdpMessage::Forward { index, message } => {
            assert(length_at(b, 7) == message@.len());
            assert(b.subrange(9, 9 + length_at(b, 7)) =~= message@);
        },
        UdpMessage::KeepAlive => {},
    }
}

} // verus!
