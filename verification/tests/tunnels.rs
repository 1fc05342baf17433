use pocket_relay::sessions::Sessions;
use pocket_relay::signing::SigningKey;
use pocket_relay::tunnel::{PoolKey, TunnelCodec, TunnelData, TunnelMappings, TunnelMessage};
use pocket_relay::udp_tunnel::{
    forward_packet, handle_message, keep_alive_packet, read_packet, TunnelAction, UdpMessage,
    UNKNOWN_TUNNEL,
};

fn data(association: u128, handle: u32, last_alive: u64) -> TunnelData<u32> {
    TunnelData { association, handle, last_alive }
}

#[test]
fn codec_roundtrip_keeps_following_bytes() {
    let mut codec = TunnelCodec::new();
    let mut buffer = Vec::new();
    codec.encode(TunnelMessage { index: 3, message: vec![9, 8, 7] }, &mut buffer);
    assert_eq!(buffer, vec![3, 0, 3, 9, 8, 7]);
    buffer.extend_from_slice(&[1, 2]);
    let message = codec.decode(&mut buffer).unwrap();
    assert_eq!(message.index, 3);
    assert_eq!(message.message, vec![9, 8, 7]);
    assert_eq!(buffer, vec![1, 2]);
}

#[test]
fn codec_decodes_short_frames() {
    let mut codec = TunnelCodec::new();
    let mut buffer = vec![0x02, 0x00, 0x01, 0xAB];
    let message = codec.decode(&mut buffer).unwrap();
    assert_eq!((message.index, message.message), (2, vec![0xAB]));
    assert!(buffer.is_empty());
    let mut buffer = vec![255, 0x00, 0x00];
    let message = codec.decode(&mut buffer).unwrap();
    assert_eq!((message.index, message.message.len()), (255, 0));
    assert!(buffer.is_empty());
    let mut buffer = vec![1, 0x00];
    assert!(codec.decode(&mut buffer).is_none());
    assert_eq!(buffer, vec![1, 0x00]);
}

#[test]
fn codec_waits_for_whole_message() {
    let mut codec = TunnelCodec::new();
    let mut buffer = vec![1, 0, 4, 5, 6];
    assert!(codec.decode(&mut buffer).is_none());
    buffer.extend_from_slice(&[7, 8]);
    let message = codec.decode(&mut buffer).unwrap();
    assert_eq!(message.index, 1);
    assert_eq!(message.message, vec![5, 6, 7, 8]);
    assert!(buffer.is_empty());
}

#[test]
fn pool_key_roundtrip() {
    let key = PoolKey::new(0xDEAD_BEEF, 3);
    assert_eq!(key.0, 0xDEAD_BEEF_0000_0003);
    assert_eq!(key.parts(), (0xDEAD_BEEF, 3));
}

#[test]
fn moving_a_tunnel_keeps_routes_inverse() {
    let mut mappings: TunnelMappings<u32> = TunnelMappings::new();
    let a = mappings.insert_tunnel(100, data(100, 7000, 0)).unwrap();
    let b = mappings.insert_tunnel(200, data(200, 8000, 0)).unwrap();
    mappings.associate_pool(100, 42, 0);
    mappings.associate_pool(200, 42, 1);
    // a moves to slot 1, which b held
    mappings.associate_pool(100, 42, 1);
    assert_eq!(mappings.get_tunnel_route(a, 1), Some((7000, 1)));
    assert_eq!(mappings.get_tunnel_route(b, 0), None);
    assert_eq!(mappings.get_tunnel_route(b, 1), None);
    assert_eq!(mappings.get_tunnel_route(a, 0), None);
    assert_eq!(mappings.tunnel_to_index.len(), 1);
    assert_eq!(mappings.index_to_tunnel.len(), 1);
}

#[test]
fn tunnels_in_one_pool_reach_each_other() {
    let mut mappings: TunnelMappings<u32> = TunnelMappings::new();
    let a = mappings.insert_tunnel(100, data(100, 7000, 0)).unwrap();
    let b = mappings.insert_tunnel(200, data(200, 8000, 0)).unwrap();
    assert_ne!(a, b);
    mappings.associate_pool(100, 42, 0);
    mappings.associate_pool(200, 42, 1);
    assert_eq!(mappings.get_tunnel_route(a, 1), Some((8000, 0)));
    assert_eq!(mappings.get_tunnel_route(b, 0), Some((7000, 1)));
    assert_eq!(mappings.get_tunnel_route(a, 2), None);
    mappings.dissociate_pool(42, 1);
    assert_eq!(mappings.get_tunnel_route(a, 1), None);
}

#[test]
fn dissociating_tunnel_drops_its_slot_and_association() {
    let mut mappings: TunnelMappings<u32> = TunnelMappings::new();
    let a = mappings.insert_tunnel(100, data(100, 1, 0)).unwrap();
    mappings.associate_pool(100, 5, 2);
    mappings.dissociate_tunnel(a);
    assert!(mappings.id_to_tunnel.is_empty());
    assert!(mappings.association_to_tunnel.is_empty());
    assert!(mappings.tunnel_to_index.is_empty());
    assert!(mappings.index_to_tunnel.is_empty());
}

#[test]
fn tunnel_ids_count_up() {
    let mut mappings: TunnelMappings<u32> = TunnelMappings::new();
    assert_eq!(mappings.acquire_tunnel_id(), Some(0));
    let first = mappings.insert_tunnel(1, data(1, 1, 0)).unwrap();
    let second = mappings.insert_tunnel(2, data(2, 2, 0)).unwrap();
    assert_eq!((first, second), (1, 2));
    let mut ids = mappings.tunnel_ids();
    ids.sort();
    assert_eq!(ids, vec![1, 2]);
}

#[test]
fn tunnel_ids_skip_used_ones_and_wrap() {
    let mut mappings: TunnelMappings<u32> = TunnelMappings::new();
    let first = mappings.insert_tunnel(1, data(1, 1, 0)).unwrap();
    let second = mappings.insert_tunnel(2, data(2, 2, 0)).unwrap();
    assert_eq!((first, second), (0, 1));
    mappings.next_tunnel_id = u32::MAX;
    assert_eq!(mappings.acquire_tunnel_id(), Some(u32::MAX));
    assert_eq!(mappings.next_tunnel_id, 0);
    assert_eq!(mappings.acquire_tunnel_id(), Some(2));
}

#[test]
fn keep_alive_sweep_removes_only_dead_tunnels() {
    let mut mappings: TunnelMappings<u32> = TunnelMappings::new();
    let fresh = mappings.insert_tunnel(1, data(1, 11, 990)).unwrap();
    let dead = mappings.insert_tunnel(2, data(2, 22, 100)).unwrap();
    let edge = mappings.insert_tunnel(3, data(3, 33, 960)).unwrap();
    mappings.associate_pool(2, 9, 0);
    let mut alive = mappings.remove_dead_tunnels(1_000, 40);
    alive.sort();
    assert_eq!(alive, vec![(fresh, 11), (edge, 33)]);
    assert!(!mappings.id_to_tunnel.contains_key(&dead));
    assert!(!mappings.association_to_tunnel.contains_key(&2));
    assert!(mappings.index_to_tunnel.is_empty());
    assert_eq!(mappings.id_to_tunnel.len(), 2);
}

#[test]
fn packets_match_the_tunnel_crate() {
    let packet = forward_packet(5, 2, vec![1, 2, 3]);
    assert_eq!(packet, vec![1, 0, 0, 0, 5, 2, 2, 0, 3, 1, 2, 3]);
    let expected = pocket_relay_udp_tunnel::serialize_message(
        5,
        &pocket_relay_udp_tunnel::TunnelMessage::Forward { index: 2, message: vec![1, 2, 3] },
    );
    assert_eq!(packet, expected);
    assert_eq!(keep_alive_packet(0x01020304), vec![1, 1, 2, 3, 4, 3]);
}

#[test]
fn read_packet_parses_and_rejects() {
    let (id, message) = read_packet(&[1, 0, 0, 0, 9, 2, 4, 0, 2, 0xAA, 0xBB]).unwrap();
    assert_eq!(id, 9);
    match message {
        UdpMessage::Forward { index, message } => {
            assert_eq!(index, 4);
            assert_eq!(message, vec![0xAA, 0xBB]);
        }
        _ => panic!("expected a forward message"),
    }
    assert!(matches!(read_packet(&[1, 0, 0, 0, 9, 3]), Some((9, UdpMessage::KeepAlive))));
    // Unknown message type
    assert!(read_packet(&[1, 0, 0, 0, 9, 7]).is_none());
    // Truncated forward payload
    assert!(read_packet(&[1, 0, 0, 0, 9, 2, 4, 0, 5, 1]).is_none());
}

#[test]
fn initiate_with_valid_token_gets_tunnel() {
    let sessions = Sessions::new(SigningKey::new(b"0123456789abcdef0123456789abcdef"));
    let token = sessions.create_assoc_token_from(&[7u8; 16]);
    let mut mappings: TunnelMappings<u32> = TunnelMappings::new();
    let action = handle_message(
        &mut mappings,
        &sessions,
        UNKNOWN_TUNNEL,
        UdpMessage::Initiate { association_token: token },
        4444,
        10,
    );
    match action {
        TunnelAction::Send { target, buffer } => {
            assert_eq!(target, 4444);
            let (id, reply) = read_packet(&buffer).unwrap();
            assert!(matches!(reply, UdpMessage::Initiated { tunnel_id } if tunnel_id == id));
            assert_eq!(mappings.id_to_tunnel.get(&id).map(|d| d.handle), Some(4444));
        }
        _ => panic!("expected a reply"),
    }

    let refused = handle_message(
        &mut mappings,
        &sessions,
        UNKNOWN_TUNNEL,
        UdpMessage::Initiate { association_token: "not-a-token".to_string() },
        5555,
        10,
    );
    assert!(matches!(refused, TunnelAction::Nothing));
    assert_eq!(mappings.id_to_tunnel.len(), 1);
}

#[test]
fn forward_and_keep_alive_messages() {
    let sessions = Sessions::new(SigningKey::new(b"0123456789abcdef0123456789abcdef"));
    let mut mappings: TunnelMappings<u32> = TunnelMappings::new();
    let a = mappings.insert_tunnel(1, data(1, 100, 0)).unwrap();
    let b = mappings.insert_tunnel(2, data(2, 200, 0)).unwrap();
    mappings.associate_pool(1, 3, 0);
    mappings.associate_pool(2, 3, 1);

    let action = handle_message(&mut mappings, &sessions, a, UdpMessage::Forward { index: 1, message: vec![5] }, 101, 20);
    match action {
        TunnelAction::Forward { target, from, index, message } => {
            assert_eq!((target, from, index, message), (200, a, 0, vec![5]));
        }
        _ => panic!("expected a forward"),
    }
    // The sender's handle follows its latest address
    assert_eq!(mappings.id_to_tunnel.get(&a).map(|d| d.handle), Some(101));

    let action = handle_message(&mut mappings, &sessions, b, UdpMessage::KeepAlive, 200, 30);
    assert!(matches!(action, TunnelAction::Nothing));
    assert_eq!(mappings.id_to_tunnel.get(&b).map(|d| d.last_alive), Some(30));
}

#[test]
fn dissociating_one_tunnel_leaves_other_routes() {
    let mut mappings: TunnelMappings<u32> = TunnelMappings::new();
    let a = mappings.insert_tunnel(1, data(1, 10, 0)).unwrap();
    let b = mappings.insert_tunnel(2, data(2, 20, 0)).unwrap();
    let c = mappings.insert_tunnel(3, data(3, 30, 0)).unwrap();
    mappings.associate_pool(1, 5, 0);
    mappings.associate_pool(2, 5, 1);
    mappings.associate_pool(3, 5, 2);
    mappings.dissociate_tunnel(b);
    assert_eq!(mappings.get_tunnel_route(b, 0), None);
    assert_eq!(mappings.get_tunnel_route(a, 1), None);
    assert_eq!(mappings.get_tunnel_route(c, 1), None);
    assert_eq!(mappings.get_tunnel_route(a, 2), Some((30, 0)));
    assert_eq!(mappings.get_tunnel_route(c, 0), Some((10, 2)));
}
