use pocket_relay::models::auth::{list_entitlements, AuthenticationError, LegalContent, ListEntitlementsRequest};
use pocket_relay::models::errors::{BlazeError, GlobalError};
use pocket_relay::models::messaging::{fetch_messages, menu_message};
use pocket_relay::models::net::{IpPairAddress, NetworkAddress, PairAddress};
use pocket_relay::models::stats::{get_locale_name, leaderboard_group, LeaderboardGroupRequest};
use pocket_relay::models::user_sessions::{fix_network_address, upnp_override};
use pocket_relay::models::util::{
    suspend_ping_outcome, QosServerConfig, SetClientMetricsRequest, UpnpFlags, UpnpStatus, UtilError,
    SUSPEND_PING_TIME,
};
use pocket_relay::packet::{FireFrame, FrameType, Packet, PacketCodec};
use pocket_relay::retriever::{
    check_response, instance_expiry, origin_flow_step, FlowStep, GetFlowError, ResponseCheck,
    INSTANCE_LIFETIME_SECS,
};
use pocket_relay::sessions::VerifyError;

#[test]
fn packet_header_layout() {
    let packet = Packet::new_request(7, 0x0001, 0x0028, vec![0xAA, 0xBB]);
    let mut bytes = Vec::new();
    packet.write(&mut bytes);
    assert_eq!(bytes, vec![0, 2, 0, 1, 0, 0x28, 0, 0, 0x00, 0x00, 0, 7, 0xAA, 0xBB]);

    let notify = Packet::notify_empty(0x7802, 0x0001);
    let mut bytes = Vec::new();
    notify.write(&mut bytes);
    assert_eq!(bytes, vec![0, 0, 0x78, 0x02, 0, 1, 0, 0, 0x20, 0x00, 0, 0]);
}

#[test]
fn packet_roundtrip_and_partial_reads() {
    let packet = Packet::new_request(3, 0x0004, 0x0001, vec![1, 2, 3, 4, 5]);
    let mut bytes = Vec::new();
    packet.write(&mut bytes);
    bytes.extend_from_slice(&[9, 9]);
    let (read, used) = Packet::read(&bytes).unwrap();
    assert_eq!(used, 12 + 5);
    assert_eq!(read.frame, packet.frame);
    assert_eq!(read.contents, vec![1, 2, 3, 4, 5]);
    assert!(Packet::read(&bytes[..10]).is_none());
    assert!(Packet::read(&bytes[..15]).is_none());

    let mut codec = PacketCodec {};
    let mut stream = bytes[..15].to_vec();
    assert!(codec.decode(&mut stream).is_none());
    assert_eq!(stream.len(), 15);
    stream.extend_from_slice(&bytes[15..]);
    let decoded = codec.decode(&mut stream).unwrap();
    assert_eq!(decoded.contents, vec![1, 2, 3, 4, 5]);
    assert_eq!(stream, vec![9, 9]);
}

#[test]
fn jumbo_packets_carry_extended_length() {
    let contents = vec![7u8; 0x1_0002];
    let packet = Packet::new_notify(1, 2, contents.clone());
    let mut bytes = Vec::new();
    packet.write(&mut bytes);
    // Low 16 bits of the length, then the jumbo flag, then the high bits
    assert_eq!(&bytes[0..2], &[0x00, 0x02]);
    assert_eq!(bytes[9], 0x10);
    assert_eq!(&bytes[12..14], &[0x00, 0x01]);
    let (read, used) = Packet::read(&bytes).unwrap();
    assert_eq!(used, 14 + 0x1_0002);
    assert_eq!(read.contents, contents);
    assert!(read.frame.options.is_jumbo());
}

#[test]
fn responses_and_errors_follow_the_request() {
    let request = Packet::request_empty(11, 5, 6);
    let response = Packet::response_empty(&request);
    assert_eq!(response.frame.ty, FrameType::Response);
    assert_eq!(response.frame.seq, 11);
    assert!(response.frame.path_matches(&request.frame));
    let error = BlazeError::from(GlobalError::AuthenticationRequired).into_response(&request);
    assert_eq!(error.frame.ty, FrameType::Error);
    assert_eq!(error.frame.error, 0x4004);
    assert_eq!(error.frame.seq, 11);
    assert_eq!(FrameType::from_value(2), FrameType::Notify);
    assert_eq!(FrameType::from_value(9), FrameType::Request);
    assert_eq!(FireFrame::notify(1, 2).header_len(), 12);
}

#[test]
fn leaderboard_groups_by_name() {
    let group = leaderboard_group(LeaderboardGroupRequest { name: "N7RatingDE".to_string() }).unwrap();
    assert_eq!(group.desc, "N7 Rating - Germany");
    assert_eq!(group.sname, "n7rating");
    let group = leaderboard_group(LeaderboardGroupRequest { name: "ChallengePointsGlobal".to_string() }).unwrap();
    assert_eq!(group.desc, "Challenge Points - Global");
    assert_eq!(group.gname, "ME3ChallengePoints");
    let group = leaderboard_group(LeaderboardGroupRequest { name: "N7RatingXY".to_string() }).unwrap();
    assert_eq!(group.desc, "N7 Rating - xy");
    assert!(leaderboard_group(LeaderboardGroupRequest { name: "Other".to_string() }).is_none());
    assert_eq!(get_locale_name("nz"), "New Zealand");
    assert_eq!(get_locale_name("zz"), "zz");
}

#[test]
fn suspend_ping_limits() {
    assert_eq!(suspend_ping_outcome(SUSPEND_PING_TIME - 1), UtilError::SuspendPingTimeTooSmall);
    assert_eq!(suspend_ping_outcome(SUSPEND_PING_TIME + 1), UtilError::SuspendPingTimeTooLarge);
    assert_eq!(suspend_ping_outcome(SUSPEND_PING_TIME), UtilError::PingSuspended);
}

fn pair(internal: (u32, u16), external: (u32, u16)) -> NetworkAddress {
    NetworkAddress::AddressPair(IpPairAddress {
        internal: PairAddress { addr: internal.0, port: internal.1 },
        external: PairAddress { addr: external.0, port: external.1 },
    })
}

#[test]
fn network_address_fixes() {
    let session = 0x0A000005;
    // A missing external address takes the session address and the internal port
    assert!(fix_network_address(&QosServerConfig::Local, pair((1, 3659), (0, 0)), session) == pair((1, 3659), (session, 3659)));
    assert!(fix_network_address(&QosServerConfig::Local, pair((1, 3659), (2, 1)), session) == pair((1, 3659), (2, 1)));
    assert!(fix_network_address(&QosServerConfig::Disabled, pair((1, 3659), (0, 0)), session) == pair((1, 3659), (0, 0)));
    // Hamachi replaces the internal address (its host for loopback sessions)
    let hamachi = QosServerConfig::Hamachi { host: 0x19000001 };
    assert!(fix_network_address(&hamachi, pair((1, 3659), (0, 0)), session) == pair((session, 3659), (0, 0)));
    assert!(fix_network_address(&hamachi, pair((1, 3659), (0, 0)), 0x7F000001) == pair((0x19000001, 3659), (0, 0)));
    assert!(fix_network_address(&hamachi, NetworkAddress::Unset, session) == NetworkAddress::Unset);
}

fn metrics(status: UpnpStatus, wan: u32, flags: u16) -> SetClientMetricsRequest {
    SetClientMetricsRequest {
        blaze_flags: UpnpFlags { bits: flags },
        device_info: String::new(),
        flags: 0,
        last_result_code: 0,
        nat_type: 0,
        status,
        wan,
    }
}

#[test]
fn upnp_wan_override() {
    let current = pair((1, 3659), (2, 4000));
    assert!(upnp_override(&metrics(UpnpStatus::Enabled, 0x05060708, 0), current) == Some(pair((1, 3659), (0x05060708, 4000))));
    assert!(upnp_override(&metrics(UpnpStatus::Found, 0x05060708, 0), current).is_none());
    assert!(upnp_override(&metrics(UpnpStatus::Enabled, 0, 0), current).is_none());
    assert!(upnp_override(&metrics(UpnpStatus::Enabled, 0x05060708, UpnpFlags::DOUBLE_NAT), current).is_none());
}

#[test]
fn origin_flow_steps() {
    assert_eq!(origin_flow_step(false, Some(10), 5), Err(GetFlowError::OriginDisabled));
    assert_eq!(origin_flow_step(true, None, 5), Err(GetFlowError::Unavailable));
    assert_eq!(origin_flow_step(true, Some(10), 5), Ok(FlowStep::UseInstance));
    assert_eq!(origin_flow_step(true, Some(10), 11), Ok(FlowStep::RenewInstance));
    assert_eq!(instance_expiry(100), 100 + INSTANCE_LIFETIME_SECS);
}

#[test]
fn entitlements_and_legal_documents() {
    let list = list_entitlements(&ListEntitlementsRequest { tag: String::new() }).unwrap();
    assert_eq!(list.list.len(), 34);
    assert_eq!(list.list[0].id, 0xec5090c43f);
    assert!(list_entitlements(&ListEntitlementsRequest { tag: "ONLINE_ACCESS".to_string() }).is_none());
    let tos = LegalContent::terms_of_service(None);
    assert_eq!(tos.content, "<h1>This is a terms of service placeholder</h1>");
    let policy = LegalContent::privacy_policy(Some("custom".to_string()));
    assert_eq!(policy.content, "custom");
    assert_eq!(policy.col, 0xc99c);
}

#[test]
fn token_errors_and_menu_message() {
    assert_eq!(AuthenticationError::from_verify_error(VerifyError::Expired), AuthenticationError::ExpiredToken);
    assert_eq!(AuthenticationError::from_verify_error(VerifyError::Invalid), AuthenticationError::InvalidToken);
    assert_eq!(menu_message("Pocket Relay {v}: hi {n}", "0.6", "Shep"), "Pocket Relay 0.6: hi Shep\n");
}

#[test]
fn awaiting_official_responses() {
    let request = FireFrame::request(4, 9, 10);
    let matching = Packet::response_empty(&Packet::request_empty(4, 9, 10));
    assert_eq!(check_response(&request, &matching.frame), ResponseCheck::Response);
    let other = FireFrame::request(4, 9, 11).response();
    assert_eq!(check_response(&request, &other), ResponseCheck::Ignore);
    assert_eq!(check_response(&request, &FireFrame::notify(9, 10)), ResponseCheck::Ignore);
    let failed = FireFrame::request(5, 1, 1).with_error(0x4001);
    assert_eq!(check_response(&request, &failed), ResponseCheck::Failed);
}

#[test]
fn fetch_messages_sends_one_menu_message() {
    let player = pocket_relay::models::Player {
        id: 9,
        email: "shep@example.com".to_string(),
        display_name: "Shep".to_string(),
    };
    let (response, notify) = fetch_messages("Hi {n} ({v})", "0.6", &player);
    assert_eq!(response.count, 1);
    assert_eq!(notify.player_id, 9);
    assert_eq!(notify.message, "Hi Shep (0.6)\n");
}

#[test]
fn frame_read_takes_the_header_off() {
    let frame = FireFrame::request(7, 0x0004, 0x0001);
    let mut bytes = Vec::new();
    frame.write(&mut bytes, 3);
    bytes.extend_from_slice(&[1, 2, 3, 4]);
    let (read, length) = FireFrame::read(&mut bytes).unwrap();
    assert_eq!(read, frame);
    assert_eq!(length, 3);
    assert_eq!(bytes, vec![1, 2, 3, 4]);

    let mut short = vec![0u8; 11];
    assert!(FireFrame::read(&mut short).is_none());
    assert_eq!(short.len(), 11);

    // A jumbo header cut before its extended length
    let mut jumbo = Vec::new();
    frame.write(&mut jumbo, 0x1_0000);
    jumbo.truncate(13);
    assert!(FireFrame::read(&mut jumbo).is_none());
    assert_eq!(jumbo.len(), 1);
}
