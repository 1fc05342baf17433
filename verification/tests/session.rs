use pocket_relay::models::net::{HardwareFlags, NatType, NetworkAddress, QosNetworkData};
use pocket_relay::models::Player;
use pocket_relay::models::util::UtilError;
use pocket_relay::session_data::{SessionData, SessionEffect, KEEP_ALIVE_TIMEOUT_MS};

fn player(id: u32) -> Player {
    Player { id, email: format!("p{}@example.com", id), display_name: format!("P{}", id) }
}

#[test]
fn changes_without_login_do_nothing() {
    let mut data = SessionData::new(0x7F000001, None, 0);
    assert!(data.add_subscriber(2).is_empty());
    assert!(data.set_game(5).is_empty());
    assert!(data.set_hardware_flags(HardwareFlags { bits: 1 }).is_empty());
    assert!(data.get_player().is_none());
    assert!(data.get_game().is_none());
    assert!(data.get_lookup_response().is_none());
    assert!(data.clear_auth().is_empty());
}

#[test]
fn subscribers_are_told_of_changes() {
    let mut data = SessionData::new(1, Some(9), 0);
    assert!(data.set_auth(player(1)).is_empty());
    let added = data.add_subscriber(2);
    assert!(
        added
            == vec![
                SessionEffect::NotifyUserAdded { to: 2 },
                SessionEffect::NotifyUserUpdated { to: 2, player_id: 1, flags: 3 },
            ]
    );
    data.add_subscriber(3);
    let published = data.set_network_info(
        NetworkAddress::Unset,
        QosNetworkData { dbps: 1, natt: NatType::Moderate, ubps: 2 },
        vec![20, 30],
    );
    assert!(
        published
            == vec![
                SessionEffect::PublishUpdate { to: 2, user_id: 1 },
                SessionEffect::PublishUpdate { to: 3, user_id: 1 },
            ]
    );
    let lookup = data.get_lookup_response().unwrap();
    assert_eq!(lookup.player.id, 1);
    assert_eq!(lookup.extended_data.net.ping_site_latency, vec![20, 30]);
}

#[test]
fn games_are_left_when_replaced_or_cleared() {
    let mut data = SessionData::new(1, None, 0);
    data.set_auth(player(4));
    data.add_subscriber(8);
    let first = data.set_game(10);
    assert!(first == vec![SessionEffect::PublishUpdate { to: 8, user_id: 4 }]);
    let second = data.set_game(11);
    assert!(
        second
            == vec![
                SessionEffect::LeaveGame { game_id: 10, player_id: 4 },
                SessionEffect::PublishUpdate { to: 8, user_id: 4 },
            ]
    );
    assert_eq!(data.get_game(), Some(11));
    let cleared = data.clear_game();
    assert!(cleared[0] == SessionEffect::LeaveGame { game_id: 11, player_id: 4 });
    assert_eq!(data.get_game(), None);
}

#[test]
fn logout_leaves_game_and_tells_subscribers() {
    let mut data = SessionData::new(1, None, 0);
    data.set_auth(player(4));
    data.add_subscriber(8);
    data.add_subscriber(9);
    data.set_game(10);
    let ended = data.set_auth(player(5));
    assert!(
        ended
            == vec![
                SessionEffect::LeaveGame { game_id: 10, player_id: 4 },
                SessionEffect::NotifyUserRemoved { to: 8, player_id: 4 },
                SessionEffect::NotifyUserRemoved { to: 9, player_id: 4 },
            ]
    );
    assert_eq!(data.get_player().map(|p| p.id), Some(5));
    assert!(data.clear_auth().is_empty());
    assert!(data.get_player().is_none());
}

#[test]
fn unsubscribing_removes_every_subscription() {
    let mut data = SessionData::new(1, None, 0);
    data.set_auth(player(4));
    data.add_subscriber(8);
    data.add_subscriber(9);
    data.add_subscriber(8);
    let removed = data.remove_subscriber(8);
    assert!(
        removed
            == vec![
                SessionEffect::NotifyUserRemoved { to: 8, player_id: 4 },
                SessionEffect::NotifyUserRemoved { to: 8, player_id: 4 },
            ]
    );
    assert_eq!(data.auth.as_ref().unwrap().subscribers, vec![9]);
    assert!(data.remove_subscriber(7).is_empty());
}

#[test]
fn keep_alive_timeout_and_grace() {
    let mut data = SessionData::new(1, None, 1_000);
    assert!(!data.is_keep_alive_dead(1_000 + KEEP_ALIVE_TIMEOUT_MS));
    assert!(data.is_keep_alive_dead(1_001 + KEEP_ALIVE_TIMEOUT_MS));
    data.set_keep_alive_grace(5_000);
    assert!(!data.is_keep_alive_dead(1_001 + KEEP_ALIVE_TIMEOUT_MS));
    assert!(data.is_keep_alive_dead(6_001 + KEEP_ALIVE_TIMEOUT_MS));
    data.set_alive(100_000);
    assert_eq!(data.extended_grace, 0);
    assert!(!data.is_keep_alive_dead(100_000));
    // A clock reading before the last keep-alive never counts as dead
    assert!(!data.is_keep_alive_dead(0));
}

#[test]
fn suspend_ping_grants_grace_only_for_the_agreed_time() {
    let mut session = SessionData::new(0x7f000001, None, 1_000);
    assert_eq!(session.suspend_ping(89_999_999), UtilError::SuspendPingTimeTooSmall);
    assert_eq!(session.extended_grace, 0);
    assert_eq!(session.suspend_ping(90_000_001), UtilError::SuspendPingTimeTooLarge);
    assert_eq!(session.extended_grace, 0);
    assert_eq!(session.suspend_ping(90_000_000), UtilError::PingSuspended);
    assert_eq!(session.extended_grace, 90_000);
    assert_eq!(session.last_keep_alive, 1_000);
}
