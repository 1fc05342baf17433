use pocket_relay::attrs::AttrMap;
use pocket_relay::game::{
    Game, GameEffect, GameJoinableState, GameMessage, GamePlayer, GamePlayerPlayerDataSnapshot,
};
use pocket_relay::matchmaking::{Games, Matchmaking};
use pocket_relay::models::game_manager::{
    AddAdminPlayerRequest, CreateGameRequest, GameManagerError, GameSettings, GameState,
    MatchmakingRequest, PlayerConnectionStatus, PlayerNetConnectionStatus, PlayerState,
    SetAttributesRequest, SetSettingRequest, SetStateRequest, UpdateMeshRequest,
};
use pocket_relay::models::Player;
use pocket_relay::models::net::NetData;
use pocket_relay::models::game_manager::{RemovePlayerRequest, RemoveReason, ReplayGameRequest};
use pocket_relay::routes::{
    handle_add_admin_player, handle_create_game, handle_join_game, handle_remove_player,
    handle_replay_game, handle_set_attributes, handle_set_setting, handle_set_state,
    handle_start_matchmaking, handle_update_mesh_connection,
};
use pocket_relay::rules::RuleSet;

fn attrs(pairs: &[(&str, &str)]) -> AttrMap {
    AttrMap::from_pairs(pairs.iter().map(|(k, v)| (k.to_string(), v.to_string())).collect())
}

fn player(id: u32) -> GamePlayer {
    GamePlayer::new(
        Player {
            id,
            email: format!("player{}@example.com", id),
            display_name: format!("Player{}", id),
        },
        GamePlayerPlayerDataSnapshot { data: Vec::new() },
    )
}

fn map_rules(map: &str) -> RuleSet {
    RuleSet::new(vec![("ME3_gameMapMatchRule".to_string(), map.to_string())])
}

fn game_with(id: u32, pairs: &[(&str, &str)]) -> Game {
    Game::new_with(id, attrs(pairs), GameSettings::from_bits_retain(0x11f), 0, 1)
}

fn player_ids(game: &Game) -> Vec<u32> {
    game.players.iter().map(|p| p.player.id).collect()
}

fn queued_ids(matchmaking: &Matchmaking) -> Vec<u32> {
    matchmaking.queue.iter().map(|e| e.player.player.id).collect()
}

#[test]
fn joinable_state_by_rules_and_room() {
    let mut game = game_with(1, &[("ME3map", "map2")]);
    assert_eq!(game.joinable_state(None), GameJoinableState::Joinable);
    assert_eq!(game.joinable_state(Some(&map_rules("map2"))), GameJoinableState::Joinable);
    assert_eq!(game.joinable_state(Some(&map_rules("map5"))), GameJoinableState::NotMatch);
    for id in 1..=4 {
        game.players.push(player(id));
    }
    assert_eq!(game.joinable_state(None), GameJoinableState::Full);
    game.set_state(GameState::Destructing);
    assert_eq!(game.joinable_state(None), GameJoinableState::Stopping);
}

#[test]
fn queue_skips_players_the_game_does_not_match() {
    let mut game = game_with(1, &[("ME3map", "map2")]);
    game.players.push(player(10));
    let mut matchmaking = Matchmaking::new();
    matchmaking.queue_at(player(20), map_rules("map5"), 0);
    matchmaking.queue_at(player(21), map_rules("map2"), 0);
    matchmaking.queue_at(player(22), map_rules("abstain"), 0);
    let effects = matchmaking.process_queue(&mut game);
    assert_eq!(player_ids(&game), vec![10, 21, 22]);
    assert_eq!(queued_ids(&matchmaking), vec![20]);
    assert!(!effects.is_empty());
    // The first effect of a matchmaking join is the player's matchmaking status
    assert!(matches!(
        effects[0],
        GameEffect::Notify { to: 21, message: GameMessage::AsyncMatchmakingStatus(_) }
    ));
}

#[test]
fn queue_stops_filling_a_full_game() {
    let mut game = game_with(1, &[]);
    game.players.push(player(10));
    let mut matchmaking = Matchmaking::new();
    for id in 20..25 {
        matchmaking.queue_at(player(id), map_rules("abstain"), 0);
    }
    matchmaking.process_queue(&mut game);
    assert_eq!(player_ids(&game), vec![10, 20, 21, 22]);
    assert_eq!(queued_ids(&matchmaking), vec![23, 24]);
}

#[test]
fn queue_remove_drops_only_that_player() {
    let mut matchmaking = Matchmaking::new();
    matchmaking.queue_at(player(1), map_rules("abstain"), 0);
    matchmaking.queue_at(player(2), map_rules("abstain"), 0);
    matchmaking.queue_at(player(1), map_rules("abstain"), 0);
    matchmaking.remove(1);
    assert_eq!(queued_ids(&matchmaking), vec![2]);
}

#[test]
fn games_store_ids_and_lookup() {
    let mut games = Games::new();
    let a = games.next_id();
    let b = games.next_id();
    assert_eq!((a, b), (1, 2));
    games.insert(game_with(a, &[("ME3map", "map2")]));
    games.insert(game_with(b, &[("ME3map", "map5")]));
    assert_eq!(games.total(), 2);
    assert_eq!(games.get_by_id(b).map(|g| g.id), Some(b));
    assert!(games.get_by_id(7).is_none());
    assert_eq!(games.get_by_rule_set(&map_rules("map5")), Some((b, 1)));
    assert_eq!(games.get_by_rule_set(&map_rules("map9")), None);
    games.remove_by_id(a);
    assert_eq!(games.total(), 1);
    assert!(games.get_by_id(a).is_none());
}

#[test]
fn set_attributes_unknown_game_is_refused() {
    let mut games = Games::new();
    let mut matchmaking = Matchmaking::new();
    let request = SetAttributesRequest { attributes: attrs(&[("ME3map", "map2")]), game_id: 9 };
    let result = handle_set_attributes(&mut games, &mut matchmaking, 1, request);
    assert_eq!(result.err(), Some(GameManagerError::InvalidGameId));
}

#[test]
fn set_attributes_merges_and_fills_from_queue() {
    let mut games = Games::new();
    let id = games.next_id();
    let mut game = game_with(id, &[("ME3map", "map1"), ("ME3privacy", "PUBLIC")]);
    game.players.push(player(10));
    games.insert(game);
    let mut matchmaking = Matchmaking::new();
    matchmaking.queue_at(player(20), map_rules("map2"), 0);

    let request = SetAttributesRequest { attributes: attrs(&[("ME3map", "map2")]), game_id: id };
    let outcome = handle_set_attributes(&mut games, &mut matchmaking, 10, request).unwrap();
    let game = games.get_by_id(id).unwrap();
    assert_eq!(game.attributes.get("ME3map").map(|v| v.as_str()), Some("map2"));
    assert_eq!(game.attributes.get("ME3privacy").map(|v| v.as_str()), Some("PUBLIC"));
    assert_eq!(player_ids(game), vec![10, 20]);
    assert!(queued_ids(&matchmaking).is_empty());
    assert!(!outcome.report);
    assert!(matches!(outcome.effects[0], GameEffect::NotifyAttributes { to: 10, .. }));
}

#[test]
fn set_attributes_finishing_by_host_asks_for_report() {
    let mut games = Games::new();
    let id = games.next_id();
    let mut game = game_with(id, &[]);
    game.players.push(player(10));
    game.players.push(player(11));
    games.insert(game);
    let mut matchmaking = Matchmaking::new();
    let finishing = || attrs(&[("ME3gameState", "IN_GAME_FINISHING")]);

    let by_host = SetAttributesRequest { attributes: finishing(), game_id: id };
    let outcome = handle_set_attributes(&mut games, &mut matchmaking, 10, by_host).unwrap();
    assert!(outcome.report);

    let by_other = SetAttributesRequest { attributes: finishing(), game_id: id };
    let outcome = handle_set_attributes(&mut games, &mut matchmaking, 11, by_other).unwrap();
    assert!(!outcome.report);

    let not_finishing = SetAttributesRequest { attributes: attrs(&[("ME3gameState", "IN_GAME")]), game_id: id };
    let outcome = handle_set_attributes(&mut games, &mut matchmaking, 10, not_finishing).unwrap();
    assert!(!outcome.report);
}

#[test]
fn create_game_makes_creator_connected_host() {
    let mut games = Games::new();
    let mut matchmaking = Matchmaking::new();
    matchmaking.queue_at(player(30), map_rules("map2"), 0);
    matchmaking.queue_at(player(31), map_rules("map7"), 0);
    let request = CreateGameRequest {
        attributes: attrs(&[("ME3map", "map2")]),
        setting: GameSettings::from_bits_retain(0x11f),
    };
    let (response, effects) = handle_create_game(&mut games, &mut matchmaking, player(5), request);
    assert_eq!(response.game_id, 1);
    let game = games.get_by_id(1).unwrap();
    assert_eq!(player_ids(game), vec![5, 30]);
    assert_eq!(game.players[0].state, PlayerState::ActiveConnected);
    assert_eq!(game.state, GameState::Initializing);
    assert_eq!(queued_ids(&matchmaking), vec![31]);
    assert!(effects.iter().any(|e| matches!(e, GameEffect::SetGame { player_id: 5, game_id: 1 })));
}

#[test]
fn start_matchmaking_joins_or_queues() {
    let mut games = Games::new();
    let mut matchmaking = Matchmaking::new();
    let (response, effects) = handle_start_matchmaking(
        &mut games,
        &mut matchmaking,
        player(8),
        MatchmakingRequest { rules: map_rules("map2") },
    );
    assert_eq!(response.id, 8);
    assert!(effects.is_empty());
    assert_eq!(queued_ids(&matchmaking), vec![8]);

    let id = games.next_id();
    let mut game = game_with(id, &[("ME3map", "map2")]);
    game.players.push(player(1));
    games.insert(game);
    let (response, effects) = handle_start_matchmaking(
        &mut games,
        &mut matchmaking,
        player(9),
        MatchmakingRequest { rules: map_rules("map2") },
    );
    assert_eq!(response.id, 9);
    assert!(!effects.is_empty());
    assert_eq!(player_ids(games.get_by_id(id).unwrap()), vec![1, 9]);
    assert_eq!(queued_ids(&matchmaking), vec![8]);
}

#[test]
fn mesh_update_only_from_host() {
    let mut games = Games::new();
    let id = games.next_id();
    let mut game = game_with(id, &[]);
    game.players.push(player(1));
    game.players.push(player(2));
    games.insert(game);
    let target = || vec![PlayerConnectionStatus { player_id: 2, status: PlayerNetConnectionStatus::Connected }];

    let effects = handle_update_mesh_connection(&mut games, 2, UpdateMeshRequest { game_id: id, targets: target() }).unwrap();
    assert!(effects.is_empty());
    assert_eq!(games.get_by_id(id).unwrap().players[1].state, PlayerState::ActiveConnecting);

    let effects = handle_update_mesh_connection(&mut games, 1, UpdateMeshRequest { game_id: id, targets: target() }).unwrap();
    assert_eq!(effects.len(), 4);
    assert_eq!(games.get_by_id(id).unwrap().players[1].state, PlayerState::ActiveConnected);

    let none = handle_update_mesh_connection(&mut games, 1, UpdateMeshRequest { game_id: id, targets: Vec::new() });
    assert!(none.unwrap().is_empty());
    let unknown = handle_update_mesh_connection(&mut games, 1, UpdateMeshRequest { game_id: 99, targets: target() });
    assert_eq!(unknown.err(), Some(GameManagerError::InvalidGameId));
}

#[test]
fn admin_list_changes_only_from_host() {
    let mut games = Games::new();
    let id = games.next_id();
    let mut game = game_with(id, &[]);
    game.players.push(player(1));
    game.players.push(player(2));
    games.insert(game);
    let by_host = handle_add_admin_player(&games, 1, AddAdminPlayerRequest { game_id: id, player_id: 2 }).unwrap();
    assert_eq!(by_host.len(), 2);
    let by_other = handle_add_admin_player(&games, 2, AddAdminPlayerRequest { game_id: id, player_id: 2 }).unwrap();
    assert!(by_other.is_empty());
    let unknown = handle_add_admin_player(&games, 1, AddAdminPlayerRequest { game_id: 5, player_id: 2 });
    assert_eq!(unknown.err(), Some(GameManagerError::InvalidGameId));
}

#[test]
fn set_state_and_setting_notify_players() {
    let mut games = Games::new();
    let id = games.next_id();
    let mut game = game_with(id, &[]);
    game.players.push(player(1));
    game.players.push(player(2));
    games.insert(game);
    let effects = handle_set_state(&mut games, SetStateRequest { game_id: id, state: GameState::InGame }).unwrap();
    assert_eq!(effects.len(), 2);
    assert_eq!(games.get_by_id(id).unwrap().state, GameState::InGame);
    let effects = handle_set_setting(
        &mut games,
        SetSettingRequest { game_id: id, setting: GameSettings::from_bits_retain(0x1f) },
    )
    .unwrap();
    assert_eq!(effects.len(), 2);
    assert_eq!(games.get_by_id(id).unwrap().settings.bits(), 0x1f);
    let missing = handle_set_state(&mut games, SetStateRequest { game_id: 4, state: GameState::InGame });
    assert_eq!(missing.err(), Some(GameManagerError::InvalidGameId));
}

#[test]
fn removing_host_migrates_to_next_player() {
    let mut game = game_with(3, &[]);
    game.players.push(player(1));
    game.players.push(player(2));
    game.players.push(player(3));
    let effects = game.remove_player(1, RemoveReason::PlayerLeft);
    assert_eq!(player_ids(&game), vec![2, 3]);
    assert!(game.is_host_player(2));
    assert!(!effects.is_empty());
}

#[test]
fn join_game_by_target_session() {
    let mut games = Games::new();
    let id = games.next_id();
    let mut game = game_with(id, &[]);
    game.players.push(player(1));
    games.insert(game);

    assert_eq!(handle_join_game(&mut games, player(2), None).err(), Some(GameManagerError::JoinPlayerFailed));
    assert_eq!(handle_join_game(&mut games, player(2), Some(None)).err(), Some(GameManagerError::InvalidGameId));
    assert_eq!(handle_join_game(&mut games, player(2), Some(Some(77))).err(), Some(GameManagerError::InvalidGameId));

    let (response, effects) = handle_join_game(&mut games, player(2), Some(Some(id))).unwrap();
    assert_eq!(response.game_id, id);
    assert!(effects.iter().any(|e| matches!(e, GameEffect::SetGame { player_id: 2, game_id }  if *game_id == id)));
    assert_eq!(player_ids(games.get_by_id(id).unwrap()), vec![1, 2]);

    for extra in 3..=4 {
        handle_join_game(&mut games, player(extra), Some(Some(id))).unwrap();
    }
    assert_eq!(handle_join_game(&mut games, player(5), Some(Some(id))).err(), Some(GameManagerError::GameFull));
}

#[test]
fn remove_and_replay_requests() {
    let mut games = Games::new();
    let id = games.next_id();
    let mut game = game_with(id, &[]);
    game.players.push(player(1));
    game.players.push(player(2));
    games.insert(game);

    let request = RemovePlayerRequest { game_id: id, player_id: 2, reason: RemoveReason::PlayerKicked };
    let effects = handle_remove_player(&mut games, request).unwrap();
    assert!(matches!(effects[0], GameEffect::DissociatePool { index: 1, .. }));
    assert_eq!(player_ids(games.get_by_id(id).unwrap()), vec![1]);

    let effects = handle_replay_game(&mut games, ReplayGameRequest { game_id: id }).unwrap();
    assert_eq!(effects.len(), 2);
    assert_eq!(games.get_by_id(id).unwrap().state, GameState::PreGame);

    let request = RemovePlayerRequest { game_id: id, player_id: 1, reason: RemoveReason::PlayerLeft };
    let effects = handle_remove_player(&mut games, request).unwrap();
    assert!(matches!(effects.last(), Some(GameEffect::RemoveGame { .. })));
    assert_eq!(games.get_by_id(id).unwrap().state, GameState::Destructing);

    let missing = handle_replay_game(&mut games, ReplayGameRequest { game_id: 9 });
    assert_eq!(missing.err(), Some(GameManagerError::InvalidGameId));
}

#[test]
fn snapshot_pages_follow_game_ids() {
    let mut games = Games::new();
    for id in [5, 2, 9, 7] {
        games.insert(game_with(id, &[]));
    }
    let (page, more) = games.snapshot_page(0, 2);
    let ids: Vec<u32> = page.iter().map(|&i| games.games[i].id).collect();
    assert_eq!(ids, vec![2, 5]);
    assert!(more);
    let (page, more) = games.snapshot_page(2, 5);
    let ids: Vec<u32> = page.iter().map(|&i| games.games[i].id).collect();
    assert_eq!(ids, vec![7, 9]);
    assert!(!more);
    let (page, more) = games.snapshot_page(10, 5);
    assert!(page.is_empty());
    assert!(!more);
}

#[test]
fn create_snapshot_pages_players_and_nets() {
    let mut games = Games::new();
    let mut first = game_with(8, &[("ME3map", "map1")]);
    first.players.push(player(11));
    first.players.push(player(12));
    let second = game_with(3, &[]);
    games.insert(first);
    games.insert(second);
    let nets = vec![vec![Some(NetData::default_data()), None], vec![]];
    let (snapshots, more) = games.create_snapshot(0, 1, true, nets);
    assert!(more);
    assert_eq!(snapshots.len(), 1);
    assert_eq!(snapshots[0].id, 3);
    assert_eq!(snapshots[0].total_players, 0);
    assert_eq!(snapshots[0].players.as_ref().map(|p| p.len()), Some(0));

    let nets = vec![vec![Some(NetData::default_data()), None], vec![]];
    let (snapshots, more) = games.create_snapshot(1, 4, true, nets);
    assert!(!more);
    assert_eq!(snapshots.len(), 1);
    assert_eq!(snapshots[0].id, 8);
    assert_eq!(snapshots[0].total_players, 2);
    let players = snapshots[0].players.as_ref().unwrap();
    assert_eq!(players[0].player_id, 11);
    assert_eq!(players[0].display_name, "Player11");
    assert!(players[0].net.is_some());
    assert_eq!(players[1].player_id, 12);
    assert!(players[1].net.is_none());

    let nets = vec![vec![None, None], vec![]];
    let (snapshots, _) = games.create_snapshot(0, 2, false, nets);
    assert_eq!(snapshots.iter().map(|s| s.id).collect::<Vec<u32>>(), vec![3, 8]);
    assert!(snapshots.iter().all(|s| s.players.is_none()));
}
