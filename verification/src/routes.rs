//! Decisions of the game manager requests that change a running game: what
//! changes in the game store and the matchmaking queue, and which messages
//! go out. Sending the messages and writing reports is left to the caller.
use vstd::prelude::*;
use crate::attrs::AttrMap;
use crate::game::{notify_all, Game, GameEffect, GameJoinableState, GameMessage, GamePlayer, DEFAULT_REPORTING_ID};
use crate::matchmaking::{
    entry_players, lemma_game_index, lemma_queue_split_same_game, spec_game_index, spec_matchmaking_join_effects,
    spec_queue_join_effects, spec_queue_split, Games, Matchmaking, MatchmakingEntry,
};
use crate::models::game_manager::{
    AddAdminPlayerRequest, AdminListOperation, CreateGameRequest, CreateGameResponse, DatalessContext,
    GameManagerError, GameSetupContext, GameState, JoinGameResponse, JoinGameState, MatchmakingRequest, MatchmakingResponse, PlayerState,
    RemovePlayerRequest, ReplayGameRequest, ReportingIdChange, SetAttributesRequest, SetSettingRequest,
    SetStateRequest, SettingChange, StateChange, UpdateMeshRequest,
};
use crate::report::{is_finishing, GAME_STATE_ATTR, GAME_STATE_FINISHING};

verus! {

/// What a request setting the attributes of a game leads to.
pub struct SetAttributesOutcome {
    /// Messages for the players, in order
    pub effects: Vec<GameEffect>,
    /// Whether the host marked the match as finishing, so that a game
    /// report is due; it is built by `report::game_report` from the
    /// players' data stored once the match ends
    pub report: bool,
}

/// How a game (`before`, `after`) and the matchmaking queue (`queue_before`,
/// `queue_after`) change when `player_id` sets `attributes` on the game:
/// - the attributes are merged into the game's, and each player is sent
///   the attributes that were set;
/// - if the game then runs and has room, queued players whose rules it
///   matches join it, front of the queue first;
/// - a report is due when the attributes mark the match as finishing and
///   `player_id` is the game's host.
pub open spec fn spec_set_attributes(
    before: Game,
    after: Game,
    queue_before: Seq<MatchmakingEntry>,
    queue_after: Seq<MatchmakingEntry>,
    attributes: AttrMap,
    player_id: u32,
    outcome: SetAttributesOutcome,
) -> bool {
    let n = before.players@.len();
    let (joined, kept) = spec_queue_split(after, n as int, queue_before);
    &&& after.id == before.id
    &&& after.state == before.state
    &&& after.settings == before.settings
    &&& after.created_at == before.created_at
    &&& after.reporting_id == before.reporting_id
    &&& after.seed == before.seed
    &&& forall|k: Seq<char>| #[trigger] after.attributes.lookup(k) == (match attributes.lookup(k) {
        Some(v) => Some(v),
        None => before.attributes.lookup(k),
    })
    &&& outcome.effects@.len() >= n
    &&& forall|i: int| 0 <= i < n ==> (#[trigger] outcome.effects@[i] matches GameEffect::NotifyAttributes { to, change }
        && to == before.players@[i].player.id && change.id == before.id
        && change.attributes.view_pairs() == attributes.view_pairs())
    &&& if before.state != GameState::Destructing && n < 4 {
        &&& queue_after == kept
        &&& after.players@ == before.players@ + entry_players(joined)
        &&& outcome.effects@.skip(n as int) == spec_queue_join_effects(before.players@, before.id, entry_players(joined))
    } else {
        &&& queue_after == queue_before
        &&& after.players@ == before.players@
        &&& outcome.effects@.len() == n
    }
    &&& outcome.report == (attributes.lookup(GAME_STATE_ATTR@) == Some(GAME_STATE_FINISHING@)
        && after.players@.len() > 0 && after.players@[0].player.id == player_id)
}

/// Sets attributes on a game for the player `player_id`: the game with the
/// requested ID changes as `spec_set_attributes` says, the other games stay
/// as they were; a request for a game that does not exist is refused with
/// `InvalidGameId` and changes nothing.
pub fn handle_set_attributes(
    games: &mut Games,
    matchmaking: &mut Matchmaking,
    player_id: u32,
    request: SetAttributesRequest,
) -> (r: Result<SetAttributesOutcome, GameManagerError>)
    ensures
        final(games).next_id == old(games).next_id,
        match spec_game_index(old(games).games@, request.game_id) {
            None => r matches Err(e) && e == GameManagerError::InvalidGameId
                && final(games).games@ == old(games).games@
                && final(matchmaking).queue@ == old(matchmaking).queue@,
            Some(i) => r matches Ok(outcome)
                && final(games).games@ == old(games).games@.update(i, final(games).games@[i])
                && spec_set_attributes(old(games).games@[i], final(games).games@[i], old(matchmaking).queue@,
                    final(matchmaking).queue@, request.attributes, player_id, outcome),
        },
{
    let index = match games.index_of(request.game_id) {
        Some(i) => i,
        None => return Err(GameManagerError::InvalidGameId),
    };
    proof {
        lemma_game_index(games.games@, request.game_id);
    }
    let ghost games0 = games.games@;
    let ghost queue0 = matchmaking.queue@;
    let ghost attributes = request.attributes;
    let finishing = is_finishing(&request.attributes);
    let mut game = games.games.remove(index);
    let ghost before = game;
    let ghost n = before.players@.len();
    let mut effects = game.set_attributes(request.attributes);
    let ghost mid = game;
    if game.joinable_state(None) == GameJoinableState::Joinable {
        let mut joined = matchmaking.process_queue(&mut game);
        proof {
            lemma_queue_split_same_game(mid, game, n as int, queue0);
        }
        let ghost first = effects@;
        let ghost added = joined@;
        effects.append(&mut joined);
        proof {
            assert(effects@.skip(n as int) =~= added);
            assert forall|i: int| 0 <= i < n implies #[trigger] effects@[i] == first[i] by {}
        }
    }
    let report = finishing && game.is_host_player(player_id);
    let ghost after = game;
    games.games.insert(index, game);
    proof {
        assert(games.games@ =~= games0.update(index as int, after));
    }
    Ok(SetAttributesOutcome { effects, report })
}

/// Creates a game for `player` with the requested attributes and setting:
/// the game takes the next game ID and is stored after the others, the
/// player joins it as its connected host, then queued players whose rules
/// it matches join it, front of the queue first.
pub fn handle_create_game(
    games: &mut Games,
    matchmaking: &mut Matchmaking,
    player: GamePlayer,
    request: CreateGameRequest,
) -> (r: (CreateGameResponse, Vec<GameEffect>))
    ensures
        r.0.game_id == old(games).next_id,
        final(games).next_id == old(games).next_id.wrapping_add(1),
        final(games).games@.len() == old(games).games@.len() + 1,
        final(games).games@.drop_last() == old(games).games@,
        ({
            let game = final(games).games@.last();
            let host = GamePlayer { state: PlayerState::ActiveConnected, ..player };
            let context = GameSetupContext::Dataless { context: DatalessContext::CreateGameSetup };
            let (joined, kept) = spec_queue_split(game, 1, old(matchmaking).queue@);
            &&& game.id == old(games).next_id
            &&& game.attributes == request.attributes
            &&& game.settings == request.setting
            &&& game.state == GameState::Initializing
            &&& game.players@ == seq![host] + entry_players(joined)
            &&& final(matchmaking).queue@ == kept
            &&& r.1@ == Game::spec_join_effects(Seq::empty(), game.id, player.player.id, context)
                + spec_queue_join_effects(seq![host], game.id, entry_players(joined))
        }),
{
    let game_id = games.next_id();
    let mut game = Game::new(game_id, request.attributes, request.setting);
    let mut host = player;
    host.state = PlayerState::ActiveConnected;
    let ghost host0 = host;
    let context = GameSetupContext::Dataless { context: DatalessContext::CreateGameSetup };
    let (_slot, mut effects) = game.add_player_session(host, context);
    let ghost first = game;
    proof {
        assert(game.players@ =~= seq![host0]);
    }
    let mut joined = matchmaking.process_queue(&mut game);
    proof {
        lemma_queue_split_same_game(first, game, 1, old(matchmaking).queue@);
    }
    effects.append(&mut joined);
    games.insert(game);
    proof {
        assert(games.games@.drop_last() =~= old(games).games@);
    }
    (CreateGameResponse { game_id }, effects)
}

/// Starts matchmaking for `player` with the requested rules: the player
/// joins the first stored game that it can join; when there is none, it
/// enters the matchmaking queue.
pub fn handle_start_matchmaking(
    games: &mut Games,
    matchmaking: &mut Matchmaking,
    player: GamePlayer,
    request: MatchmakingRequest,
) -> (r: (MatchmakingResponse, Vec<GameEffect>))
    ensures
        r.0.id == player.player.id,
        final(games).next_id == old(games).next_id,
        ({
            let rules = request.rules;
            let before = old(games).games@;
            ||| exists|i: int| {
                &&& 0 <= i < before.len()
                &&& #[trigger] before[i].spec_joinable_state(Some(&rules)) == GameJoinableState::Joinable
                &&& forall|j: int| 0 <= j < i ==> #[trigger] before[j].spec_joinable_state(Some(&rules))
                    != GameJoinableState::Joinable
                &&& final(games).games@ == before.update(i, final(games).games@[i])
                &&& final(games).games@[i].players@ == before[i].players@.push(player)
                &&& final(games).games@[i].id == before[i].id
                &&& final(games).games@[i].state == before[i].state
                &&& final(games).games@[i].attributes == before[i].attributes
                &&& final(games).games@[i].settings == before[i].settings
                &&& r.1@ == spec_matchmaking_join_effects(before[i].players@, before[i].id, player.player.id)
                &&& final(matchmaking).queue@ == old(matchmaking).queue@
            }
            ||| {
                &&& forall|j: int| 0 <= j < before.len() ==> #[trigger] before[j].spec_joinable_state(Some(&rules))
                    != GameJoinableState::Joinable
                &&& final(games).games@ == before
                &&& r.1@.len() == 0
                &&& final(matchmaking).queue@.len() == old(matchmaking).queue@.len() + 1
                &&& final(matchmaking).queue@.drop_last() == old(matchmaking).queue@
                &&& final(matchmaking).queue@.last().player == player
                &&& final(matchmaking).queue@.last().rule_set == rules
            }
        }),
{
    let player_id = player.player.id;
    match games.get_by_rule_set(&request.rules) {
        Some((_game_id, index)) => {
            let ghost before = games.games@;
            let mut game = games.games.remove(index);
            let effects = Matchmaking::add_from_matchmaking(&mut game, player);
            let ghost after = game;
            games.games.insert(index, game);
            proof {
                assert(games.games@ =~= before.update(index as int, after));
                assert(before[index as int].spec_joinable_state(Some(&request.rules)) == GameJoinableState::Joinable);
            }
            (MatchmakingResponse { id: player_id }, effects)
        },
        None => {
            matchmaking.queue(player, request.rules);
            (MatchmakingResponse { id: player_id }, Vec::new())
        },
    }
}

/// Applies the mesh connection update of the last listed target, when the
/// player `player_id` is the game's host: the game changes as
/// `Game::spec_mesh_updated` says. A request without targets does nothing;
/// one for a game that does not exist is refused with `InvalidGameId`.
pub fn handle_update_mesh_connection(
    games: &mut Games,
    player_id: u32,
    request: UpdateMeshRequest,
) -> (r: Result<Vec<GameEffect>, GameManagerError>)
    ensures
        final(games).next_id == old(games).next_id,
        if request.targets@.len() == 0 {
            r matches Ok(effects) && effects@.len() == 0 && final(games).games@ == old(games).games@
        } else {
            let target = request.targets@.last();
            match spec_game_index(old(games).games@, request.game_id) {
                None => r matches Err(e) && e == GameManagerError::InvalidGameId
                    && final(games).games@ == old(games).games@,
                Some(i) => {
                    let before = old(games).games@[i];
                    r matches Ok(effects) && if before.players@.len() > 0 && before.players@[0].player.id == player_id {
                        &&& final(games).games@ == old(games).games@.update(i, final(games).games@[i])
                        &&& Game::spec_mesh_updated(before, final(games).games@[i], target.player_id, target.status, effects@)
                    } else {
                        final(games).games@ == old(games).games@ && effects@.len() == 0
                    }
                },
            }
        },
{
    let mut targets = request.targets;
    let target = match targets.pop() {
        Some(value) => value,
        None => return Ok(Vec::new()),
    };
    let index = match games.index_of(request.game_id) {
        Some(i) => i,
        None => return Err(GameManagerError::InvalidGameId),
    };
    proof {
        lemma_game_index(games.games@, request.game_id);
    }
    if !games.games[index].is_host_player(player_id) {
        return Ok(Vec::new());
    }
    let ghost before = games.games@;
    let mut game = games.games.remove(index);
    let effects = game.update_mesh(target.player_id, target.status);
    let ghost after = game;
    games.games.insert(index, game);
    proof {
        assert(games.games@ =~= before.update(index as int, after));
    }
    Ok(effects)
}

/// Adds `request.player_id` to the admin list of a game, when the player
/// `player_id` is the game's host; a request for a game that does not
/// exist is refused with `InvalidGameId`.
pub fn handle_add_admin_player(
    games: &Games,
    player_id: u32,
    request: AddAdminPlayerRequest,
) -> (r: Result<Vec<GameEffect>, GameManagerError>)
    ensures
        match spec_game_index(games.games@, request.game_id) {
            None => r matches Err(e) && e == GameManagerError::InvalidGameId,
            Some(i) => {
                let game = games.games@[i];
                r matches Ok(effects) && effects@ == if game.players@.len() > 0 && game.players@[0].player.id == player_id {
                    Game::spec_admin_list_effects(game.players@, game.id, request.player_id, AdminListOperation::Add)
                } else {
                    Seq::empty()
                }
            },
        },
{
    let game = match games.get_by_id(request.game_id) {
        Some(game) => game,
        None => return Err(GameManagerError::InvalidGameId),
    };
    if game.is_host_player(player_id) {
        Ok(game.add_admin_player(request.player_id))
    } else {
        Ok(Vec::new())
    }
}

/// Changes the state of a game, telling its players; a request for a game
/// that does not exist is refused with `InvalidGameId`.
pub fn handle_set_state(games: &mut Games, request: SetStateRequest) -> (r: Result<Vec<GameEffect>, GameManagerError>)
    ensures
        final(games).next_id == old(games).next_id,
        match spec_game_index(old(games).games@, request.game_id) {
            None => r matches Err(e) && e == GameManagerError::InvalidGameId
                && final(games).games@ == old(games).games@,
            Some(i) => {
                let before = old(games).games@[i];
                let after = final(games).games@[i];
                &&& final(games).games@ == old(games).games@.update(i, after)
                &&& after.state == request.state
                &&& after.players@ == before.players@
                &&& after.id == before.id
                &&& after.attributes == before.attributes
                &&& after.settings == before.settings
                &&& after.reporting_id == before.reporting_id
                &&& r matches Ok(effects) && effects@ == notify_all(before.players@,
                    GameMessage::StateChange(StateChange { id: before.id, state: request.state }))
            },
        },
{
    let index = match games.index_of(request.game_id) {
        Some(i) => i,
        None => return Err(GameManagerError::InvalidGameId),
    };
    proof {
        lemma_game_index(games.games@, request.game_id);
    }
    let ghost before = games.games@;
    let mut game = games.games.remove(index);
    let effects = game.set_state(request.state);
    let ghost after = game;
    games.games.insert(index, game);
    proof {
        assert(games.games@ =~= before.update(index as int, after));
    }
    Ok(effects)
}

/// Changes the setting of a game, telling its players; a request for a
/// game that does not exist is refused with `InvalidGameId`.
pub fn handle_set_setting(games: &mut Games, request: SetSettingRequest) -> (r: Result<Vec<GameEffect>, GameManagerError>)
    ensures
        final(games).next_id == old(games).next_id,
        match spec_game_index(old(games).games@, request.game_id) {
            None => r matches Err(e) && e == GameManagerError::InvalidGameId
                && final(games).games@ == old(games).games@,
            Some(i) => {
                let before = old(games).games@[i];
                let after = final(games).games@[i];
                &&& final(games).games@ == old(games).games@.update(i, after)
                &&& after.settings == request.setting
                &&& after.state == before.state
                &&& after.players@ == before.players@
                &&& after.id == before.id
                &&& after.attributes == before.attributes
                &&& after.reporting_id == before.reporting_id
                &&& r matches Ok(effects) && effects@ == notify_all(before.players@,
                    GameMessage::SettingChange(SettingChange { settings: request.setting, id: before.id }))
            },
        },
{
    let index = match games.index_of(request.game_id) {
        Some(i) => i,
        None => return Err(GameManagerError::InvalidGameId),
    };
    proof {
        lemma_game_index(games.games@, request.game_id);
    }
    let ghost before = games.games@;
    let mut game = games.games.remove(index);
    let effects = game.set_settings(request.setting);
    let ghost after = game;
    games.games.insert(index, game);
    proof {
        assert(games.games@ =~= before.update(index as int, after));
    }
    Ok(effects)
}

/// Joins `player` to the game of another player, given what looking that
/// player's session up found (`target`: `None` when it has no session,
/// `Some(None)` when it is in no game): a missing session is refused with
/// `JoinPlayerFailed`, a missing game with `InvalidGameId`, and a game that
/// is stopping or full with `GameFull`; otherwise the player joins the
/// game as a player joining by ID.
pub fn handle_join_game(
    games: &mut Games,
    player: GamePlayer,
    target: Option<Option<u32>>,
) -> (r: Result<(JoinGameResponse, Vec<GameEffect>), GameManagerError>)
    ensures
        final(games).next_id == old(games).next_id,
        match target {
            None => r matches Err(e) && e == GameManagerError::JoinPlayerFailed
                && final(games).games@ == old(games).games@,
            Some(None) => r matches Err(e) && e == GameManagerError::InvalidGameId
                && final(games).games@ == old(games).games@,
            Some(Some(game_id)) => match spec_game_index(old(games).games@, game_id) {
                None => r matches Err(e) && e == GameManagerError::InvalidGameId
                    && final(games).games@ == old(games).games@,
                Some(i) => {
                    let before = old(games).games@[i];
                    if before.state == GameState::Destructing || before.players@.len() >= 4 {
                        r matches Err(e) && e == GameManagerError::GameFull
                            && final(games).games@ == old(games).games@
                    } else {
                        let after = final(games).games@[i];
                        let context = GameSetupContext::Dataless { context: DatalessContext::JoinGameSetup };
                        &&& final(games).games@ == old(games).games@.update(i, after)
                        &&& after.players@ == before.players@.push(player)
                        &&& after.id == before.id
                        &&& after.state == before.state
                        &&& after.attributes == before.attributes
                        &&& after.settings == before.settings
                        &&& r matches Ok((response, effects)) && response.game_id == game_id
                            && response.state == JoinGameState::JoinedGame
                            && effects@ == Game::spec_join_effects(before.players@, game_id, player.player.id, context)
                    }
                },
            },
        },
{
    let game_id = match target {
        None => return Err(GameManagerError::JoinPlayerFailed),
        Some(None) => return Err(GameManagerError::InvalidGameId),
        Some(Some(id)) => id,
    };
    let index = match games.index_of(game_id) {
        Some(i) => i,
        None => return Err(GameManagerError::InvalidGameId),
    };
    proof {
        lemma_game_index(games.games@, game_id);
    }
    if games.games[index].joinable_state(None) != GameJoinableState::Joinable {
        return Err(GameManagerError::GameFull);
    }
    let ghost before = games.games@;
    let mut game = games.games.remove(index);
    let context = GameSetupContext::Dataless { context: DatalessContext::JoinGameSetup };
    let (_slot, effects) = game.add_player_session(player, context);
    let ghost after = game;
    games.games.insert(index, game);
    proof {
        assert(games.games@ =~= before.update(index as int, after));
    }
    Ok((JoinGameResponse { game_id, state: JoinGameState::JoinedGame }, effects))
}

/// Removes a player from a game as `Game::spec_player_removed` says; a
/// request for a game that does not exist is refused with `InvalidGameId`.
pub fn handle_remove_player(games: &mut Games, request: RemovePlayerRequest) -> (r: Result<Vec<GameEffect>, GameManagerError>)
    ensures
        final(games).next_id == old(games).next_id,
        match spec_game_index(old(games).games@, request.game_id) {
            None => r matches Err(e) && e == GameManagerError::InvalidGameId
                && final(games).games@ == old(games).games@,
            Some(i) => r matches Ok(effects)
                && final(games).games@ == old(games).games@.update(i, final(games).games@[i])
                && Game::spec_player_removed(old(games).games@[i], final(games).games@[i], request.player_id,
                    request.reason, effects@),
        },
{
    let index = match games.index_of(request.game_id) {
        Some(i) => i,
        None => return Err(GameManagerError::InvalidGameId),
    };
    proof {
        lemma_game_index(games.games@, request.game_id);
    }
    let ghost before = games.games@;
    let mut game = games.games.remove(index);
    let effects = game.remove_player(request.player_id, request.reason);
    let ghost after = game;
    games.games.insert(index, game);
    proof {
        assert(games.games@ =~= before.update(index as int, after));
    }
    Ok(effects)
}

/// Resets a game for a replay: its state becomes pre-game and its
/// reporting ID the default, and its players are told of both; a request
/// for a game that does not exist is refused with `InvalidGameId`.
pub fn handle_replay_game(games: &mut Games, request: ReplayGameRequest) -> (r: Result<Vec<GameEffect>, GameManagerError>)
    ensures
        final(games).next_id == old(games).next_id,
        match spec_game_index(old(games).games@, request.game_id) {
            None => r matches Err(e) && e == GameManagerError::InvalidGameId
                && final(games).games@ == old(games).games@,
            Some(i) => {
                let before = old(games).games@[i];
                let after = final(games).games@[i];
                &&& final(games).games@ == old(games).games@.update(i, after)
                &&& after.state == GameState::PreGame
                &&& after.reporting_id == DEFAULT_REPORTING_ID
                &&& after.players@ == before.players@
                &&& after.id == before.id
                &&& r matches Ok(effects) && effects@ == notify_all(before.players@,
                    GameMessage::StateChange(StateChange { id: before.id, state: GameState::PreGame }))
                    + notify_all(before.players@, GameMessage::ReportingIdChange(ReportingIdChange {
                        id: before.id,
                        grid: DEFAULT_REPORTING_ID,
                    }))
            },
        },
{
    let index = match games.index_of(request.game_id) {
        Some(i) => i,
        None => return Err(GameManagerError::InvalidGameId),
    };
    proof {
        lemma_game_index(games.games@, request.game_id);
    }
    let ghost before = games.games@;
    let mut game = games.games.remove(index);
    let effects = game.replay();
    let ghost after = game;
    games.games.insert(index, game);
    proof {
        assert(games.games@ =~= before.update(index as int, after));
    }
    Ok(effects)
}

} // verus!
