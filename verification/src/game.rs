//! Games: their players, state, settings and attributes, and the effects
//! (notifications, subscriptions, tunnel changes) that each change to a
//! game asks the server to carry out.
use vstd::prelude::*;
use crate::attrs::{AttrMap, copy_pairs};
use crate::rules::RuleSet;
use crate::models::Player;
use crate::models::game_manager::{
    AdminListChange, AdminListOperation, AsyncMatchmakingStatus, AttributesChange, GameSettings,
    GameSetupContext, GameState, HostMigrateFinished, HostMigrateStart, JoinComplete, PlayerJoining,
    PlayerNetConnectionStatus, PlayerRemoved, PlayerState, PlayerStateChange, RemoveReason,
    ReportingIdChange, SettingChange, SlotType, StateChange, UNSPECIFIED_TEAM_INDEX, GetGameDetails,
    game_details_bytes,
};
use crate::models::net::{NetworkAddress, network_address_bytes};
use crate::models::util::LOCALE_NZ;
use crate::encode::{
    tag_blob_empty, tag_group_end, tag_object_id, tag_str, tag_u16, tag_u32, tag_u8, tag_usize,
    tdf_tag_blob_empty, tdf_tag_object_id, tdf_tag_str, tdf_tag_u16, tdf_tag_u32, tdf_tag_u8,
    tdf_tag_usize,
};

verus! {

/// Snapshot of a player's data when they entered the game.
pub struct GamePlayerPlayerDataSnapshot {
    pub data: Vec<(String, String)>,
}

/// A player within a game.
pub struct GamePlayer {
    /// Session player
    pub player: Player,
    /// The mesh state of the player
    pub state: PlayerState,
    /// Snapshot of the player data when they entered the game
    pub data_snapshot: GamePlayerPlayerDataSnapshot,
}

impl GamePlayer {
    /// Creates a new game player that is still connecting.
    pub fn new(player: Player, data_snapshot: GamePlayerPlayerDataSnapshot) -> (r: GamePlayer)
        ensures
            r.player == player,
            r.state == PlayerState::ActiveConnecting,
            r.data_snapshot.data@ == data_snapshot.data@,
    {
        GamePlayer { player, state: PlayerState::ActiveConnecting, data_snapshot }
    }

    /// Writes the body of the group that describes this player in slot
    /// `slot` of game `game_id`, `addr` being the player's network address.
    pub fn encode(&self, game_id: u32, slot: usize, addr: &NetworkAddress, w: &mut Vec<u8>)
        ensures
            final(w)@ == old(w)@ + game_player_body(*self, game_id, slot, *addr),
    {
        // Custom data
        tag_blob_empty(w, ['B', 'L', 'O', 'B']);
        // External ID
        tag_u8(w, ['E', 'X', 'I', 'D'], 0);
        tag_u32(w, ['G', 'I', 'D', '\0'], game_id);
        // Account locale
        tag_u32(w, ['L', 'O', 'C', '\0'], LOCALE_NZ);
        tag_str(w, ['N', 'A', 'M', 'E'], self.player.display_name.as_str());
        tag_u32(w, ['P', 'I', 'D', '\0'], self.player.id);
        // Player network data
        addr.serialize(['P', 'N', 'E', 'T'], w);
        // Slot ID and type
        tag_usize(w, ['S', 'I', 'D', '\0'], slot);
        tag_u8(w, ['S', 'L', 'O', 'T'], SlotType::PublicParticipant.value());
        tag_u8(w, ['S', 'T', 'A', 'T'], self.state.value());
        // Team index
        tag_u16(w, ['T', 'I', 'D', 'X'], UNSPECIFIED_TEAM_INDEX);
        // Join time
        tag_u8(w, ['T', 'I', 'M', 'E'], 0);
        // User group ID
        tag_object_id(w, ['U', 'G', 'I', 'D'], 0, 0, 0);
        // Player session ID
        tag_u32(w, ['U', 'I', 'D', '\0'], self.player.id);
        tag_group_end(w);
        proof {
            assert(w@ =~= old(w)@ + game_player_body(*self, game_id, slot, *addr));
        }
    }
}

/// Bytes of the body of the group that describes `player` in slot `slot`
/// of game `game_id` with network address `addr`: an empty custom data
/// blob, external ID 0, the game, the locale, the player's name and ID,
/// the address (`PNET`), the slot as a public slot, the player's state,
/// an unspecified team, join time 0, the user group ID 0/0/0, the player
/// as session ID, then the end of the group.
pub open spec fn game_player_body(player: GamePlayer, game_id: u32, slot: usize, addr: NetworkAddress) -> Seq<u8> {
    tdf_tag_blob_empty(['B', 'L', 'O', 'B']) + tdf_tag_u8(['E', 'X', 'I', 'D'], 0)
        + tdf_tag_u32(['G', 'I', 'D', '\0'], game_id) + tdf_tag_u32(['L', 'O', 'C', '\0'], LOCALE_NZ)
        + tdf_tag_str(['N', 'A', 'M', 'E'], player.player.display_name@)
        + tdf_tag_u32(['P', 'I', 'D', '\0'], player.player.id) + network_address_bytes(['P', 'N', 'E', 'T'], addr)
        + tdf_tag_usize(['S', 'I', 'D', '\0'], slot)
        + tdf_tag_u8(['S', 'L', 'O', 'T'], SlotType::PublicParticipant.spec_value())
        + tdf_tag_u8(['S', 'T', 'A', 'T'], player.state.spec_value())
        + tdf_tag_u16(['T', 'I', 'D', 'X'], UNSPECIFIED_TEAM_INDEX) + tdf_tag_u8(['T', 'I', 'M', 'E'], 0)
        + tdf_tag_object_id(['U', 'G', 'I', 'D'], 0, 0, 0) + tdf_tag_u32(['U', 'I', 'D', '\0'], player.player.id)
        + seq![0u8]
}

/// Whether a game can be joined.
#[derive(Debug, Clone, Copy, PartialEq, Eq, Structural)]
pub enum GameJoinableState {
    /// Game is currently joinable
    Joinable,
    /// Game is full
    Full,
    /// The game doesn't match the provided rules
    NotMatch,
    /// The game is stopping
    Stopping,
}

/// A notification sent to a player of a game.
#[derive(Clone, Copy, PartialEq, Eq, Structural)]
pub enum GameMessage {
    PlayerJoining(PlayerJoining),
    /// The game setup of the game as it stands after the change
    GameSetup(GameSetupContext),
    PlayerStateChange(PlayerStateChange),
    JoinComplete(JoinComplete),
    PlayerRemoved(PlayerRemoved),
    AdminListChange(AdminListChange),
    StateChange(StateChange),
    ReportingIdChange(ReportingIdChange),
    SettingChange(SettingChange),
    HostMigrateStart(HostMigrateStart),
    HostMigrateFinished(HostMigrateFinished),
    AsyncMatchmakingStatus(AsyncMatchmakingStatus),
}

/// Something the server must do as a result of a change to a game.
pub enum GameEffect {
    /// Send `message` to the session of player `to`
    Notify { to: u32, message: GameMessage },
    /// Send an attribute change to the session of player `to`
    NotifyAttributes { to: u32, change: AttributesChange },
    /// Subscribe player `subscriber` to the session data of player `target`
    Subscribe { target: u32, subscriber: u32 },
    /// Remove the subscription of `subscriber` from player `target`
    Unsubscribe { target: u32, subscriber: u32 },
    /// Clear the current game of player `player_id`
    ClearGame { player_id: u32 },
    /// Remove the tunnel in slot `index` of the pool of game `game_id`
    DissociatePool { game_id: u32, index: u8 },
    /// Put the tunnel of player `player_id` (if any) in slot `index` of game `game_id`
    AssociatePool { player_id: u32, game_id: u32, index: u8 },
    /// Record that player `player_id` is in game `game_id`
    SetGame { player_id: u32, game_id: u32 },
    /// Remove game `game_id` from the game store
    RemoveGame { game_id: u32 },
}

/// A notification of `message` to each of `players`, in order.
pub open spec fn notify_all(players: Seq<GamePlayer>, message: GameMessage) -> Seq<GameEffect> {
    Seq::new(players.len(), |i: int| GameEffect::Notify { to: players[i].player.id, message })
}

/// Subscription effects linking `target` with every other player of
/// `players`: for each other player, the target subscribes to it and it
/// subscribes to the target.
pub open spec fn subscribe_effects(players: Seq<GamePlayer>, target: u32) -> Seq<GameEffect>
    decreases players.len(),
{
    if players.len() == 0 {
        Seq::empty()
    } else {
        let rest = subscribe_effects(players.drop_last(), target);
        let other = players.last().player.id;
        if other != target {
            rest + seq![
                GameEffect::Subscribe { target, subscriber: other },
                GameEffect::Subscribe { target: other, subscriber: target },
            ]
        } else {
            rest
        }
    }
}

/// Effects removing the subscriptions between `target` and every other
/// player of `players`.
pub open spec fn unsubscribe_effects(players: Seq<GamePlayer>, target: u32) -> Seq<GameEffect>
    decreases players.len(),
{
    if players.len() == 0 {
        Seq::empty()
    } else {
        let rest = unsubscribe_effects(players.drop_last(), target);
        let other = players.last().player.id;
        if other != target {
            rest + seq![
                GameEffect::Unsubscribe { target, subscriber: other },
                GameEffect::Unsubscribe { target: other, subscriber: target },
            ]
        } else {
            rest
        }
    }
}

/// Every effect of `subscribe_effects(players, target)` is a subscription
/// between `target` and another player of `players`, and for each other
/// player both directions are there: `target` subscribes to it and it
/// subscribes to `target`.
pub proof fn lemma_subscriptions_symmetric(players: Seq<GamePlayer>, target: u32)
    ensures
        forall|i: int| 0 <= i < players.len() && #[trigger] players[i].player.id != target ==> {
            &&& subscribe_effects(players, target).contains(GameEffect::Subscribe {
                target,
                subscriber: players[i].player.id,
            })
            &&& subscribe_effects(players, target).contains(GameEffect::Subscribe {
                target: players[i].player.id,
                subscriber: target,
            })
        },
        forall|k: int| 0 <= k < subscribe_effects(players, target).len() ==> (
        #[trigger] subscribe_effects(players, target)[k] matches GameEffect::Subscribe { target: a, subscriber: b }
            && (a == target) != (b == target) && exists|i: int|
            0 <= i < players.len() && (#[trigger] players[i].player.id == a || players[i].player.id == b)
                && players[i].player.id != target),
    decreases players.len(),
{
    if players.len() > 0 {
        let init = players.drop_last();
        lemma_subscriptions_symmetric(init, target);
        let rest = subscribe_effects(init, target);
        let all = subscribe_effects(players, target);
        let other = players.last().player.id;
        assert forall|i: int| 0 <= i < players.len() && #[trigger] players[i].player.id != target implies {
            &&& all.contains(GameEffect::Subscribe { target, subscriber: players[i].player.id })
            &&& all.contains(GameEffect::Subscribe { target: players[i].player.id, subscriber: target })
        } by {
            if i < players.len() - 1 {
                assert(init[i] == players[i]);
                let x = GameEffect::Subscribe { target, subscriber: players[i].player.id };
                let y = GameEffect::Subscribe { target: players[i].player.id, subscriber: target };
                assert(rest.contains(x));
                assert(rest.contains(y));
                let kx = choose|k: int| 0 <= k < rest.len() && rest[k] == x;
                let ky = choose|k: int| 0 <= k < rest.len() && rest[k] == y;
                assert(all[kx] == x);
                assert(all[ky] == y);
            } else {
                assert(all[rest.len() as int] == GameEffect::Subscribe { target, subscriber: other });
                assert(all[rest.len() as int + 1] == GameEffect::Subscribe { target: other, subscriber: target });
            }
        }
        assert forall|k: int| 0 <= k < all.len() implies (#[trigger] all[k] matches GameEffect::Subscribe {
            target: a,
            subscriber: b,
        } && (a == target) != (b == target) && exists|i: int|
            0 <= i < players.len() && (#[trigger] players[i].player.id == a || players[i].player.id == b)
                && players[i].player.id != target) by {
            if k < rest.len() {
                assert(all[k] == rest[k]);
                let i = choose|i: int|
                    0 <= i < init.len() && (#[trigger] init[i].player.id == all[k]->Subscribe_target || init[i].player.id
                        == all[k]->Subscribe_subscriber) && init[i].player.id != target;
                assert(players[i] == init[i]);
            } else {
                assert(players[players.len() - 1].player.id == other);
            }
        }
    }
}

/// Removing a player undoes joining: the effects dropping the links of
/// `target` are those made when it joined, each subscription turned into
/// the removal of the same subscription.
pub proof fn lemma_unsubscribe_mirrors_subscribe(players: Seq<GamePlayer>, target: u32)
    ensures
        unsubscribe_effects(players, target).len() == subscribe_effects(players, target).len(),
        forall|k: int| 0 <= k < subscribe_effects(players, target).len() ==> (
        #[trigger] subscribe_effects(players, target)[k] matches GameEffect::Subscribe { target: a, subscriber: b }
            && unsubscribe_effects(players, target)[k] == (GameEffect::Unsubscribe { target: a, subscriber: b })),
    decreases players.len(),
{
    if players.len() > 0 {
        lemma_unsubscribe_mirrors_subscribe(players.drop_last(), target);
        let s0 = subscribe_effects(players.drop_last(), target);
        let u0 = unsubscribe_effects(players.drop_last(), target);
        let s = subscribe_effects(players, target);
        let u = unsubscribe_effects(players, target);
        assert forall|k: int| 0 <= k < s.len() implies (#[trigger] s[k] matches GameEffect::Subscribe {
            target: a,
            subscriber: b,
        } && u[k] == (GameEffect::Unsubscribe { target: a, subscriber: b })) by {
            if k < s0.len() {
                assert(s[k] == s0[k]);
                assert(u[k] == u0[k]);
            }
        }
    }
}

/// The index of the first player of `players` with the ID `id`.
pub open spec fn spec_player_index(players: Seq<GamePlayer>, id: u32) -> Option<int>
    decreases players.len(),
{
    if players.len() == 0 {
        None
    } else if players[0].player.id == id {
        Some(0)
    } else {
        match spec_player_index(players.drop_first(), id) {
            Some(i) => Some(i + 1),
            None => None,
        }
    }
}

/// A game hosted on the server.
pub struct Game {
    /// Unique ID for this game
    pub id: u32,
    /// The current game state
    pub state: GameState,
    /// The current game setting
    pub settings: GameSettings,
    /// The game attributes
    pub attributes: AttrMap,
    /// When the game was created (seconds since the Unix epoch)
    pub created_at: i64,
    /// Players currently in the game, the host first
    pub players: Vec<GamePlayer>,
    /// ID used when reporting game results
    pub reporting_id: u64,
    /// Randomness seed used by players
    pub seed: u32,
}

/// The reporting ID given to new and replayed games.
pub const DEFAULT_REPORTING_ID: u64 = 18014398695176361;

/// The fit score reported for matchmaking joins.
pub const DEFAULT_FIT: u16 = 21600;

/// A random 32 bit value from `rand::random`. Nothing is stated of the
/// value: it is drawn from the thread's random number generator.
#[verifier::external_body]
fn random_u32() -> (r: u32) {
    rand::random::<u32>()
}

/// Builds a list of notifications of `message` to every player.
fn notify_players(players: &Vec<GamePlayer>, message: GameMessage) -> (r: Vec<GameEffect>)
    ensures
        r@ == notify_all(players@, message),
{
    let mut out: Vec<GameEffect> = Vec::new();
    let mut i: usize = 0;
    while i < players.len()
        invariant
            0 <= i <= players@.len(),
            out@ == notify_all(players@.take(i as int), message),
        decreases players@.len() - i,
    {
        out.push(GameEffect::Notify { to: players[i].player.id, message });
        i = i + 1;
        assert(out@ =~= notify_all(players@.take(i as int), message));
    }
    assert(players@.take(players@.len() as int) =~= players@);
    out
}

/// Builds the subscription (or, with `subscribe` false, unsubscription)
/// effects between `target` and the other players.
fn link_effects(players: &Vec<GamePlayer>, target: u32, subscribe: bool) -> (r: Vec<GameEffect>)
    ensures
        subscribe ==> r@ == subscribe_effects(players@, target),
        !subscribe ==> r@ == unsubscribe_effects(players@, target),
{
    let mut out: Vec<GameEffect> = Vec::new();
    let mut i: usize = 0;
    while i < players.len()
        invariant
            0 <= i <= players@.len(),
            subscribe ==> out@ == subscribe_effects(players@.take(i as int), target),
            !subscribe ==> out@ == unsubscribe_effects(players@.take(i as int), target),
        decreases players@.len() - i,
    {
        proof {
            assert(players@.take(i + 1).drop_last() =~= players@.take(i as int));
        }
        let other = players[i].player.id;
        if other != target {
            if subscribe {
                out.push(GameEffect::Subscribe { target, subscriber: other });
                out.push(GameEffect::Subscribe { target: other, subscriber: target });
            } else {
                out.push(GameEffect::Unsubscribe { target, subscriber: other });
                out.push(GameEffect::Unsubscribe { target: other, subscriber: target });
            }
        }
        i = i + 1;
        proof {
            if subscribe {
                assert(out@ =~= subscribe_effects(players@.take(i as int), target));
            } else {
                assert(out@ =~= unsubscribe_effects(players@.take(i as int), target));
            }
        }
    }
    assert(players@.take(players@.len() as int) =~= players@);
    out
}

/// Finds the index of the first player with the ID `id`.
fn find_player(players: &Vec<GamePlayer>, id: u32) -> (r: Option<usize>)
    ensures
        r matches Some(i) ==> spec_player_index(players@, id) == Some(i as int),
        r is None ==> spec_player_index(players@, id) is None,
{
    let n = players.len();
    let mut i: usize = 0;
    proof {
        assert(players@.skip(0) =~= players@);
    }
    while i < n
        invariant
            n == players@.len(),
            0 <= i <= n,
            spec_player_index(players@, id) == (match spec_player_index(players@.skip(i as int), id) {
                Some(j) => Some(j + i),
                None => None,
            }),
        decreases n - i,
    {
        proof {
            assert(players@.skip(i as int)[0] == players@[i as int]);
            assert(players@.skip(i as int).drop_first() =~= players@.skip(i + 1));
        }
        if players[i].player.id == id {
            return Some(i);
        }
        i = i + 1;
    }
    proof {
        assert(players@.skip(n as int).len() == 0);
    }
    None
}

/// The first player with the ID `id` is at the index found for it.
pub proof fn lemma_player_index(players: Seq<GamePlayer>, id: u32)
    ensures
        spec_player_index(players, id) matches Some(i) ==> 0 <= i < players.len()
            && players[i].player.id == id
            && forall|j: int| 0 <= j < i ==> #[trigger] players[j].player.id != id,
        spec_player_index(players, id) is None ==> forall|j: int|
            0 <= j < players.len() ==> #[trigger] players[j].player.id != id,
    decreases players.len(),
{
    if players.len() > 0 {
        lemma_player_index(players.drop_first(), id);
        assert forall|j: int| 1 <= j < players.len() implies #[trigger] players[j].player.id
            == players.drop_first()[j - 1].player.id by {}
    }
}

impl Game {
    /// The maximum number of players allowed in a game at one time.
    pub const MAX_PLAYERS: usize = 4;

    /// The details of this game, its host (the first player) being at
    /// `host_addr`; empty for a game without players.
    pub fn game_data(&self, host_addr: &NetworkAddress) -> (r: Vec<u8>)
        ensures
            self.players@.len() == 0 ==> r@.len() == 0,
            self.players@.len() > 0 ==> r@ == game_details_bytes(*self, *host_addr),
    {
        let mut w: Vec<u8> = Vec::new();
        let details = GetGameDetails { game: self };
        details.serialize(host_addr, &mut w);
        proof {
            if self.players@.len() > 0 {
                assert(w@ =~= game_details_bytes(*self, *host_addr));
            }
        }
        w
    }

    /// Whether a game is joinable for a player searching with `rule_set`.
    pub open spec fn spec_joinable_state(&self, rule_set: Option<&RuleSet>) -> GameJoinableState {
        if self.state == GameState::Destructing {
            GameJoinableState::Stopping
        } else if self.players@.len() >= 4 {
            GameJoinableState::Full
        } else if rule_set matches Some(rs) && !rs.spec_matches(self.attributes) {
            GameJoinableState::NotMatch
        } else {
            GameJoinableState::Joinable
        }
    }

    /// Creates a game with the given creation time and seed.
    pub fn new_with(id: u32, attributes: AttrMap, settings: GameSettings, created_at: i64, seed: u32) -> (r: Game)
        ensures
            r.id == id,
            r.attributes == attributes,
            r.settings == settings,
            r.state == GameState::Initializing,
            r.players@.len() == 0,
            r.created_at == created_at,
            r.reporting_id == DEFAULT_REPORTING_ID,
            r.seed == seed,
    {
        Game {
            id,
            attributes,
            settings,
            state: GameState::default_state(),
            players: Vec::new(),
            created_at,
            reporting_id: DEFAULT_REPORTING_ID,
            seed,
        }
    }

    /// Creates a game created now with a random seed.
    pub fn new(id: u32, attributes: AttrMap, settings: GameSettings) -> (r: Game)
        ensures
            r.id == id,
            r.attributes == attributes,
            r.settings == settings,
            r.state == GameState::Initializing,
            r.players@.len() == 0,
            r.reporting_id == DEFAULT_REPORTING_ID,
    {
        let seed = random_u32();
        let created_at = crate::clock::unix_timestamp();
        Self::new_with(id, attributes, settings, created_at, seed)
    }

    /// Whether the player `player_id` is the host (the first player).
    pub fn is_host_player(&self, player_id: u32) -> (r: bool)
        ensures
            r == (self.players@.len() > 0 && self.players@[0].player.id == player_id),
    {
        self.players.len() > 0 && self.players[0].player.id == player_id
    }

    /// Whether this game can be joined by a player (searching with
    /// `rule_set`, if given).
    pub fn joinable_state(&self, rule_set: Option<&RuleSet>) -> (r: GameJoinableState)
        ensures
            r == self.spec_joinable_state(rule_set),
    {
        if let GameState::Destructing = self.state {
            return GameJoinableState::Stopping;
        }
        if self.players.len() >= Self::MAX_PLAYERS {
            return GameJoinableState::Full;
        }
        if let Some(rule_set) = rule_set {
            if !rule_set.matches(&self.attributes) {
                return GameJoinableState::NotMatch;
            }
        }
        GameJoinableState::Joinable
    }

    /// Changes the game state and notifies every player.
    pub fn set_state(&mut self, state: GameState) -> (r: Vec<GameEffect>)
        ensures
            final(self).state == state,
            final(self).players@ == old(self).players@,
            final(self).id == old(self).id,
            final(self).attributes == old(self).attributes,
            final(self).settings == old(self).settings,
            final(self).reporting_id == old(self).reporting_id,
            r@ == notify_all(old(self).players@, GameMessage::StateChange(StateChange { id: old(self).id, state })),
    {
        self.state = state;
        notify_players(&self.players, GameMessage::StateChange(StateChange { id: self.id, state }))
    }

    /// Changes the reporting ID and notifies every player.
    pub fn set_game_reporting_id(&mut self, reporting_id: u64) -> (r: Vec<GameEffect>)
        ensures
            final(self).reporting_id == reporting_id,
            final(self).state == old(self).state,
            final(self).players@ == old(self).players@,
            final(self).id == old(self).id,
            final(self).attributes == old(self).attributes,
            final(self).settings == old(self).settings,
            r@ == notify_all(old(self).players@, GameMessage::ReportingIdChange(ReportingIdChange {
                id: old(self).id,
                grid: reporting_id,
            })),
    {
        self.reporting_id = reporting_id;
        notify_players(&self.players, GameMessage::ReportingIdChange(ReportingIdChange { id: self.id, grid: reporting_id }))
    }

    /// Changes the settings and notifies every player.
    pub fn set_settings(&mut self, settings: GameSettings) -> (r: Vec<GameEffect>)
        ensures
            final(self).settings == settings,
            final(self).state == old(self).state,
            final(self).players@ == old(self).players@,
            final(self).id == old(self).id,
            final(self).attributes == old(self).attributes,
            final(self).reporting_id == old(self).reporting_id,
            r@ == notify_all(old(self).players@, GameMessage::SettingChange(SettingChange {
                settings,
                id: old(self).id,
            })),
    {
        self.settings = settings;
        notify_players(&self.players, GameMessage::SettingChange(SettingChange { settings, id: self.id }))
    }

    /// Resets the game to its pre-game state for a replay.
    pub fn replay(&mut self) -> (r: Vec<GameEffect>)
        ensures
            final(self).state == GameState::PreGame,
            final(self).reporting_id == DEFAULT_REPORTING_ID,
            final(self).players@ == old(self).players@,
            final(self).id == old(self).id,
            r@ == notify_all(old(self).players@, GameMessage::StateChange(StateChange {
                id: old(self).id,
                state: GameState::PreGame,
            })) + notify_all(old(self).players@, GameMessage::ReportingIdChange(ReportingIdChange {
                id: old(self).id,
                grid: DEFAULT_REPORTING_ID,
            })),
    {
        let mut effects = self.set_state(GameState::PreGame);
        let mut more = self.set_game_reporting_id(DEFAULT_REPORTING_ID);
        effects.append(&mut more);
        effects
    }

    /// Sends an admin list change about `target` to every player; nothing
    /// when the game has no host.
    pub open spec fn spec_admin_list_effects(players: Seq<GamePlayer>, game_id: u32, target: u32, operation: AdminListOperation) -> Seq<GameEffect> {
        if players.len() == 0 {
            Seq::empty()
        } else {
            notify_all(players, GameMessage::AdminListChange(AdminListChange {
                player_id: target,
                game_id,
                operation,
                host_id: players[0].player.id,
            }))
        }
    }

    fn modify_admin_list(&self, target: u32, operation: AdminListOperation) -> (r: Vec<GameEffect>)
        ensures
            r@ == Self::spec_admin_list_effects(self.players@, self.id, target, operation),
    {
        if self.players.len() == 0 {
            return Vec::new();
        }
        let host_id = self.players[0].player.id;
        notify_players(&self.players, GameMessage::AdminListChange(AdminListChange {
            player_id: target,
            game_id: self.id,
            operation,
            host_id,
        }))
    }

    /// Adds `target_id` to the (pseudo) admin list: tells every player.
    pub fn add_admin_player(&self, target_id: u32) -> (r: Vec<GameEffect>)
        ensures
            r@ == Self::spec_admin_list_effects(self.players@, self.id, target_id, AdminListOperation::Add),
    {
        self.modify_admin_list(target_id, AdminListOperation::Add)
    }

    /// Adds a player in the next slot: links its session data with every
    /// other player, tells the players already present that it is joining,
    /// then sends it the game setup. Returns the slot and the effects.
    pub fn add_player(&mut self, player: GamePlayer, context: GameSetupContext) -> (r: (usize, Vec<GameEffect>))
        ensures
            r.0 == old(self).players@.len(),
            final(self).players@ == old(self).players@.push(player),
            final(self).id == old(self).id,
            final(self).state == old(self).state,
            final(self).attributes == old(self).attributes,
            final(self).settings == old(self).settings,
            final(self).created_at == old(self).created_at,
            final(self).reporting_id == old(self).reporting_id,
            final(self).seed == old(self).seed,
            r.1@ == subscribe_effects(old(self).players@, player.player.id)
                + notify_all(old(self).players@, GameMessage::PlayerJoining(PlayerJoining {
                    slot: r.0,
                    player_id: player.player.id,
                    game_id: old(self).id,
                }))
                + seq![GameEffect::Notify { to: player.player.id, message: GameMessage::GameSetup(context) }],
            forall|i: int| 0 <= i < old(self).players@.len() && #[trigger] old(self).players@[i].player.id
                != player.player.id ==> {
                &&& r.1@.contains(GameEffect::Subscribe {
                    target: player.player.id,
                    subscriber: old(self).players@[i].player.id,
                })
                &&& r.1@.contains(GameEffect::Subscribe {
                    target: old(self).players@[i].player.id,
                    subscriber: player.player.id,
                })
            },
    {
        let slot = self.players.len();
        let player_id = player.player.id;
        proof {
            lemma_subscriptions_symmetric(self.players@, player_id);
        }
        let mut effects = link_effects(&self.players, player_id, true);
        let ghost links = effects@;
        let mut joining = notify_players(&self.players, GameMessage::PlayerJoining(PlayerJoining {
            slot,
            player_id,
            game_id: self.id,
        }));
        effects.append(&mut joining);
        self.players.push(player);
        effects.push(GameEffect::Notify { to: player_id, message: GameMessage::GameSetup(context) });
        proof {
            assert forall|i: int| 0 <= i < old(self).players@.len() && #[trigger] old(self).players@[i].player.id
                != player_id implies {
                &&& effects@.contains(GameEffect::Subscribe {
                    target: player_id,
                    subscriber: old(self).players@[i].player.id,
                })
                &&& effects@.contains(GameEffect::Subscribe {
                    target: old(self).players@[i].player.id,
                    subscriber: player_id,
                })
            } by {
                let x = GameEffect::Subscribe { target: player_id, subscriber: old(self).players@[i].player.id };
                let y = GameEffect::Subscribe { target: old(self).players@[i].player.id, subscriber: player_id };
                let kx = choose|k: int| 0 <= k < links.len() && links[k] == x;
                let ky = choose|k: int| 0 <= k < links.len() && links[k] == y;
                assert(effects@[kx] == x);
                assert(effects@[ky] == y);
            }
        }
        (slot, effects)
    }

    /// The effects of adding a player through its session: those of
    /// [Game::add_player], then associating the player's tunnel with its
    /// slot and recording the game as the player's current game.
    pub open spec fn spec_join_effects(players: Seq<GamePlayer>, game_id: u32, player_id: u32, context: GameSetupContext) -> Seq<GameEffect> {
        let slot = players.len();
        subscribe_effects(players, player_id)
            + notify_all(players, GameMessage::PlayerJoining(PlayerJoining {
                slot: slot as usize,
                player_id,
                game_id,
            }))
            + seq![
                GameEffect::Notify { to: player_id, message: GameMessage::GameSetup(context) },
                GameEffect::AssociatePool { player_id, game_id, index: (slot % 256) as u8 },
                GameEffect::SetGame { player_id, game_id },
            ]
    }

    /// Adds a player for its session: adds it to the game, then asks for
    /// its tunnel to be placed in its slot and for the game to be recorded
    /// as its current game.
    pub fn add_player_session(&mut self, player: GamePlayer, context: GameSetupContext) -> (r: (usize, Vec<GameEffect>))
        ensures
            r.0 == old(self).players@.len(),
            final(self).players@ == old(self).players@.push(player),
            final(self).id == old(self).id,
            final(self).state == old(self).state,
            final(self).attributes == old(self).attributes,
            final(self).settings == old(self).settings,
            final(self).created_at == old(self).created_at,
            final(self).reporting_id == old(self).reporting_id,
            final(self).seed == old(self).seed,
            r.1@ == Self::spec_join_effects(old(self).players@, old(self).id, player.player.id, context),
    {
        let player_id = player.player.id;
        let (slot, mut effects) = self.add_player(player, context);
        effects.push(GameEffect::AssociatePool { player_id, game_id: self.id, index: (slot % 256) as u8 });
        effects.push(GameEffect::SetGame { player_id, game_id: self.id });
        (slot, effects)
    }

    /// How a game changes (`before`, `after`) and what it sends
    /// (`effects`) when the mesh connection of `target_id` reports `status`:
    /// once it reports `Connected`, a known player is marked as connected
    /// and every player is told; other statuses and unknown players change
    /// nothing.
    pub open spec fn spec_mesh_updated(before: Game, after: Game, target_id: u32, status: PlayerNetConnectionStatus, effects: Seq<GameEffect>) -> bool {
        &&& after.id == before.id
        &&& after.state == before.state
        &&& after.attributes == before.attributes
        &&& after.settings == before.settings
        &&& after.created_at == before.created_at
        &&& after.reporting_id == before.reporting_id
        &&& after.seed == before.seed
        &&& match (status, spec_player_index(before.players@, target_id)) {
            (PlayerNetConnectionStatus::Connected, Some(i)) => {
                let players = before.players@.update(i, GamePlayer {
                    state: PlayerState::ActiveConnected,
                    ..before.players@[i]
                });
                &&& after.players@ == players
                &&& effects == notify_all(players, GameMessage::PlayerStateChange(PlayerStateChange {
                    gid: before.id,
                    pid: target_id,
                    state: PlayerState::ActiveConnected,
                })) + notify_all(players, GameMessage::JoinComplete(JoinComplete {
                    game_id: before.id,
                    player_id: target_id,
                }))
            },
            _ => after.players@ == before.players@ && effects.len() == 0,
        }
    }

    /// Marks the player `target_id` as connected once its mesh connection
    /// reports `Connected`, telling every player; other statuses and
    /// unknown players change nothing.
    pub fn update_mesh(&mut self, target_id: u32, status: PlayerNetConnectionStatus) -> (r: Vec<GameEffect>)
        ensures
            Self::spec_mesh_updated(*old(self), *final(self), target_id, status, r@),
    {
        if status != PlayerNetConnectionStatus::Connected {
            return Vec::new();
        }
        let index = match find_player(&self.players, target_id) {
            Some(i) => i,
            None => return Vec::new(),
        };
        proof {
            lemma_player_index(self.players@, target_id);
        }
        let mut player = self.players.remove(index);
        player.state = PlayerState::ActiveConnected;
        self.players.insert(index, player);
        proof {
            assert(self.players@ =~= old(self).players@.update(index as int, GamePlayer {
                state: PlayerState::ActiveConnected,
                ..old(self).players@[index as int]
            }));
        }
        let mut effects = notify_players(&self.players, GameMessage::PlayerStateChange(PlayerStateChange {
            gid: self.id,
            pid: target_id,
            state: PlayerState::ActiveConnected,
        }));
        let mut complete = notify_players(&self.players, GameMessage::JoinComplete(JoinComplete {
            game_id: self.id,
            player_id: target_id,
        }));
        effects.append(&mut complete);
        effects
    }

    /// Effects of a host migration among `players` (none when empty): the
    /// state becomes migrating, the new host (the first player) is
    /// announced, then the state becomes in-game and the migration ends.
    pub open spec fn spec_migrate_effects(players: Seq<GamePlayer>, game_id: u32) -> Seq<GameEffect> {
        if players.len() == 0 {
            Seq::empty()
        } else {
            notify_all(players, GameMessage::StateChange(StateChange { id: game_id, state: GameState::Migrating }))
                + notify_all(players, GameMessage::HostMigrateStart(HostMigrateStart {
                    game_id,
                    host_id: players[0].player.id,
                    pmig: 2,
                    slot: 0,
                }))
                + notify_all(players, GameMessage::StateChange(StateChange { id: game_id, state: GameState::InGame }))
                + notify_all(players, GameMessage::HostMigrateFinished(HostMigrateFinished { game_id }))
        }
    }

    fn try_migrate_host(&mut self) -> (r: Vec<GameEffect>)
        ensures
            final(self).players@ == old(self).players@,
            final(self).id == old(self).id,
            final(self).attributes == old(self).attributes,
            final(self).settings == old(self).settings,
            final(self).state == (if old(self).players@.len() == 0 { old(self).state } else { GameState::InGame }),
            r@ == Self::spec_migrate_effects(old(self).players@, old(self).id),
    {
        if self.players.len() == 0 {
            return Vec::new();
        }
        let host_id = self.players[0].player.id;
        let mut effects = self.set_state(GameState::Migrating);
        let mut start = notify_players(&self.players, GameMessage::HostMigrateStart(HostMigrateStart {
            game_id: self.id,
            host_id,
            pmig: 2,
            slot: 0,
        }));
        effects.append(&mut start);
        let mut in_game = self.set_state(GameState::InGame);
        effects.append(&mut in_game);
        let mut finished = notify_players(&self.players, GameMessage::HostMigrateFinished(HostMigrateFinished {
            game_id: self.id,
        }));
        effects.append(&mut finished);
        effects
    }

    /// The effects of removing the player at `index` from `players` with
    /// `reason`, before any host migration or stop.
    pub open spec fn spec_removal_effects(players: Seq<GamePlayer>, game_id: u32, index: int, reason: RemoveReason) -> Seq<GameEffect> {
        let removed = players[index].player.id;
        let rest = players.remove(index);
        let msg = GameMessage::PlayerRemoved(PlayerRemoved { cntx: 0, game_id, player_id: removed, reason });
        seq![
            GameEffect::DissociatePool { game_id, index: (index % 256) as u8 },
            GameEffect::ClearGame { player_id: removed },
        ] + notify_all(rest, msg) + seq![GameEffect::Notify { to: removed, message: msg }]
            + unsubscribe_effects(rest, removed)
            + Self::spec_admin_list_effects(rest, game_id, removed, AdminListOperation::Remove)
    }

    /// How a game changes (`before`, `after`) and what it sends
    /// (`effects`) when the player `id` is removed for `reason`: see
    /// [Game::remove_player].
    pub open spec fn spec_player_removed(before: Game, after: Game, id: u32, reason: RemoveReason, effects: Seq<GameEffect>) -> bool {
        &&& after.id == before.id
        &&& after.attributes == before.attributes
        &&& after.settings == before.settings
        &&& before.players@.len() == 0 ==> {
            &&& after.state == GameState::Destructing
            &&& after.players@.len() == 0
            &&& effects == seq![GameEffect::RemoveGame { game_id: before.id }]
        }
        &&& before.players@.len() > 0 ==> match spec_player_index(before.players@, id) {
            None => after.players@ == before.players@ && after.state == before.state
                && effects.len() == 0,
            Some(i) => {
                let rest = before.players@.remove(i);
                &&& after.players@ == rest
                &&& after.state == (if rest.len() == 0 {
                    GameState::Destructing
                } else if i == 0 {
                    GameState::InGame
                } else {
                    before.state
                })
                &&& effects == Self::spec_removal_effects(before.players@, before.id, i, reason)
                    + (if i == 0 { Self::spec_migrate_effects(rest, before.id) } else { Seq::empty() })
                    + (if rest.len() == 0 {
                        seq![GameEffect::RemoveGame { game_id: before.id }]
                    } else {
                        Seq::empty()
                    })
            }
        }
    }

    /// Removes the player `id`. The removed player and the players left
    /// are told, subscriptions between them are dropped, the admin list is
    /// updated, a removed host is migrated, and an empty game is stopped
    /// (marked destructing and removed from the store). A game that is
    /// already empty is stopped; an unknown player changes nothing.
    pub fn remove_player(&mut self, id: u32, reason: RemoveReason) -> (r: Vec<GameEffect>)
        ensures
            Self::spec_player_removed(*old(self), *final(self), id, reason, r@),
            old(self).players@.len() >= 2 && old(self).players@[0].player.id == id ==> migration_starts_name(
                r@,
                final(self).players@[0].player.id,
            ),
    {
        if self.players.len() == 0 {
            self.state = GameState::Destructing;
            let mut effects = Vec::new();
            effects.push(GameEffect::RemoveGame { game_id: self.id });
            return effects;
        }
        let index = match find_player(&self.players, id) {
            Some(i) => i,
            None => return Vec::new(),
        };
        proof {
            lemma_player_index(self.players@, id);
        }
        let ghost before = self.players@;
        let mut effects: Vec<GameEffect> = Vec::new();
        effects.push(GameEffect::DissociatePool { game_id: self.id, index: (index % 256) as u8 });
        let player = self.players.remove(index);
        let removed = player.player.id;
        effects.push(GameEffect::ClearGame { player_id: removed });
        let msg = GameMessage::PlayerRemoved(PlayerRemoved { cntx: 0, game_id: self.id, player_id: removed, reason });
        let mut told = notify_players(&self.players, msg);
        effects.append(&mut told);
        effects.push(GameEffect::Notify { to: removed, message: msg });
        let mut unlinked = link_effects(&self.players, removed, false);
        effects.append(&mut unlinked);
        let mut admin = self.modify_admin_list(removed, AdminListOperation::Remove);
        effects.append(&mut admin);
        proof {
            assert(effects@ =~= Self::spec_removal_effects(before, self.id, index as int, reason));
        }
        if index == 0 {
            let mut migrate = self.try_migrate_host();
            effects.append(&mut migrate);
        }
        if self.players.len() == 0 {
            self.state = GameState::Destructing;
            effects.push(GameEffect::RemoveGame { game_id: self.id });
        }
        proof {
            if old(self).players@.len() >= 2 && old(self).players@[0].player.id == id {
                assert(Self::spec_player_removed(*old(self), *self, id, reason, effects@));
                lemma_host_removal_names_first(*old(self), *self, reason, effects@);
            }
        }
        effects
    }

    /// Merges `attributes` into the game attributes (a new value replaces
    /// the old value of its key) and sends every player the attributes that
    /// were set.
    pub fn set_attributes(&mut self, attributes: AttrMap) -> (r: Vec<GameEffect>)
        ensures
            final(self).id == old(self).id,
            final(self).state == old(self).state,
            final(self).settings == old(self).settings,
            final(self).created_at == old(self).created_at,
            final(self).reporting_id == old(self).reporting_id,
            final(self).seed == old(self).seed,
            final(self).players@ == old(self).players@,
            forall|k: Seq<char>| #[trigger] final(self).attributes.lookup(k)
                == (match attributes.lookup(k) {
                    Some(v) => Some(v),
                    None => old(self).attributes.lookup(k),
                }),
            r@.len() == old(self).players@.len(),
            forall|i: int| 0 <= i < r@.len() ==> (#[trigger] r@[i] matches GameEffect::NotifyAttributes { to, change }
                && to == old(self).players@[i].player.id && change.id == old(self).id
                && change.attributes.view_pairs() == attributes.view_pairs()),
    {
        let mut effects: Vec<GameEffect> = Vec::new();
        let mut i: usize = 0;
        while i < self.players.len()
            invariant
                0 <= i <= self.players@.len(),
                self.players@ == old(self).players@,
                self.id == old(self).id,
                effects@.len() == i,
                forall|j: int| 0 <= j < i ==> (#[trigger] effects@[j] matches GameEffect::NotifyAttributes { to, change }
                    && to == old(self).players@[j].player.id && change.id == old(self).id
                    && change.attributes.view_pairs() == attributes.view_pairs()),
            decreases self.players@.len() - i,
        {
            let change = AttributesChange { attributes: attributes.duplicate(), id: self.id };
            effects.push(GameEffect::NotifyAttributes { to: self.players[i].player.id, change });
            i = i + 1;
        }
        self.attributes.merge(&attributes);
        effects
    }

    /// Players with the data snapshots taken when they joined.
    pub fn get_players_with_state(&self) -> (r: Vec<(Player, Vec<(String, String)>)>)
        ensures
            r@.len() == self.players@.len(),
            forall|i: int| 0 <= i < r@.len() ==> (#[trigger] r@[i]).0 == self.players@[i].player
                && r@[i].1@ == self.players@[i].data_snapshot.data@,
    {
        let mut out: Vec<(Player, Vec<(String, String)>)> = Vec::new();
        let mut i: usize = 0;
        while i < self.players.len()
            invariant
                0 <= i <= self.players@.len(),
                out@.len() == i,
                forall|j: int| 0 <= j < i ==> (#[trigger] out@[j]).0 == self.players@[j].player
                    && out@[j].1@ == self.players@[j].data_snapshot.data@,
            decreases self.players@.len() - i,
        {
            let p = &self.players[i];
            let data = copy_pairs(&p.data_snapshot.data);
            out.push((p.player.duplicate(), data));
            i = i + 1;
        }
        out
    }
}

/// The host named by `effect` when it announces the start of a host
/// migration.
pub open spec fn migrate_start_host(effect: GameEffect) -> Option<u32> {
    match effect {
        GameEffect::Notify { message: GameMessage::HostMigrateStart(start), .. } => Some(start.host_id),
        _ => None,
    }
}

/// Whether every host migration start among `effects` names `host`.
pub open spec fn migration_starts_name(effects: Seq<GameEffect>, host: u32) -> bool {
    forall|k: int| 0 <= k < effects.len() ==> (#[trigger] migrate_start_host(effects[k]) matches Some(h) ==> h == host)
}

proof fn lemma_starts_name_concat(a: Seq<GameEffect>, b: Seq<GameEffect>, host: u32)
    requires
        migration_starts_name(a, host),
        migration_starts_name(b, host),
    ensures
        migration_starts_name(a + b, host),
{
    assert forall|k: int| 0 <= k < (a + b).len() implies (#[trigger] migrate_start_host((a + b)[k]) matches Some(h)
        ==> h == host) by {
        if k < a.len() {
            assert((a + b)[k] == a[k]);
        } else {
            assert((a + b)[k] == b[k - a.len()]);
        }
    }
}

proof fn lemma_notify_all_starts(players: Seq<GamePlayer>, message: GameMessage, host: u32)
    requires
        message matches GameMessage::HostMigrateStart(start) ==> start.host_id == host,
    ensures
        migration_starts_name(notify_all(players, message), host),
{
    assert forall|k: int| 0 <= k < notify_all(players, message).len() implies (#[trigger] migrate_start_host(
        notify_all(players, message)[k],
    ) matches Some(h) ==> h == host) by {
        assert(notify_all(players, message)[k] == GameEffect::Notify { to: players[k].player.id, message });
    }
}

proof fn lemma_unsubscribe_starts(players: Seq<GamePlayer>, target: u32, host: u32)
    ensures
        migration_starts_name(unsubscribe_effects(players, target), host),
    decreases players.len(),
{
    if players.len() > 0 {
        lemma_unsubscribe_starts(players.drop_last(), target, host);
        let rest = unsubscribe_effects(players.drop_last(), target);
        let other = players.last().player.id;
        if other != target {
            let pair = seq![
                GameEffect::Unsubscribe { target, subscriber: other },
                GameEffect::Unsubscribe { target: other, subscriber: target },
            ];
            assert forall|k: int| 0 <= k < pair.len() implies (#[trigger] migrate_start_host(pair[k]) matches Some(h)
                ==> h == host) by {}
            lemma_starts_name_concat(rest, pair, host);
        }
    }
}

/// The effects of removing a player (before any migration) hold no host
/// migration start.
proof fn lemma_removal_starts(players: Seq<GamePlayer>, game_id: u32, index: int, reason: RemoveReason, host: u32)
    requires
        0 <= index < players.len(),
    ensures
        migration_starts_name(Game::spec_removal_effects(players, game_id, index, reason), host),
{
    let id = players[index].player.id;
    let rest = players.remove(index);
    let removed_msg = GameMessage::PlayerRemoved(PlayerRemoved { cntx: 0, game_id, player_id: id, reason });
    let head = seq![
        GameEffect::DissociatePool { game_id, index: (index % 256) as u8 },
        GameEffect::ClearGame { player_id: id },
    ];
    assert forall|k: int| 0 <= k < head.len() implies (#[trigger] migrate_start_host(head[k]) matches Some(h)
        ==> h == host) by {}
    lemma_notify_all_starts(rest, removed_msg, host);
    let tail = seq![GameEffect::Notify { to: id, message: removed_msg }];
    assert forall|k: int| 0 <= k < tail.len() implies (#[trigger] migrate_start_host(tail[k]) matches Some(h)
        ==> h == host) by {}
    lemma_unsubscribe_starts(rest, id, host);
    let admin = Game::spec_admin_list_effects(rest, game_id, id, AdminListOperation::Remove);
    if rest.len() > 0 {
        lemma_notify_all_starts(rest, GameMessage::AdminListChange(AdminListChange {
            player_id: id,
            game_id,
            operation: AdminListOperation::Remove,
            host_id: rest[0].player.id,
        }), host);
    }
    lemma_starts_name_concat(head, notify_all(rest, removed_msg), host);
    lemma_starts_name_concat(head + notify_all(rest, removed_msg), tail, host);
    lemma_starts_name_concat(head + notify_all(rest, removed_msg) + tail, unsubscribe_effects(rest, id), host);
    lemma_starts_name_concat(
        head + notify_all(rest, removed_msg) + tail + unsubscribe_effects(rest, id),
        admin,
        host,
    );
    assert(Game::spec_removal_effects(players, game_id, index, reason)
        =~= head + notify_all(rest, removed_msg) + tail + unsubscribe_effects(rest, id) + admin);
}

/// Removing a player that is not the host starts no host migration, and
/// the host stays first.
pub proof fn lemma_guest_removal_keeps_host(before: Game, after: Game, id: u32, reason: RemoveReason, effects: Seq<GameEffect>)
    requires
        before.players@.len() >= 1,
        before.players@[0].player.id != id,
        Game::spec_player_removed(before, after, id, reason, effects),
    ensures
        forall|k: int| 0 <= k < effects.len() ==> #[trigger] migrate_start_host(effects[k]) is None,
        after.players@.len() >= 1,
        after.players@[0] == before.players@[0],
{
    let players = before.players@;
    lemma_player_index(players, id);
    match spec_player_index(players, id) {
        None => {},
        Some(i) => {
            assert(i != 0);
            let removal = Game::spec_removal_effects(players, before.id, i, reason);
            lemma_removal_starts(players, before.id, i, reason, 0);
            lemma_removal_starts(players, before.id, i, reason, 1);
            assert(effects =~= removal);
            assert forall|k: int| 0 <= k < effects.len() implies #[trigger] migrate_start_host(effects[k]) is None by {
                assert(effects[k] == removal[k]);
            }
        },
    }
}

/// Removing the last player of a game stops it: the game is left empty
/// and destructing, and its last effect removes it from the store.
pub proof fn lemma_last_removal_stops(before: Game, after: Game, reason: RemoveReason, effects: Seq<GameEffect>)
    requires
        before.players@.len() == 1,
        Game::spec_player_removed(before, after, before.players@[0].player.id, reason, effects),
    ensures
        after.players@.len() == 0,
        after.state == GameState::Destructing,
        effects.len() > 0,
        effects.last() == (GameEffect::RemoveGame { game_id: before.id }),
{
    let players = before.players@;
    assert(spec_player_index(players, players[0].player.id) == Some(0int));
    assert(players.remove(0).len() == 0);
}

/// Removing the host of a game that keeps other players hands the game to
/// the first of the players left: every host migration start sent names
/// that player, and each player left is sent one.
pub proof fn lemma_host_removal_names_first(before: Game, after: Game, reason: RemoveReason, effects: Seq<GameEffect>)
    requires
        before.players@.len() >= 2,
        Game::spec_player_removed(before, after, before.players@[0].player.id, reason, effects),
    ensures
        after.players@ == before.players@.drop_first(),
        migration_starts_name(effects, after.players@[0].player.id),
        forall|i: int| 0 <= i < after.players@.len() ==> exists|k: int|
            0 <= k < effects.len() && effects[k] == (GameEffect::Notify {
                to: #[trigger] after.players@[i].player.id,
                message: GameMessage::HostMigrateStart(HostMigrateStart {
                    game_id: before.id,
                    host_id: after.players@[0].player.id,
                    pmig: 2,
                    slot: 0,
                }),
            }),
{
    let players = before.players@;
    let id = players[0].player.id;
    assert(spec_player_index(players, id) == Some(0int));
    let rest = players.remove(0);
    assert(rest =~= players.drop_first());
    let host = rest[0].player.id;
    let game_id = before.id;
    lemma_removal_starts(players, game_id, 0, reason, host);
    let removal = Game::spec_removal_effects(players, game_id, 0, reason);
    let migrating = notify_all(rest, GameMessage::StateChange(StateChange { id: game_id, state: GameState::Migrating }));
    let start_msg = GameMessage::HostMigrateStart(HostMigrateStart { game_id, host_id: host, pmig: 2, slot: 0 });
    let starts = notify_all(rest, start_msg);
    let in_game = notify_all(rest, GameMessage::StateChange(StateChange { id: game_id, state: GameState::InGame }));
    let finished = notify_all(rest, GameMessage::HostMigrateFinished(HostMigrateFinished { game_id }));
    lemma_notify_all_starts(rest, GameMessage::StateChange(StateChange { id: game_id, state: GameState::Migrating }), host);
    lemma_notify_all_starts(rest, start_msg, host);
    lemma_notify_all_starts(rest, GameMessage::StateChange(StateChange { id: game_id, state: GameState::InGame }), host);
    lemma_notify_all_starts(rest, GameMessage::HostMigrateFinished(HostMigrateFinished { game_id }), host);
    let migrate = Game::spec_migrate_effects(rest, game_id);
    assert(migrate == migrating + starts + in_game + finished);
    lemma_starts_name_concat(migrating, starts, host);
    lemma_starts_name_concat(migrating + starts, in_game, host);
    lemma_starts_name_concat(migrating + starts + in_game, finished, host);
    assert(effects =~= removal + migrate);
    lemma_starts_name_concat(removal, migrate, host);
    assert forall|i: int| 0 <= i < after.players@.len() implies exists|k: int|
        0 <= k < effects.len() && effects[k] == (GameEffect::Notify {
            to: #[trigger] after.players@[i].player.id,
            message: GameMessage::HostMigrateStart(HostMigrateStart {
                game_id: before.id,
                host_id: after.players@[0].player.id,
                pmig: 2,
                slot: 0,
            }),
        }) by {
        let k = removal.len() + rest.len() + i;
        assert(starts[i] == GameEffect::Notify { to: rest[i].player.id, message: start_msg });
        assert((migrating + starts)[rest.len() + i] == starts[i]);
        assert(migrate[rest.len() + i] == starts[i]);
        assert(effects[k] == migrate[rest.len() + i]);
    }
}

/// Once the mesh connection of a player of the game reports `Connected`:
/// that player (the first with its ID) is marked connected and nothing
/// else of the players changes, and every player is told both that its
/// state changed and that its join completed.
pub proof fn lemma_mesh_connected(before: Game, after: Game, target_id: u32, effects: Seq<GameEffect>, j: int)
    requires
        Game::spec_mesh_updated(before, after, target_id, PlayerNetConnectionStatus::Connected, effects),
        0 <= j < before.players@.len(),
        before.players@[j].player.id == target_id,
        forall|i: int| 0 <= i < j ==> #[trigger] before.players@[i].player.id != target_id,
    ensures
        after.players@.len() == before.players@.len(),
        after.players@[j] == (GamePlayer { state: PlayerState::ActiveConnected, ..before.players@[j] }),
        forall|i: int| 0 <= i < before.players@.len() && i != j ==> #[trigger] after.players@[i] == before.players@[i],
        forall|i: int| 0 <= i < after.players@.len() ==> effects.contains(GameEffect::Notify {
            to: #[trigger] after.players@[i].player.id,
            message: GameMessage::PlayerStateChange(PlayerStateChange {
                gid: before.id,
                pid: target_id,
                state: PlayerState::ActiveConnected,
            }),
        }) && effects.contains(GameEffect::Notify {
            to: after.players@[i].player.id,
            message: GameMessage::JoinComplete(JoinComplete { game_id: before.id, player_id: target_id }),
        }),
{
    let players = before.players@;
    lemma_player_index(players, target_id);
    let found = spec_player_index(players, target_id);
    assert(found == Some(j)) by {
        let f = found->0;
        if f < j {
            assert(players[f].player.id != target_id);
        }
        if j < f {
            assert(players[j].player.id != target_id);
        }
    }
    let updated = after.players@;
    let changes = notify_all(updated, GameMessage::PlayerStateChange(PlayerStateChange {
        gid: before.id,
        pid: target_id,
        state: PlayerState::ActiveConnected,
    }));
    let completes = notify_all(updated, GameMessage::JoinComplete(JoinComplete { game_id: before.id, player_id: target_id }));
    assert forall|i: int| 0 <= i < updated.len() implies effects.contains(GameEffect::Notify {
        to: #[trigger] updated[i].player.id,
        message: GameMessage::PlayerStateChange(PlayerStateChange {
            gid: before.id,
            pid: target_id,
            state: PlayerState::ActiveConnected,
        }),
    }) && effects.contains(GameEffect::Notify {
        to: updated[i].player.id,
        message: GameMessage::JoinComplete(JoinComplete { game_id: before.id, player_id: target_id }),
    }) by {
        assert(effects[i] == changes[i]);
        assert(effects[updated.len() + i] == completes[i]);
    }
}

} // verus!
