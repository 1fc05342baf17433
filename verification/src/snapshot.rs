//! Snapshots of games and their players, as shown by the server's
//! management views.
use vstd::prelude::*;
use crate::attrs::AttrMap;
use crate::game::{Game, GamePlayer};
use crate::models::game_manager::GameState;
use crate::models::net::NetData;

verus! {

/// Snapshot of a game player.
pub struct GamePlayerSnapshot {
    /// The player ID of the snapshot
    pub player_id: u32,
    /// The player name of the snapshot
    pub display_name: String,
    /// The player net data of the snapshot, if collected
    pub net: Option<NetData>,
}

impl GamePlayerSnapshot {
    /// Snapshot of `player` with its session's net data `net` (`None` when
    /// the net data is not collected).
    pub fn new(player: &GamePlayer, net: Option<NetData>) -> (r: GamePlayerSnapshot)
        ensures
            r.player_id == player.player.id,
            r.display_name@ == player.player.display_name@,
            r.net == net,
    {
        GamePlayerSnapshot {
            player_id: player.player.id,
            display_name: player.player.display_name.clone(),
            net,
        }
    }
}

/// Snapshot of a game.
pub struct GameSnapshot {
    /// The ID of the game the snapshot is for
    pub id: u32,
    /// The current game state
    pub state: GameState,
    /// The current game setting
    pub setting: u16,
    /// The game attributes
    pub attributes: AttrMap,
    /// Snapshots of the game players, if collected
    pub players: Option<Vec<GamePlayerSnapshot>>,
    /// The total number of players in the game
    pub total_players: usize,
    /// When the game was created (seconds since the Unix epoch)
    pub created_at: i64,
}

impl GameSnapshot {
    /// Whether this is the snapshot of `game`, with snapshots of its
    /// players when `include_players` holds, `nets[i]` being the net data
    /// collected for player `i`.
    pub open spec fn snapshot_of(self, game: Game, include_players: bool, nets: Seq<Option<NetData>>) -> bool {
        &&& self.id == game.id
        &&& self.state == game.state
        &&& self.setting == game.settings.bits
        &&& self.attributes.entries@ == game.attributes.entries@
        &&& self.total_players == game.players@.len()
        &&& self.created_at == game.created_at
        &&& include_players <==> self.players is Some
        &&& self.players matches Some(ps) ==> ps@.len() == game.players@.len() && forall|i: int|
            0 <= i < ps@.len() ==> {
                &&& (#[trigger] ps@[i]).player_id == game.players@[i].player.id
                &&& ps@[i].display_name@ == game.players@[i].player.display_name@
                &&& ps@[i].net == nets[i]
            }
    }

    /// Snapshot of `game`; with `include_players`, also of each of its
    /// players, `nets[i]` being the net data collected for player `i`.
    pub fn new(game: &Game, include_players: bool, nets: Vec<Option<NetData>>) -> (r: GameSnapshot)
        requires
            nets@.len() == game.players@.len(),
        ensures
            r.snapshot_of(*game, include_players, nets@),
    {
        let players = if include_players {
            let mut out: Vec<GamePlayerSnapshot> = Vec::new();
            let mut nets = nets;
            let n = game.players.len();
            let ghost all_nets = nets@;
            let mut i: usize = 0;
            while i < n
                invariant
                    n == game.players@.len(),
                    all_nets.len() == n,
                    0 <= i <= n,
                    nets@ == all_nets.subrange(i as int, n as int),
                    out@.len() == i,
                    forall|j: int| 0 <= j < i ==> {
                        &&& (#[trigger] out@[j]).player_id == game.players@[j].player.id
                        &&& out@[j].display_name@ == game.players@[j].player.display_name@
                        &&& out@[j].net == all_nets[j]
                    },
                decreases n - i,
            {
                let net = nets.remove(0);
                out.push(GamePlayerSnapshot::new(&game.players[i], net));
                i = i + 1;
                proof {
                    assert(nets@ =~= all_nets.subrange(i as int, n as int));
                }
            }
            Some(out)
        } else {
            None
        };
        GameSnapshot {
            id: game.id,
            state: game.state,
            setting: game.settings.bits,
            attributes: game.attributes.duplicate(),
            players,
            total_players: game.players.len(),
            created_at: game.created_at,
        }
    }
}

} // verus!
