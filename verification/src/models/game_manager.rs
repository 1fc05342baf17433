//! Game manager messages: game and player states, settings, setup
//! contexts and the notifications sent to players of a game.
use vstd::prelude::*;
use crate::attrs::AttrMap;
use crate::rules::RuleSet;
use crate::attrs::pair_texts;
use crate::encode::{
    Tag, TdfKind, tag_blob_empty, tag_bool, tag_group, tag_group_end, tag_list_start, tag_list_usize,
    tag_map_start, tag_str, tag_str_empty, tag_str_map, tag_u16, tag_u32, tag_u64, tag_u8, tag_union_start,
    tag_usize, tag_zero, tdf_tag_blob_empty, tdf_tag_bool, tdf_tag_group, tdf_tag_list_start,
    tdf_tag_list_usize, tdf_tag_map_start, tdf_tag_str, tdf_tag_str_empty, tdf_tag_str_map, tdf_tag_u16,
    tdf_tag_u32, tdf_tag_u64, tdf_tag_u8, tdf_tag_union_start, tdf_tag_usize, tdf_tag_zero, tdf_u32,
    valid_tag, write_byte, write_u32,
};
use crate::game::{Game, GamePlayer, game_player_body};
use crate::models::net::{
    NatType, NetData, NetworkAddress, PairAddress, QosNetworkData, ip_pair_body, pair_address_body, qos_bytes,
};
use crate::models::util::{PING_SITE_ALIAS, TunnelConfig};
use crate::tunnel::TUNNEL_HOST_LOCAL_PORT;
use vstd::string::StringSliceAdditionalSpecFns;

verus! {

/// Error codes of the game manager component.
#[derive(Debug, Clone, Copy, PartialEq, Eq, Structural)]
pub enum GameManagerError {
    InvalidGameId,
    GameFull,
    PermissionDenied,
    PlayerNotFound,
    AlreadyGameMember,
    RemovePlayerFailed,
    JoinPlayerFailed,
    AlreadyInQueue,
    TeamFull,
}

impl GameManagerError {
    /// The wire code of the error.
    pub fn code(&self) -> (r: u16)
        ensures
            r == match *self {
                GameManagerError::InvalidGameId => 0x2u16,
                GameManagerError::GameFull => 0x4,
                GameManagerError::PermissionDenied => 0x1e,
                GameManagerError::PlayerNotFound => 0x65,
                GameManagerError::AlreadyGameMember => 0x67,
                GameManagerError::RemovePlayerFailed => 0x68,
                GameManagerError::JoinPlayerFailed => 0x6c,
                GameManagerError::AlreadyInQueue => 0x70,
                GameManagerError::TeamFull => 0xff,
            },
    {
        match self {
            GameManagerError::InvalidGameId => 0x2,
            GameManagerError::GameFull => 0x4,
            GameManagerError::PermissionDenied => 0x1e,
            GameManagerError::PlayerNotFound => 0x65,
            GameManagerError::AlreadyGameMember => 0x67,
            GameManagerError::RemovePlayerFailed => 0x68,
            GameManagerError::JoinPlayerFailed => 0x6c,
            GameManagerError::AlreadyInQueue => 0x70,
            GameManagerError::TeamFull => 0xff,
        }
    }
}

/// Different states the game can be in.
#[derive(Debug, Clone, Copy, PartialEq, Eq, Structural)]
pub enum GameState {
    /// Data structure just created
    NewState,
    /// Closed to joins/matchmaking
    Initializing,
    /// Game will need topology host assigned when player joins.
    InactiveVirtual,
    /// Game created via matchmaking is waiting for connections to be established and validated.
    ConnectionVerification,
    /// Pre game state, obey joinMode flags
    PreGame,
    /// Game available, obey joinMode flag
    InGame,
    /// After game is done, closed to joins/matchmaking
    PostGame,
    /// Game migration state, closed to joins/matchmaking
    Migrating,
    /// Game destruction state, closed to joins/matchmaking
    Destructing,
    /// Game resettable state, closed to joins/matchmaking, but available to be reset
    Resettable,
    /// Unresponsive, closed to joins/matchmaking
    Unresponsive,
    /// Initialized state, intended for the use of game group
    GameGroupInitialized,
}

impl GameState {
    pub open spec fn spec_value(self) -> u8 {
        match self {
            GameState::NewState => 0x0,
            GameState::Initializing => 0x1,
            GameState::InactiveVirtual => 0x2,
            GameState::ConnectionVerification => 0x3,
            GameState::PreGame => 0x82,
            GameState::InGame => 0x83,
            GameState::PostGame => 0x4,
            GameState::Migrating => 0x5,
            GameState::Destructing => 0x6,
            GameState::Resettable => 0x7,
            GameState::Unresponsive => 0x9,
            GameState::GameGroupInitialized => 0x10,
        }
    }

    /// The wire value of the state.
    pub fn value(&self) -> (r: u8)
        ensures
            r == self.spec_value(),
    {
        match self {
            GameState::NewState => 0x0,
            GameState::Initializing => 0x1,
            GameState::InactiveVirtual => 0x2,
            GameState::ConnectionVerification => 0x3,
            GameState::PreGame => 0x82,
            GameState::InGame => 0x83,
            GameState::PostGame => 0x4,
            GameState::Migrating => 0x5,
            GameState::Destructing => 0x6,
            GameState::Resettable => 0x7,
            GameState::Unresponsive => 0x9,
            GameState::GameGroupInitialized => 0x10,
        }
    }

    /// The state for a wire value; unknown values give the default state
    /// (`Initializing`).
    pub fn from_value(value: u8) -> (r: GameState)
        ensures
            r == GameState::spec_from_value(value),
            r == GameState::Initializing || r.spec_value() == value,
    {
        let r = if value == 0x0 {
            GameState::NewState
        } else if value == 0x2 {
            GameState::InactiveVirtual
        } else if value == 0x3 {
            GameState::ConnectionVerification
        } else if value == 0x82 {
            GameState::PreGame
        } else if value == 0x83 {
            GameState::InGame
        } else if value == 0x4 {
            GameState::PostGame
        } else if value == 0x5 {
            GameState::Migrating
        } else if value == 0x6 {
            GameState::Destructing
        } else if value == 0x7 {
            GameState::Resettable
        } else if value == 0x9 {
            GameState::Unresponsive
        } else if value == 0x10 {
            GameState::GameGroupInitialized
        } else {
            GameState::Initializing
        };
        r
    }

    /// The state for a wire value; unknown values give `Initializing`.
    pub open spec fn spec_from_value(value: u8) -> GameState {
        if value == 0x0 {
            GameState::NewState
        } else if value == 0x2 {
            GameState::InactiveVirtual
        } else if value == 0x3 {
            GameState::ConnectionVerification
        } else if value == 0x82 {
            GameState::PreGame
        } else if value == 0x83 {
            GameState::InGame
        } else if value == 0x4 {
            GameState::PostGame
        } else if value == 0x5 {
            GameState::Migrating
        } else if value == 0x6 {
            GameState::Destructing
        } else if value == 0x7 {
            GameState::Resettable
        } else if value == 0x9 {
            GameState::Unresponsive
        } else if value == 0x10 {
            GameState::GameGroupInitialized
        } else {
            GameState::Initializing
        }
    }

    /// The state of a newly created game.
    pub fn default_state() -> (r: GameState)
        ensures
            r == GameState::Initializing,
    {
        GameState::Initializing
    }
}

/// Mesh state of a player in a game.
#[derive(Debug, Clone, Copy, PartialEq, Eq, Structural)]
pub enum PlayerState {
    /// Link between the mesh points is not connected
    Reserved,
    Queued,
    /// Link is being formed between two mesh points
    ActiveConnecting,
    ActiveMigrating,
    /// Link is connected between two mesh points
    ActiveConnected,
    ActiveKickPending,
}

impl PlayerState {
    pub open spec fn spec_value(self) -> u8 {
        match self {
            PlayerState::Reserved => 0,
            PlayerState::Queued => 1,
            PlayerState::ActiveConnecting => 2,
            PlayerState::ActiveMigrating => 3,
            PlayerState::ActiveConnected => 4,
            PlayerState::ActiveKickPending => 5,
        }
    }

    /// The wire value of the state.
    pub fn value(&self) -> (r: u8)
        ensures
            r == self.spec_value(),
    {
        match self {
            PlayerState::Reserved => 0,
            PlayerState::Queued => 1,
            PlayerState::ActiveConnecting => 2,
            PlayerState::ActiveMigrating => 3,
            PlayerState::ActiveConnected => 4,
            PlayerState::ActiveKickPending => 5,
        }
    }
}

/// Settings flags of a game.
#[derive(Debug, Clone, Copy, PartialEq, Eq, Structural)]
pub struct GameSettings {
    pub bits: u16,
}

impl GameSettings {
    pub fn from_bits_retain(bits: u16) -> (r: GameSettings)
        ensures
            r.bits == bits,
    {
        GameSettings { bits }
    }

    pub fn bits(&self) -> (r: u16)
        ensures
            r == self.bits,
    {
        self.bits
    }
}

/// Reason a player was removed from a game.
#[derive(Debug, Clone, Copy, PartialEq, Eq, Structural)]
pub enum RemoveReason {
    /// Hit timeout while joining
    JoinTimeout,
    /// Player lost PTP connection
    PlayerConnectionLost,
    /// Player lost connection with the server
    ServerConnectionLost,
    /// Game migration failed
    MigrationFailed,
    GameDestroyed,
    GameEnded,
    /// Generic player left the game reason
    PlayerLeft,
    GroupLeft,
    /// Player kicked
    PlayerKicked,
    /// Player kicked and banned
    PlayerKickedWithBan,
    /// Failed to join from the queue
    PlayerJoinFromQueueFailed,
    PlayerReservationTimeout,
    HostEjected,
}

impl RemoveReason {
    pub open spec fn spec_value(self) -> u8 {
        match self {
            RemoveReason::JoinTimeout => 0x0,
            RemoveReason::PlayerConnectionLost => 0x1,
            RemoveReason::ServerConnectionLost => 0x2,
            RemoveReason::MigrationFailed => 0x3,
            RemoveReason::GameDestroyed => 0x4,
            RemoveReason::GameEnded => 0x5,
            RemoveReason::PlayerLeft => 0x6,
            RemoveReason::GroupLeft => 0x7,
            RemoveReason::PlayerKicked => 0x8,
            RemoveReason::PlayerKickedWithBan => 0x9,
            RemoveReason::PlayerJoinFromQueueFailed => 0xA,
            RemoveReason::PlayerReservationTimeout => 0xB,
            RemoveReason::HostEjected => 0xC,
        }
    }

    /// The wire value of the reason.
    pub fn value(&self) -> (r: u8)
        ensures
            r == self.spec_value(),
    {
        match self {
            RemoveReason::JoinTimeout => 0x0,
            RemoveReason::PlayerConnectionLost => 0x1,
            RemoveReason::ServerConnectionLost => 0x2,
            RemoveReason::MigrationFailed => 0x3,
            RemoveReason::GameDestroyed => 0x4,
            RemoveReason::GameEnded => 0x5,
            RemoveReason::PlayerLeft => 0x6,
            RemoveReason::GroupLeft => 0x7,
            RemoveReason::PlayerKicked => 0x8,
            RemoveReason::PlayerKickedWithBan => 0x9,
            RemoveReason::PlayerJoinFromQueueFailed => 0xA,
            RemoveReason::PlayerReservationTimeout => 0xB,
            RemoveReason::HostEjected => 0xC,
        }
    }
}

/// Operations on the admin list.
#[derive(Debug, Clone, Copy, PartialEq, Eq, Structural)]
pub enum AdminListOperation {
    Add,
    Remove,
}

impl AdminListOperation {
    pub open spec fn spec_value(self) -> u8 {
        match self {
            AdminListOperation::Add => 0,
            AdminListOperation::Remove => 1,
        }
    }

    /// The wire value of the operation.
    pub fn value(&self) -> (r: u8)
        ensures
            r == self.spec_value(),
    {
        match self {
            AdminListOperation::Add => 0,
            AdminListOperation::Remove => 1,
        }
    }
}

/// State of a mesh connection between two players.
#[derive(Debug, Clone, Copy, PartialEq, Eq, Structural)]
pub enum PlayerNetConnectionStatus {
    Disconnected,
    EstablishingConnection,
    Connected,
}

/// Result of matchmaking.
#[derive(Debug, Clone, Copy, PartialEq, Eq, Structural)]
pub enum MatchmakingResult {
    JoinedExistingGame,
}

impl MatchmakingResult {
    pub open spec fn spec_value(self) -> u8 {
        match self {
            MatchmakingResult::JoinedExistingGame => 0x2,
        }
    }

    /// The wire value of the result.
    pub fn value(&self) -> (r: u8)
        ensures
            r == self.spec_value(),
    {
        match self {
            MatchmakingResult::JoinedExistingGame => 0x2,
        }
    }
}

/// Context of a game setup that carries no data.
#[derive(Debug, Clone, Copy, PartialEq, Eq, Structural)]
pub enum DatalessContext {
    /// Session created the game
    CreateGameSetup,
    /// Session joined by ID
    JoinGameSetup,
}

impl DatalessContext {
    pub open spec fn spec_value(self) -> u8 {
        match self {
            DatalessContext::CreateGameSetup => 0x0,
            DatalessContext::JoinGameSetup => 0x1,
        }
    }

    /// The wire value of the context.
    pub fn value(&self) -> (r: u8)
        ensures
            r == self.spec_value(),
    {
        match self {
            DatalessContext::CreateGameSetup => 0x0,
            DatalessContext::JoinGameSetup => 0x1,
        }
    }
}

/// Why a player is being set up in a game.
#[derive(Debug, Clone, Copy, PartialEq, Eq, Structural)]
pub enum GameSetupContext {
    /// Context without additional data
    Dataless { context: DatalessContext },
    /// Context added from matchmaking
    Matchmaking {
        fit_score: u16,
        max_fit_score: u16,
        session_id: u32,
        result: MatchmakingResult,
        player_id: u32,
    },
}

/// Presence mode of a game.
#[derive(Debug, Clone, Copy, PartialEq, Eq, Structural)]
pub enum PresenceMode {
    NoPresence,
    Standard,
    Private,
}

impl PresenceMode {
    pub open spec fn spec_value(self) -> u8 {
        match self {
            PresenceMode::NoPresence => 0x0,
            PresenceMode::Standard => 0x1,
            PresenceMode::Private => 0x2,
        }
    }

    /// The wire value of the mode.
    pub fn value(&self) -> (r: u8)
        ensures
            r == self.spec_value(),
    {
        match self {
            PresenceMode::NoPresence => 0x0,
            PresenceMode::Standard => 0x1,
            PresenceMode::Private => 0x2,
        }
    }
}

/// VOIP topology of a game.
#[derive(Debug, Clone, Copy, PartialEq, Eq, Structural)]
pub enum VoipTopology {
    Disabled,
    PeerToPeer,
}

impl VoipTopology {
    pub open spec fn spec_value(self) -> u8 {
        match self {
            VoipTopology::Disabled => 0x0,
            VoipTopology::PeerToPeer => 0x2,
        }
    }

    /// The wire value of the topology.
    pub fn value(&self) -> (r: u8)
        ensures
            r == self.spec_value(),
    {
        match self {
            VoipTopology::Disabled => 0x0,
            VoipTopology::PeerToPeer => 0x2,
        }
    }
}

/// Network topology of a game.
#[derive(Debug, Clone, Copy, PartialEq, Eq, Structural)]
pub enum GameNetworkTopology {
    PeerHosted,
    Dedicated,
    FullMesh,
    Disabled,
}

impl GameNetworkTopology {
    pub open spec fn spec_value(self) -> u8 {
        match self {
            GameNetworkTopology::PeerHosted => 0x0,
            GameNetworkTopology::Dedicated => 0x1,
            GameNetworkTopology::FullMesh => 0x82,
            GameNetworkTopology::Disabled => 0xFF,
        }
    }

    /// The wire value of the topology.
    pub fn value(&self) -> (r: u8)
        ensures
            r == self.spec_value(),
    {
        match self {
            GameNetworkTopology::PeerHosted => 0x0,
            GameNetworkTopology::Dedicated => 0x1,
            GameNetworkTopology::FullMesh => 0x82,
            GameNetworkTopology::Disabled => 0xFF,
        }
    }
}

/// Kind of a player slot.
#[derive(Debug, Clone, Copy, PartialEq, Eq, Structural)]
pub enum SlotType {
    PublicParticipant,
    PrivateParticipant,
}

impl SlotType {
    pub open spec fn spec_value(self) -> u8 {
        match self {
            SlotType::PublicParticipant => 0x0,
            SlotType::PrivateParticipant => 0x1,
        }
    }

    /// The wire value of the slot type.
    pub fn value(&self) -> (r: u8)
        ensures
            r == self.spec_value(),
    {
        match self {
            SlotType::PublicParticipant => 0x0,
            SlotType::PrivateParticipant => 0x1,
        }
    }
}

/// Result of joining a game.
#[derive(Debug, Clone, Copy, PartialEq, Eq, Structural)]
pub enum JoinGameState {
    JoinedGame,
}

impl JoinGameState {
    pub open spec fn spec_value(self) -> u8 {
        match self {
            JoinGameState::JoinedGame => 0,
        }
    }

    /// The wire value of the join state.
    pub fn value(&self) -> (r: u8)
        ensures
            r == self.spec_value(),
    {
        match self {
            JoinGameState::JoinedGame => 0,
        }
    }
}

/// Request for creating a new game: its initial attributes and setting.
pub struct CreateGameRequest {
    pub attributes: AttrMap,
    pub setting: GameSettings,
}

/// Response to game creation: the ID of the created game.
#[derive(Clone, Copy, PartialEq, Eq, Structural)]
pub struct CreateGameResponse {
    pub game_id: u32,
}

/// Request to remove a player from a game.
#[derive(Clone, Copy, PartialEq, Eq, Structural)]
pub struct RemovePlayerRequest {
    pub game_id: u32,
    pub player_id: u32,
    pub reason: RemoveReason,
}

/// Request to replace attributes of a game.
pub struct SetAttributesRequest {
    pub attributes: AttrMap,
    pub game_id: u32,
}

/// Request to change the state of a game.
#[derive(Clone, Copy, PartialEq, Eq, Structural)]
pub struct SetStateRequest {
    pub game_id: u32,
    pub state: GameState,
}

/// Request to change the setting of a game.
#[derive(Clone, Copy, PartialEq, Eq, Structural)]
pub struct SetSettingRequest {
    pub game_id: u32,
    pub setting: GameSettings,
}

/// Mesh connection state towards one player.
#[derive(Clone, Copy, PartialEq, Eq, Structural)]
pub struct PlayerConnectionStatus {
    pub player_id: u32,
    pub status: PlayerNetConnectionStatus,
}

/// Request to update the state of mesh connections between players.
pub struct UpdateMeshRequest {
    pub game_id: u32,
    pub targets: Vec<PlayerConnectionStatus>,
}

/// Request to add a player to the admin list.
#[derive(Clone, Copy, PartialEq, Eq, Structural)]
pub struct AddAdminPlayerRequest {
    pub game_id: u32,
    pub player_id: u32,
}

/// Request to start matchmaking with a rule set.
pub struct MatchmakingRequest {
    pub rules: RuleSet,
}

/// Response to matchmaking: the matchmaking session ID (the player ID).
#[derive(Clone, Copy, PartialEq, Eq, Structural)]
pub struct MatchmakingResponse {
    pub id: u32,
}

/// Request for the data of games.
pub struct GetGameDataRequest {
    pub game_list: Vec<u32>,
}

/// User to join in a join game request.
#[derive(Clone, Copy, PartialEq, Eq, Structural)]
pub struct JoinGameRequestUser {
    pub id: u32,
}

/// Request to join the game of another user.
#[derive(Clone, Copy, PartialEq, Eq, Structural)]
pub struct JoinGameRequest {
    pub user: JoinGameRequestUser,
}

/// Response to joining a game.
#[derive(Clone, Copy, PartialEq, Eq, Structural)]
pub struct JoinGameResponse {
    pub game_id: u32,
    pub state: JoinGameState,
}

/// Request to replay a game.
#[derive(Clone, Copy, PartialEq, Eq, Structural)]
pub struct ReplayGameRequest {
    pub game_id: u32,
}

/// Notification that a player was removed from a game.
#[derive(Clone, Copy, PartialEq, Eq, Structural)]
pub struct PlayerRemoved {
    pub cntx: u8,
    pub game_id: u32,
    pub player_id: u32,
    pub reason: RemoveReason,
}

/// Notification of a change to the admin list.
#[derive(Clone, Copy, PartialEq, Eq, Structural)]
pub struct AdminListChange {
    pub player_id: u32,
    pub game_id: u32,
    pub operation: AdminListOperation,
    pub host_id: u32,
}

/// Notification of a change to a player's mesh state.
#[derive(Clone, Copy, PartialEq, Eq, Structural)]
pub struct PlayerStateChange {
    pub gid: u32,
    pub pid: u32,
    pub state: PlayerState,
}

/// Notification that a player has completely joined.
#[derive(Clone, Copy, PartialEq, Eq, Structural)]
pub struct JoinComplete {
    pub game_id: u32,
    pub player_id: u32,
}

/// Notification that host migration started.
#[derive(Clone, Copy, PartialEq, Eq, Structural)]
pub struct HostMigrateStart {
    pub game_id: u32,
    pub host_id: u32,
    pub pmig: u32,
    pub slot: u8,
}

/// Notification that host migration finished.
#[derive(Clone, Copy, PartialEq, Eq, Structural)]
pub struct HostMigrateFinished {
    pub game_id: u32,
}

/// Matchmaking status sent to a player that is being matched.
#[derive(Clone, Copy, PartialEq, Eq, Structural)]
pub struct AsyncMatchmakingStatus {
    pub player_id: u32,
}

/// The bytes after `prefix` once the matchmaking status of `player_id` is
/// written: one status group of rule statuses (a matched host and team
/// sizes, one matchmaking session, two to four players, balanced hosts,
/// empty generic (`GRDA`) and user extended data (`UEDS`) rule maps),
/// then the matchmaking session and user session IDs, both `player_id`.
pub open spec fn async_status_written(prefix: Seq<u8>, player_id: u32) -> Seq<u8> {
    let s = prefix + tdf_tag_list_start(['A', 'S', 'I', 'L'], TdfKind::Group, 1);
    let s = s + tdf_tag_group(['C', 'G', 'S', '\0']) + tdf_tag_u8(['E', 'V', 'S', 'T'], 6)
        + tdf_tag_u8(['M', 'M', 'S', 'N'], 1) + tdf_tag_u8(['N', 'O', 'M', 'P'], 0);
    let s = s.push(0u8) + tdf_tag_group(['C', 'U', 'S', 'T']);
    let s = s.push(0u8) + tdf_tag_group(['D', 'N', 'F', 'S']) + tdf_tag_zero(['M', 'D', 'N', 'F'])
        + tdf_tag_zero(['X', 'D', 'N', 'F']);
    let s = s.push(0u8) + tdf_tag_group(['F', 'G', 'S', '\0']) + tdf_tag_zero(['G', 'N', 'U', 'M']);
    let s = s.push(0u8) + tdf_tag_group(['G', 'E', 'O', 'S']) + tdf_tag_zero(['D', 'I', 'S', 'T']);
    let s = s.push(0u8) + tdf_tag_map_start(['G', 'R', 'D', 'A'], TdfKind::String, TdfKind::Group, 0)
        + tdf_tag_group(['G', 'S', 'R', 'D']) + tdf_tag_u8(['P', 'M', 'A', 'X'], 4)
        + tdf_tag_u8(['P', 'M', 'I', 'N'], 2);
    let s = s.push(0u8) + tdf_tag_group(['H', 'B', 'R', 'D']) + tdf_tag_u8(['B', 'V', 'A', 'L'], 1);
    let s = s.push(0u8) + tdf_tag_group(['H', 'V', 'R', 'D']) + tdf_tag_zero(['V', 'V', 'A', 'L']);
    let s = s.push(0u8) + tdf_tag_group(['P', 'S', 'R', 'S']);
    let s = s.push(0u8) + tdf_tag_group(['R', 'R', 'D', 'A']) + tdf_tag_zero(['R', 'V', 'A', 'L']);
    let s = s.push(0u8) + tdf_tag_group(['T', 'S', 'R', 'S']) + tdf_tag_zero(['T', 'M', 'A', 'X'])
        + tdf_tag_zero(['T', 'M', 'I', 'N']);
    let s = s.push(0u8) + tdf_tag_map_start(['U', 'E', 'D', 'S'], TdfKind::String, TdfKind::Group, 0)
        + tdf_tag_group(['V', 'G', 'R', 'S']) + tdf_tag_zero(['V', 'V', 'A', 'L']);
    let s = s.push(0u8).push(0u8);
    s + tdf_tag_u32(['M', 'S', 'I', 'D'], player_id) + tdf_tag_u32(['U', 'S', 'I', 'D'], player_id)
}

impl AsyncMatchmakingStatus {
    /// Writes this status to `w`.
    pub fn serialize(&self, w: &mut Vec<u8>)
        ensures
            final(w)@ == async_status_written(old(w)@, self.player_id),
    {
        tag_list_start(w, ['A', 'S', 'I', 'L'], TdfKind::Group, 1);
        // Create game status
        tag_group(w, ['C', 'G', 'S', '\0']);
        // Evaluate status: acceptable host found (2) and team sizes sufficient (4)
        tag_u8(w, ['E', 'V', 'S', 'T'], 6);
        // Number of matchmaking sessions
        tag_u8(w, ['M', 'M', 'S', 'N'], 1);
        // Number of matched players
        tag_u8(w, ['N', 'O', 'M', 'P'], 0);
        tag_group_end(w);
        // Custom async status
        tag_group(w, ['C', 'U', 'S', 'T']);
        tag_group_end(w);
        // DNF rule status: own and max DNF values
        tag_group(w, ['D', 'N', 'F', 'S']);
        tag_zero(w, ['M', 'D', 'N', 'F']);
        tag_zero(w, ['X', 'D', 'N', 'F']);
        tag_group_end(w);
        // Find game status: number of games
        tag_group(w, ['F', 'G', 'S', '\0']);
        tag_zero(w, ['G', 'N', 'U', 'M']);
        tag_group_end(w);
        // Geo location rule status: max distance
        tag_group(w, ['G', 'E', 'O', 'S']);
        tag_zero(w, ['D', 'I', 'S', 'T']);
        tag_group_end(w);
        // Generic rule status dictionary
        tag_map_start(w, ['G', 'R', 'D', 'A'], TdfKind::String, TdfKind::Group, 0);
        // Game size rule status: max and min player counts accepted
        tag_group(w, ['G', 'S', 'R', 'D']);
        tag_u8(w, ['P', 'M', 'A', 'X'], 4);
        tag_u8(w, ['P', 'M', 'I', 'N'], 2);
        tag_group_end(w);
        // Host balance rule status: hosts balanced
        tag_group(w, ['H', 'B', 'R', 'D']);
        tag_u8(w, ['B', 'V', 'A', 'L'], 1);
        tag_group_end(w);
        // Host viability rule status: connection assured
        tag_group(w, ['H', 'V', 'R', 'D']);
        tag_zero(w, ['V', 'V', 'A', 'L']);
        tag_group_end(w);
        // Ping site rule status
        tag_group(w, ['P', 'S', 'R', 'S']);
        tag_group_end(w);
        // Rank rule status: matched rank flags
        tag_group(w, ['R', 'R', 'D', 'A']);
        tag_zero(w, ['R', 'V', 'A', 'L']);
        tag_group_end(w);
        // Team size rule status: max and min team sizes accepted
        tag_group(w, ['T', 'S', 'R', 'S']);
        tag_zero(w, ['T', 'M', 'A', 'X']);
        tag_zero(w, ['T', 'M', 'I', 'N']);
        tag_group_end(w);
        // UED rule status
        tag_map_start(w, ['U', 'E', 'D', 'S'], TdfKind::String, TdfKind::Group, 0);
        // Virtual game rule status
        tag_group(w, ['V', 'G', 'R', 'S']);
        tag_zero(w, ['V', 'V', 'A', 'L']);
        tag_group_end(w);
        // End of the status list entry
        tag_group_end(w);
        tag_u32(w, ['M', 'S', 'I', 'D'], self.player_id);
        tag_u32(w, ['U', 'S', 'I', 'D'], self.player_id);
    }
}

/// Notification of a game state change.
#[derive(Clone, Copy, PartialEq, Eq, Structural)]
pub struct StateChange {
    pub id: u32,
    pub state: GameState,
}

/// Notification of a game setting change.
#[derive(Clone, Copy, PartialEq, Eq, Structural)]
pub struct SettingChange {
    pub settings: GameSettings,
    pub id: u32,
}

/// Notification of a game reporting ID change.
#[derive(Clone, Copy, PartialEq, Eq, Structural)]
pub struct ReportingIdChange {
    pub id: u32,
    pub grid: u64,
}

/// Notification of game attribute changes (the attributes that were set).
pub struct AttributesChange {
    pub attributes: AttrMap,
    pub id: u32,
}

/// Notification that a player is joining: the player in `slot` of game
/// `game_id`.
#[derive(Clone, Copy, PartialEq, Eq, Structural)]
pub struct PlayerJoining {
    pub game_id: u32,
    pub slot: usize,
    pub player_id: u32,
}

/// Team index that assigns the player to whichever team has room.
pub const UNSPECIFIED_TEAM_INDEX: u16 = 0xffff;

/// Hash of a version string: starting from 2166136261, each byte multiplies
/// the hash by 16777619 (wrapping) and is then xor-ed in.
pub open spec fn spec_version_hash(bytes: Seq<u8>) -> u64
    decreases bytes.len(),
{
    if bytes.len() == 0 {
        2166136261u64
    } else {
        (spec_version_hash(bytes.drop_last()).wrapping_mul(16777619u64)) ^ (bytes.last() as u64)
    }
}

/// Game version hashing.
pub fn compute_version_hash(version: &str) -> (r: u64)
    ensures
        r == spec_version_hash(version.spec_bytes()),
{
    let bytes = version.as_bytes();
    let mut hash: u64 = 2166136261;
    let mut i: usize = 0;
    while i < bytes.len()
        invariant
            0 <= i <= bytes@.len(),
            bytes@ == version.spec_bytes(),
            hash == spec_version_hash(bytes@.take(i as int)),
        decreases bytes@.len() - i,
    {
        proof {
            assert(bytes@.take(i + 1).drop_last() =~= bytes@.take(i as int));
        }
        hash = hash.wrapping_mul(16777619) ^ (bytes[i] as u64);
        i = i + 1;
    }
    proof {
        assert(bytes@.take(bytes@.len() as int) =~= bytes@);
    }
    hash
}

/// Bytes of `context` written as the tagged union `tag`: key 0 and the
/// dataless context (`DCTX`), or key 3 and the matchmaking fit scores,
/// matchmaking session, result and user session; either value is the
/// group `VALU`.
pub open spec fn setup_context_bytes(tag: Tag, context: GameSetupContext) -> Seq<u8> {
    match context {
        GameSetupContext::Dataless { context } => tdf_tag_union_start(tag, 0x0)
            + tdf_tag_group(['V', 'A', 'L', 'U']) + tdf_tag_u8(['D', 'C', 'T', 'X'], context.spec_value())
            + seq![0u8],
        GameSetupContext::Matchmaking { fit_score, max_fit_score, session_id, result, player_id } =>
            tdf_tag_union_start(tag, 0x3) + tdf_tag_group(['V', 'A', 'L', 'U'])
            + tdf_tag_u16(['F', 'I', 'T', '\0'], fit_score) + tdf_tag_u16(['M', 'A', 'X', 'F'], max_fit_score)
            + tdf_tag_u32(['M', 'S', 'I', 'D'], session_id) + tdf_tag_u8(['R', 'S', 'L', 'T'], result.spec_value())
            + tdf_tag_u32(['U', 'S', 'I', 'D'], player_id) + seq![0u8],
    }
}

impl GameSetupContext {
    /// Writes this context as the tagged union `tag`.
    pub fn serialize(&self, tag: Tag, w: &mut Vec<u8>)
        requires
            valid_tag(tag),
        ensures
            final(w)@ == old(w)@ + setup_context_bytes(tag, *self),
    {
        match self {
            GameSetupContext::Dataless { context } => {
                tag_union_start(w, tag, 0x0);
                tag_group(w, ['V', 'A', 'L', 'U']);
                tag_u8(w, ['D', 'C', 'T', 'X'], context.value());
                tag_group_end(w);
            },
            GameSetupContext::Matchmaking { fit_score, max_fit_score, session_id, result, player_id } => {
                tag_union_start(w, tag, 0x3);
                tag_group(w, ['V', 'A', 'L', 'U']);
                tag_u16(w, ['F', 'I', 'T', '\0'], *fit_score);
                tag_u16(w, ['M', 'A', 'X', 'F'], *max_fit_score);
                tag_u32(w, ['M', 'S', 'I', 'D'], *session_id);
                tag_u8(w, ['R', 'S', 'L', 'T'], result.value());
                tag_u32(w, ['U', 'S', 'I', 'D'], *player_id);
                tag_group_end(w);
            },
        }
        proof {
            assert(w@ =~= old(w)@ + setup_context_bytes(tag, *self));
        }
    }
}

impl CreateGameResponse {
    /// Writes the ID of the created game.
    pub fn serialize(&self, w: &mut Vec<u8>)
        ensures
            final(w)@ == old(w)@ + tdf_tag_u32(['G', 'I', 'D', '\0'], self.game_id),
    {
        tag_u32(w, ['G', 'I', 'D', '\0'], self.game_id);
    }
}

impl MatchmakingResponse {
    /// Writes the matchmaking session ID.
    pub fn serialize(&self, w: &mut Vec<u8>)
        ensures
            final(w)@ == old(w)@ + tdf_tag_u32(['M', 'S', 'I', 'D'], self.id),
    {
        tag_u32(w, ['M', 'S', 'I', 'D'], self.id);
    }
}

impl JoinGameResponse {
    /// Writes the joined game ID and the join state.
    pub fn serialize(&self, w: &mut Vec<u8>)
        ensures
            final(w)@ == old(w)@ + tdf_tag_u32(['G', 'I', 'D', '\0'], self.game_id)
                + tdf_tag_u8(['J', 'G', 'S', '\0'], self.state.spec_value()),
    {
        tag_u32(w, ['G', 'I', 'D', '\0'], self.game_id);
        tag_u8(w, ['J', 'G', 'S', '\0'], self.state.value());
        proof {
            assert(w@ =~= old(w)@ + tdf_tag_u32(['G', 'I', 'D', '\0'], self.game_id)
                + tdf_tag_u8(['J', 'G', 'S', '\0'], self.state.spec_value()));
        }
    }
}

impl PlayerRemoved {
    /// Writes the context, game, player and reason of the removal.
    pub fn serialize(&self, w: &mut Vec<u8>)
        ensures
            final(w)@ == old(w)@ + tdf_tag_u8(['C', 'N', 'T', 'X'], self.cntx)
                + tdf_tag_u32(['G', 'I', 'D', '\0'], self.game_id) + tdf_tag_u32(['P', 'I', 'D', '\0'], self.player_id)
                + tdf_tag_u8(['R', 'E', 'A', 'S'], self.reason.spec_value()),
    {
        tag_u8(w, ['C', 'N', 'T', 'X'], self.cntx);
        tag_u32(w, ['G', 'I', 'D', '\0'], self.game_id);
        tag_u32(w, ['P', 'I', 'D', '\0'], self.player_id);
        tag_u8(w, ['R', 'E', 'A', 'S'], self.reason.value());
        proof {
            assert(w@ =~= old(w)@ + tdf_tag_u8(['C', 'N', 'T', 'X'], self.cntx)
                + tdf_tag_u32(['G', 'I', 'D', '\0'], self.game_id) + tdf_tag_u32(['P', 'I', 'D', '\0'], self.player_id)
                + tdf_tag_u8(['R', 'E', 'A', 'S'], self.reason.spec_value()));
        }
    }
}

impl AdminListChange {
    /// Writes the player, game, operation and host of the change.
    pub fn serialize(&self, w: &mut Vec<u8>)
        ensures
            final(w)@ == old(w)@ + tdf_tag_u32(['A', 'L', 'S', 'T'], self.player_id)
                + tdf_tag_u32(['G', 'I', 'D', '\0'], self.game_id)
                + tdf_tag_u8(['O', 'P', 'E', 'R'], self.operation.spec_value())
                + tdf_tag_u32(['U', 'I', 'D', '\0'], self.host_id),
    {
        tag_u32(w, ['A', 'L', 'S', 'T'], self.player_id);
        tag_u32(w, ['G', 'I', 'D', '\0'], self.game_id);
        tag_u8(w, ['O', 'P', 'E', 'R'], self.operation.value());
        tag_u32(w, ['U', 'I', 'D', '\0'], self.host_id);
        proof {
            assert(w@ =~= old(w)@ + tdf_tag_u32(['A', 'L', 'S', 'T'], self.player_id)
                + tdf_tag_u32(['G', 'I', 'D', '\0'], self.game_id)
                + tdf_tag_u8(['O', 'P', 'E', 'R'], self.operation.spec_value())
                + tdf_tag_u32(['U', 'I', 'D', '\0'], self.host_id));
        }
    }
}

impl PlayerStateChange {
    /// Writes the game, player and new state.
    pub fn serialize(&self, w: &mut Vec<u8>)
        ensures
            final(w)@ == old(w)@ + tdf_tag_u32(['G', 'I', 'D', '\0'], self.gid)
                + tdf_tag_u32(['P', 'I', 'D', '\0'], self.pid) + tdf_tag_u8(['S', 'T', 'A', 'T'], self.state.spec_value()),
    {
        tag_u32(w, ['G', 'I', 'D', '\0'], self.gid);
        tag_u32(w, ['P', 'I', 'D', '\0'], self.pid);
        tag_u8(w, ['S', 'T', 'A', 'T'], self.state.value());
        proof {
            assert(w@ =~= old(w)@ + tdf_tag_u32(['G', 'I', 'D', '\0'], self.gid)
                + tdf_tag_u32(['P', 'I', 'D', '\0'], self.pid) + tdf_tag_u8(['S', 'T', 'A', 'T'], self.state.spec_value()));
        }
    }
}

impl JoinComplete {
    /// Writes the game and the player that completed joining.
    pub fn serialize(&self, w: &mut Vec<u8>)
        ensures
            final(w)@ == old(w)@ + tdf_tag_u32(['G', 'I', 'D', '\0'], self.game_id)
                + tdf_tag_u32(['P', 'I', 'D', '\0'], self.player_id),
    {
        tag_u32(w, ['G', 'I', 'D', '\0'], self.game_id);
        tag_u32(w, ['P', 'I', 'D', '\0'], self.player_id);
        proof {
            assert(w@ =~= old(w)@ + tdf_tag_u32(['G', 'I', 'D', '\0'], self.game_id)
                + tdf_tag_u32(['P', 'I', 'D', '\0'], self.player_id));
        }
    }
}

impl HostMigrateStart {
    /// Writes the game, new host, migration type and slot.
    pub fn serialize(&self, w: &mut Vec<u8>)
        ensures
            final(w)@ == old(w)@ + tdf_tag_u32(['G', 'I', 'D', '\0'], self.game_id)
                + tdf_tag_u32(['H', 'O', 'S', 'T'], self.host_id) + tdf_tag_u32(['P', 'M', 'I', 'G'], self.pmig)
                + tdf_tag_u8(['S', 'L', 'O', 'T'], self.slot),
    {
        tag_u32(w, ['G', 'I', 'D', '\0'], self.game_id);
        tag_u32(w, ['H', 'O', 'S', 'T'], self.host_id);
        tag_u32(w, ['P', 'M', 'I', 'G'], self.pmig);
        tag_u8(w, ['S', 'L', 'O', 'T'], self.slot);
        proof {
            assert(w@ =~= old(w)@ + tdf_tag_u32(['G', 'I', 'D', '\0'], self.game_id)
                + tdf_tag_u32(['H', 'O', 'S', 'T'], self.host_id) + tdf_tag_u32(['P', 'M', 'I', 'G'], self.pmig)
                + tdf_tag_u8(['S', 'L', 'O', 'T'], self.slot));
        }
    }
}

impl HostMigrateFinished {
    /// Writes the game whose migration finished.
    pub fn serialize(&self, w: &mut Vec<u8>)
        ensures
            final(w)@ == old(w)@ + tdf_tag_u32(['G', 'I', 'D', '\0'], self.game_id),
    {
        tag_u32(w, ['G', 'I', 'D', '\0'], self.game_id);
    }
}

impl StateChange {
    /// Writes the game and its new state.
    pub fn serialize(&self, w: &mut Vec<u8>)
        ensures
            final(w)@ == old(w)@ + tdf_tag_u32(['G', 'I', 'D', '\0'], self.id)
                + tdf_tag_u8(['G', 'S', 'T', 'A'], self.state.spec_value()),
    {
        tag_u32(w, ['G', 'I', 'D', '\0'], self.id);
        tag_u8(w, ['G', 'S', 'T', 'A'], self.state.value());
        proof {
            assert(w@ =~= old(w)@ + tdf_tag_u32(['G', 'I', 'D', '\0'], self.id)
                + tdf_tag_u8(['G', 'S', 'T', 'A'], self.state.spec_value()));
        }
    }
}

impl SettingChange {
    /// Writes the new setting bits (under `ATTR`) and the game.
    pub fn serialize(&self, w: &mut Vec<u8>)
        ensures
            final(w)@ == old(w)@ + tdf_tag_u16(['A', 'T', 'T', 'R'], self.settings.bits)
                + tdf_tag_u32(['G', 'I', 'D', '\0'], self.id),
    {
        tag_u16(w, ['A', 'T', 'T', 'R'], self.settings.bits());
        tag_u32(w, ['G', 'I', 'D', '\0'], self.id);
        proof {
            assert(w@ =~= old(w)@ + tdf_tag_u16(['A', 'T', 'T', 'R'], self.settings.bits)
                + tdf_tag_u32(['G', 'I', 'D', '\0'], self.id));
        }
    }
}

impl AttributesChange {
    /// Writes the changed attributes and the game.
    pub fn serialize(&self, w: &mut Vec<u8>)
        ensures
            final(w)@ == old(w)@ + tdf_tag_str_map(['A', 'T', 'T', 'R'], pair_texts(self.attributes.entries@))
                + tdf_tag_u32(['G', 'I', 'D', '\0'], self.id),
    {
        tag_str_map(w, ['A', 'T', 'T', 'R'], &self.attributes.entries);
        tag_u32(w, ['G', 'I', 'D', '\0'], self.id);
        proof {
            assert(w@ =~= old(w)@ + tdf_tag_str_map(['A', 'T', 'T', 'R'], pair_texts(self.attributes.entries@))
                + tdf_tag_u32(['G', 'I', 'D', '\0'], self.id));
        }
    }
}

impl PlayerJoining {
    /// Writes the game and, as the group `PDAT`, the joining `player`
    /// (the player this notification names) with network address `addr`.
    pub fn serialize(&self, player: &GamePlayer, addr: &NetworkAddress, w: &mut Vec<u8>)
        requires
            player.player.id == self.player_id,
        ensures
            final(w)@ == old(w)@ + tdf_tag_u32(['G', 'I', 'D', '\0'], self.game_id)
                + tdf_tag_group(['P', 'D', 'A', 'T']) + game_player_body(*player, self.game_id, self.slot, *addr),
    {
        tag_u32(w, ['G', 'I', 'D', '\0'], self.game_id);
        tag_group(w, ['P', 'D', 'A', 'T']);
        player.encode(self.game_id, self.slot, addr, w);
        proof {
            assert(w@ =~= old(w)@ + tdf_tag_u32(['G', 'I', 'D', '\0'], self.game_id)
                + tdf_tag_group(['P', 'D', 'A', 'T']) + game_player_body(*player, self.game_id, self.slot, *addr));
        }
    }
}

/// The protocol version of the game.
pub const GAME_PROTOCOL_VERSION: &'static str = "ME3-295976325-179181965240128";

/// Whether connections to a game whose host has quality of service data
/// `qos` go through the tunnel under the configuration `tunnel`.
pub open spec fn uses_tunnel(tunnel: TunnelConfig, qos: QosNetworkData) -> bool {
    match tunnel {
        TunnelConfig::Stricter => qos.natt != NatType::Open,
        TunnelConfig::Always => true,
        TunnelConfig::Disabled => false,
    }
}

/// Bytes of the IDs of `players`, in order, each an untagged integer.
pub open spec fn player_ids_bytes(players: Seq<GamePlayer>) -> Seq<u8>
    decreases players.len(),
{
    if players.len() == 0 {
        Seq::empty()
    } else {
        player_ids_bytes(players.drop_last()) + tdf_u32(players.last().player.id)
    }
}

/// Bytes of the admin list (`ADMN`): the IDs of all `players`.
pub open spec fn admin_list_bytes(players: Seq<GamePlayer>) -> Seq<u8> {
    tdf_tag_list_start(['A', 'D', 'M', 'N'], TdfKind::VarInt, players.len() as usize) + player_ids_bytes(players)
}

/// Bytes of the group bodies of `players` of game `game_id`, the player in
/// slot `i` having the network address of `nets[i]`.
pub open spec fn player_bodies(game_id: u32, players: Seq<GamePlayer>, nets: Seq<NetData>) -> Seq<u8>
    decreases players.len(),
{
    if players.len() == 0 {
        Seq::empty()
    } else {
        let i = players.len() - 1;
        player_bodies(game_id, players.drop_last(), nets) + game_player_body(players[i], game_id, i as usize, nets[i].addr)
    }
}

/// The address (127.0.0.1 and the local tunnel port) that stands for the
/// host of a tunnelled game.
pub open spec fn tunnel_host_address() -> PairAddress {
    PairAddress { addr: 0x7f000001, port: TUNNEL_HOST_LOCAL_PORT }
}

/// Bytes of the host network list (`HNET`): one entry, written as a group
/// of a union key and its value; with the tunnel, key 3 and the tunnel
/// host address, otherwise key 2 and the host's address pair, or the
/// unset key and an empty group when the host has no address.
pub open spec fn host_network_bytes(tunnel: bool, addr: NetworkAddress) -> Seq<u8> {
    tdf_tag_list_start(['H', 'N', 'E', 'T'], TdfKind::Group, 1) + if tunnel {
        seq![3u8] + pair_address_body(tunnel_host_address())
    } else {
        match addr {
            NetworkAddress::AddressPair(pair) => seq![2u8] + ip_pair_body(pair),
            NetworkAddress::Unset => seq![0x7fu8, 0u8],
        }
    }
}

/// Writes the admin list of a game with `players`.
fn write_admin_list(w: &mut Vec<u8>, players: &Vec<GamePlayer>)
    ensures
        final(w)@ == old(w)@ + admin_list_bytes(players@),
{
    let n = players.len();
    tag_list_start(w, ['A', 'D', 'M', 'N'], TdfKind::VarInt, n);
    let ghost start = w@;
    let mut i: usize = 0;
    while i < n
        invariant
            n == players@.len(),
            0 <= i <= n,
            w@ == start + player_ids_bytes(players@.take(i as int)),
        decreases n - i,
    {
        write_u32(w, players[i].player.id);
        proof {
            assert(players@.take(i + 1).drop_last() =~= players@.take(i as int));
        }
        i = i + 1;
    }
    proof {
        assert(players@.take(n as int) =~= players@);
        assert(w@ =~= old(w)@ + admin_list_bytes(players@));
    }
}

/// Writes the player list (`PROS`) of game `game_id` with `players`.
fn write_player_list(w: &mut Vec<u8>, game_id: u32, players: &Vec<GamePlayer>, nets: &[NetData])
    requires
        nets@.len() == players@.len(),
    ensures
        final(w)@ == old(w)@ + tdf_tag_list_start(['P', 'R', 'O', 'S'], TdfKind::Group, players@.len() as usize)
            + player_bodies(game_id, players@, nets@),
{
    let n = players.len();
    tag_list_start(w, ['P', 'R', 'O', 'S'], TdfKind::Group, n);
    let ghost start = w@;
    let mut i: usize = 0;
    while i < n
        invariant
            n == players@.len(),
            nets@.len() == n,
            0 <= i <= n,
            w@ == start + player_bodies(game_id, players@.take(i as int), nets@),
        decreases n - i,
    {
        players[i].encode(game_id, i, &nets[i].addr, w);
        proof {
            assert(players@.take(i + 1).drop_last() =~= players@.take(i as int));
            assert(players@.take(i + 1)[i as int] == players@[i as int]);
        }
        i = i + 1;
    }
    proof {
        assert(players@.take(n as int) =~= players@);
        assert(w@ =~= old(w)@ + tdf_tag_list_start(['P', 'R', 'O', 'S'], TdfKind::Group, n)
            + player_bodies(game_id, players@, nets@));
    }
}

/// Writes the host network list.
fn write_host_network(w: &mut Vec<u8>, tunnel: bool, addr: &NetworkAddress)
    ensures
        final(w)@ == old(w)@ + host_network_bytes(tunnel, *addr),
{
    tag_list_start(w, ['H', 'N', 'E', 'T'], TdfKind::Group, 1);
    if tunnel {
        // Connect to the local end of the tunnel as a dedicated server
        write_byte(w, 3);
        let host = PairAddress { addr: 0x7f000001, port: TUNNEL_HOST_LOCAL_PORT };
        host.serialize(w);
    } else {
        match addr {
            NetworkAddress::AddressPair(pair) => {
                write_byte(w, 2);
                pair.serialize(w);
            },
            NetworkAddress::Unset => {
                // The host has not reported an address
                write_byte(w, 0x7f);
                write_byte(w, 0);
            },
        }
    }
    proof {
        assert(w@ =~= old(w)@ + host_network_bytes(tunnel, *addr));
    }
}

/// The game setup sent to a player joining `game`: the game, its players
/// and why the player is being set up, connections going through the
/// tunnel as `tunnel` says.
pub struct GameSetupResponse<'a> {
    pub game: &'a Game,
    pub context: GameSetupContext,
    pub tunnel: TunnelConfig,
}

/// Bytes of the start of the group `GAME` that describes `game` in its
/// setup: admin list, attributes, slot capacities, ID, name (that of the
/// host), protocol version hash, settings, reporting ID, state and an
/// empty game type.
#[verifier::opaque]
pub open spec fn setup_game_head(game: Game) -> Seq<u8> {
    tdf_tag_group(['G', 'A', 'M', 'E']) + admin_list_bytes(game.players@)
        + tdf_tag_str_map(['A', 'T', 'T', 'R'], pair_texts(game.attributes.entries@))
        + tdf_tag_list_usize(['C', 'A', 'P', '\0'], seq![Game::MAX_PLAYERS, 0usize])
        + tdf_tag_u32(['G', 'I', 'D', '\0'], game.id)
        + tdf_tag_str(['G', 'N', 'A', 'M'], game.players@[0].player.display_name@)
        + tdf_tag_u64(['G', 'P', 'V', 'H'], spec_version_hash(GAME_PROTOCOL_VERSION.spec_bytes()))
        + tdf_tag_u16(['G', 'S', 'E', 'T'], game.settings.bits) + tdf_tag_u64(['G', 'S', 'I', 'D'], 0x4000000a76b645)
        + tdf_tag_u8(['G', 'S', 'T', 'A'], game.state.spec_value()) + tdf_tag_str_empty(['G', 'T', 'Y', 'P'])
}

/// Bytes of the networking part of the group `GAME`: the host network
/// list, the host session `host_id`, the player capacity, the host's
/// quality of service data, not resettable, the topology (dedicated when
/// tunnelled, else peer hosted) and an empty persisted game ID and secret.
#[verifier::opaque]
pub open spec fn setup_game_network(host_id: u32, tunnel: bool, host: NetData) -> Seq<u8> {
    host_network_bytes(tunnel, host.addr) + tdf_tag_u32(['H', 'S', 'E', 'S'], host_id)
        + tdf_tag_zero(['I', 'G', 'N', 'O']) + tdf_tag_usize(['M', 'C', 'A', 'P'], Game::MAX_PLAYERS)
        + qos_bytes(['N', 'Q', 'O', 'S'], host.qos) + tdf_tag_bool(['N', 'R', 'E', 'S'], false)
        + tdf_tag_u8(['N', 'T', 'O', 'P'], if tunnel {
            GameNetworkTopology::Dedicated.spec_value()
        } else {
            GameNetworkTopology::PeerHosted.spec_value()
        }) + tdf_tag_str_empty(['P', 'G', 'I', 'D']) + tdf_tag_blob_empty(['P', 'G', 'S', 'R'])
}

/// Bytes of the end of the group `GAME`: platform host `host_id`,
/// standard presence, ping site, queue capacity, seed, team capacity,
/// topology host `host_id`, UUID, peer to peer VOIP, protocol version, two
/// empty blobs, then the end of the group.
#[verifier::opaque]
pub open spec fn setup_game_tail(host_id: u32) -> Seq<u8> {
    tdf_tag_group(['P', 'H', 'S', 'T']) + tdf_tag_u32(['H', 'P', 'I', 'D'], host_id)
        + tdf_tag_zero(['H', 'S', 'L', 'T']) + seq![0u8]
        + tdf_tag_u8(['P', 'R', 'E', 'S'], PresenceMode::Standard.spec_value())
        + tdf_tag_str(['P', 'S', 'A', 'S'], PING_SITE_ALIAS@) + tdf_tag_zero(['Q', 'C', 'A', 'P'])
        + tdf_tag_u32(['S', 'E', 'E', 'D'], 0x4cbc8585) + tdf_tag_zero(['T', 'C', 'A', 'P'])
        + tdf_tag_group(['T', 'H', 'S', 'T']) + tdf_tag_u32(['H', 'P', 'I', 'D'], host_id)
        + tdf_tag_zero(['H', 'S', 'L', 'T']) + seq![0u8]
        + tdf_tag_str(['U', 'U', 'I', 'D'], "286a2373-3e6e-46b9-8294-3ef05e479503"@)
        + tdf_tag_u8(['V', 'O', 'I', 'P'], VoipTopology::PeerToPeer.spec_value())
        + tdf_tag_str(['V', 'S', 'T', 'R'], GAME_PROTOCOL_VERSION@) + tdf_tag_blob_empty(['X', 'N', 'N', 'C'])
        + tdf_tag_blob_empty(['X', 'S', 'E', 'S']) + seq![0u8]
}

/// Bytes of the group `GAME` that describes `game` in its setup, `tunnel`
/// telling whether connections go through the tunnel and `host` being the
/// net data of the host (the first player).
pub open spec fn setup_game_group(game: Game, tunnel: bool, host: NetData) -> Seq<u8> {
    setup_game_head(game) + setup_game_network(game.players@[0].player.id, tunnel, host)
        + setup_game_tail(game.players@[0].player.id)
}

/// Bytes of the setup of `game` for a player set up for `context`: the
/// game group, the player list (the player in slot `i` having the net
/// data `nets[i]`) and the context as the union `REAS`; connections go
/// through the tunnel when `tunnel` says so for the host's quality of
/// service data.
pub open spec fn game_setup_bytes(game: Game, context: GameSetupContext, tunnel: TunnelConfig, nets: Seq<NetData>) -> Seq<u8> {
    setup_game_group(game, uses_tunnel(tunnel, nets[0].qos), nets[0])
        + tdf_tag_list_start(['P', 'R', 'O', 'S'], TdfKind::Group, game.players@.len() as usize)
        + player_bodies(game.id, game.players@, nets) + setup_context_bytes(['R', 'E', 'A', 'S'], context)
}

/// Writes the start of the game group of `game`.
fn write_setup_game_head(game: &Game, w: &mut Vec<u8>)
    requires
        game.players@.len() > 0,
    ensures
        final(w)@ == old(w)@ + setup_game_head(*game),
{
    let host_player = &game.players[0];
    tag_group(w, ['G', 'A', 'M', 'E']);
    // Admin player list
    write_admin_list(w, &game.players);
    tag_str_map(w, ['A', 'T', 'T', 'R'], &game.attributes.entries);
    // Slot capacities: public and private slots
    let caps: [usize; 2] = [Game::MAX_PLAYERS, 0];
    proof {
        assert(caps@ =~= seq![Game::MAX_PLAYERS, 0usize]);
    }
    tag_list_usize(w, ['C', 'A', 'P', '\0'], &caps);
    tag_u32(w, ['G', 'I', 'D', '\0'], game.id);
    // Game name
    tag_str(w, ['G', 'N', 'A', 'M'], host_player.player.display_name.as_str());
    // Game protocol version hash
    tag_u64(w, ['G', 'P', 'V', 'H'], compute_version_hash(GAME_PROTOCOL_VERSION));
    tag_u16(w, ['G', 'S', 'E', 'T'], game.settings.bits());
    // Game reporting ID
    tag_u64(w, ['G', 'S', 'I', 'D'], 0x4000000a76b645);
    tag_u8(w, ['G', 'S', 'T', 'A'], game.state.value());
    // Game type used for game reporting
    tag_str_empty(w, ['G', 'T', 'Y', 'P']);
    proof {
        reveal(setup_game_head);
        assert(w@ =~= old(w)@ + setup_game_head(*game));
    }
}

/// Writes the networking part of the game group.
fn write_setup_game_network(host_id: u32, tunnel: bool, host: &NetData, w: &mut Vec<u8>)
    ensures
        final(w)@ == old(w)@ + setup_game_network(host_id, tunnel, *host),
{
    // Topology host network list
    write_host_network(w, tunnel, &host.addr);
    // Host session
    tag_u32(w, ['H', 'S', 'E', 'S'], host_id);
    tag_zero(w, ['I', 'G', 'N', 'O']);
    // Max player capacity
    tag_usize(w, ['M', 'C', 'A', 'P'], Game::MAX_PLAYERS);
    // Host network quality of service data
    host.qos.serialize(['N', 'Q', 'O', 'S'], w);
    // Not resettable
    tag_bool(w, ['N', 'R', 'E', 'S'], false);
    let topology = if tunnel {
        GameNetworkTopology::Dedicated
    } else {
        GameNetworkTopology::PeerHosted
    };
    tag_u8(w, ['N', 'T', 'O', 'P'], topology.value());
    // Persisted game ID and secret
    tag_str_empty(w, ['P', 'G', 'I', 'D']);
    tag_blob_empty(w, ['P', 'G', 'S', 'R']);
    proof {
        reveal(setup_game_network);
        assert(w@ =~= old(w)@ + setup_game_network(host_id, tunnel, *host));
    }
}

/// Writes the end of the game group.
fn write_setup_game_tail(host_id: u32, w: &mut Vec<u8>)
    ensures
        final(w)@ == old(w)@ + setup_game_tail(host_id),
{
    // Platform host
    tag_group(w, ['P', 'H', 'S', 'T']);
    tag_u32(w, ['H', 'P', 'I', 'D'], host_id);
    tag_zero(w, ['H', 'S', 'L', 'T']);
    tag_group_end(w);
    tag_u8(w, ['P', 'R', 'E', 'S'], PresenceMode::Standard.value());
    // Ping site alias
    tag_str(w, ['P', 'S', 'A', 'S'], PING_SITE_ALIAS);
    // Queue capacity
    tag_zero(w, ['Q', 'C', 'A', 'P']);
    // Shared randomness seed
    tag_u32(w, ['S', 'E', 'E', 'D'], 0x4cbc8585);
    // Team capacity
    tag_zero(w, ['T', 'C', 'A', 'P']);
    // Topology host
    tag_group(w, ['T', 'H', 'S', 'T']);
    tag_u32(w, ['H', 'P', 'I', 'D'], host_id);
    tag_zero(w, ['H', 'S', 'L', 'T']);
    tag_group_end(w);
    tag_str(w, ['U', 'U', 'I', 'D'], "286a2373-3e6e-46b9-8294-3ef05e479503");
    tag_u8(w, ['V', 'O', 'I', 'P'], VoipTopology::PeerToPeer.value());
    tag_str(w, ['V', 'S', 'T', 'R'], GAME_PROTOCOL_VERSION);
    tag_blob_empty(w, ['X', 'N', 'N', 'C']);
    tag_blob_empty(w, ['X', 'S', 'E', 'S']);
    tag_group_end(w);
    proof {
        reveal(setup_game_tail);
        assert(w@ =~= old(w)@ + setup_game_tail(host_id));
    }
}

impl GameSetupResponse<'_> {
    /// Writes the setup of the game; `nets[i]` is the net data of the
    /// player in slot `i`, the host being in slot 0. A game without players
    /// has no host to describe, and nothing is written for it.
    pub fn serialize(&self, nets: &[NetData], w: &mut Vec<u8>)
        requires
            nets@.len() == self.game.players@.len(),
        ensures
            self.game.players@.len() == 0 ==> final(w)@ == old(w)@,
            self.game.players@.len() > 0 ==> final(w)@ == old(w)@ + game_setup_bytes(
                *self.game,
                self.context,
                self.tunnel,
                nets@,
            ),
    {
        if self.game.players.len() == 0 {
            return;
        }
        let host = &nets[0];
        let tunnel = match self.tunnel {
            TunnelConfig::Stricter => host.qos.natt != NatType::Open,
            TunnelConfig::Always => true,
            TunnelConfig::Disabled => false,
        };
        let host_id = self.game.players[0].player.id;
        write_setup_game_head(self.game, w);
        write_setup_game_network(host_id, tunnel, host, w);
        write_setup_game_tail(host_id, w);
        write_player_list(w, self.game.id, &self.game.players, nets);
        self.context.serialize(['R', 'E', 'A', 'S'], w);
        proof {
            assert(w@ =~= old(w)@ + game_setup_bytes(*self.game, self.context, self.tunnel, nets@));
        }
    }
}

/// The details of a game, as sent for a request of game data.
pub struct GetGameDetails<'a> {
    pub game: &'a Game,
}

/// Bytes of the first fields of the details of `game`: admin list,
/// attributes, slot capacities, ID, name (that of the host), settings and
/// state.
#[verifier::opaque]
pub open spec fn details_head(game: Game) -> Seq<u8> {
    admin_list_bytes(game.players@) + tdf_tag_str_map(['A', 'T', 'T', 'R'], pair_texts(game.attributes.entries@))
        + tdf_tag_list_usize(['C', 'A', 'P', '\0'], seq![Game::MAX_PLAYERS, 0usize])
        + tdf_tag_u32(['G', 'I', 'D', '\0'], game.id)
        + tdf_tag_str(['G', 'N', 'A', 'M'], game.players@[0].player.display_name@)
        + tdf_tag_u16(['G', 'S', 'E', 'T'], game.settings.bits) + tdf_tag_u8(['G', 'S', 'T', 'A'], game.state.spec_value())
}

/// Bytes of the last fields of the details of a game with `player_count`
/// players hosted by `host_id` at `host_addr`: the host network list, the
/// host, peer hosted topology, the player counts (public, private),
/// standard presence, ping site, an empty persisted game ID, empty queue,
/// no external session, no teams, peer to peer VOIP, protocol version,
/// then the end of the group.
#[verifier::opaque]
pub open spec fn details_tail(player_count: usize, host_id: u32, host_addr: NetworkAddress) -> Seq<u8> {
    host_network_bytes(false, host_addr) + tdf_tag_u32(['H', 'O', 'S', 'T'], host_id)
        + tdf_tag_u8(['N', 'T', 'O', 'P'], GameNetworkTopology::PeerHosted.spec_value())
        + tdf_tag_list_usize(['P', 'C', 'N', 'T'], seq![player_count, 0usize])
        + tdf_tag_u8(['P', 'R', 'E', 'S'], PresenceMode::Standard.spec_value())
        + tdf_tag_str(['P', 'S', 'A', 'S'], PING_SITE_ALIAS@) + tdf_tag_str_empty(['P', 'G', 'I', 'D'])
        + tdf_tag_zero(['Q', 'C', 'A', 'P']) + tdf_tag_zero(['Q', 'C', 'N', 'T']) + tdf_tag_zero(['S', 'I', 'D', '\0'])
        + tdf_tag_zero(['T', 'C', 'A', 'P']) + tdf_tag_u8(['V', 'O', 'I', 'P'], VoipTopology::PeerToPeer.spec_value())
        + tdf_tag_str(['V', 'S', 'T', 'R'], GAME_PROTOCOL_VERSION@) + seq![0u8]
}

/// Bytes of the details of `game`, its host (the first player) being at
/// `host_addr`: a list (`GDAT`) of one group.
pub open spec fn game_details_bytes(game: Game, host_addr: NetworkAddress) -> Seq<u8> {
    tdf_tag_list_start(['G', 'D', 'A', 'T'], TdfKind::Group, 1) + details_head(game)
        + details_tail(game.players@.len() as usize, game.players@[0].player.id, host_addr)
}

/// Writes the first fields of the details of `game`.
fn write_details_head(game: &Game, w: &mut Vec<u8>)
    requires
        game.players@.len() > 0,
    ensures
        final(w)@ == old(w)@ + details_head(*game),
{
    // Admin player list
    write_admin_list(w, &game.players);
    tag_str_map(w, ['A', 'T', 'T', 'R'], &game.attributes.entries);
    // Slot capacities: public and private slots
    let caps: [usize; 2] = [Game::MAX_PLAYERS, 0];
    proof {
        assert(caps@ =~= seq![Game::MAX_PLAYERS, 0usize]);
    }
    tag_list_usize(w, ['C', 'A', 'P', '\0'], &caps);
    tag_u32(w, ['G', 'I', 'D', '\0'], game.id);
    // Game name
    tag_str(w, ['G', 'N', 'A', 'M'], game.players[0].player.display_name.as_str());
    tag_u16(w, ['G', 'S', 'E', 'T'], game.settings.bits());
    tag_u8(w, ['G', 'S', 'T', 'A'], game.state.value());
    proof {
        reveal(details_head);
        assert(w@ =~= old(w)@ + details_head(*game));
    }
}

/// Writes the last fields of the details of a game.
fn write_details_tail(player_count: usize, host_id: u32, host_addr: &NetworkAddress, w: &mut Vec<u8>)
    ensures
        final(w)@ == old(w)@ + details_tail(player_count, host_id, *host_addr),
{
    // Topology host network list
    write_host_network(w, false, host_addr);
    tag_u32(w, ['H', 'O', 'S', 'T'], host_id);
    tag_u8(w, ['N', 'T', 'O', 'P'], GameNetworkTopology::PeerHosted.value());
    // Player counts by slot: public and private
    let counts: [usize; 2] = [player_count, 0];
    proof {
        assert(counts@ =~= seq![player_count, 0usize]);
    }
    tag_list_usize(w, ['P', 'C', 'N', 'T'], &counts);
    tag_u8(w, ['P', 'R', 'E', 'S'], PresenceMode::Standard.value());
    // Ping site alias
    tag_str(w, ['P', 'S', 'A', 'S'], PING_SITE_ALIAS);
    // Persisted game ID
    tag_str_empty(w, ['P', 'G', 'I', 'D']);
    // Queue capacity and count
    tag_zero(w, ['Q', 'C', 'A', 'P']);
    tag_zero(w, ['Q', 'C', 'N', 'T']);
    // External session ID
    tag_zero(w, ['S', 'I', 'D', '\0']);
    // Team capacity
    tag_zero(w, ['T', 'C', 'A', 'P']);
    tag_u8(w, ['V', 'O', 'I', 'P'], VoipTopology::PeerToPeer.value());
    tag_str(w, ['V', 'S', 'T', 'R'], GAME_PROTOCOL_VERSION);
    tag_group_end(w);
    proof {
        reveal(details_tail);
        assert(w@ =~= old(w)@ + details_tail(player_count, host_id, *host_addr));
    }
}

impl GetGameDetails<'_> {
    /// Writes the details of the game, its host being at `host_addr`;
    /// nothing for a game without players.
    pub fn serialize(&self, host_addr: &NetworkAddress, w: &mut Vec<u8>)
        ensures
            self.game.players@.len() == 0 ==> final(w)@ == old(w)@,
            self.game.players@.len() > 0 ==> final(w)@ == old(w)@ + game_details_bytes(*self.game, *host_addr),
    {
        let game = self.game;
        if game.players.len() == 0 {
            return;
        }
        tag_list_start(w, ['G', 'D', 'A', 'T'], TdfKind::Group, 1);
        write_details_head(game, w);
        write_details_tail(game.players.len(), game.players[0].player.id, host_addr, w);
        proof {
            assert(w@ =~= old(w)@ + game_details_bytes(*game, *host_addr));
        }
    }
}

} // verus!
