use pocket_relay::attrs::AttrMap;
use pocket_relay::game::{Game, GamePlayer, GamePlayerPlayerDataSnapshot};
use pocket_relay::models::game_manager::{
    AdminListChange, AdminListOperation, AttributesChange, CreateGameResponse, DatalessContext,
    GameSettings, GameSetupContext, GameSetupResponse, GameState, GetGameDetails,
    HostMigrateFinished, HostMigrateStart, JoinComplete, JoinGameResponse, JoinGameState,
    MatchmakingResponse, MatchmakingResult, PlayerJoining, PlayerRemoved, PlayerState,
    PlayerStateChange, RemoveReason, SettingChange, StateChange,
};
use pocket_relay::models::net::{
    IpPairAddress, NatType, NetData, NetworkAddress, PairAddress, QosNetworkData,
};
use pocket_relay::models::util::TunnelConfig;
use pocket_relay::models::Player;
use tdf::{ObjectId, Tagged, TdfMap, TdfSerialize, TdfSerializer, TdfType, TdfTyped};

/// Unset key of a tagged union.
const UNSET_KEY: u8 = 0x7f;

/// An address as its wire group: `IP` and `PORT`.
struct WirePair {
    ip: u32,
    port: u16,
}

impl TdfSerialize for WirePair {
    fn serialize<S: TdfSerializer>(&self, w: &mut S) {
        w.tag_u32(b"IP", self.ip);
        w.tag_u16(b"PORT", self.port);
        w.tag_group_end();
    }
}

impl TdfTyped for WirePair {
    const TYPE: TdfType = TdfType::Group;
}

/// An address pair as its wire group: `EXIP` then `INIP`.
struct WireIpPair {
    external: WirePair,
    internal: WirePair,
}

impl TdfSerialize for WireIpPair {
    fn serialize<S: TdfSerializer>(&self, w: &mut S) {
        w.tag_ref(b"EXIP", &self.external);
        w.tag_ref(b"INIP", &self.internal);
        w.tag_group_end();
    }
}

impl TdfTyped for WireIpPair {
    const TYPE: TdfType = TdfType::Group;
}

/// A network address as its wire union: key 2 with `VALU`, or unset.
enum WireAddr {
    Pair(WireIpPair),
    Unset,
}

impl TdfSerialize for WireAddr {
    fn serialize<S: TdfSerializer>(&self, w: &mut S) {
        match self {
            WireAddr::Pair(pair) => {
                w.write_byte(2);
                Tagged::serialize_raw(w, b"VALU", TdfType::Group);
                pair.serialize(w);
            }
            WireAddr::Unset => w.write_byte(UNSET_KEY),
        }
    }
}

impl TdfTyped for WireAddr {
    const TYPE: TdfType = TdfType::TaggedUnion;
}

/// Quality of service data as its wire group.
struct WireQos {
    dbps: u32,
    natt: u8,
    ubps: u32,
}

impl TdfSerialize for WireQos {
    fn serialize<S: TdfSerializer>(&self, w: &mut S) {
        w.tag_u32(b"DBPS", self.dbps);
        w.tag_u8(b"NATT", self.natt);
        w.tag_u32(b"UBPS", self.ubps);
        w.tag_group_end();
    }
}

impl TdfTyped for WireQos {
    const TYPE: TdfType = TdfType::Group;
}

const EXTERNAL: PairAddress = PairAddress { addr: 0x5DB8_D822, port: 3659 };
const INTERNAL: PairAddress = PairAddress { addr: 0xC0A8_0105, port: 3659 };

fn pair_address() -> NetworkAddress {
    NetworkAddress::AddressPair(IpPairAddress { internal: INTERNAL, external: EXTERNAL })
}

fn wire_pair() -> WireIpPair {
    WireIpPair {
        external: WirePair { ip: EXTERNAL.addr, port: EXTERNAL.port },
        internal: WirePair { ip: INTERNAL.addr, port: INTERNAL.port },
    }
}

fn net(addr: NetworkAddress, natt: NatType) -> NetData {
    let mut data = NetData::default_data();
    data.addr = addr;
    data.qos = QosNetworkData { dbps: 100, natt, ubps: 50 };
    data
}

fn player(id: u32, name: &str, state: PlayerState) -> GamePlayer {
    let mut p = GamePlayer::new(
        Player { id, email: format!("{}@example.com", name), display_name: name.to_string() },
        GamePlayerPlayerDataSnapshot { data: Vec::new() },
    );
    p.state = state;
    p
}

fn game() -> Game {
    let attributes = AttrMap::from_pairs(vec![
        ("ME3map".to_string(), "map2".to_string()),
        ("ME3gameDifficulty".to_string(), "difficulty1".to_string()),
        ("ME3privacy".to_string(), "PUBLIC".to_string()),
    ]);
    let mut game = Game::new_with(19, attributes, GameSettings::from_bits_retain(0x11f), 0, 7);
    game.state = GameState::PreGame;
    game.players.push(player(3, "Host", PlayerState::ActiveConnected));
    game.players.push(player(8, "Guest", PlayerState::ActiveConnecting));
    game
}

fn attr_map() -> TdfMap<String, String> {
    vec![
        ("ME3map".to_string(), "map2".to_string()),
        ("ME3gameDifficulty".to_string(), "difficulty1".to_string()),
        ("ME3privacy".to_string(), "PUBLIC".to_string()),
    ]
    .into_iter()
    .collect()
}

/// The body of a player group as the server writes it.
fn expected_player(w: &mut Vec<u8>, game_id: u32, slot: usize, id: u32, name: &str, state: u8, addr: &WireAddr) {
    w.group_body(|w| {
        w.tag_blob_empty(b"BLOB");
        w.tag_u8(b"EXID", 0);
        w.tag_u32(b"GID", game_id);
        w.tag_u32(b"LOC", u32::from_be_bytes(*b"enNZ"));
        w.tag_str(b"NAME", name);
        w.tag_u32(b"PID", id);
        w.tag_ref(b"PNET", addr);
        w.tag_usize(b"SID", slot);
        w.tag_u8(b"SLOT", 0);
        w.tag_u8(b"STAT", state);
        w.tag_u16(b"TIDX", 0xffff);
        w.tag_u8(b"TIME", 0);
        w.tag_alt(b"UGID", ObjectId::new_raw(0, 0, 0));
        w.tag_u32(b"UID", id);
    });
}

#[test]
fn notification_layouts() {
    let mut ours = Vec::new();
    CreateGameResponse { game_id: 19 }.serialize(&mut ours);
    let mut w: Vec<u8> = Vec::new();
    w.tag_u32(b"GID", 19);
    assert_eq!(ours, w);

    let mut ours = Vec::new();
    MatchmakingResponse { id: 3 }.serialize(&mut ours);
    let mut w: Vec<u8> = Vec::new();
    w.tag_u32(b"MSID", 3);
    assert_eq!(ours, w);

    let mut ours = Vec::new();
    JoinGameResponse { game_id: 19, state: JoinGameState::JoinedGame }.serialize(&mut ours);
    let mut w: Vec<u8> = Vec::new();
    w.tag_u32(b"GID", 19);
    w.tag_u8(b"JGS", 0);
    assert_eq!(ours, w);

    let mut ours = Vec::new();
    PlayerRemoved { cntx: 0, game_id: 19, player_id: 8, reason: RemoveReason::PlayerKicked }
        .serialize(&mut ours);
    let mut w: Vec<u8> = Vec::new();
    w.tag_u8(b"CNTX", 0);
    w.tag_u32(b"GID", 19);
    w.tag_u32(b"PID", 8);
    w.tag_u8(b"REAS", 0x8);
    assert_eq!(ours, w);

    let mut ours = Vec::new();
    AdminListChange { player_id: 8, game_id: 19, operation: AdminListOperation::Remove, host_id: 3 }
        .serialize(&mut ours);
    let mut w: Vec<u8> = Vec::new();
    w.tag_u32(b"ALST", 8);
    w.tag_u32(b"GID", 19);
    w.tag_u8(b"OPER", 1);
    w.tag_u32(b"UID", 3);
    assert_eq!(ours, w);

    let mut ours = Vec::new();
    PlayerStateChange { gid: 19, pid: 8, state: PlayerState::ActiveConnected }.serialize(&mut ours);
    let mut w: Vec<u8> = Vec::new();
    w.tag_u32(b"GID", 19);
    w.tag_u32(b"PID", 8);
    w.tag_u8(b"STAT", 4);
    assert_eq!(ours, w);

    let mut ours = Vec::new();
    JoinComplete { game_id: 19, player_id: 8 }.serialize(&mut ours);
    let mut w: Vec<u8> = Vec::new();
    w.tag_u32(b"GID", 19);
    w.tag_u32(b"PID", 8);
    assert_eq!(ours, w);

    let mut ours = Vec::new();
    HostMigrateStart { game_id: 19, host_id: 8, pmig: 2, slot: 0 }.serialize(&mut ours);
    let mut w: Vec<u8> = Vec::new();
    w.tag_u32(b"GID", 19);
    w.tag_u32(b"HOST", 8);
    w.tag_u32(b"PMIG", 2);
    w.tag_u8(b"SLOT", 0);
    assert_eq!(ours, w);

    let mut ours = Vec::new();
    HostMigrateFinished { game_id: 19 }.serialize(&mut ours);
    let mut w: Vec<u8> = Vec::new();
    w.tag_u32(b"GID", 19);
    assert_eq!(ours, w);

    let mut ours = Vec::new();
    StateChange { id: 19, state: GameState::InGame }.serialize(&mut ours);
    let mut w: Vec<u8> = Vec::new();
    w.tag_u32(b"GID", 19);
    w.tag_u8(b"GSTA", 0x83);
    assert_eq!(ours, w);

    let mut ours = Vec::new();
    SettingChange { settings: GameSettings::from_bits_retain(0x11f), id: 19 }.serialize(&mut ours);
    let mut w: Vec<u8> = Vec::new();
    w.tag_u16(b"ATTR", 0x11f);
    w.tag_u32(b"GID", 19);
    assert_eq!(ours, w);
}

#[test]
fn attributes_change_writes_a_sorted_map() {
    let mut ours = Vec::new();
    AttributesChange { attributes: game().attributes, id: 19 }.serialize(&mut ours);
    let mut w: Vec<u8> = Vec::new();
    w.tag_ref(b"ATTR", &attr_map());
    w.tag_u32(b"GID", 19);
    assert_eq!(ours, w);
    // The keys come out in order, whatever order they were stored in
    let mut sorted: Vec<u8> = Vec::new();
    sorted.tag_map_start(b"ATTR", TdfType::String, TdfType::String, 3);
    for (k, v) in [("ME3gameDifficulty", "difficulty1"), ("ME3map", "map2"), ("ME3privacy", "PUBLIC")] {
        k.serialize(&mut sorted);
        v.serialize(&mut sorted);
    }
    sorted.tag_u32(b"GID", 19);
    assert_eq!(ours, sorted);
}

#[test]
fn setup_context_layouts() {
    let mut ours = Vec::new();
    GameSetupContext::Dataless { context: DatalessContext::JoinGameSetup }
        .serialize(['R', 'E', 'A', 'S'], &mut ours);
    let mut w: Vec<u8> = Vec::new();
    w.tag_union_start(b"REAS", 0x0);
    w.group(b"VALU", |w| w.tag_u8(b"DCTX", 1));
    assert_eq!(ours, w);

    let mut ours = Vec::new();
    GameSetupContext::Matchmaking {
        fit_score: 21600,
        max_fit_score: 21600,
        session_id: 8,
        result: MatchmakingResult::JoinedExistingGame,
        player_id: 8,
    }
    .serialize(['R', 'E', 'A', 'S'], &mut ours);
    let mut w: Vec<u8> = Vec::new();
    w.tag_union_start(b"REAS", 0x3);
    w.group(b"VALU", |w| {
        w.tag_u16(b"FIT", 21600);
        w.tag_u16(b"MAXF", 21600);
        w.tag_u32(b"MSID", 8);
        w.tag_u8(b"RSLT", 0x2);
        w.tag_u32(b"USID", 8);
    });
    assert_eq!(ours, w);
}

#[test]
fn network_address_layouts() {
    let mut ours = Vec::new();
    pair_address().serialize(['A', 'D', 'D', 'R'], &mut ours);
    let mut w: Vec<u8> = Vec::new();
    w.tag_ref(b"ADDR", &WireAddr::Pair(wire_pair()));
    assert_eq!(ours, w);

    let mut ours = Vec::new();
    NetworkAddress::Unset.serialize(['A', 'D', 'D', 'R'], &mut ours);
    let mut w: Vec<u8> = Vec::new();
    w.tag_ref(b"ADDR", &WireAddr::Unset);
    assert_eq!(ours, w);

    let mut ours = Vec::new();
    QosNetworkData { dbps: 100, natt: NatType::Strict, ubps: 50 }.serialize(['N', 'Q', 'O', 'S'], &mut ours);
    let mut w: Vec<u8> = Vec::new();
    w.tag_ref(b"NQOS", &WireQos { dbps: 100, natt: 3, ubps: 50 });
    assert_eq!(ours, w);
}

#[test]
fn player_encoding_and_joining() {
    let game = game();
    let mut ours = Vec::new();
    game.players[1].encode(19, 1, &pair_address(), &mut ours);
    let mut w: Vec<u8> = Vec::new();
    expected_player(&mut w, 19, 1, 8, "Guest", 2, &WireAddr::Pair(wire_pair()));
    assert_eq!(ours, w);

    let mut ours = Vec::new();
    PlayerJoining { game_id: 19, slot: 1, player_id: 8 }.serialize(&game.players[1], &NetworkAddress::Unset, &mut ours);
    let mut w: Vec<u8> = Vec::new();
    w.tag_u32(b"GID", 19);
    w.tag_group(b"PDAT");
    expected_player(&mut w, 19, 1, 8, "Guest", 2, &WireAddr::Unset);
    assert_eq!(ours, w);
}

/// The setup of `game()` as the server writes it, with the host network
/// entry written by `host_net` and the given topology.
fn expected_setup(host_net: impl Fn(&mut Vec<u8>), topology: u8, natt: u8, host_addr: &WireAddr) -> Vec<u8> {
    let mut w: Vec<u8> = Vec::new();
    w.group(b"GAME", |w| {
        w.tag_list_iter_owned(b"ADMN", [3u32, 8u32].into_iter());
        w.tag_ref(b"ATTR", &attr_map());
        w.tag_list_slice::<usize>(b"CAP", &[4, 0]);
        w.tag_u32(b"GID", 19);
        w.tag_str(b"GNAM", "Host");
        w.tag_u64(b"GPVH", 0x5a4f2b378b715c6);
        w.tag_owned(b"GSET", 0x11fu16);
        w.tag_u64(b"GSID", 0x4000000a76b645);
        w.tag_u8(b"GSTA", 0x82);
        w.tag_str_empty(b"GTYP");
        w.tag_list_start(b"HNET", TdfType::Group, 1);
        host_net(w);
        w.tag_u32(b"HSES", 3);
        w.tag_zero(b"IGNO");
        w.tag_usize(b"MCAP", 4);
        w.tag_ref(b"NQOS", &WireQos { dbps: 100, natt, ubps: 50 });
        w.tag_bool(b"NRES", false);
        w.tag_u8(b"NTOP", topology);
        w.tag_str_empty(b"PGID");
        w.tag_blob_empty(b"PGSR");
        w.group(b"PHST", |w| {
            w.tag_u32(b"HPID", 3);
            w.tag_zero(b"HSLT");
        });
        w.tag_u8(b"PRES", 1);
        w.tag_str(b"PSAS", "ea-sjc");
        w.tag_zero(b"QCAP");
        w.tag_u32(b"SEED", 0x4cbc8585);
        w.tag_zero(b"TCAP");
        w.group(b"THST", |w| {
            w.tag_u32(b"HPID", 3);
            w.tag_zero(b"HSLT");
        });
        w.tag_str(b"UUID", "286a2373-3e6e-46b9-8294-3ef05e479503");
        w.tag_u8(b"VOIP", 2);
        w.tag_str(b"VSTR", "ME3-295976325-179181965240128");
        w.tag_blob_empty(b"XNNC");
        w.tag_blob_empty(b"XSES");
    });
    w.tag_list_start(b"PROS", TdfType::Group, 2);
    expected_player(&mut w, 19, 0, 3, "Host", 4, host_addr);
    expected_player(&mut w, 19, 1, 8, "Guest", 2, &WireAddr::Unset);
    w.tag_union_start(b"REAS", 0x0);
    w.group(b"VALU", |w| w.tag_u8(b"DCTX", 0));
    w
}

fn setup_bytes(tunnel: TunnelConfig, host: NetData) -> Vec<u8> {
    let game = game();
    let nets = vec![host, NetData::default_data()];
    let response = GameSetupResponse {
        game: &game,
        context: GameSetupContext::Dataless { context: DatalessContext::CreateGameSetup },
        tunnel,
    };
    let mut ours = Vec::new();
    response.serialize(&nets, &mut ours);
    ours
}

fn direct_host(w: &mut Vec<u8>) {
    w.write_byte(2);
    wire_pair().serialize(w);
}

fn tunnel_host(w: &mut Vec<u8>) {
    w.write_byte(3);
    WirePair { ip: u32::from_be_bytes([127, 0, 0, 1]), port: 42132 }.serialize(w);
}

#[test]
fn game_setup_connects_open_hosts_directly_under_stricter() {
    let ours = setup_bytes(TunnelConfig::Stricter, net(pair_address(), NatType::Open));
    let expected = expected_setup(direct_host, 0, 0, &WireAddr::Pair(wire_pair()));
    assert_eq!(ours, expected);
}

#[test]
fn game_setup_tunnels_strict_hosts_under_stricter() {
    let ours = setup_bytes(TunnelConfig::Stricter, net(pair_address(), NatType::Moderate));
    let expected = expected_setup(tunnel_host, 1, 1, &WireAddr::Pair(wire_pair()));
    assert_eq!(ours, expected);
}

#[test]
fn game_setup_always_and_disabled_tunnel() {
    let ours = setup_bytes(TunnelConfig::Always, net(pair_address(), NatType::Open));
    assert_eq!(ours, expected_setup(tunnel_host, 1, 0, &WireAddr::Pair(wire_pair())));

    let ours = setup_bytes(TunnelConfig::Disabled, net(NetworkAddress::Unset, NatType::Strict));
    let unset_host = |w: &mut Vec<u8>| {
        w.write_byte(UNSET_KEY);
        w.write_byte(0);
    };
    assert_eq!(ours, expected_setup(unset_host, 0, 3, &WireAddr::Unset));
}

#[test]
fn game_data_details() {
    let game = game();
    let ours = game.game_data(&pair_address());
    let mut details = Vec::new();
    GetGameDetails { game: &game }.serialize(&pair_address(), &mut details);
    assert_eq!(ours, details);

    let mut w: Vec<u8> = Vec::new();
    w.tag_list_start(b"GDAT", TdfType::Group, 1);
    w.group_body(|w| {
        w.tag_list_iter_owned(b"ADMN", [3u32, 8u32].into_iter());
        w.tag_ref(b"ATTR", &attr_map());
        w.tag_list_slice::<usize>(b"CAP", &[4, 0]);
        w.tag_u32(b"GID", 19);
        w.tag_str(b"GNAM", "Host");
        w.tag_u16(b"GSET", 0x11f);
        w.tag_u8(b"GSTA", 0x82);
        w.tag_list_start(b"HNET", TdfType::Group, 1);
        direct_host(w);
        w.tag_u32(b"HOST", 3);
        w.tag_u8(b"NTOP", 0);
        w.tag_list_slice::<usize>(b"PCNT", &[2, 0]);
        w.tag_u8(b"PRES", 1);
        w.tag_str(b"PSAS", "ea-sjc");
        w.tag_str_empty(b"PGID");
        w.tag_zero(b"QCAP");
        w.tag_zero(b"QCNT");
        w.tag_zero(b"SID");
        w.tag_zero(b"TCAP");
        w.tag_u8(b"VOIP", 2);
        w.tag_str(b"VSTR", "ME3-295976325-179181965240128");
    });
    assert_eq!(ours, w);
}

#[test]
fn empty_game_writes_nothing() {
    let game = Game::new_with(5, AttrMap::new(), GameSettings::from_bits_retain(0), 0, 1);
    let mut ours = vec![1u8];
    GameSetupResponse {
        game: &game,
        context: GameSetupContext::Dataless { context: DatalessContext::JoinGameSetup },
        tunnel: TunnelConfig::Always,
    }
    .serialize(&[], &mut ours);
    assert_eq!(ours, vec![1u8]);
    let mut ours = vec![2u8];
    GetGameDetails { game: &game }.serialize(&NetworkAddress::Unset, &mut ours);
    assert_eq!(ours, vec![2u8]);
    assert!(game.game_data(&NetworkAddress::Unset).is_empty());
}
