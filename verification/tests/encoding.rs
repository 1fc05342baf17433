use pocket_relay::models::game_manager::AsyncMatchmakingStatus;
use pocket_relay::models::other::GameReportResponse;
use pocket_relay::models::stats::{EntityCountResponse, LeaderboardDataAndRank, LeaderboardResponse};
use pocket_relay::attrs::AttrMap;
use pocket_relay::models::util::{
    FetchConfigResponse, SettingsResponse, PingResponse, PreAuthResponse, QosServerConfig, TelemetryServer, AUTH_SOURCE, BLAZE_VERSION,
    LOCALE_NZ, PING_SITE_ALIAS, TELEMETRY_DISA, TELEMETRY_PORT,
};
use tdf::{TdfMap, TdfSerialize, TdfSerializer, TdfType};

/// Telemetry key bytes the server sends (not valid UTF-8 throughout).
const TELEMETRY_KEY: &[u8] = &[
    0x5E, 0x20, 0x20, 0x20, 0x20, 0x20, 0x20, 0x20, 0x20, 0x20, 0x20, 0x20, 0x20, 0x20, 0x20, 0x20,
    0xCE, 0xA4, 0x20, 0xDE, 0x8A, 0x20, 0x20, 0xDC, 0xB0, 0x20, 0x20, 0x20, 0x20, 0x20, 0x20, 0x20,
    0x20, 0xE4, 0xB1, 0x99, 0x20, 0xC7, 0x8E, 0x20, 0x20, 0x20, 0x20, 0x20, 0x20, 0x20, 0x20, 0x20,
    0x20, 0xC2, 0x89, 0x20, 0xC3, 0xAC, 0x20, 0x20, 0x20, 0x20, 0x20, 0x20, 0x20, 0x20, 0x20, 0x20,
    0x20, 0x20, 0xCC, 0x89, 0x20, 0x20, 0xCC, 0x9A, 0x20, 0xC8, 0x99, 0x20, 0x20, 0xD8, 0x97, 0x20,
    0x20, 0xCD, 0x9B, 0x20, 0xCC, 0x99, 0x20, 0x20, 0x20, 0x20, 0xEB, 0xB2, 0xA6, 0x20, 0x20, 0x20,
    0x20, 0xC4, 0xA1, 0x20, 0xC6, 0x8C, 0x20, 0x20, 0x20, 0x20, 0x20, 0x20, 0x20, 0xCB, 0xB2, 0xEE,
    0x88, 0x95, 0xD2, 0x80, 0x20,
];

#[test]
fn matchmaking_status_layout() {
    let mut ours = Vec::new();
    AsyncMatchmakingStatus { player_id: 77 }.serialize(&mut ours);

    let mut w: Vec<u8> = Vec::new();
    w.tag_list_start(b"ASIL", TdfType::Group, 1);
    w.group_body(|w| {
        w.group(b"CGS", |w| {
            w.tag_u8(b"EVST", 6);
            w.tag_u8(b"MMSN", 1);
            w.tag_u8(b"NOMP", 0);
        });
        w.tag_group_empty(b"CUST");
        w.group(b"DNFS", |w| {
            w.tag_zero(b"MDNF");
            w.tag_zero(b"XDNF");
        });
        w.group(b"FGS", |w| w.tag_zero(b"GNUM"));
        w.group(b"GEOS", |w| w.tag_zero(b"DIST"));
        w.tag_map_start(b"GRDA", TdfType::String, TdfType::Group, 0);
        w.group(b"GSRD", |w| {
            w.tag_u8(b"PMAX", 4);
            w.tag_u8(b"PMIN", 2);
        });
        w.group(b"HBRD", |w| w.tag_u8(b"BVAL", 1));
        w.group(b"HVRD", |w| w.tag_zero(b"VVAL"));
        w.tag_group_empty(b"PSRS");
        w.group(b"RRDA", |w| w.tag_zero(b"RVAL"));
        w.group(b"TSRS", |w| {
            w.tag_zero(b"TMAX");
            w.tag_zero(b"TMIN");
        });
        w.tag_map_start(b"UEDS", TdfType::String, TdfType::Group, 0);
        w.group(b"VGRS", |w| w.tag_zero(b"VVAL"));
    });
    w.tag_u32(b"MSID", 77);
    w.tag_u32(b"USID", 77);
    assert_eq!(ours, w);
}

#[test]
fn small_responses_layout() {
    let mut ours = Vec::new();
    EntityCountResponse { count: 1234 }.serialize(&mut ours);
    let mut w: Vec<u8> = Vec::new();
    w.tag_usize(b"CNT", 1234);
    assert_eq!(ours, w);

    let mut ours = Vec::new();
    PingResponse { server_time: 1_700_000_000 }.serialize(&mut ours);
    let mut w: Vec<u8> = Vec::new();
    w.tag_u64(b"STIM", 1_700_000_000);
    assert_eq!(ours, w);

    let mut ours = Vec::new();
    GameReportResponse.serialize(&mut ours);
    let mut w: Vec<u8> = Vec::new();
    w.tag_var_int_list_empty(b"DATA");
    w.tag_zero(b"EROR");
    w.tag_zero(b"FNL");
    w.tag_zero(b"GHID");
    w.tag_zero(b"GRID");
    assert_eq!(ours, w);
}

/// A ranked value written the way the leaderboard list holds it.
struct Ranked(u32, &'static str, u32, u32);

impl TdfSerialize for Ranked {
    fn serialize<S: TdfSerializer>(&self, w: &mut S) {
        w.group_body(|w| {
            w.tag_str(b"ENAM", self.1);
            w.tag_u32(b"ENID", self.0);
            w.tag_u32(b"RANK", self.2);
            let value = self.3.to_string();
            w.tag_str(b"RSTA", &value);
            w.tag_zero(b"RWFG");
            w.tag_union_unset(b"RWST");
            w.tag_list_slice(b"STAT", &[value]);
            w.tag_zero(b"UATT");
        });
    }
}

impl tdf::TdfTyped for Ranked {
    const TYPE: TdfType = TdfType::Group;
}

#[test]
fn leaderboard_response_layout() {
    let response = LeaderboardResponse {
        values: vec![
            LeaderboardDataAndRank { player_id: 4, player_name: "Shep".to_string(), rank: 1, value: 9001 },
            LeaderboardDataAndRank { player_id: 9, player_name: "Garrus".to_string(), rank: 2, value: 0 },
        ],
    };
    let mut ours = Vec::new();
    response.serialize(&mut ours);
    let mut w: Vec<u8> = Vec::new();
    w.tag_list_slice(b"LDLS", &[Ranked(4, "Shep", 1, 9001), Ranked(9, "Garrus", 2, 0)]);
    assert_eq!(ours, w);
}

#[test]
fn telemetry_layout() {
    let mut ours = Vec::new();
    TelemetryServer.serialize(&mut ours);
    let mut w: Vec<u8> = Vec::new();
    w.group(b"TELE", |w| {
        w.tag_str(b"ADRS", "127.0.0.1");
        w.tag_zero(b"ANON");
        w.tag_str(b"DISA", TELEMETRY_DISA);
        w.tag_str(b"FILT", "-UION/****");
        w.tag_u32(b"LOC", LOCALE_NZ);
        w.tag_str(b"NOOK", "US,CA,MX");
        w.tag_u16(b"PORT", TELEMETRY_PORT);
        w.tag_u16(b"SDLY", 15000);
        w.tag_str(b"SESS", "pcwdjtOCVpD");
        w.tag_str(b"SKEY", &String::from_utf8_lossy(TELEMETRY_KEY));
        w.tag_u8(b"SPCT", 75);
        w.tag_str_empty(b"STIM");
    });
    assert_eq!(ours, w);
}

fn pre_auth_expected(host: &str, port: u16, disabled: bool) -> Vec<u8> {
    let mut w: Vec<u8> = Vec::new();
    w.tag_zero(b"ANON");
    w.tag_str(b"ASRC", AUTH_SOURCE);
    w.tag_list_slice::<i32>(
        b"CIDS",
        &[0x1, 0x19, 0x4, 0x1c, 0x7, 0x9, 0xf802, 0x7800, 0xf, 0x7801, 0x7802, 0x7803, 0x7805, 0x7806, 0x7d0],
    );
    w.tag_str_empty(b"CNGN");
    w.group(b"CONF", |w| {
        w.tag_map_tuples(
            b"CONF",
            &[("pingPeriod", "15s"), ("voipHeadsetUpdateRate", "1000"), ("xlspConnectionIdleTimeout", "300")],
        );
    });
    w.tag_str(b"INST", "masseffect-3-pc");
    w.tag_bool(b"MINR", false);
    w.tag_str(b"NASP", "cem_ea_id");
    w.tag_str_empty(b"PILD");
    w.tag_str(b"PLAT", "pc");
    w.tag_str_empty(b"PTAG");
    w.group(b"QOSS", |w| {
        w.group(b"BWPS", |w| {
            w.tag_str(b"PSA", host);
            w.tag_u16(b"PSP", port);
            w.tag_str(b"SNA", "prod-sjc");
        });
        w.tag_u8(b"LNP", 1);
        w.tag_map_start(b"LTPS", TdfType::String, TdfType::Group, if disabled { 0 } else { 1 });
        if !disabled {
            PING_SITE_ALIAS.serialize(w);
            w.group_body(|w| {
                w.tag_str(b"PSA", host);
                w.tag_u16(b"PSP", port);
                w.tag_str(b"SNA", "prod-sjc");
            });
        }
        w.tag_u32(b"SVID", 0x45410805);
    });
    w.tag_str(b"RSRC", AUTH_SOURCE);
    w.tag_str(b"SVER", BLAZE_VERSION);
    w
}

#[test]
fn pre_auth_layout_per_qos_setting() {
    let cases = [
        (QosServerConfig::Official, pre_auth_expected("gossjcprod-qos01.ea.com", 17502, false)),
        (QosServerConfig::Local, pre_auth_expected("127.0.0.1", 42131, false)),
        (
            QosServerConfig::Custom { host: "qos.example.com".to_string(), port: 17499 },
            pre_auth_expected("qos.example.com", 17499, false),
        ),
        (QosServerConfig::Disabled, pre_auth_expected("0", 0, true)),
        (QosServerConfig::Hamachi { host: 0x7F000001 }, pre_auth_expected("0", 0, true)),
    ];
    for (qos, expected) in cases {
        let mut ours = Vec::new();
        PreAuthResponse { qos }.serialize(&mut ours);
        assert_eq!(ours, expected);
    }
}

#[test]
fn config_and_settings_maps() {
    let config = AttrMap::from_pairs(vec![
        ("VERSION".to_string(), "40128".to_string()),
        ("SECTION".to_string(), "BINI_PC_COMPRESSED".to_string()),
    ]);
    let mut ours = Vec::new();
    FetchConfigResponse { config }.serialize(&mut ours);
    let mut map: TdfMap<String, String> = TdfMap::with_capacity(2);
    map.insert("SECTION".to_string(), "BINI_PC_COMPRESSED".to_string());
    map.insert("VERSION".to_string(), "40128".to_string());
    let mut w: Vec<u8> = Vec::new();
    w.tag_ref(b"CONF", &map);
    assert_eq!(ours, w);

    let settings = AttrMap::from_pairs(vec![("Completion".to_string(), "20,1,0".to_string())]);
    let mut ours = Vec::new();
    SettingsResponse { settings }.serialize(&mut ours);
    let mut map: TdfMap<String, String> = TdfMap::new();
    map.insert("Completion".to_string(), "20,1,0".to_string());
    let mut w: Vec<u8> = Vec::new();
    w.tag_ref(b"SMAP", &map);
    assert_eq!(ours, w);

    let mut ours = Vec::new();
    FetchConfigResponse { config: AttrMap::new() }.serialize(&mut ours);
    let mut w: Vec<u8> = Vec::new();
    w.tag_map_start(b"CONF", TdfType::String, TdfType::String, 0);
    assert_eq!(ours, w);
}
