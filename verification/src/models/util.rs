//! Utility messages: server details sent before and after authentication,
//! pings, configuration fetches, user settings and client metrics.
use vstd::prelude::*;
use crate::encode::{
    TdfKind, tag_bool, tag_blob_empty, tag_group, tag_group_end, tag_list_i32, tag_map_start,
    tag_map_strs, tag_str, tag_str_empty, tag_u16, tag_u32, tag_u64, tag_u8, tag_zero, write_str,
    tdf_str, tdf_tag_blob_empty, tdf_tag_bool, tdf_tag_group, tdf_tag_list_i32, tdf_tag_map_start,
    tdf_tag_map_strs, tdf_tag_str, tdf_tag_str_empty, tdf_tag_u16, tdf_tag_u32, tdf_tag_u64,
    tdf_tag_u8, tdf_tag_zero, tag_str_map, tdf_tag_str_map,
};
use crate::attrs::{AttrMap, pair_texts};
use crate::text::{decimal, decimal_text, utf8_lossy, utf8_lossy_text};
use vstd::string::StringExecFns;

verus! {

/// Error codes of the util component.
#[derive(Debug, Clone, Copy, PartialEq, Eq, Structural)]
pub enum UtilError {
    SuspendPingTimeTooLarge,
    SuspendPingTimeTooSmall,
    PingSuspended,
}

impl UtilError {
    /// The error code sent to the client.
    pub open spec fn code(self) -> u16 {
        match self {
            UtilError::SuspendPingTimeTooLarge => 0x12c,
            UtilError::SuspendPingTimeTooSmall => 0x12d,
            UtilError::PingSuspended => 0x12e,
        }
    }

    /// The error code sent to the client.
    pub fn value(&self) -> (r: u16)
        ensures
            r == self.code(),
    {
        match self {
            UtilError::SuspendPingTimeTooLarge => 0x12c,
            UtilError::SuspendPingTimeTooSmall => 0x12d,
            UtilError::PingSuspended => 0x12e,
        }
    }
}

impl From<UtilError> for crate::models::errors::BlazeError {
    fn from(value: UtilError) -> (r: crate::models::errors::BlazeError) {
        crate::models::errors::BlazeError(value.value())
    }
}

impl vstd::std_specs::convert::FromSpecImpl<UtilError> for crate::models::errors::BlazeError {
    open spec fn obeys_from_spec() -> bool {
        true
    }

    open spec fn from_spec(v: UtilError) -> crate::models::errors::BlazeError {
        crate::models::errors::BlazeError(v.code())
    }
}

/// The only suspend time (in microseconds) that a suspend ping request
/// may ask for.
pub const SUSPEND_PING_TIME: u32 = 90000000;

/// The answer to a request to suspend the ping timeout for `time_value`
/// microseconds: only exactly `SUSPEND_PING_TIME` is accepted (and the
/// session then allows that much grace); shorter and longer times are
/// refused with their own codes.
pub fn suspend_ping_outcome(time_value: u32) -> (r: UtilError)
    ensures
        r == (if time_value < SUSPEND_PING_TIME {
            UtilError::SuspendPingTimeTooSmall
        } else if time_value > SUSPEND_PING_TIME {
            UtilError::SuspendPingTimeTooLarge
        } else {
            UtilError::PingSuspended
        }),
{
    if time_value < SUSPEND_PING_TIME {
        UtilError::SuspendPingTimeTooSmall
    } else if time_value > SUSPEND_PING_TIME {
        UtilError::SuspendPingTimeTooLarge
    } else {
        UtilError::PingSuspended
    }
}

/// Regions for which the telemetry server is said to be disabled.
pub const TELEMETRY_DISA: &'static str = "AD,AF,AG,AI,AL,AM,AN,AO,AQ,AR,AS,AW,AX,AZ,BA,BB,BD,BF,BH,BI,BJ,BM,BN,BO,BR,BS,BT,BV,BW,BY,BZ,CC,CD,CF,CG,CI,CK,CL,CM,CN,CO,CR,CU,CV,CX,DJ,DM,DO,DZ,EC,EG,EH,ER,ET,FJ,FK,FM,FO,GA,GD,GE,GF,GG,GH,GI,GL,GM,GN,GP,GQ,GS,GT,GU,GW,GY,HM,HN,HT,ID,IL,IM,IN,IO,IQ,IR,IS,JE,JM,JO,KE,KG,KH,KI,KM,KN,KP,KR,KW,KY,KZ,LA,LB,LC,LI,LK,LR,LS,LY,MA,MC,MD,ME,MG,MH,ML,MM,MN,MO,MP,MQ,MR,MS,MU,MV,MW,MY,MZ,NA,NC,NE,NF,NG,NI,NP,NR,NU,OM,PA,PE,PF,PG,PH,PK,PM,PN,PS,PW,PY,QA,RE,RS,RW,SA,SB,SC,SD,SG,SH,SJ,SL,SM,SN,SO,SR,ST,SV,SY,SZ,TC,TD,TF,TG,TH,TJ,TK,TL,TM,TN,TO,TT,TV,TZ,UA,UG,UM,UY,UZ,VA,VC,VE,VG,VN,VU,WF,WS,YE,YT,ZM,ZW,ZZ";

/// The constant port of the ticker server
pub const TICKER_PORT: u16 = 8999;

/// The constant port of the telemetry server
pub const TELEMETRY_PORT: u16 = 42129;

/// The constant port of the local HTTP server
pub const LOCAL_HTTP_PORT: u16 = 42131;

/// English (New Zealand) locale: the big-endian bytes of `enNZ`.
pub const LOCALE_NZ: u32 = 0x656E4E5A;

/// Bytes of the telemetry server key.
pub open spec fn telemetry_key() -> Seq<u8> {
    seq![0x5E, 0x20, 0x20, 0x20, 0x20, 0x20, 0x20, 0x20, 0x20, 0x20, 0x20, 0x20, 0x20, 0x20, 0x20, 0x20, 0xCE, 0xA4, 0x20, 0xDE, 0x8A, 0x20, 0x20, 0xDC, 0xB0, 0x20, 0x20, 0x20, 0x20, 0x20, 0x20, 0x20, 0x20, 0xE4, 0xB1, 0x99, 0x20, 0xC7, 0x8E, 0x20, 0x20, 0x20, 0x20, 0x20, 0x20, 0x20, 0x20, 0x20, 0x20, 0xC2, 0x89, 0x20, 0xC3, 0xAC, 0x20, 0x20, 0x20, 0x20, 0x20, 0x20, 0x20, 0x20, 0x20, 0x20, 0x20, 0x20, 0xCC, 0x89, 0x20, 0x20, 0xCC, 0x9A, 0x20, 0xC8, 0x99, 0x20, 0x20, 0xD8, 0x97, 0x20, 0x20, 0xCD, 0x9B, 0x20, 0xCC, 0x99, 0x20, 0x20, 0x20, 0x20, 0xEB, 0xB2, 0xA6, 0x20, 0x20, 0x20, 0x20, 0xC4, 0xA1, 0x20, 0xC6, 0x8C, 0x20, 0x20, 0x20, 0x20, 0x20, 0x20, 0x20, 0xCB, 0xB2, 0xEE, 0x88, 0x95, 0xD2, 0x80, 0x20]
}

/// Bytes of the telemetry server key.
fn telemetry_key_bytes() -> (r: Vec<u8>)
    ensures
        r@ == telemetry_key(),
{
    let v: Vec<u8> = vec![0x5E, 0x20, 0x20, 0x20, 0x20, 0x20, 0x20, 0x20, 0x20, 0x20, 0x20, 0x20, 0x20, 0x20, 0x20, 0x20, 0xCE, 0xA4, 0x20, 0xDE, 0x8A, 0x20, 0x20, 0xDC, 0xB0, 0x20, 0x20, 0x20, 0x20, 0x20, 0x20, 0x20, 0x20, 0xE4, 0xB1, 0x99, 0x20, 0xC7, 0x8E, 0x20, 0x20, 0x20, 0x20, 0x20, 0x20, 0x20, 0x20, 0x20, 0x20, 0xC2, 0x89, 0x20, 0xC3, 0xAC, 0x20, 0x20, 0x20, 0x20, 0x20, 0x20, 0x20, 0x20, 0x20, 0x20, 0x20, 0x20, 0xCC, 0x89, 0x20, 0x20, 0xCC, 0x9A, 0x20, 0xC8, 0x99, 0x20, 0x20, 0xD8, 0x97, 0x20, 0x20, 0xCD, 0x9B, 0x20, 0xCC, 0x99, 0x20, 0x20, 0x20, 0x20, 0xEB, 0xB2, 0xA6, 0x20, 0x20, 0x20, 0x20, 0xC4, 0xA1, 0x20, 0xC6, 0x8C, 0x20, 0x20, 0x20, 0x20, 0x20, 0x20, 0x20, 0xCB, 0xB2, 0xEE, 0x88, 0x95, 0xD2, 0x80, 0x20];
    assert(v@ =~= telemetry_key());
    v
}

/// Details of the telemetry server.
pub struct TelemetryServer;

/// The bytes after `prefix` once the telemetry server details are
/// written.
pub open spec fn telemetry_written(prefix: Seq<u8>) -> Seq<u8> {
    let s = prefix + tdf_tag_group(['T', 'E', 'L', 'E']) + tdf_tag_str(['A', 'D', 'R', 'S'], "127.0.0.1"@)
        + tdf_tag_zero(['A', 'N', 'O', 'N']) + tdf_tag_str(['D', 'I', 'S', 'A'], TELEMETRY_DISA@)
        + tdf_tag_str(['F', 'I', 'L', 'T'], "-UION/****"@) + tdf_tag_u32(['L', 'O', 'C', '\0'], LOCALE_NZ)
        + tdf_tag_str(['N', 'O', 'O', 'K'], "US,CA,MX"@) + tdf_tag_u16(['P', 'O', 'R', 'T'], TELEMETRY_PORT)
        + tdf_tag_u16(['S', 'D', 'L', 'Y'], 15000) + tdf_tag_str(['S', 'E', 'S', 'S'], "pcwdjtOCVpD"@)
        + tdf_tag_str(['S', 'K', 'E', 'Y'], utf8_lossy_text(telemetry_key()))
        + tdf_tag_u8(['S', 'P', 'C', 'T'], 75) + tdf_tag_str_empty(['S', 'T', 'I', 'M']);
    s.push(0u8)
}

impl TelemetryServer {
    /// Writes the telemetry server details to `w`.
    pub fn serialize(&self, w: &mut Vec<u8>)
        ensures
            final(w)@ == telemetry_written(old(w)@),
    {
        tag_group(w, ['T', 'E', 'L', 'E']);
        tag_str(w, ['A', 'D', 'R', 'S'], "127.0.0.1");
        tag_zero(w, ['A', 'N', 'O', 'N']);
        tag_str(w, ['D', 'I', 'S', 'A'], TELEMETRY_DISA);
        tag_str(w, ['F', 'I', 'L', 'T'], "-UION/****");
        tag_u32(w, ['L', 'O', 'C', '\0'], LOCALE_NZ);
        tag_str(w, ['N', 'O', 'O', 'K'], "US,CA,MX");
        tag_u16(w, ['P', 'O', 'R', 'T'], TELEMETRY_PORT);
        tag_u16(w, ['S', 'D', 'L', 'Y'], 15000);
        tag_str(w, ['S', 'E', 'S', 'S'], "pcwdjtOCVpD");
        let key_bytes = telemetry_key_bytes();
        let key = utf8_lossy(key_bytes.as_slice());
        tag_str(w, ['S', 'K', 'E', 'Y'], key.as_str());
        tag_u8(w, ['S', 'P', 'C', 'T'], 75);
        tag_str_empty(w, ['S', 'T', 'I', 'M']);
        tag_group_end(w);
    }
}

/// Unique identifier key for the ticker server.
pub const TICKER_KEY: &'static str = "1,10.23.15.2:8999,masseffect-3-pc,10,50,50,50,50,0,12";

/// Details of the ticker server.
pub struct TickerServer;

/// The bytes after `prefix` once the ticker server details are written.
pub open spec fn ticker_written(prefix: Seq<u8>) -> Seq<u8> {
    (prefix + tdf_tag_group(['T', 'I', 'C', 'K']) + tdf_tag_str(['A', 'D', 'R', 'S'], "127.0.0.1"@)
        + tdf_tag_u16(['P', 'O', 'R', 'T'], TICKER_PORT) + tdf_tag_str(['S', 'K', 'E', 'Y'], TICKER_KEY@)).push(0u8)
}

impl TickerServer {
    /// Writes the ticker server details to `w`.
    pub fn serialize(&self, w: &mut Vec<u8>)
        ensures
            final(w)@ == ticker_written(old(w)@),
    {
        tag_group(w, ['T', 'I', 'C', 'K']);
        tag_str(w, ['A', 'D', 'R', 'S'], "127.0.0.1");
        tag_u16(w, ['P', 'O', 'R', 'T'], TICKER_PORT);
        tag_str(w, ['S', 'K', 'E', 'Y'], TICKER_KEY);
        tag_group_end(w);
    }
}

/// Origin authentication source.
pub const AUTH_SOURCE: &'static str = "303107";

/// Version text of the Blaze server.
pub const BLAZE_VERSION: &'static str = "Blaze 3.15.08.0 (CL# 1905397)\n";

/// Alias of the ping site.
pub const PING_SITE_ALIAS: &'static str = "ea-sjc";

/// Seconds between keep-alive pings of a session.
pub const KEEP_ALIVE_DELAY_SECS: u64 = 15;

/// The quality of service server that clients are pointed at.
pub enum QosServerConfig {
    /// The official server
    Official,
    /// The local HTTP server
    Local,
    /// A server at the given host and port
    Custom { host: String, port: u16 },
    /// No server
    Disabled,
    /// Hamachi networking, with the given host address
    Hamachi { host: u32 },
}

/// When connections to a game go through the server's tunnel.
#[derive(Clone, Copy, PartialEq, Eq, Structural)]
pub enum TunnelConfig {
    /// When the NAT of the host is not open
    Stricter,
    /// For every game
    Always,
    /// Never
    Disabled,
}

/// Host and port of the quality of service server for `qos`, and whether
/// it is disabled (then the host is `"0"` and the port 0).
pub open spec fn qos_endpoint(qos: QosServerConfig) -> (Seq<char>, u16, bool) {
    match qos {
        QosServerConfig::Official => ("gossjcprod-qos01.ea.com"@, 17502, false),
        QosServerConfig::Local => ("127.0.0.1"@, LOCAL_HTTP_PORT, false),
        QosServerConfig::Custom { host, port } => (host@, port, false),
        _ => ("0"@, 0, true),
    }
}

/// Response to a pre authentication request.
pub struct PreAuthResponse {
    /// The quality of service server configured
    pub qos: QosServerConfig,
}

/// The component IDs the server lists as configured.
pub open spec fn component_ids() -> Seq<i32> {
    seq![0x1, 0x19, 0x4, 0x1c, 0x7, 0x9, 0xf802, 0x7800, 0xf, 0x7801, 0x7802, 0x7803, 0x7805, 0x7806, 0x7d0]
}

/// The client configuration sent before authentication: the ping period
/// (the keep-alive delay in seconds, then `s`), the VOIP headset update
/// rate and the XLSP connection idle timeout.
pub open spec fn client_config() -> Seq<(Seq<char>, Seq<char>)> {
    seq![
        ("pingPeriod"@, decimal_text(KEEP_ALIVE_DELAY_SECS as nat) + "s"@),
        ("voipHeadsetUpdateRate"@, "1000"@),
        ("xlspConnectionIdleTimeout"@, "300"@),
    ]
}

/// The bytes after `prefix` once the pre authentication response for the
/// quality of service server `qos` is written.
pub open spec fn pre_auth_written(prefix: Seq<u8>, qos: QosServerConfig) -> Seq<u8> {
    let (host, port, disabled) = qos_endpoint(qos);
    let s = prefix + tdf_tag_zero(['A', 'N', 'O', 'N']) + tdf_tag_str(['A', 'S', 'R', 'C'], AUTH_SOURCE@)
        + tdf_tag_list_i32(['C', 'I', 'D', 'S'], component_ids()) + tdf_tag_str_empty(['C', 'N', 'G', 'N'])
        + tdf_tag_group(['C', 'O', 'N', 'F']) + tdf_tag_map_strs(['C', 'O', 'N', 'F'], client_config());
    let s = s.push(0u8) + tdf_tag_str(['I', 'N', 'S', 'T'], "masseffect-3-pc"@)
        + tdf_tag_bool(['M', 'I', 'N', 'R'], false) + tdf_tag_str(['N', 'A', 'S', 'P'], "cem_ea_id"@)
        + tdf_tag_str_empty(['P', 'I', 'L', 'D']) + tdf_tag_str(['P', 'L', 'A', 'T'], "pc"@)
        + tdf_tag_str_empty(['P', 'T', 'A', 'G']) + tdf_tag_group(['Q', 'O', 'S', 'S'])
        + tdf_tag_group(['B', 'W', 'P', 'S']) + tdf_tag_str(['P', 'S', 'A', '\0'], host)
        + tdf_tag_u16(['P', 'S', 'P', '\0'], port) + tdf_tag_str(['S', 'N', 'A', '\0'], "prod-sjc"@);
    let s = s.push(0u8) + tdf_tag_u8(['L', 'N', 'P', '\0'], 1) + tdf_tag_map_start(
        ['L', 'T', 'P', 'S'],
        TdfKind::String,
        TdfKind::Group,
        if disabled { 0 } else { 1 },
    );
    let s = if disabled {
        s
    } else {
        (s + tdf_str(PING_SITE_ALIAS@) + tdf_tag_str(['P', 'S', 'A', '\0'], host) + tdf_tag_u16(
            ['P', 'S', 'P', '\0'],
            port,
        ) + tdf_tag_str(['S', 'N', 'A', '\0'], "prod-sjc"@)).push(0u8)
    };
    (s + tdf_tag_u32(['S', 'V', 'I', 'D'], 0x45410805)).push(0u8) + tdf_tag_str(
        ['R', 'S', 'R', 'C'],
        AUTH_SOURCE@,
    ) + tdf_tag_str(['S', 'V', 'E', 'R'], BLAZE_VERSION@)
}

impl PreAuthResponse {
    /// Writes this response to `w`.
    pub fn serialize(&self, w: &mut Vec<u8>)
        ensures
            final(w)@ == pre_auth_written(old(w)@, self.qos),
    {
        tag_zero(w, ['A', 'N', 'O', 'N']);
        // Authentication source
        tag_str(w, ['A', 'S', 'R', 'C'], AUTH_SOURCE);
        // Components configured on the server
        let ids: Vec<i32> = vec![0x1, 0x19, 0x4, 0x1c, 0x7, 0x9, 0xf802, 0x7800, 0xf, 0x7801, 0x7802, 0x7803, 0x7805, 0x7806, 0x7d0];
        assert(ids@ =~= component_ids());
        tag_list_i32(w, ['C', 'I', 'D', 'S'], ids.as_slice());
        tag_str_empty(w, ['C', 'N', 'G', 'N']);
        // Client configuration provided by the server
        let mut ping_period = decimal(KEEP_ALIVE_DELAY_SECS);
        ping_period.append("s");
        tag_group(w, ['C', 'O', 'N', 'F']);
        let entries: Vec<(&str, &str)> = vec![
            ("pingPeriod", ping_period.as_str()),
            ("voipHeadsetUpdateRate", "1000"),
            ("xlspConnectionIdleTimeout", "300"),
        ];
        proof {
            assert(entries@.map_values(|e: (&str, &str)| (e.0@, e.1@)) =~= client_config());
        }
        tag_map_strs(w, ['C', 'O', 'N', 'F'], entries.as_slice());
        tag_group_end(w);
        // Service name
        tag_str(w, ['I', 'N', 'S', 'T'], "masseffect-3-pc");
        // Underage support
        tag_bool(w, ['M', 'I', 'N', 'R'], false);
        // Persona namespace
        tag_str(w, ['N', 'A', 'S', 'P'], "cem_ea_id");
        // Title-specific identifier for legal documents retrieval
        tag_str_empty(w, ['P', 'I', 'L', 'D']);
        // Server platform
        tag_str(w, ['P', 'L', 'A', 'T'], "pc");
        tag_str_empty(w, ['P', 'T', 'A', 'G']);
        // Quality of service server details
        tag_group(w, ['Q', 'O', 'S', 'S']);
        let (host, port, disabled): (&str, u16, bool) = match &self.qos {
            QosServerConfig::Official => ("gossjcprod-qos01.ea.com", 17502, false),
            QosServerConfig::Local => ("127.0.0.1", LOCAL_HTTP_PORT, false),
            QosServerConfig::Custom { host, port } => (host.as_str(), *port, false),
            _ => ("0", 0, true),
        };
        tag_group(w, ['B', 'W', 'P', 'S']);
        tag_str(w, ['P', 'S', 'A', '\0'], host);
        tag_u16(w, ['P', 'S', 'P', '\0'], port);
        tag_str(w, ['S', 'N', 'A', '\0'], "prod-sjc");
        tag_group_end(w);
        // Number of probes to send to BWPS
        tag_u8(w, ['L', 'N', 'P', '\0'], 1);
        // Other quality of service servers, included later in a ping list
        tag_map_start(w, ['L', 'T', 'P', 'S'], TdfKind::String, TdfKind::Group, if disabled { 0 } else { 1 });
        if !disabled {
            write_str(w, PING_SITE_ALIAS);
            tag_str(w, ['P', 'S', 'A', '\0'], host);
            tag_u16(w, ['P', 'S', 'P', '\0'], port);
            tag_str(w, ['S', 'N', 'A', '\0'], "prod-sjc");
            tag_group_end(w);
        }
        // Server version ID
        tag_u32(w, ['S', 'V', 'I', 'D'], 0x45410805);
        tag_group_end(w);
        // Registration source
        tag_str(w, ['R', 'S', 'R', 'C'], AUTH_SOURCE);
        // Server version
        tag_str(w, ['S', 'V', 'E', 'R'], BLAZE_VERSION);
    }
}

/// Response to a post authentication request.
pub struct PostAuthResponse {
    /// The telemetry server details
    pub telemetry: TelemetryServer,
    /// The ticker server details
    pub ticker: TickerServer,
    /// The player ID of the player who this is for
    pub player_id: u32,
}

/// The bytes after `prefix` once the post authentication response for the
/// player `player_id` is written.
pub open spec fn post_auth_written(prefix: Seq<u8>, player_id: u32) -> Seq<u8> {
    let s = prefix + tdf_tag_group(['P', 'S', 'S', '\0']) + tdf_tag_str(
        ['A', 'D', 'R', 'S'],
        "playersyncservice.ea.com"@,
    ) + tdf_tag_blob_empty(['C', 'S', 'I', 'G']) + tdf_tag_str(['P', 'J', 'I', 'D'], AUTH_SOURCE@)
        + tdf_tag_u16(['P', 'O', 'R', 'T'], 443) + tdf_tag_u8(['R', 'P', 'R', 'T'], 0xF) + tdf_tag_u8(
        ['T', 'I', 'I', 'D'],
        0,
    );
    let s = ticker_written(telemetry_written(s.push(0u8)));
    (s + tdf_tag_group(['U', 'R', 'O', 'P']) + tdf_tag_u8(['T', 'M', 'O', 'P'], 1) + tdf_tag_u32(
        ['U', 'I', 'D', '\0'],
        player_id,
    )).push(0u8)
}

impl PostAuthResponse {
    /// Writes this response to `w`.
    pub fn serialize(&self, w: &mut Vec<u8>)
        ensures
            final(w)@ == post_auth_written(old(w)@, self.player_id),
    {
        // Player sync service details
        tag_group(w, ['P', 'S', 'S', '\0']);
        tag_str(w, ['A', 'D', 'R', 'S'], "playersyncservice.ea.com");
        tag_blob_empty(w, ['C', 'S', 'I', 'G']);
        tag_str(w, ['P', 'J', 'I', 'D'], AUTH_SOURCE);
        tag_u16(w, ['P', 'O', 'R', 'T'], 443);
        // Purchases (1), friends list (2), achievements (4), consumables (8)
        tag_u8(w, ['R', 'P', 'R', 'T'], 0xF);
        tag_u8(w, ['T', 'I', 'I', 'D'], 0);
        tag_group_end(w);
        // Telemetry and ticker server details
        self.telemetry.serialize(w);
        self.ticker.serialize(w);
        // User options
        tag_group(w, ['U', 'R', 'O', 'P']);
        tag_u8(w, ['T', 'M', 'O', 'P'], 1);
        tag_u32(w, ['U', 'I', 'D', '\0'], self.player_id);
        tag_group_end(w);
    }
}

/// Response to a ping request.
pub struct PingResponse {
    /// Seconds elapsed since the Unix epoch
    pub server_time: u64,
}

impl PingResponse {
    /// Writes this response to `w`.
    pub fn serialize(&self, w: &mut Vec<u8>)
        ensures
            final(w)@ == old(w)@ + tdf_tag_u64(['S', 'T', 'I', 'M'], self.server_time),
    {
        tag_u64(w, ['S', 'T', 'I', 'M'], self.server_time);
    }
}

/// Request to fetch a specific configuration.
pub struct FetchConfigRequest {
    /// The ID of the configuration
    pub id: String,
}

/// Response to fetching a configuration: the configuration map.
pub struct FetchConfigResponse {
    pub config: AttrMap,
}

impl FetchConfigResponse {
    /// Writes the configuration map (`CONF`).
    pub fn serialize(&self, w: &mut Vec<u8>)
        ensures
            final(w)@ == old(w)@ + tdf_tag_str_map(['C', 'O', 'N', 'F'], pair_texts(self.config.entries@)),
    {
        tag_str_map(w, ['C', 'O', 'N', 'F'], &self.config.entries);
    }
}

/// Response to loading all the settings of a player: the settings map.
pub struct SettingsResponse {
    pub settings: AttrMap,
}

impl SettingsResponse {
    /// Writes the settings map (`SMAP`).
    pub fn serialize(&self, w: &mut Vec<u8>)
        ensures
            final(w)@ == old(w)@ + tdf_tag_str_map(['S', 'M', 'A', 'P'], pair_texts(self.settings.entries@)),
    {
        tag_str_map(w, ['S', 'M', 'A', 'P'], &self.settings.entries);
    }
}

/// Request to suspend the user ping.
pub struct SuspendPingRequest {
    /// Suspend time in microseconds
    pub time_value: u32,
}

/// Request to update a setting of the current player.
pub struct SettingsSaveRequest {
    /// The new value for the key
    pub value: String,
    /// The key to update
    pub key: String,
}

/// UPnP status flags reported by the client.
#[derive(Clone, Copy, PartialEq, Eq, Structural)]
pub struct UpnpFlags {
    pub bits: u16,
}

impl UpnpFlags {
    /// NAT type promoted from moderate to open due to UPnP success.
    pub const NAT_PROMOTED: u16 = 0x1;
    /// WAN address does not match the address seen by the server.
    pub const DOUBLE_NAT: u16 = 0x2;
    /// External port derived by QoS was overridden by the UPnP port.
    pub const PORT_OVERRIDE: u16 = 0x4;

    /// Flags with exactly the given bits.
    pub fn from_bits_retain(bits: u16) -> (r: UpnpFlags)
        ensures
            r.bits == bits,
    {
        UpnpFlags { bits }
    }

    /// Whether the double NAT flag is set.
    pub fn is_double_nat(&self) -> (r: bool)
        ensures
            r == (self.bits & 0x2 != 0),
    {
        self.bits & UpnpFlags::DOUBLE_NAT != 0
    }
}

/// UPnP status of the client.
#[derive(Clone, Copy, PartialEq, Eq, Structural)]
pub enum UpnpStatus {
    /// UPnP status unknown
    Unknown,
    /// UPnP found, but not fully working
    Found,
    /// UPnP enabled (found and port mapping added)
    Enabled,
}

/// UPnP data such as status flags and device info.
pub struct SetClientMetricsRequest {
    /// UPnP Blaze status flags
    pub blaze_flags: UpnpFlags,
    /// UPnP device info
    pub device_info: String,
    /// UPnP status flags
    pub flags: u16,
    /// UPnP last result code
    pub last_result_code: i32,
    /// UPnP metrics report NAT type
    pub nat_type: u16,
    /// UPnP status
    pub status: UpnpStatus,
    /// WAN address (IPv4, big-endian)
    pub wan: u32,
}

} // verus!
