use pocket_relay::attrs::AttrMap;
use pocket_relay::client_config::{
    bini_version, config_source, data_config, dime_config, fallback_talk_file, messages,
    parse_key_values, fetch_client_config, ConfigSource, EmbeddedFile,
};
use pocket_relay::leaderboard::{
    n7_rating, rank_entries, KitNameDeployed, Leaderboard, LeaderboardEntry, LeaderboardGroup,
    LeaderboardType, PlayerClass,
};
use pocket_relay::report::{
    is_finishing, is_progress_increased, parse_u32, progress_counters, report_progress,
    split_fields, EXTRACTION_COUNTER, FIRST_KIT_COUNTER,
};
use pocket_relay::text::{contains, decimal, replace_all, take_chars, upper_hex};

#[test]
fn upper_hex_and_decimal_text() {
    assert_eq!(upper_hex(0), "0");
    assert_eq!(upper_hex(0xA1B2), "A1B2");
    assert_eq!(upper_hex(u32::MAX), "FFFFFFFF");
    assert_eq!(decimal(0), "0");
    assert_eq!(decimal(40128), "40128");
    assert_eq!(decimal(u64::MAX), "18446744073709551615");
}

#[test]
fn text_helpers() {
    assert_eq!(take_chars("héllo", 2), "hé");
    assert_eq!(take_chars("abc", 10), "abc");
    assert_eq!(replace_all("a-b-c", "-", "+"), "a+b+c");
    assert_eq!(replace_all("aaa", "aa", "b"), "ba");
    assert!(contains("AdeptHumanMale", "Adept"));
    assert!(!contains("Adept", "AdeptHuman"));
    assert!(contains("x", ""));
}

#[test]
fn parse_u32_follows_str_parse() {
    for text in ["0", "42", "+7", "4294967295", "4294967296", "", "-1", "1a", "+", " 1"] {
        assert_eq!(parse_u32(text), text.parse::<u32>().ok(), "input {:?}", text);
    }
}

#[test]
fn split_fields_keeps_empty_fields() {
    assert_eq!(split_fields("a,,b,", ','), vec!["a", "", "b", ""]);
    assert_eq!(split_fields("", ','), vec![""]);
    assert_eq!(progress_counters("20,1,2,3"), vec!["1", "2", "3"]);
}

#[test]
fn progress_counter_increase() {
    assert!(is_progress_increased(1, &["1", "2"], &["1", "3"]));
    assert!(!is_progress_increased(1, &["1", "3"], &["1", "3"]));
    assert!(!is_progress_increased(0, &["x"], &["5"]));
    // A counter missing before counts when it is now positive
    assert!(is_progress_increased(2, &["1"], &["1", "1", "4"]));
    assert!(!is_progress_increased(2, &["1"], &["1", "1", "0"]));
    // A counter missing after never counts
    assert!(!is_progress_increased(5, &["1"], &["1"]));
}

fn progress(counters: &[(usize, u32)]) -> String {
    let mut values = vec![0u32; FIRST_KIT_COUNTER + 70];
    for (index, value) in counters {
        values[*index] = *value;
    }
    let mut text = String::from("20");
    for value in values {
        text.push(',');
        text.push_str(&value.to_string());
    }
    text
}

#[test]
fn report_reads_extraction_and_kit() {
    let before = progress(&[]);
    let after = progress(&[(EXTRACTION_COUNTER, 1), (FIRST_KIT_COUNTER + 1, 2), (FIRST_KIT_COUNTER + 3, 1)]);
    assert_eq!(report_progress(&before, Some(&after)), (true, Some("AdeptDrell")));
    let after = progress(&[(FIRST_KIT_COUNTER, 1)]);
    assert_eq!(report_progress(&before, Some(&after)), (false, Some("AdeptHumanMale")));
    assert_eq!(report_progress(&before, None), (false, None));
}

#[test]
fn finishing_attribute() {
    let finishing = AttrMap::from_pairs(vec![("ME3gameState".to_string(), "IN_GAME_FINISHING".to_string())]);
    let playing = AttrMap::from_pairs(vec![("ME3gameState".to_string(), "IN_GAME".to_string())]);
    assert!(is_finishing(&finishing));
    assert!(!is_finishing(&playing));
    assert!(!is_finishing(&AttrMap::new()));
}

#[test]
fn config_ids_select_sources() {
    assert!(config_source("ME3_DATA") == (ConfigSource::Data, None));
    assert!(config_source("ME3_MSG") == (ConfigSource::Messages, None));
    assert!(config_source("ME3_ENT") == (ConfigSource::Entitlements, None));
    assert!(config_source("ME3_DIME") == (ConfigSource::Dime, None));
    assert!(config_source("ME3_BINI_VERSION") == (ConfigSource::BiniVersion, None));
    assert!(config_source("ME3_BINI_PC_COMPRESSED") == (ConfigSource::BiniCompressed, None));
    assert!(config_source("ME3_LIVE_TLK_PC_de") == (ConfigSource::TalkFile, Some("de")));
    assert!(config_source("ME3_OTHER") == (ConfigSource::Unknown, None));
}

#[test]
fn fixed_configs() {
    let version = bini_version();
    assert_eq!(version.get("SECTION").map(|v| v.as_str()), Some("BINI_PC_COMPRESSED"));
    assert_eq!(version.get("VERSION").map(|v| v.as_str()), Some("40128"));
    let dime = dime_config("<dime/>");
    assert_eq!(dime.get("Config").map(|v| v.as_str()), Some("<dime/>"));
    let data = data_config();
    assert_eq!(data.get("TEL_DOMAIN").map(|v| v.as_str()), Some("pc/masseffect-3-pc-anon"));
    assert_eq!(data.get("MATCH_MAKING_RULES_VERSION").map(|v| v.as_str()), Some("5"));
    assert_eq!(data.get("MULTIPLAYER_PROTOCOL_VERSION").map(|v| v.as_str()), Some("3"));
    assert_eq!(data.get("TEL_SERVER").map(|v| v.as_str()), Some("127.0.0.1"));
    assert_eq!(data.get("TEL_PORT").map(|v| v.as_str()), Some("42129"));
    assert!(data.get("GAW_SERVER_BASE_URL").unwrap().starts_with("http://gosredirector.ea.com:"));
    assert!(data.get("IMG_MNGR_BASE_URL").unwrap().starts_with("http://gosredirector.ea.com:"));
    assert!(data.get("IMG_MNGR_BASE_URL").unwrap().ends_with("/content/"));
    let msgs = messages("1.0");
    assert_eq!(msgs.get("MSG_1_title").map(|v| v.as_str()), Some("Pocket Relay"));
    assert_eq!(msgs.get("MSG_1_priority").map(|v| v.as_str()), Some("1"));
    assert_eq!(msgs.get("MSG_1_trackingId").map(|v| v.as_str()), Some("1"));
    assert_eq!(msgs.get("MSG_1_title_de").map(|v| v.as_str()), Some("Pocket Relay"));
    assert!(msgs.get("MSG_1_message").unwrap().contains("(v1.0)"));
}

#[test]
fn key_value_lines() {
    let pairs = parse_key_values("a=1\nb=2=3\nnot a pair\n\nc=");
    assert_eq!(
        pairs,
        vec![
            ("a".to_string(), "1".to_string()),
            ("b".to_string(), "2=3".to_string()),
            ("c".to_string(), "".to_string()),
        ]
    );
}

static TALK_DEFAULT: [u8; 1] = [1];
static TALK_DE: [u8; 1] = [2];

#[test]
fn talk_file_falls_back_to_default() {
    let files = [
        EmbeddedFile { name: "default.tlk", data: &TALK_DEFAULT },
        EmbeddedFile { name: "de.tlk", data: &TALK_DE },
    ];
    assert_eq!(fallback_talk_file("de", &files), &[2]);
    assert_eq!(fallback_talk_file("fr", &files), &[1]);
}

fn entry(player_id: u32, value: u32) -> LeaderboardEntry {
    LeaderboardEntry { player_id, player_name: format!("P{}", player_id), rank: 0, value }
}

#[test]
fn ranking_orders_by_value_keeping_ties() {
    let ranked = rank_entries(vec![entry(1, 10), entry(2, 30), entry(3, 10), entry(4, 20)]);
    let order: Vec<(u32, usize)> = ranked.iter().map(|e| (e.player_id, e.rank)).collect();
    assert_eq!(order, vec![(2, 1), (4, 2), (1, 3), (3, 4)]);
}

#[test]
fn leaderboard_queries() {
    let group = LeaderboardGroup::new_at(
        rank_entries((1..=10).map(|id| entry(id, 100 - id)).collect()),
        1_000,
    );
    assert_eq!(group.expires, 1_000 + LeaderboardGroup::LIFETIME_SECS);
    assert!(!group.is_expired_at(1_000));
    assert!(group.is_expired_at(1_000 + LeaderboardGroup::LIFETIME_SECS + 1));
    let page: Vec<u32> = group.get_normal(8, 5).unwrap().iter().map(|e| e.player_id).collect();
    assert_eq!(page, vec![9, 10]);
    assert!(group.get_normal(11, 5).is_none());
    assert!(group.has_more(0, 5));
    assert!(!group.has_more(5, 5));
    let centered: Vec<u32> = group.get_centered(5, 3).unwrap().iter().map(|e| e.player_id).collect();
    // One entry before, the entry itself, one after
    assert_eq!(centered, vec![4, 5, 6]);
    let centered: Vec<u32> = group.get_centered(5, 4).unwrap().iter().map(|e| e.player_id).collect();
    assert_eq!(centered, vec![3, 4, 5, 6]);
    let centered: Vec<u32> = group.get_centered(5, 1).unwrap().iter().map(|e| e.player_id).collect();
    assert_eq!(centered, vec![5]);
    let centered: Vec<u32> = group.get_centered(1, 3).unwrap().iter().map(|e| e.player_id).collect();
    assert_eq!(centered, vec![1, 2]);
    let centered: Vec<u32> = group.get_centered(10, 3).unwrap().iter().map(|e| e.player_id).collect();
    assert_eq!(centered, vec![9, 10]);
    assert!(group.get_centered(50, 3).is_none());
    assert!(group.get_centered(5, 0).is_none());
    let filtered: Vec<u32> = group.get_filtered(&[7, 2, 99]).iter().map(|e| e.player_id).collect();
    assert_eq!(filtered, vec![2, 7]);
    assert_eq!(group.get_entry(3).map(|e| e.rank), Some(3));
    assert_eq!(LeaderboardGroup::dummy().values.len(), 0);
}

#[test]
fn n7_rating_counts_promotions_and_active_levels() {
    let classes = vec![
        PlayerClass { name: "Adept".to_string(), level: 20, promotions: 2 },
        PlayerClass { name: "Soldier".to_string(), level: 15, promotions: 1 },
        PlayerClass { name: "Engineer".to_string(), level: 10, promotions: 0 },
    ];
    let characters = vec![
        KitNameDeployed { kit_name: "AdeptHumanMale".to_string(), deployed: true },
        KitNameDeployed { kit_name: "SoldierTurian".to_string(), deployed: false },
    ];
    // 3 promotions * 30 + the level of the only active class (Adept)
    assert_eq!(n7_rating(&classes, &characters), 110);
    assert_eq!(n7_rating(&Vec::new(), &characters), 0);
}

#[test]
fn leaderboard_cache_computes_once_per_hour() {
    let mut board = Leaderboard::new();
    // Nothing cached: compute, an empty group stands in meanwhile
    assert!(board.begin_query(LeaderboardType::N7Rating, 100));
    assert_eq!(board.group(LeaderboardType::N7Rating).map(|g| g.values.len()), Some(0));
    // Being computed: served as it is
    assert!(!board.begin_query(LeaderboardType::N7Rating, 100));
    board.finish_query(LeaderboardType::N7Rating, vec![entry(1, 5), entry(2, 9)], 100);
    let ranked: Vec<(u32, usize)> = board
        .group(LeaderboardType::N7Rating)
        .unwrap()
        .values
        .iter()
        .map(|e| (e.player_id, e.rank))
        .collect();
    assert_eq!(ranked, vec![(2, 1), (1, 2)]);
    // Fresh: served from the cache until it expires
    assert!(!board.begin_query(LeaderboardType::N7Rating, 100 + 3599));
    assert!(board.begin_query(LeaderboardType::N7Rating, 100 + 3600));
    // The other kind is separate
    assert!(board.group(LeaderboardType::ChallengePoints).is_none());
}

#[test]
fn fetch_client_config_dispatches_by_id() {
    let bini = fetch_client_config("ME3_BINI_VERSION", "1.0", "", "", AttrMap::new());
    assert_eq!(bini.entries.len(), 2);
    assert_eq!(bini.get("SECTION").map(|v| v.as_str()), Some("BINI_PC_COMPRESSED"));
    assert_eq!(bini.get("VERSION").map(|v| v.as_str()), Some("40128"));
    let unknown = fetch_client_config("ME3_UNKNOWN", "1.0", "", "", AttrMap::new());
    assert!(unknown.entries.is_empty());
    let ent = fetch_client_config("ME3_ENT", "1.0", "A=1\nB=2", "", AttrMap::new());
    assert_eq!(ent.get("B").map(|v| v.as_str()), Some("2"));
    let dime = fetch_client_config("ME3_DIME", "1.0", "", "<dime/>", AttrMap::new());
    assert_eq!(dime.get("Config").map(|v| v.as_str()), Some("<dime/>"));
    let loaded = AttrMap::from_pairs(vec![("TLK".to_string(), "x".to_string())]);
    let talk = fetch_client_config("ME3_LIVE_TLK_PC_en", "1.0", "", "", loaded);
    assert_eq!(talk.get("TLK").map(|v| v.as_str()), Some("x"));
}
