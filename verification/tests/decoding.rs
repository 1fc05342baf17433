use pocket_relay::decode::{check_bounded, read_matchmaking_request, read_origin_login_response};
use tdf::{TdfSerialize, TdfSerializer, TdfType};

fn rule_group(w: &mut Vec<u8>, name: &str, values: &[&str]) {
    w.group_body(|w| {
        w.tag_str(b"NAME", name);
        w.tag_str(b"THLD", "requireExactMatch");
        w.tag_list_start(b"VALU", TdfType::String, values.len());
        for value in values {
            value.serialize(w);
        }
        w.tag_u8(b"WGHT", 1);
    });
}

fn matchmaking_body(rules: &[(&str, &[&str])]) -> Vec<u8> {
    let mut w: Vec<u8> = Vec::new();
    w.group(b"CRIT", |w| {
        w.tag_u8(b"DNF", 0);
        w.tag_list_start(b"RLST", TdfType::Group, rules.len());
        for (name, values) in rules {
            rule_group(w, name, values);
        }
    });
    w.tag_u32(b"DUR", 1_800_000);
    w
}

#[test]
fn matchmaking_request_reads_first_value_of_each_rule() {
    let body = matchmaking_body(&[
        ("ME3_gameMapMatchRule", &["map2", "map3", "random"]),
        ("ME3_gameEnemyTypeRule", &["enemy1"]),
        ("ME3_gameDifficultyRule", &["abstain"]),
        ("ME3_unknownRule", &["x"]),
        ("ME3_gameStateMatchRule", &[]),
    ]);
    let request = read_matchmaking_request(&body).unwrap();
    let rules: Vec<(&str, &str)> =
        request.rules.rules.iter().map(|m| (m.rule.key, m.value.as_str())).collect();
    assert_eq!(rules, vec![("ME3_gameMapMatchRule", "map2"), ("ME3_gameEnemyTypeRule", "enemy1")]);
}

#[test]
fn matchmaking_request_refuses_malformed_input() {
    assert!(read_matchmaking_request(&[]).is_err());
    let mut body = matchmaking_body(&[("ME3_gameMapMatchRule", &["map2"])]);
    body.truncate(body.len() / 2);
    assert!(read_matchmaking_request(&body).is_err());
}

#[test]
fn origin_login_response_reads_email_and_name() {
    let mut w: Vec<u8> = Vec::new();
    w.group(b"SESS", |w| {
        w.tag_u32(b"BUID", 12);
        w.tag_str(b"MAIL", "player@example.com");
        w.group(b"PDTL", |w| {
            w.tag_str(b"DSNM", "Shepard");
            w.tag_u32(b"PID", 12);
        });
    });
    let response = read_origin_login_response(&w).unwrap();
    assert_eq!(response.email, "player@example.com");
    assert_eq!(response.display_name, "Shepard");

    let mut missing: Vec<u8> = Vec::new();
    missing.group(b"SESS", |w| w.tag_str(b"MAIL", "player@example.com"));
    assert!(read_origin_login_response(&missing).is_err());
}

#[test]
fn unbounded_bodies_are_refused() {
    // A length whose variable-length integer runs over nine bytes
    let mut body: Vec<u8> = Vec::new();
    body.group(b"CRIT", |w| {
        w.tag_list_start(b"RLST", TdfType::Group, 1);
        w.group_body(|w| {
            w.tag_list_start(b"NAME", TdfType::String, 0);
        });
    });
    body.extend_from_slice(&[0xBF, 0xFF, 0xFF, 0xFF, 0xFF, 0xFF, 0xFF, 0xFF, 0xFF, 0x03]);
    assert!(!check_bounded(&body));
    assert!(read_matchmaking_request(&body).is_err());
    assert!(read_origin_login_response(&body).is_err());
    // Too many container type bytes (a deep nesting of lists)
    let deep = vec![0x04u8; 300];
    assert!(!check_bounded(&deep));
    assert!(read_matchmaking_request(&deep).is_err());
    // Ordinary bodies pass the check
    let ok = matchmaking_body(&[("ME3_gameMapMatchRule", &["map2"])]);
    assert!(check_bounded(&ok));
}
