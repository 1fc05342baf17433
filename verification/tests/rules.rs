use pocket_relay::attrs::AttrMap;
use pocket_relay::rules::RuleSet;

fn attr_map(pairs: &[(&str, &str)]) -> AttrMap {
    AttrMap::from_pairs(pairs.iter().map(|(k, v)| (k.to_string(), v.to_string())).collect())
}

fn rule_pairs(pairs: &[(&str, &str)]) -> Vec<(String, String)> {
    pairs.iter().map(|(k, v)| (k.to_string(), v.to_string())).collect()
}

const ALL_DLC_PUBLIC: [(&str, &str); 9] = [
    ("ME3_dlc2300", "required"),
    ("ME3_dlc2500", "required"),
    ("ME3_dlc2700", "required"),
    ("ME3_dlc3050", "required"),
    ("ME3_dlc3225", "required"),
    ("ME3gameDifficulty", "difficulty0"),
    ("ME3gameEnemyType", "enemy1"),
    ("ME3map", "map2"),
    ("ME3privacy", "PUBLIC"),
];

/// Public match should succeed if the attributes meet the specified criteria
#[test]
fn test_public_match() {
    let attributes = attr_map(&ALL_DLC_PUBLIC);
    let rules = rule_pairs(&[
        ("ME3_gameMapMatchRule", "abstain"),
        ("ME3_gameEnemyTypeRule", "abstain"),
        ("ME3_gameDifficultyRule", "abstain"),
        ("ME3_rule_dlc2500", "required"),
        ("ME3_rule_dlc2300", "required"),
        ("ME3_rule_dlc2700", "required"),
        ("ME3_rule_dlc3050", "required"),
        ("ME3_rule_dlc3225", "required"),
    ]);
    let rule_set = RuleSet::new(rules);
    let matches = rule_set.matches(&attributes);
    assert!(matches, "Rule set didn't match the provided attributes");
}

/// When attributes aren't abstain they should match exactly
#[test]
fn test_specific_attributes() {
    let attributes = attr_map(&ALL_DLC_PUBLIC);
    let rules = rule_pairs(&[
        ("ME3_gameMapMatchRule", "map2"),
        ("ME3_gameEnemyTypeRule", "enemy1"),
        ("ME3_gameDifficultyRule", "difficulty0"),
        ("ME3_rule_dlc2500", "required"),
        ("ME3_rule_dlc2300", "required"),
        ("ME3_rule_dlc2700", "required"),
        ("ME3_rule_dlc3050", "required"),
        ("ME3_rule_dlc3225", "required"),
    ]);
    let rule_set = RuleSet::new(rules);
    let matches = rule_set.matches(&attributes);
    assert!(matches, "Rule set didn't match the provided attributes");
}

/// Private match should always fail a matchmaking rule set regardless
/// of the other attributes
#[test]
fn test_private_match() {
    let attributes = attr_map(&[
        ("ME3_dlc2300", "required"),
        ("ME3_dlc2500", "required"),
        ("ME3_dlc2700", "required"),
        ("ME3_dlc3050", "required"),
        ("ME3_dlc3225", "required"),
        ("ME3gameDifficulty", "difficulty0"),
        ("ME3gameEnemyType", "enemy1"),
        ("ME3map", "map2"),
        ("ME3privacy", "PRIVATE"),
    ]);
    let rules = rule_pairs(&[
        ("ME3_gameMapMatchRule", "abstain"),
        ("ME3_gameEnemyTypeRule", "abstain"),
        ("ME3_gameDifficultyRule", "abstain"),
        ("ME3_rule_dlc2500", "required"),
        ("ME3_rule_dlc2300", "required"),
        ("ME3_rule_dlc2700", "required"),
        ("ME3_rule_dlc3050", "required"),
        ("ME3_rule_dlc3225", "required"),
    ]);
    let rule_set = RuleSet::new(rules);
    let matches = rule_set.matches(&attributes);
    assert!(!matches, "Rule set matched a private match");
}

/// If the player has a DLC requirement that the host doesn't have
/// the matching should fail
#[test]
fn test_dlc_mismatch() {
    let attributes = attr_map(&ALL_DLC_PUBLIC);
    let rules = rule_pairs(&[
        ("ME3_gameMapMatchRule", "abstain"),
        ("ME3_gameEnemyTypeRule", "abstain"),
        ("ME3_gameDifficultyRule", "abstain"),
    ]);
    let rule_set = RuleSet::new(rules);
    let matches = rule_set.matches(&attributes);
    assert!(!matches, "Matched host with missing DLC");
}

/// If the host has required DLC but the player is missing it
/// the matching should fail
#[test]
fn test_player_dlc_mismatch() {
    let attributes = attr_map(&[
        ("ME3gameDifficulty", "difficulty0"),
        ("ME3gameEnemyType", "enemy1"),
        ("ME3map", "map2"),
        ("ME3privacy", "PRIVATE"),
    ]);
    let rules = rule_pairs(&[
        ("ME3_gameMapMatchRule", "abstain"),
        ("ME3_gameEnemyTypeRule", "abstain"),
        ("ME3_gameDifficultyRule", "abstain"),
        ("ME3_rule_dlc2500", "required"),
        ("ME3_rule_dlc2300", "required"),
        ("ME3_rule_dlc2700", "required"),
        ("ME3_rule_dlc3050", "required"),
        ("ME3_rule_dlc3225", "required"),
    ]);
    let rule_set = RuleSet::new(rules);
    let matches = rule_set.matches(&attributes);
    assert!(!matches, "Matched player with missing DLC");
}

#[test]
fn later_pairs_replace_earlier_ones() {
    let attributes = attr_map(&[("ME3map", "map1"), ("ME3privacy", "PUBLIC"), ("ME3map", "map2")]);
    assert_eq!(attributes.get("ME3map").map(|v| v.as_str()), Some("map2"));
    assert_eq!(attributes.get("ME3privacy").map(|v| v.as_str()), Some("PUBLIC"));
    assert_eq!(attributes.get("ME3missing"), None);
}

#[test]
fn abstained_and_unknown_rules_change_no_match() {
    let all = RuleSet::new(rule_pairs(&[
        ("ME3_gameMapMatchRule", "map2"),
        ("ME3_gameEnemyTypeRule", "abstain"),
        ("ME3_gameStateMatchRule", "IN_LOBBY"),
        ("ME3_rule_dlc2300", "required"),
    ]));
    let kept = RuleSet::new(rule_pairs(&[
        ("ME3_gameMapMatchRule", "map2"),
        ("ME3_rule_dlc2300", "required"),
    ]));
    assert_eq!(all.rules.len(), 2);
    let games = [
        attr_map(&[("ME3map", "map2"), ("ME3_dlc2300", "required")]),
        attr_map(&[("ME3map", "map1"), ("ME3_dlc2300", "required")]),
        attr_map(&[("ME3map", "map2"), ("ME3_dlc2300", "required"), ("ME3_dlc2500", "required")]),
        attr_map(&[("ME3map", "map2"), ("ME3gameEnemyType", "enemy3"), ("ME3_dlc2300", "required")]),
    ];
    let expected = [true, false, false, true];
    for (game, want) in games.iter().zip(expected) {
        assert_eq!(all.matches(game), want);
        assert_eq!(kept.matches(game), want);
    }
}
