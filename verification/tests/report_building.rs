use pocket_relay::attrs::AttrMap;
use pocket_relay::game::{Game, GamePlayer, GamePlayerPlayerDataSnapshot};
use pocket_relay::models::game_manager::GameSettings;
use pocket_relay::models::Player;
use pocket_relay::report::{game_report, CharacterLoadout};

/// A progress value whose counters are all zero but `raised`.
fn progress(raised: &[usize]) -> String {
    let mut fields = vec!["20".to_string()];
    for i in 0..800 {
        fields.push(if raised.contains(&i) { "1".to_string() } else { "0".to_string() });
    }
    fields.join(",")
}

fn player(id: u32, name: &str, progress_before: &str) -> GamePlayer {
    GamePlayer::new(
        Player { id, email: format!("{}@example.com", name), display_name: name.to_string() },
        GamePlayerPlayerDataSnapshot {
            data: vec![("Progress".to_string(), progress_before.to_string())],
        },
    )
}

fn loadout(kit: &str) -> CharacterLoadout {
    CharacterLoadout {
        kit_name: kit.to_string(),
        weapons: format!("{} weapons", kit),
        weapon_mods: format!("{} mods", kit),
        powers: format!("{} powers", kit),
    }
}

#[test]
fn report_marks_extraction_and_kits() {
    let mut game = Game::new_with(4, AttrMap::new(), GameSettings::from_bits_retain(0x11f), 0, 99);
    game.players.push(player(1, "Host", &progress(&[])));
    game.players.push(player(2, "Guest", &progress(&[])));
    // The host played AdeptHumanMale (counter 746) and extracted (745);
    // the guest has no stored progress now.
    let after = vec![vec![("Progress".to_string(), progress(&[745, 746]))], vec![]];
    let characters = vec![vec![loadout("SoldierHumanMale"), loadout("AdeptHumanMale")], vec![]];
    let report = game_report(&game, &after, &characters);
    assert!(report.extracted);
    assert_eq!(report.seed, 99);
    assert_eq!(report.players.len(), 2);
    let host = &report.players[0];
    assert_eq!((host.player_id, host.player_name.as_str()), (1, "Host"));
    assert_eq!(host.kit_name.as_deref(), Some("AdeptHumanMale"));
    assert_eq!(host.weapons.as_deref(), Some("AdeptHumanMale weapons"));
    assert_eq!(host.powers.as_deref(), Some("AdeptHumanMale powers"));
    let guest = &report.players[1];
    assert_eq!(guest.player_id, 2);
    assert!(guest.kit_name.is_none() && guest.weapons.is_none());
}

#[test]
fn report_without_extraction() {
    let mut game = Game::new_with(4, AttrMap::new(), GameSettings::from_bits_retain(0x11f), 0, 1);
    game.players.push(player(1, "Host", &progress(&[])));
    let after = vec![vec![("Progress".to_string(), progress(&[757]))]];
    let report = game_report(&game, &after, &vec![vec![]]);
    assert!(!report.extracted);
    assert_eq!(report.players[0].kit_name.as_deref(), Some("SoldierHumanMale"));
    assert!(report.players[0].weapons.is_none());
}
