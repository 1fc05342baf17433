//! Game outcome reporting: reading the progress counters of a player
//! before and after a match to tell whether the squad extracted and which
//! character kit the player used.
use vstd::prelude::*;
use vstd::string::StrSliceExecFns;
use vstd::utf8::encode_utf8;
use vstd::string::StringSliceAdditionalSpecFns;
use crate::attrs::{AttrMap, copy_pairs, lookup_pairs};
use crate::game::{Game, GamePlayer};
use crate::text::str_eq;

verus! {

/// The texts of a list of string slices.
pub open spec fn str_views(s: Seq<&str>) -> Seq<Seq<char>> {
    s.map_values(|f: &str| f@)
}

/// The fields of `s` separated by `sep`, as `str::split` gives them:
/// there is always at least one field, and an empty text has one empty
/// field.
pub open spec fn split_chars(s: Seq<char>, sep: char) -> Seq<Seq<char>>
    decreases s.len(),
{
    if s.len() == 0 {
        seq![Seq::empty()]
    } else {
        let parts = split_chars(s.drop_last(), sep);
        if s.last() == sep {
            parts.push(Seq::empty())
        } else {
            parts.update(parts.len() - 1, parts.last().push(s.last()))
        }
    }
}

/// A split always has at least one field.
pub proof fn lemma_split_nonempty(s: Seq<char>, sep: char)
    ensures
        split_chars(s, sep).len() >= 1,
    decreases s.len(),
{
    if s.len() > 0 {
        lemma_split_nonempty(s.drop_last(), sep);
    }
}

/// Splits `s` at every `sep` (`str::split`).
pub fn split_fields<'a>(s: &'a str, sep: char) -> (r: Vec<&'a str>)
    ensures
        str_views(r@) == split_chars(s@, sep),
{
    let n = s.unicode_len();
    let mut fields: Vec<&'a str> = Vec::new();
    let mut start: usize = 0;
    let mut i: usize = 0;
    proof {
        assert(s@.take(0) =~= Seq::<char>::empty());
        assert(s@.subrange(0, 0) =~= Seq::<char>::empty());
    }
    while i < n
        invariant
            n == s@.len(),
            start <= i <= n,
            split_chars(s@.take(i as int), sep) == str_views(fields@).push(
                s@.subrange(start as int, i as int),
            ),
        decreases n - i,
    {
        let c = s.get_char(i);
        proof {
            assert(s@.take(i + 1).drop_last() =~= s@.take(i as int));
            assert(s@.take(i + 1).last() == c);
            lemma_split_nonempty(s@.take(i as int), sep);
        }
        if c == sep {
            let field = s.substring_char(start, i);
            fields.push(field);
            start = i + 1;
            proof {
                assert(s@.subrange(start as int, i + 1) =~= Seq::<char>::empty());
            }
        } else {
            proof {
                assert(s@.subrange(start as int, i + 1) =~= s@.subrange(start as int, i as int).push(c));
            }
        }
        i = i + 1;
        proof {
            assert(split_chars(s@.take(i as int), sep) =~= str_views(fields@).push(
                s@.subrange(start as int, i as int),
            ));
        }
    }
    let last = s.substring_char(start, n);
    fields.push(last);
    proof {
        assert(s@.take(n as int) =~= s@);
        assert(str_views(fields@) =~= split_chars(s@, sep));
    }
    fields
}

/// Whether `b` is an ASCII decimal digit.
pub open spec fn is_digit(b: u8) -> bool {
    48 <= b <= 57
}

/// The value of the decimal digits `d`.
pub open spec fn digits_value(d: Seq<u8>) -> nat
    decreases d.len(),
{
    if d.len() == 0 {
        0
    } else {
        digits_value(d.drop_last()) * 10 + (d.last() - 48) as nat
    }
}

/// The digits part of a number text: the bytes after a leading `+`.
pub open spec fn unsigned_digits(b: Seq<u8>) -> Seq<u8> {
    if b.len() > 0 && b[0] == 43 {
        b.drop_first()
    } else {
        b
    }
}

/// Whether every byte of `d` is a decimal digit.
pub open spec fn all_digits(d: Seq<u8>) -> bool {
    forall|i: int| 0 <= i < d.len() ==> is_digit(#[trigger] d[i])
}

/// The `u32` that `str::parse` reads from the bytes `b`: an optional `+`,
/// then one or more decimal digits whose value fits in 32 bits; `None`
/// for anything else.
pub open spec fn parse_u32_bytes(b: Seq<u8>) -> Option<u32> {
    let d = unsigned_digits(b);
    if d.len() == 0 || !all_digits(d) || digits_value(d) > u32::MAX {
        None
    } else {
        Some(digits_value(d) as u32)
    }
}

/// The `u32` that `str::parse` reads from the text `t`.
pub open spec fn parse_u32_text(t: Seq<char>) -> Option<u32> {
    parse_u32_bytes(encode_utf8(t))
}

/// A number never has a smaller value than the digits it starts with.
proof fn lemma_digits_prefix(d: Seq<u8>, k: int)
    requires
        0 <= k <= d.len(),
        all_digits(d),
    ensures
        digits_value(d) >= digits_value(d.take(k)),
    decreases d.len(),
{
    if k == d.len() {
        assert(d.take(k) =~= d);
    } else {
        lemma_digits_prefix(d.drop_last(), k);
        assert(d.drop_last().take(k) =~= d.take(k));
    }
}

/// Reads a `u32` from `s` as `str::parse` does.
pub fn parse_u32(s: &str) -> (r: Option<u32>)
    ensures
        r == parse_u32_text(s@),
{
    let b = s.as_bytes();
    let n = b.len();
    if n == 0 {
        return None;
    }
    let start: usize = if b[0] == 43 { 1 } else { 0 };
    let ghost d = unsigned_digits(b@);
    proof {
        assert(d =~= b@.subrange(start as int, n as int));
    }
    if start == n {
        return None;
    }
    let mut value: u32 = 0;
    let mut i: usize = start;
    proof {
        assert(d.take(0) =~= Seq::<u8>::empty());
    }
    while i < n
        invariant
            n == b@.len(),
            start <= i <= n,
            d == b@.subrange(start as int, n as int),
            d == unsigned_digits(b@),
            b@ == encode_utf8(s@),
            forall|j: int| 0 <= j < i - start ==> is_digit(#[trigger] d[j]),
            value == digits_value(d.take(i - start)),
        decreases n - i,
    {
        let c = b[i];
        if c < 48 || c > 57 {
            proof {
                assert(!is_digit(d[i - start]));
            }
            return None;
        }
        let digit = (c - 48) as u32;
        proof {
            assert(d.take(i - start + 1).drop_last() =~= d.take(i - start));
            assert(d.take(i - start + 1).last() == c);
        }
        if value > 429496729 || (value == 429496729 && digit > 5) {
            proof {
                if all_digits(d) {
                    lemma_digits_prefix(d, i - start + 1);
                }
            }
            return None;
        }
        value = value * 10 + digit;
        i = i + 1;
    }
    proof {
        assert(d.take(n - start) =~= d);
    }
    Some(value)
}

/// Whether the progress counter at `index` went up between the counters
/// `before` and `after`: a counter absent before counts as increased when
/// it is now positive; counters that do not read as numbers never count.
pub open spec fn progress_increased(index: int, before: Seq<Seq<char>>, after: Seq<Seq<char>>) -> bool {
    if index >= after.len() {
        false
    } else if index >= before.len() {
        match parse_u32_text(after[index]) {
            Some(v) => v > 0,
            None => false,
        }
    } else {
        match (parse_u32_text(before[index]), parse_u32_text(after[index])) {
            (Some(x), Some(y)) => y > x,
            _ => false,
        }
    }
}

/// Whether the progress counter at `index` went up between `a` and `b`.
pub fn is_progress_increased(index: usize, a: &[&str], b: &[&str]) -> (r: bool)
    ensures
        r == progress_increased(index as int, str_views(a@), str_views(b@)),
{
    if index >= b.len() {
        return false;
    }
    let after = parse_u32(b[index]);
    if index >= a.len() {
        match after {
            Some(v) => v > 0,
            None => false,
        }
    } else {
        let before = parse_u32(a[index]);
        match (before, after) {
            (Some(x), Some(y)) => y > x,
            _ => false,
        }
    }
}

/// The progress counters of a progress value: its comma separated fields
/// after the first.
pub open spec fn progress_fields(progress: Seq<char>) -> Seq<Seq<char>> {
    split_chars(progress, ',').drop_first()
}

/// Splits a progress value into its counters.
pub fn progress_counters<'a>(progress: &'a str) -> (r: Vec<&'a str>)
    ensures
        str_views(r@) == progress_fields(progress@),
{
    let fields = split_fields(progress, ',');
    let mut out: Vec<&'a str> = Vec::new();
    let n = fields.len();
    proof {
        lemma_split_nonempty(progress@, ',');
    }
    let mut i: usize = 1;
    while i < n
        invariant
            n == fields@.len(),
            n >= 1,
            1 <= i <= n,
            str_views(out@) == str_views(fields@).subrange(1, i as int),
        decreases n - i,
    {
        let ghost prev = out@;
        let f = fields[i];
        out.push(f);
        proof {
            assert(out@ == prev.push(f));
            assert(str_views(out@).len() == prev.len() + 1);
            assert(str_views(out@)[prev.len() as int] == f@);
            assert(f == fields@[i as int]);
            assert(str_views(fields@)[i as int] == f@);
            assert forall|k: int| 0 <= k < prev.len() implies #[trigger] str_views(out@)[k]
                == str_views(prev)[k] by {
                assert(out@[k] == prev[k]);
            }
            assert(str_views(out@) =~= str_views(prev).push(f@));
            assert(str_views(out@) =~= str_views(fields@).subrange(1, i + 1));
        }
        i = i + 1;
    }
    proof {
        assert(str_views(fields@).subrange(1, n as int) =~= progress_fields(progress@));
    }
    out
}

/// Counter that goes up when the squad extracted at the end of a match.
pub const EXTRACTION_COUNTER: usize = 745;

/// Counter of the first character kit; the kits' counters follow in the
/// order of `kit_names`.
pub const FIRST_KIT_COUNTER: usize = 746;

/// Names of the character kits, in the order of their progress counters.
pub open spec fn kit_names() -> Seq<&'static str> {
    seq![
        "AdeptHumanMale",
        "AdeptHumanFemale",
        "AdeptAsari",
        "AdeptDrell",
        "AdeptAsariCommando",
        "AdeptHumanMaleCerberus",
        "AdeptN7",
        "AdeptVolus",
        "AdeptKrogan",
        "AdeptBatarian",
        "AdeptCollector",
        "SoldierHumanMale",
        "SoldierHumanFemale",
        "SoldierKrogan",
        "SoldierTurian",
        "SoldierHumanMaleBF3",
        "SoldierBatarian",
        "SoldierVorcha",
        "SoldierN7",
        "N7SoldierTurian",
        "SoldierGeth",
        "SoldierMQuarian",
        "SoldierGethDestroyer",
        "EngineerHumanMale",
        "EngineerHumanFemale",
        "EngineerQuarian",
        "EngineerSalarian",
        "EngineerGeth",
        "EngineerQuarianMale",
        "EngineerN7",
        "EngineerVolus",
        "EngineerTurian",
        "EngineerVorcha",
        "EngineerMerc",
        "SentinelHumanMale",
        "SentinelHumanFemale",
        "SentinelTurian",
        "SentinelKrogan",
        "SentinelBatarian",
        "SentinelVorcha",
        "SentinelN7",
        "SentinelVolus",
        "SentinelAsari",
        "SentinelKroganWarlord",
        "InfiltratorHumanMale",
        "InfiltratorHumanFemale",
        "InfiltratorSalarian",
        "InfiltratorQuarian",
        "InfiltratorGeth",
        "InfiltratorQuarianMale",
        "InfiltratorN7",
        "N7InfiltratorTurian",
        "InfiltratorDrell",
        "InfiltratorAsari",
        "InfiltratorFembot",
        "InfiltratorHumanFemaleBF3",
        "VanguardHumanMale",
        "VanguardHumanFemale",
        "VanguardDrell",
        "VanguardAsari",
        "VanguardKrogan",
        "VanguardHumanMaleCerberus",
        "VanguardN7",
        "VanguardVolus",
        "VanguardBatarian",
        "VanguardTurianFemale"
    ]
}

/// Names of the character kits, in the order of their progress counters.
#[verifier::rlimit(40)]
fn kit_name_list() -> (r: Vec<&'static str>)
    ensures
        r@ == kit_names(),
{
    let names: Vec<&'static str> = vec![
        "AdeptHumanMale",
        "AdeptHumanFemale",
        "AdeptAsari",
        "AdeptDrell",
        "AdeptAsariCommando",
        "AdeptHumanMaleCerberus",
        "AdeptN7",
        "AdeptVolus",
        "AdeptKrogan",
        "AdeptBatarian",
        "AdeptCollector",
        "SoldierHumanMale",
        "SoldierHumanFemale",
        "SoldierKrogan",
        "SoldierTurian",
        "SoldierHumanMaleBF3",
        "SoldierBatarian",
        "SoldierVorcha",
        "SoldierN7",
        "N7SoldierTurian",
        "SoldierGeth",
        "SoldierMQuarian",
        "SoldierGethDestroyer",
        "EngineerHumanMale",
        "EngineerHumanFemale",
        "EngineerQuarian",
        "EngineerSalarian",
        "EngineerGeth",
        "EngineerQuarianMale",
        "EngineerN7",
        "EngineerVolus",
        "EngineerTurian",
        "EngineerVorcha",
        "EngineerMerc",
        "SentinelHumanMale",
        "SentinelHumanFemale",
        "SentinelTurian",
        "SentinelKrogan",
        "SentinelBatarian",
        "SentinelVorcha",
        "SentinelN7",
        "SentinelVolus",
        "SentinelAsari",
        "SentinelKroganWarlord",
        "InfiltratorHumanMale",
        "InfiltratorHumanFemale",
        "InfiltratorSalarian",
        "InfiltratorQuarian",
        "InfiltratorGeth",
        "InfiltratorQuarianMale",
        "InfiltratorN7",
        "N7InfiltratorTurian",
        "InfiltratorDrell",
        "InfiltratorAsari",
        "InfiltratorFembot",
        "InfiltratorHumanFemaleBF3",
        "VanguardHumanMale",
        "VanguardHumanFemale",
        "VanguardDrell",
        "VanguardAsari",
        "VanguardKrogan",
        "VanguardHumanMaleCerberus",
        "VanguardN7",
        "VanguardVolus",
        "VanguardBatarian",
        "VanguardTurianFemale",
    ];
    assert(names@ =~= kit_names());
    names
}

/// The index (in `kit_names`) of the last of the first `n` kits whose
/// counter went up.
pub open spec fn last_increased_kit(before: Seq<Seq<char>>, after: Seq<Seq<char>>, n: nat) -> Option<int>
    decreases n,
{
    if n == 0 {
        None
    } else if progress_increased(FIRST_KIT_COUNTER + n - 1, before, after) {
        Some(n - 1)
    } else {
        last_increased_kit(before, after, (n - 1) as nat)
    }
}

/// `last_increased_kit` picks the last of the first `n` kits whose counter
/// went up.
#[verifier::spinoff_prover]
proof fn lemma_last_increased_kit(before: Seq<Seq<char>>, after: Seq<Seq<char>>, n: nat)
    ensures
        last_increased_kit(before, after, n) matches Some(i) ==> 0 <= i < n
            && progress_increased(FIRST_KIT_COUNTER + i, before, after)
            && forall|j: int| i < j < n ==> !#[trigger] progress_increased(FIRST_KIT_COUNTER + j, before, after),
        last_increased_kit(before, after, n) is None ==> forall|j: int|
            0 <= j < n ==> !#[trigger] progress_increased(FIRST_KIT_COUNTER + j, before, after),
    decreases n,
{
    if n > 0 {
        let m = (n - 1) as nat;
        lemma_last_increased_kit(before, after, m);
        let top = FIRST_KIT_COUNTER + m;
        assert(FIRST_KIT_COUNTER + n - 1 == top);
        if progress_increased(top, before, after) {
            assert(last_increased_kit(before, after, n) == Some(m as int));
        } else {
            assert(last_increased_kit(before, after, n) == last_increased_kit(before, after, m));
            match last_increased_kit(before, after, m) {
                Some(i) => {
                    assert forall|j: int| i < j < n implies !#[trigger] progress_increased(
                        FIRST_KIT_COUNTER + j,
                        before,
                        after,
                    ) by {
                        if j == m {
                            assert(FIRST_KIT_COUNTER + j == top);
                        }
                    }
                },
                None => {
                    assert forall|j: int| 0 <= j < n implies !#[trigger] progress_increased(
                        FIRST_KIT_COUNTER + j,
                        before,
                        after,
                    ) by {
                        if j == m {
                            assert(FIRST_KIT_COUNTER + j == top);
                        }
                    }
                },
            }
        }
    }
}

/// What a player's progress values before (`progress0`) and after
/// (`progress1`, absent when the player has none stored) a match tell:
/// whether the squad extracted, and the kit the player used (the last kit
/// whose counter went up).
pub open spec fn progress_outcome(progress0: Seq<char>, progress1: Option<Seq<char>>) -> (bool, Option<Seq<char>>) {
    match progress1 {
        None => (false, None),
        Some(p1) => {
            let before = progress_fields(progress0);
            let after = progress_fields(p1);
            (
                progress_increased(EXTRACTION_COUNTER as int, before, after),
                match last_increased_kit(before, after, kit_names().len()) {
                    Some(i) => Some(kit_names()[i]@),
                    None => None,
                },
            )
        },
    }
}

/// Reads a player's progress values before and after a match: whether the
/// squad extracted, and the name of the kit the player used.
pub fn report_progress(progress0: &str, progress1: Option<&str>) -> (r: (bool, Option<&'static str>))
    ensures
        (r.0, match r.1 { Some(k) => Some(k@), None => None }) == progress_outcome(
            progress0@,
            match progress1 { Some(p) => Some(p@), None => None },
        ),
{
    let p1 = match progress1 {
        Some(p) => p,
        None => return (false, None),
    };
    let before = progress_counters(progress0);
    let after = progress_counters(p1);
    let extracted = is_progress_increased(EXTRACTION_COUNTER, before.as_slice(), after.as_slice());
    let names = kit_name_list();
    let mut kit: Option<&'static str> = None;
    let ghost bv = str_views(before@);
    let ghost av = str_views(after@);
    let mut i: usize = 0;
    while i < names.len()
        invariant
            names@ == kit_names(),
            0 <= i <= names@.len(),
            bv == str_views(before@),
            av == str_views(after@),
            match last_increased_kit(bv, av, i as nat) {
                Some(j) => kit == Some(kit_names()[j]),
                None => kit is None,
            },
        decreases names@.len() - i,
    {
        if is_progress_increased(FIRST_KIT_COUNTER + i, before.as_slice(), after.as_slice()) {
            kit = Some(names[i]);
        }
        i = i + 1;
    }
    (extracted, kit)
}

/// Attribute of a game that holds its state.
pub const GAME_STATE_ATTR: &'static str = "ME3gameState";

/// Value of the game state attribute while a match finishes.
pub const GAME_STATE_FINISHING: &'static str = "IN_GAME_FINISHING";

/// Whether a change of game attributes marks the match as finishing (its
/// game state attribute is `IN_GAME_FINISHING`).
pub fn is_finishing(attributes: &AttrMap) -> (r: bool)
    ensures
        r == (attributes.lookup(GAME_STATE_ATTR@) == Some(GAME_STATE_FINISHING@)),
{
    match attributes.get(GAME_STATE_ATTR) {
        Some(value) => crate::text::str_eq(value.as_str(), GAME_STATE_FINISHING),
        None => false,
    }
}

/// A character of a player, as parsed from the player's stored data: the
/// kit it plays and its loadout, each as the text the data holds.
pub struct CharacterLoadout {
    pub kit_name: String,
    pub weapons: String,
    pub weapon_mods: String,
    pub powers: String,
}

/// A player's part of a game report: the kit they played this match (if
/// known) and, when one of their characters plays that kit, its loadout.
pub struct GameReportPlayer {
    pub player_id: u32,
    pub player_name: String,
    pub kit_name: Option<String>,
    pub weapons: Option<String>,
    pub weapon_mods: Option<String>,
    pub powers: Option<String>,
}

/// The report of a finished game: its attributes and seed, each player's
/// part, and whether the squad extracted.
pub struct GameReport {
    pub attributes: AttrMap,
    pub seed: u32,
    pub players: Vec<GameReportPlayer>,
    pub extracted: bool,
}

/// Key of the stored player data that holds the progress counters.
pub const PROGRESS_KEY: &'static str = "Progress";

/// What the stored progress of a player before (`before`, the player's
/// data when they entered the game) and after (`after`, their data now) a
/// match tells: whether the squad extracted and the kit played. No stored
/// progress before counts as empty progress.
pub open spec fn report_outcome(before: Seq<(String, String)>, after: Seq<(String, String)>) -> (bool, Option<Seq<char>>) {
    progress_outcome(
        match lookup_pairs(before, PROGRESS_KEY@) {
            Some(p) => p,
            None => Seq::empty(),
        },
        lookup_pairs(after, PROGRESS_KEY@),
    )
}

/// The index of the first character of `characters` that plays `kit`.
pub open spec fn find_loadout(characters: Seq<CharacterLoadout>, kit: Seq<char>) -> Option<int>
    decreases characters.len(),
{
    if characters.len() == 0 {
        None
    } else if characters[0].kit_name@ == kit {
        Some(0)
    } else {
        match find_loadout(characters.drop_first(), kit) {
            Some(i) => Some(i + 1),
            None => None,
        }
    }
}

/// Whether `r` is the report part of `player`, whose data now is `after`
/// and whose characters are `characters`.
#[verifier::opaque]
pub open spec fn is_report_player(
    r: GameReportPlayer,
    player: GamePlayer,
    after: Seq<(String, String)>,
    characters: Seq<CharacterLoadout>,
) -> bool {
    &&& r.player_id == player.player.id
    &&& r.player_name@ == player.player.display_name@
    &&& match report_outcome(player.data_snapshot.data@, after).1 {
        None => r.kit_name is None && r.weapons is None && r.weapon_mods is None && r.powers is None,
        Some(kit) => {
            &&& r.kit_name matches Some(k) && k@ == kit
            &&& match find_loadout(characters, kit) {
                None => r.weapons is None && r.weapon_mods is None && r.powers is None,
                Some(j) => {
                    &&& r.weapons matches Some(w) && w@ == characters[j].weapons@
                    &&& r.weapon_mods matches Some(m) && m@ == characters[j].weapon_mods@
                    &&& r.powers matches Some(p) && p@ == characters[j].powers@
                },
            }
        },
    }
}

/// `find_loadout` finds the first character that plays the kit.
proof fn lemma_find_loadout(characters: Seq<CharacterLoadout>, kit: Seq<char>)
    ensures
        find_loadout(characters, kit) matches Some(j) ==> 0 <= j < characters.len()
            && characters[j].kit_name@ == kit
            && forall|i: int| 0 <= i < j ==> #[trigger] characters[i].kit_name@ != kit,
        find_loadout(characters, kit) is None ==> forall|i: int|
            0 <= i < characters.len() ==> #[trigger] characters[i].kit_name@ != kit,
    decreases characters.len(),
{
    if characters.len() > 0 {
        lemma_find_loadout(characters.drop_first(), kit);
        assert forall|i: int| 1 <= i < characters.len() implies #[trigger] characters[i].kit_name@
            == characters.drop_first()[i - 1].kit_name@ by {}
    }
}

/// The loadout in a player's report part is that of the character playing
/// the reported kit: when the report names the kit `kit` and the
/// character at `j` is the first one whose kit name is `kit`, the report's
/// weapons, weapon mods and powers are that character's weapons, weapon
/// mods and powers; when no character plays it, the report has none.
pub proof fn lemma_report_loadout(
    r: GameReportPlayer,
    player: GamePlayer,
    after: Seq<(String, String)>,
    characters: Seq<CharacterLoadout>,
    kit: Seq<char>,
)
    requires
        is_report_player(r, player, after, characters),
        r.kit_name matches Some(k) && k@ == kit,
    ensures
        forall|j: int|
            0 <= j < characters.len() && #[trigger] characters[j].kit_name@ == kit && (forall|i: int|
                0 <= i < j ==> characters[i].kit_name@ != kit) ==> {
                &&& r.weapons matches Some(w) && w@ == characters[j].weapons@
                &&& r.weapon_mods matches Some(m) && m@ == characters[j].weapon_mods@
                &&& r.powers matches Some(p) && p@ == characters[j].powers@
            },
        (forall|i: int| 0 <= i < characters.len() ==> characters[i].kit_name@ != kit) ==> r.weapons is None
            && r.weapon_mods is None && r.powers is None,
{
    reveal(is_report_player);
    lemma_find_loadout(characters, kit);
    assert forall|j: int|
        0 <= j < characters.len() && #[trigger] characters[j].kit_name@ == kit && (forall|i: int|
            0 <= i < j ==> characters[i].kit_name@ != kit) implies {
        &&& r.weapons matches Some(w) && w@ == characters[j].weapons@
        &&& r.weapon_mods matches Some(m) && m@ == characters[j].weapon_mods@
        &&& r.powers matches Some(p) && p@ == characters[j].powers@
    } by {
        let found = find_loadout(characters, kit);
        assert(found is Some);
        let f = found->0;
        if f < j {
            assert(characters[f].kit_name@ != kit);
        }
        if j < f {
            assert(characters[j].kit_name@ != kit);
        }
        assert(f == j);
    }
}

/// What a match tells of a player with progress values `progress0` before
/// and `progress1` after it: the squad extracted exactly when the
/// extraction counter went up, and the kit played is the last kit whose
/// counter went up (none when no kit counter went up, or when the player
/// has no progress stored after the match).
pub proof fn lemma_progress_outcome(progress0: Seq<char>, progress1: Option<Seq<char>>)
    ensures
        progress1 is None ==> progress_outcome(progress0, progress1) == (false, None::<Seq<char>>),
        progress1 matches Some(p1) ==> {
            let before = progress_fields(progress0);
            let after = progress_fields(p1);
            let n = kit_names().len() as int;
            &&& progress_outcome(progress0, progress1).0 == progress_increased(EXTRACTION_COUNTER as int, before, after)
            &&& progress_outcome(progress0, progress1).1 matches Some(kit) ==> exists|i: int|
                0 <= i < n && kit == (#[trigger] kit_names()[i])@ && progress_increased(FIRST_KIT_COUNTER + i, before, after)
                    && forall|j: int| i < j < n ==> !#[trigger] progress_increased(FIRST_KIT_COUNTER + j, before, after)
            &&& progress_outcome(progress0, progress1).1 is None ==> forall|j: int|
                0 <= j < n ==> !#[trigger] progress_increased(FIRST_KIT_COUNTER + j, before, after)
        },
{
    if let Some(p1) = progress1 {
        let before = progress_fields(progress0);
        let after = progress_fields(p1);
        lemma_last_increased_kit(before, after, kit_names().len());
        if let Some(i) = last_increased_kit(before, after, kit_names().len()) {
            assert(kit_names()[i]@ == kit_names()[i]@);
        }
    }
}

/// The value stored under `key` in `data` (its first entry).
fn stored_value<'a>(data: &'a Vec<(String, String)>, key: &str) -> (r: Option<&'a String>)
    ensures
        match lookup_pairs(data@, key@) {
            Some(v) => r matches Some(s) && s@ == v,
            None => r is None,
        },
{
    let n = data.len();
    let mut i: usize = 0;
    proof {
        assert(data@.skip(0) =~= data@);
    }
    while i < n
        invariant
            n == data@.len(),
            0 <= i <= n,
            lookup_pairs(data@, key@) == lookup_pairs(data@.skip(i as int), key@),
        decreases n - i,
    {
        proof {
            assert(data@.skip(i as int)[0] == data@[i as int]);
            assert(data@.skip(i as int).drop_first() =~= data@.skip(i + 1));
        }
        if str_eq(data[i].0.as_str(), key) {
            return Some(&data[i].1);
        }
        i = i + 1;
    }
    None
}

/// The first character of `characters` that plays `kit`.
fn loadout_for<'a>(characters: &'a Vec<CharacterLoadout>, kit: &str) -> (r: Option<&'a CharacterLoadout>)
    ensures
        match find_loadout(characters@, kit@) {
            Some(j) => r matches Some(c) && *c == characters@[j],
            None => r is None,
        },
{
    let n = characters.len();
    let mut i: usize = 0;
    proof {
        assert(characters@.skip(0) =~= characters@);
    }
    while i < n
        invariant
            n == characters@.len(),
            0 <= i <= n,
            match find_loadout(characters@, kit@) {
                Some(j) => match find_loadout(characters@.skip(i as int), kit@) {
                    Some(k) => j == k + i,
                    None => false,
                },
                None => find_loadout(characters@.skip(i as int), kit@) is None,
            },
        decreases n - i,
    {
        proof {
            assert(characters@.skip(i as int)[0] == characters@[i as int]);
            assert(characters@.skip(i as int).drop_first() =~= characters@.skip(i + 1));
        }
        if str_eq(characters[i].kit_name.as_str(), kit) {
            return Some(&characters[i]);
        }
        i = i + 1;
    }
    None
}

/// A copy of `text`, if any.
fn copy_text(text: Option<&String>) -> (r: Option<String>)
    ensures
        match text {
            Some(t) => r matches Some(c) && c@ == t@,
            None => r is None,
        },
{
    match text {
        Some(t) => Some(t.clone()),
        None => None,
    }
}

/// The report part of `player`.
fn report_player(player: &GamePlayer, after: &Vec<(String, String)>, characters: &Vec<CharacterLoadout>) -> (r: (
    GameReportPlayer,
    bool,
))
    ensures
        is_report_player(r.0, *player, after@, characters@),
        r.1 == report_outcome(player.data_snapshot.data@, after@).0,
{
    let before = match stored_value(&player.data_snapshot.data, PROGRESS_KEY) {
        Some(p) => p.as_str(),
        None => "",
    };
    proof {
        reveal_strlit("");
    }
    let now = match stored_value(after, PROGRESS_KEY) {
        Some(p) => Some(p.as_str()),
        None => None,
    };
    let (extracted, kit) = report_progress(before, now);
    let (kit_name, weapons, weapon_mods, powers) = match kit {
        None => (None, None, None, None),
        Some(k) => match loadout_for(characters, k) {
            None => (Some(k.to_string()), None, None, None),
            Some(c) => (
                Some(k.to_string()),
                copy_text(Some(&c.weapons)),
                copy_text(Some(&c.weapon_mods)),
                copy_text(Some(&c.powers)),
            ),
        },
    };
    let r = GameReportPlayer {
        player_id: player.player.id,
        player_name: player.player.display_name.clone(),
        kit_name,
        weapons,
        weapon_mods,
        powers,
    };
    proof {
        reveal(is_report_player);
    }
    (r, extracted)
}

/// The report of the finished `game`: `after[i]` is the data stored now
/// for the player in slot `i`, and `characters[i]` the characters parsed
/// from the data that player had when entering the game. The squad
/// extracted when the extraction counter of some player went up.
pub fn game_report(game: &Game, after: &Vec<Vec<(String, String)>>, characters: &Vec<Vec<CharacterLoadout>>) -> (r: GameReport)
    requires
        after@.len() == game.players@.len(),
        characters@.len() == game.players@.len(),
    ensures
        r.attributes.entries@ == game.attributes.entries@,
        r.seed == game.seed,
        r.players@.len() == game.players@.len(),
        forall|i: int| 0 <= i < r.players@.len() ==> is_report_player(
            #[trigger] r.players@[i],
            game.players@[i],
            after@[i]@,
            characters@[i]@,
        ),
        r.extracted == exists|i: int| 0 <= i < game.players@.len()
            && #[trigger] report_outcome(game.players@[i].data_snapshot.data@, after@[i]@).0,
{
    let n = game.players.len();
    let mut players: Vec<GameReportPlayer> = Vec::new();
    let mut extracted = false;
    let mut i: usize = 0;
    while i < n
        invariant
            n == game.players@.len(),
            after@.len() == n,
            characters@.len() == n,
            0 <= i <= n,
            players@.len() == i,
            forall|j: int| 0 <= j < i ==> is_report_player(
                #[trigger] players@[j],
                game.players@[j],
                after@[j]@,
                characters@[j]@,
            ),
            extracted == exists|j: int| 0 <= j < i
                && #[trigger] report_outcome(game.players@[j].data_snapshot.data@, after@[j]@).0,
        decreases n - i,
    {
        let (part, up) = report_player(&game.players[i], &after[i], &characters[i]);
        let ghost before = players@;
        players.push(part);
        proof {
            assert forall|j: int| 0 <= j < i + 1 implies is_report_player(
                #[trigger] players@[j],
                game.players@[j],
                after@[j]@,
                characters@[j]@,
            ) by {
                if j < i {
                    assert(players@[j] == before[j]);
                }
            }
        }
        let ghost was = extracted;
        extracted = extracted || up;
        proof {
            if up {
                assert(report_outcome(game.players@[i as int].data_snapshot.data@, after@[i as int]@).0);
            }
            if was {
                let j = choose|j: int| 0 <= j < i
                    && #[trigger] report_outcome(game.players@[j].data_snapshot.data@, after@[j]@).0;
                assert(0 <= j < i + 1);
            }
        }
        i = i + 1;
    }
    GameReport {
        attributes: AttrMap { entries: copy_pairs(&game.attributes.entries) },
        seed: game.seed,
        players,
        extracted,
    }
}

} // verus!
