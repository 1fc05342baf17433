//! Stats messages: game reports, leaderboard requests and leaderboard
//! groups.
use vstd::prelude::*;
use vstd::string::{StrSliceExecFns, StringExecFns};
use crate::encode::{
    TdfKind, tag_list_start, tag_str, tag_u32, tag_union_unset, tag_usize, tag_zero, tdf_str,
    tdf_tag_list_start, tdf_tag_str, tdf_tag_u32, tdf_tag_union_unset, tdf_tag_usize, tdf_tag_zero,
    write_byte, write_str,
};
use crate::text::{decimal, decimal_text, str_eq};

verus! {

/// Report data of one player at the end of a game.
pub struct GameReportPlayerData {
    /// Locale encoded as an integer
    pub country: u32,
    /// Number of challenge points the player has
    pub challenge_points: u32,
    /// N7 rating of the player
    pub n7_rating: u32,
}

/// Request for the number of entities of a leaderboard.
pub struct EntityCountRequest {
    /// The leaderboard name
    pub name: String,
}

/// Number of entities of a leaderboard.
pub struct EntityCountResponse {
    /// The number of entities in the leaderboard
    pub count: usize,
}

impl EntityCountResponse {
    /// Writes this response to `w`.
    pub fn serialize(&self, w: &mut Vec<u8>)
        ensures
            final(w)@ == old(w)@ + tdf_tag_usize(['C', 'N', 'T', '\0'], self.count),
    {
        tag_usize(w, ['C', 'N', 'T', '\0'], self.count);
    }
}

/// A ranked leaderboard value of a player, as stored.
pub struct LeaderboardDataAndRank {
    /// The ID of the player
    pub player_id: u32,
    /// The name of the player
    pub player_name: String,
    /// The rank of the player on the leaderboard
    pub rank: u32,
    /// The value the player is ranked by
    pub value: u32,
}

/// The bytes after `prefix` once the ranked value `d` is written as a group
/// body: the player's name, ID and rank, the value as text (also as the
/// only statistic), empty flags and attributes, then the group end.
pub open spec fn rank_data_written(prefix: Seq<u8>, d: LeaderboardDataAndRank) -> Seq<u8> {
    let value = decimal_text(d.value as nat);
    prefix + tdf_tag_str(['E', 'N', 'A', 'M'], d.player_name@) + tdf_tag_u32(['E', 'N', 'I', 'D'], d.player_id)
        + tdf_tag_u32(['R', 'A', 'N', 'K'], d.rank) + tdf_tag_str(['R', 'S', 'T', 'A'], value)
        + tdf_tag_zero(['R', 'W', 'F', 'G']) + tdf_tag_union_unset(['R', 'W', 'S', 'T'])
        + tdf_tag_list_start(['S', 'T', 'A', 'T'], TdfKind::String, 1) + tdf_str(value)
        + tdf_tag_zero(['U', 'A', 'T', 'T']) + seq![0u8]
}

/// The bytes after `prefix` once each of `values` is written, in order.
pub open spec fn rank_list_written(prefix: Seq<u8>, values: Seq<LeaderboardDataAndRank>) -> Seq<u8>
    decreases values.len(),
{
    if values.len() == 0 {
        prefix
    } else {
        rank_data_written(rank_list_written(prefix, values.drop_last()), values.last())
    }
}

impl LeaderboardDataAndRank {
    /// Writes this value to `w` as a group body.
    pub fn serialize(&self, w: &mut Vec<u8>)
        ensures
            final(w)@ == rank_data_written(old(w)@, *self),
    {
        let value = decimal(self.value as u64);
        tag_str(w, ['E', 'N', 'A', 'M'], self.player_name.as_str());
        tag_u32(w, ['E', 'N', 'I', 'D'], self.player_id);
        tag_u32(w, ['R', 'A', 'N', 'K'], self.rank);
        tag_str(w, ['R', 'S', 'T', 'A'], value.as_str());
        tag_zero(w, ['R', 'W', 'F', 'G']);
        tag_union_unset(w, ['R', 'W', 'S', 'T']);
        tag_list_start(w, ['S', 'T', 'A', 'T'], TdfKind::String, 1);
        write_str(w, value.as_str());
        tag_zero(w, ['U', 'A', 'T', 'T']);
        write_byte(w, 0);
    }
}

/// Leaderboard entries sent to a client.
pub struct LeaderboardResponse {
    pub values: Vec<LeaderboardDataAndRank>,
}

impl LeaderboardResponse {
    /// Writes this response to `w`: the list of its ranked values.
    pub fn serialize(&self, w: &mut Vec<u8>)
        ensures
            final(w)@ == rank_list_written(
                old(w)@ + tdf_tag_list_start(['L', 'D', 'L', 'S'], TdfKind::Group, self.values@.len() as usize),
                self.values@,
            ),
    {
        tag_list_start(w, ['L', 'D', 'L', 'S'], TdfKind::Group, self.values.len());
        let ghost start = w@;
        let mut i: usize = 0;
        while i < self.values.len()
            invariant
                0 <= i <= self.values@.len(),
                w@ == rank_list_written(start, self.values@.take(i as int)),
            decreases self.values@.len() - i,
        {
            proof {
                assert(self.values@.take(i + 1).drop_last() =~= self.values@.take(i as int));
            }
            self.values[i].serialize(w);
            i = i + 1;
        }
        proof {
            assert(self.values@.take(i as int) =~= self.values@);
        }
    }
}

/// Request for the leaderboard entries centered on a player.
pub struct CenteredLeaderboardRequest {
    /// The ID of the player to center on
    pub center: u32,
    /// The entity count
    pub count: u32,
    /// The leaderboard name
    pub name: String,
}

/// Request for the leaderboard entries from a rank offset.
pub struct LeaderboardRequest {
    /// The entity count
    pub count: u32,
    /// The leaderboard name
    pub name: String,
    /// The rank offset to start at
    pub start: u32,
}

/// Request for the leaderboard entries of specific players.
pub struct FilteredLeaderboardRequest {
    /// The player IDs
    pub ids: Vec<u32>,
    /// The leaderboard name
    pub name: String,
}

/// Request for a leaderboard group.
pub struct LeaderboardGroupRequest {
    /// The name of the leaderboard group
    pub name: String,
}

/// Details of a leaderboard group.
pub struct LeaderboardGroupResponse {
    pub name: String,
    pub desc: String,
    pub sname: &'static str,
    pub sdsc: &'static str,
    pub gname: &'static str,
}

/// The name shown for the leaderboard locale `code`: the country or
/// language for the known codes, the code itself for others.
pub open spec fn locale_name(code: Seq<char>) -> Seq<char> {
    if code == "global"@ {
        "Global"@
    } else if code == "de"@ {
        "Germany"@
    } else if code == "en"@ {
        "English"@
    } else if code == "es"@ {
        "Spain"@
    } else if code == "fr"@ {
        "France"@
    } else if code == "it"@ {
        "Italy"@
    } else if code == "ja"@ {
        "Japan"@
    } else if code == "pl"@ {
        "Poland"@
    } else if code == "ru"@ {
        "Russia"@
    } else if code == "nz"@ {
        "New Zealand"@
    } else {
        code
    }
}

/// The name shown for the leaderboard locale `code`.
pub fn get_locale_name(code: &str) -> (r: &str)
    ensures
        r@ == locale_name(code@),
{
    if str_eq(code, "global") {
        "Global"
    } else if str_eq(code, "de") {
        "Germany"
    } else if str_eq(code, "en") {
        "English"
    } else if str_eq(code, "es") {
        "Spain"
    } else if str_eq(code, "fr") {
        "France"
    } else if str_eq(code, "it") {
        "Italy"
    } else if str_eq(code, "ja") {
        "Japan"
    } else if str_eq(code, "pl") {
        "Poland"
    } else if str_eq(code, "ru") {
        "Russia"
    } else if str_eq(code, "nz") {
        "New Zealand"
    } else {
        code
    }
}

/// The lower case form of `text`, as `str::to_lowercase` gives it.
pub uninterp spec fn lowercase_text(text: Seq<char>) -> Seq<char>;

/// The ASCII lower case form of `text`: `A` to `Z` become `a` to `z`,
/// every other character stays.
pub open spec fn ascii_lowercase(text: Seq<char>) -> Seq<char> {
    text.map_values(|c: char| if 65 <= (c as u32) <= 90 { ((c as u32) + 32) as char } else { c })
}

/// `str::to_lowercase`: the lower case form of `text` (by the Unicode
/// lowercase mapping, which on ASCII text is the ASCII one).
#[verifier::external_body]
fn to_lowercase(text: &str) -> (r: String)
    ensures
        r@ == lowercase_text(text@),
        (forall|i: int| 0 <= i < text@.len() ==> (#[trigger] text@[i] as u32) < 128) ==> r@ == ascii_lowercase(
            text@,
        ),
{
    text.to_lowercase()
}

/// Whether `s` starts with `prefix`.
pub fn starts_with(s: &str, prefix: &str) -> (r: bool)
    ensures
        r == (prefix@.len() <= s@.len() && s@.subrange(0, prefix@.len() as int) == prefix@),
{
    let n = s.unicode_len();
    let m = prefix.unicode_len();
    if m > n {
        return false;
    }
    let head = s.substring_char(0, m);
    str_eq(head, prefix)
}

/// Name prefix of the N7 rating leaderboards.
pub const N7_RATING_PREFIX: &'static str = "N7Rating";

/// Name prefix of the challenge points leaderboards.
pub const CHALLENGE_POINTS_PREFIX: &'static str = "ChallengePoints";

/// The locale code part of a leaderboard group name: what follows the N7
/// rating prefix, or else what follows the challenge points prefix.
pub open spec fn group_locale_part(name: Seq<char>) -> Seq<char> {
    let n7 = N7_RATING_PREFIX@;
    if n7.len() <= name.len() && name.subrange(0, n7.len() as int) == n7 {
        name.skip(n7.len() as int)
    } else {
        name.skip(CHALLENGE_POINTS_PREFIX@.len() as int)
    }
}

/// The leaderboard group named `name` whose locale code, in lower case, is
/// `code`: an N7 rating group or a challenge points group, whose
/// description names the locale (see `locale_name`); `None` for any other
/// name.
pub open spec fn group_with_code(name: Seq<char>, code: Seq<char>) -> Option<(Seq<char>, Seq<char>, Seq<char>, Seq<char>, Seq<char>)> {
    let n7 = N7_RATING_PREFIX@;
    let cp = CHALLENGE_POINTS_PREFIX@;
    if n7.len() <= name.len() && name.subrange(0, n7.len() as int) == n7 {
        Some((name, "N7 Rating - "@ + locale_name(code), "n7rating"@, "N7 Rating"@, "ME3LeaderboardGroup"@))
    } else if cp.len() <= name.len() && name.subrange(0, cp.len() as int) == cp {
        Some((name, "Challenge Points - "@ + locale_name(code), "ChallengePoints"@, "Challenge Points"@, "ME3ChallengePoints"@))
    } else {
        None
    }
}

/// The leaderboard group named `name`, its locale code taken in lower
/// case as `str::to_lowercase` gives it.
pub open spec fn leaderboard_group_of(name: Seq<char>) -> Option<(Seq<char>, Seq<char>, Seq<char>, Seq<char>, Seq<char>)> {
    group_with_code(name, lowercase_text(group_locale_part(name)))
}

/// Whether every character of `text` is ASCII.
pub open spec fn is_ascii_text(text: Seq<char>) -> bool {
    forall|i: int| 0 <= i < text.len() ==> (#[trigger] text[i] as u32) < 128
}

/// The leaderboard group asked for by `request`.
pub fn leaderboard_group(request: LeaderboardGroupRequest) -> (r: Option<LeaderboardGroupResponse>)
    ensures
        match leaderboard_group_of(request.name@) {
            None => r is None,
            Some(g) => r matches Some(resp) && resp.name@ == g.0 && resp.desc@ == g.1 && resp.sname@ == g.2
                && resp.sdsc@ == g.3 && resp.gname@ == g.4,
        },
        is_ascii_text(request.name@) ==> match group_with_code(
            request.name@,
            ascii_lowercase(group_locale_part(request.name@)),
        ) {
            None => r is None,
            Some(g) => r matches Some(resp) && resp.desc@ == g.1,
        },
{
    let name = request.name;
    let is_n7 = starts_with(name.as_str(), N7_RATING_PREFIX);
    if !is_n7 && !starts_with(name.as_str(), CHALLENGE_POINTS_PREFIX) {
        return None;
    }
    proof {
        reveal_strlit("N7Rating");
        reveal_strlit("ChallengePoints");
    }
    let split: usize = if is_n7 { 8 } else { 15 };
    let len = name.as_str().unicode_len();
    let tail = name.as_str().substring_char(split, len);
    proof {
        if is_ascii_text(name@) {
            assert forall|i: int| 0 <= i < tail@.len() implies (#[trigger] tail@[i] as u32) < 128 by {
                assert(tail@[i] == name@[split + i]);
            }
        }
    }
    let local_code = to_lowercase(tail);
    let locale = get_locale_name(local_code.as_str());
    if is_n7 {
        let mut desc = "N7 Rating - ".to_owned();
        desc.append(locale);
        Some(LeaderboardGroupResponse {
            name,
            desc,
            sname: "n7rating",
            sdsc: "N7 Rating",
            gname: "ME3LeaderboardGroup",
        })
    } else {
        let mut desc = "Challenge Points - ".to_owned();
        desc.append(locale);
        Some(LeaderboardGroupResponse {
            name,
            desc,
            sname: "ChallengePoints",
            sdsc: "Challenge Points",
            gname: "ME3ChallengePoints",
        })
    }
}

/// The leaderboard values of an offline game report, one per player in
/// report order: the N7 ratings and the challenge points.
pub fn leaderboard_updates(players: &Vec<(u32, GameReportPlayerData)>) -> (r: (Vec<(u32, u32)>, Vec<(u32, u32)>))
    ensures
        r.0@.len() == players@.len(),
        r.1@.len() == players@.len(),
        forall|i: int| 0 <= i < players@.len() ==> #[trigger] r.0@[i] == (players@[i].0, players@[i].1.n7_rating),
        forall|i: int| 0 <= i < players@.len() ==> #[trigger] r.1@[i] == (players@[i].0, players@[i].1.challenge_points),
{
    let mut n7: Vec<(u32, u32)> = Vec::new();
    let mut cp: Vec<(u32, u32)> = Vec::new();
    let mut i: usize = 0;
    while i < players.len()
        invariant
            0 <= i <= players@.len(),
            n7@.len() == i,
            cp@.len() == i,
            forall|j: int| 0 <= j < i ==> #[trigger] n7@[j] == (players@[j].0, players@[j].1.n7_rating),
            forall|j: int| 0 <= j < i ==> #[trigger] cp@[j] == (players@[j].0, players@[j].1.challenge_points),
        decreases players@.len() - i,
    {
        let (id, data) = (players[i].0, &players[i].1);
        n7.push((id, data.n7_rating));
        cp.push((id, data.challenge_points));
        i = i + 1;
    }
    (n7, cp)
}

} // verus!
