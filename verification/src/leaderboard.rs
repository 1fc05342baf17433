//! Cached, ranked leaderboard groups and the queries served from them.
use vstd::prelude::*;
use vstd::slice::slice_subrange;
use crate::clock::unix_now_secs;
use crate::text::{contains, contains_text};

verus! {

/// An entry in a leaderboard group.
pub struct LeaderboardEntry {
    /// The ID of the player this entry is for
    pub player_id: u32,
    /// The name of the player this entry is for
    pub player_name: String,
    /// The ranking of this entry (Position in the leaderboard)
    pub rank: usize,
    /// The value this ranking is based on
    pub value: u32,
}

/// A group of ranked leaderboard entries and the time (in seconds since the
/// Unix epoch) from which it is no longer valid.
pub struct LeaderboardGroup {
    /// The values stored in this entity group
    pub values: Vec<LeaderboardEntry>,
    /// The time at which this entity group becomes expired
    pub expires: u64,
}

/// The index of the first entry of `values` for `player_id`.
pub open spec fn spec_position(values: Seq<LeaderboardEntry>, player_id: u32) -> Option<int>
    decreases values.len(),
{
    if values.len() == 0 {
        None
    } else if values[0].player_id == player_id {
        Some(0)
    } else {
        match spec_position(values.drop_first(), player_id) {
            Some(i) => Some(i + 1),
            None => None,
        }
    }
}

/// The range of entries served for a centered query of `count` entries
/// around the entry at `index` in a group of `len` entries: the `count`
/// entries starting `count / 2` before it, clipped to the group.
pub open spec fn centered_range(index: int, count: int, len: int) -> (int, int) {
    let first = index - count / 2;
    let start = if first >= 0 { first } else { 0 };
    let end = if first + count <= len { first + count } else { len };
    (start, end)
}

/// When a group made at `now` expires: one hour later (saturating).
pub open spec fn group_expiry(now: u64) -> int {
    if now + 3600 <= u64::MAX { now + 3600 } else { u64::MAX as int }
}

impl LeaderboardGroup {
    /// Leaderboard contents are cached for 1 hour.
    pub const LIFETIME_SECS: u64 = 3600;

    /// Creates a group of `values` that expires one hour after `now`.
    pub fn new_at(values: Vec<LeaderboardEntry>, now: u64) -> (r: LeaderboardGroup)
        ensures
            r.values@ == values@,
            r.expires == (if now + 3600 <= u64::MAX { now + 3600 } else { u64::MAX as int }),
    {
        LeaderboardGroup { values, expires: now.saturating_add(Self::LIFETIME_SECS) }
    }

    /// Creates a new leaderboard group which expires an hour from now and
    /// uses the provided values.
    pub fn new(values: Vec<LeaderboardEntry>) -> (r: LeaderboardGroup)
        ensures
            r.values@ == values@,
            exists|now: u64| r.expires == #[trigger] group_expiry(now),
    {
        let now = unix_now_secs();
        let r = Self::new_at(values, now);
        assert(r.expires == group_expiry(now));
        r
    }

    /// A group with no values that is already expired. Handed out while
    /// the real values are computed.
    pub fn dummy() -> (r: LeaderboardGroup)
        ensures
            r.values@.len() == 0,
            r.expires == 0,
    {
        LeaderboardGroup { expires: 0, values: Vec::new() }
    }

    /// Whether this group is expired at time `now`.
    pub fn is_expired_at(&self, now: u64) -> (r: bool)
        ensures
            r == (now >= self.expires),
    {
        now >= self.expires
    }

    /// Whether this group is expired at time `now`.
    pub open spec fn is_expired_at_spec(&self, now: u64) -> bool {
        now >= self.expires
    }

    /// Checks whether this group is expired at the current time.
    pub fn is_expired(&self) -> (r: bool)
        ensures
            exists|now: u64| #[trigger] self.is_expired_at_spec(now) == r,
    {
        let now = unix_now_secs();
        let r = self.is_expired_at(now);
        assert(self.is_expired_at_spec(now) == r);
        r
    }

    /// Checks whether there are more items after the provided offset and
    /// size.
    pub fn has_more(&self, start: usize, count: usize) -> (r: bool)
        requires
            start + count <= usize::MAX,
        ensures
            r == (start + count < self.values@.len()),
    {
        let length = self.values.len();
        start + count < length
    }

    /// The `count` entries from offset `start` (fewer at the end of the
    /// group); `None` when `start` lies past the end.
    pub fn get_normal(&self, start: usize, count: usize) -> (r: Option<&[LeaderboardEntry]>)
        requires
            start + count <= usize::MAX,
        ensures
            ({
                let end = if start + count <= self.values@.len() { start + count } else { self.values@.len() as int };
                if start <= end {
                    r matches Some(s) && s@ == self.values@.subrange(start as int, end)
                } else {
                    r is None
                }
            }),
    {
        let len = self.values.len();
        let end_index = if start + count <= len { start + count } else { len };
        if start <= end_index {
            Some(slice_subrange(self.values.as_slice(), start, end_index))
        } else {
            None
        }
    }

    /// Finds the index of the entry for `player_id`.
    pub fn position(&self, player_id: u32) -> (r: Option<usize>)
        ensures
            r matches Some(i) ==> spec_position(self.values@, player_id) == Some(i as int),
            r is None ==> spec_position(self.values@, player_id) is None,
    {
        let n = self.values.len();
        let mut i: usize = 0;
        proof {
            assert(self.values@.skip(0) =~= self.values@);
        }
        while i < n
            invariant
                n == self.values@.len(),
                0 <= i <= n,
                spec_position(self.values@, player_id) == (match spec_position(self.values@.skip(i as int), player_id) {
                    Some(j) => Some(j + i),
                    None => None,
                }),
            decreases n - i,
        {
            proof {
                assert(self.values@.skip(i as int)[0] == self.values@[i as int]);
                assert(self.values@.skip(i as int).drop_first() =~= self.values@.skip(i + 1));
            }
            if self.values[i].player_id == player_id {
                return Some(i);
            }
            i = i + 1;
        }
        proof {
            assert(self.values@.skip(n as int).len() == 0);
        }
        None
    }

    /// Gets the leaderboard entry for `player_id`, if one is present.
    pub fn get_entry(&self, player_id: u32) -> (r: Option<&LeaderboardEntry>)
        ensures
            match spec_position(self.values@, player_id) {
                Some(i) => r matches Some(e) && *e == self.values@[i],
                None => r is None,
            },
    {
        match self.position(player_id) {
            Some(i) => {
                proof {
                    lemma_position_bounds(self.values@, player_id);
                }
                Some(&self.values[i])
            },
            None => None,
        }
    }

    /// The entries (in group order) of the players listed in `players`.
    pub fn get_filtered(&self, players: &[u32]) -> (r: Vec<&LeaderboardEntry>)
        ensures
            r@.map_values(|e: &LeaderboardEntry| *e)
                == self.values@.filter(|e: LeaderboardEntry| players@.contains(e.player_id)),
    {
        let mut out: Vec<&LeaderboardEntry> = Vec::new();
        let n = self.values.len();
        let mut i: usize = 0;
        while i < n
            invariant
                n == self.values@.len(),
                0 <= i <= n,
                out@.map_values(|e: &LeaderboardEntry| *e)
                    == self.values@.take(i as int).filter(|e: LeaderboardEntry| players@.contains(e.player_id)),
            decreases n - i,
        {
            let entry = &self.values[i];
            proof {
                assert(self.values@.take(i + 1).drop_last() =~= self.values@.take(i as int));
                reveal_with_fuel(Seq::filter, 1);
            }
            let ghost before = out@;
            if contains_id(players, entry.player_id) {
                out.push(entry);
                assert(out@.map_values(|e: &LeaderboardEntry| *e)
                    =~= before.map_values(|e: &LeaderboardEntry| *e).push(*entry));
            }
            i = i + 1;
        }
        proof {
            assert(self.values@.take(n as int) =~= self.values@);
        }
        out
    }

    /// The `count` entries centered on the entry of `player_id`, starting
    /// `count / 2` before it, clipped to the group; `None` when `count` is
    /// zero or the player has no entry.
    pub fn get_centered(&self, player_id: u32, count: usize) -> (r: Option<&[LeaderboardEntry]>)
        ensures
            count == 0 ==> r is None,
            count != 0 ==> match spec_position(self.values@, player_id) {
                None => r is None,
                Some(i) => {
                    let (start, end) = centered_range(i, count as int, self.values@.len() as int);
                    r matches Some(s) && s@ == self.values@.subrange(start, end)
                },
            },
    {
        if count == 0 {
            return None;
        }
        let before = count / 2;
        let after = count - before;
        let player_index = match self.position(player_id) {
            Some(i) => i,
            None => return None,
        };
        proof {
            lemma_position_bounds(self.values@, player_id);
        }
        let start_index = player_index.saturating_sub(before);
        let end_index = if after <= self.values.len() - player_index {
            player_index + after
        } else {
            self.values.len()
        };
        Some(slice_subrange(self.values.as_slice(), start_index, end_index))
    }
}

/// Whether `ids` holds `id`.
fn contains_id(ids: &[u32], id: u32) -> (r: bool)
    ensures
        r == ids@.contains(id),
{
    let mut i: usize = 0;
    while i < ids.len()
        invariant
            0 <= i <= ids@.len(),
            forall|j: int| 0 <= j < i ==> ids@[j] != id,
        decreases ids@.len() - i,
    {
        if ids[i] == id {
            assert(ids@[i as int] == id);
            return true;
        }
        i = i + 1;
    }
    false
}

proof fn lemma_position_bounds(values: Seq<LeaderboardEntry>, player_id: u32)
    ensures
        spec_position(values, player_id) matches Some(i) ==> 0 <= i < values.len()
            && values[i].player_id == player_id,
    decreases values.len(),
{
    if values.len() > 0 && values[0].player_id != player_id {
        lemma_position_bounds(values.drop_first(), player_id);
    }
}

/// A player's position in a group is the index of its first entry, and a
/// player without entries has none.
pub proof fn lemma_position_first(values: Seq<LeaderboardEntry>, player_id: u32)
    ensures
        spec_position(values, player_id) matches Some(i) ==> 0 <= i < values.len()
            && values[i].player_id == player_id
            && forall|j: int| 0 <= j < i ==> #[trigger] values[j].player_id != player_id,
        spec_position(values, player_id) is None ==> forall|j: int|
            0 <= j < values.len() ==> #[trigger] values[j].player_id != player_id,
    decreases values.len(),
{
    if values.len() > 0 {
        lemma_position_first(values.drop_first(), player_id);
        assert forall|j: int| 1 <= j < values.len() implies #[trigger] values[j].player_id
            == values.drop_first()[j - 1].player_id by {}
    }
}

/// A centered query of `count` entries around the entry at `index` serves
/// that entry, at most `count` entries, starting `count / 2` entries before
/// it where the group has them, and exactly `count` entries when the group
/// has room on both sides.
pub proof fn lemma_centered_range(index: int, count: int, len: int)
    requires
        0 <= index < len,
        count > 0,
    ensures
        ({
            let (start, end) = centered_range(index, count, len);
            &&& 0 <= start <= index < end <= len
            &&& end - start <= count
            &&& index - count / 2 >= 0 ==> start == index - count / 2
            &&& index - count / 2 < 0 ==> start == 0
            &&& (index - count / 2 >= 0 && index - count / 2 + count <= len) ==> end - start == count
        }),
{
}

/// `sorted` (in non-increasing value order) with `e` inserted after every
/// entry whose value is at least `e`'s.
pub open spec fn insert_by_value(sorted: Seq<LeaderboardEntry>, e: LeaderboardEntry) -> Seq<LeaderboardEntry>
    decreases sorted.len(),
{
    if sorted.len() == 0 || sorted.last().value >= e.value {
        sorted.push(e)
    } else {
        insert_by_value(sorted.drop_last(), e).push(sorted.last())
    }
}

/// The entries of `values` sorted by non-increasing value; entries of
/// equal value keep their order (a stable sort).
pub open spec fn sort_by_value(values: Seq<LeaderboardEntry>) -> Seq<LeaderboardEntry>
    decreases values.len(),
{
    if values.len() == 0 {
        Seq::empty()
    } else {
        insert_by_value(sort_by_value(values.drop_last()), values.last())
    }
}

/// The entries of `values` with their ranks: the first is ranked 1, the
/// next 2, and so on.
pub open spec fn with_ranks(values: Seq<LeaderboardEntry>) -> Seq<LeaderboardEntry> {
    Seq::new(values.len(), |i: int| LeaderboardEntry { rank: (i + 1) as usize, ..values[i] })
}

/// Inserting after a tail of smaller values is inserting before that tail.
proof fn lemma_insert_by_value_tail(s: Seq<LeaderboardEntry>, e: LeaderboardEntry, p: int)
    requires
        0 <= p <= s.len(),
        forall|j: int| p <= j < s.len() ==> #[trigger] s[j].value < e.value,
    ensures
        insert_by_value(s, e) == insert_by_value(s.take(p), e) + s.skip(p),
    decreases s.len() - p,
{
    if p < s.len() {
        assert(s.drop_last().take(p) =~= s.take(p));
        lemma_insert_by_value_tail(s.drop_last(), e, p);
        assert(s.skip(p) =~= s.drop_last().skip(p).push(s.last()));
        assert(insert_by_value(s.take(p), e) + s.skip(p) =~= (insert_by_value(s.take(p), e) + s.drop_last().skip(p)).push(
            s.last(),
        ));
    } else {
        assert(s.take(p) =~= s);
        assert(s.skip(p) =~= Seq::<LeaderboardEntry>::empty());
        assert(insert_by_value(s, e) + s.skip(p) =~= insert_by_value(s, e));
    }
}

/// The entries of `values` in leaderboard order (by non-increasing value,
/// ties in their given order) with ranks from 1.
pub fn rank_entries(values: Vec<LeaderboardEntry>) -> (r: Vec<LeaderboardEntry>)
    requires
        values@.len() < usize::MAX,
    ensures
        r@ == with_ranks(sort_by_value(values@)),
{
    let mut input = values;
    let ghost all = input@;
    let mut reversed: Vec<LeaderboardEntry> = Vec::new();
    // Take the entries off the end, so that they come out in input order
    while input.len() > 0
        invariant
            all == input@ + reversed@.reverse(),
        decreases input@.len(),
    {
        let e = input.pop().unwrap();
        proof {
            assert(input@ + reversed@.push(e).reverse() =~= input@.push(e) + reversed@.reverse());
        }
        reversed.push(e);
    }
    proof {
        assert(reversed@.reverse() =~= all);
    }
    let n = reversed.len();
    let mut sorted: Vec<LeaderboardEntry> = Vec::new();
    let mut done: usize = 0;
    while reversed.len() > 0
        invariant
            n == all.len(),
            reversed@.len() + done == n,
            reversed@.reverse() == all.skip(done as int),
            sorted@ == sort_by_value(all.take(done as int)),
            sorted@.len() == done,
        decreases reversed@.len(),
    {
        let ghost before = reversed@;
        let e = reversed.pop().unwrap();
        let ghost s = sorted@;
        proof {
            assert(before.reverse()[0] == before[before.len() - 1]);
            assert(reversed@.reverse() =~= before.reverse().skip(1));
            assert(all.skip(done as int).skip(1) =~= all.skip(done + 1));
            assert(all.skip(done as int)[0] == e);
            assert(all.take(done + 1).drop_last() =~= all.take(done as int));
            assert(all.take(done + 1).last() == e);
            assert(reversed@.reverse() =~= all.skip(done + 1));
        }
        let mut p = sorted.len();
        while p > 0 && sorted[p - 1].value < e.value
            invariant
                sorted@ == s,
                0 <= p <= s.len(),
                forall|j: int| p <= j < s.len() ==> #[trigger] s[j].value < e.value,
            decreases p,
        {
            p = p - 1;
        }
        proof {
            lemma_insert_by_value_tail(s, e, p as int);
            assert(insert_by_value(s.take(p as int), e) == s.take(p as int).push(e));
            assert(s.take(p as int).push(e) + s.skip(p as int) =~= s.insert(p as int, e));
        }
        sorted.insert(p, e);
        done = done + 1;
        proof {
            lemma_insert_len(s, e);
        }
    }
    proof {
        assert(all.take(n as int) =~= all);
    }
    // Assign the ranks, taking the entries off the end and back again
    let mut back: Vec<LeaderboardEntry> = Vec::new();
    let ghost order = sorted@;
    while sorted.len() > 0
        invariant
            order == sorted@ + back@.reverse(),
        decreases sorted@.len(),
    {
        let e = sorted.pop().unwrap();
        proof {
            assert(sorted@ + back@.push(e).reverse() =~= sorted@.push(e) + back@.reverse());
        }
        back.push(e);
    }
    proof {
        assert(back@.reverse() =~= order);
    }
    let mut out: Vec<LeaderboardEntry> = Vec::new();
    let mut rank: usize = 1;
    while back.len() > 0
        invariant
            order.len() == n,
            n < usize::MAX,
            out@.len() + back@.len() == n,
            rank == out@.len() + 1,
            back@.reverse() == order.skip(out@.len() as int),
            out@ == with_ranks(order).take(out@.len() as int),
        decreases back@.len(),
    {
        let ghost before = back@;
        let e = back.pop().unwrap();
        let ghost k = out@.len();
        proof {
            assert(before.reverse()[0] == before[before.len() - 1]);
            assert(back@.reverse() =~= before.reverse().skip(1));
            assert(order.skip(k as int).skip(1) =~= order.skip(k as int + 1));
            assert(order.skip(k as int)[0] == e);
            assert(back@.reverse() =~= order.skip(k as int + 1));
        }
        out.push(LeaderboardEntry { rank, ..e });
        rank = rank + 1;
        proof {
            assert(out@ =~= with_ranks(order).take(k as int + 1));
        }
    }
    proof {
        assert(with_ranks(order).take(n as int) =~= with_ranks(order));
    }
    out
}

/// Inserting adds one entry.
proof fn lemma_insert_len(s: Seq<LeaderboardEntry>, e: LeaderboardEntry)
    ensures
        insert_by_value(s, e).len() == s.len() + 1,
    decreases s.len(),
{
    if s.len() > 0 && s.last().value < e.value {
        lemma_insert_len(s.drop_last(), e);
    }
}

/// Whether the entries are in non-increasing order of value.
pub open spec fn sorted_by_value(s: Seq<LeaderboardEntry>) -> bool {
    forall|i: int, j: int| 0 <= i < j < s.len() ==> #[trigger] s[i].value >= #[trigger] s[j].value
}

/// Every value after an insertion is at least a bound that the inserted
/// entry and all the others meet.
proof fn lemma_insert_bound(s: Seq<LeaderboardEntry>, e: LeaderboardEntry, x: u32)
    requires
        forall|i: int| 0 <= i < s.len() ==> #[trigger] s[i].value >= x,
        e.value >= x,
    ensures
        forall|i: int| 0 <= i < insert_by_value(s, e).len() ==> #[trigger] insert_by_value(s, e)[i].value >= x,
    decreases s.len(),
{
    if s.len() > 0 && s.last().value < e.value {
        let rest = s.drop_last();
        assert forall|i: int| 0 <= i < rest.len() implies #[trigger] rest[i].value >= x by {
            assert(rest[i] == s[i]);
        }
        lemma_insert_bound(rest, e, x);
        let r = insert_by_value(rest, e);
        assert(s.last() == s[s.len() - 1]);
        assert forall|i: int| 0 <= i < r.push(s.last()).len() implies #[trigger] r.push(s.last())[i].value >= x by {
            if i < r.len() {
                assert(r.push(s.last())[i] == r[i]);
            }
        }
    } else {
        assert forall|i: int| 0 <= i < s.push(e).len() implies #[trigger] s.push(e)[i].value >= x by {
            if i < s.len() {
                assert(s.push(e)[i] == s[i]);
            }
        }
    }
}

/// Inserting into a sorted list keeps it sorted.
proof fn lemma_insert_sorted(s: Seq<LeaderboardEntry>, e: LeaderboardEntry)
    requires
        sorted_by_value(s),
    ensures
        sorted_by_value(insert_by_value(s, e)),
    decreases s.len(),
{
    if s.len() > 0 && s.last().value < e.value {
        let rest = s.drop_last();
        lemma_insert_sorted(rest, e);
        lemma_insert_bound(rest, e, s.last().value);
        lemma_insert_len(rest, e);
    }
}

proof fn lemma_insert_by_value_multiset(sorted: Seq<LeaderboardEntry>, e: LeaderboardEntry)
    ensures
        insert_by_value(sorted, e).to_multiset() == sorted.to_multiset().insert(e),
    decreases sorted.len(),
{
    broadcast use vstd::seq_lib::group_to_multiset_ensures, vstd::multiset::group_multiset_axioms;
    if sorted.len() == 0 || sorted.last().value >= e.value {
        vstd::seq_lib::to_multiset_build(sorted, e);
    } else {
        let rest = sorted.drop_last();
        lemma_insert_by_value_multiset(rest, e);
        assert(sorted =~= rest.push(sorted.last()));
        vstd::seq_lib::to_multiset_build(rest, sorted.last());
        vstd::seq_lib::to_multiset_build(insert_by_value(rest, e), sorted.last());
        assert(insert_by_value(sorted, e).to_multiset() =~= sorted.to_multiset().insert(e));
    }
}

/// The entries of `s` whose value is `v`, in their order in `s`.
pub open spec fn entries_of_value(s: Seq<LeaderboardEntry>, v: u32) -> Seq<LeaderboardEntry>
    decreases s.len(),
{
    if s.len() == 0 {
        Seq::empty()
    } else {
        entries_of_value(s.drop_last(), v) + if s.last().value == v {
            seq![s.last()]
        } else {
            Seq::empty()
        }
    }
}

proof fn lemma_entries_of_value_push(s: Seq<LeaderboardEntry>, e: LeaderboardEntry, v: u32)
    ensures
        entries_of_value(s.push(e), v) == entries_of_value(s, v) + if e.value == v {
            seq![e]
        } else {
            Seq::empty()
        },
{
    assert(s.push(e).drop_last() =~= s);
}

proof fn lemma_entries_of_value_insert(s: Seq<LeaderboardEntry>, e: LeaderboardEntry, v: u32)
    ensures
        entries_of_value(insert_by_value(s, e), v) == entries_of_value(s, v) + if e.value == v {
            seq![e]
        } else {
            Seq::empty()
        },
    decreases s.len(),
{
    if s.len() == 0 || s.last().value >= e.value {
        lemma_entries_of_value_push(s, e, v);
    } else {
        let rest = s.drop_last();
        let last = s.last();
        lemma_entries_of_value_insert(rest, e, v);
        lemma_entries_of_value_push(insert_by_value(rest, e), last, v);
        let el = if last.value == v { seq![last] } else { Seq::<LeaderboardEntry>::empty() };
        let ee = if e.value == v { seq![e] } else { Seq::<LeaderboardEntry>::empty() };
        assert(el.len() == 0 || ee.len() == 0);
        assert(entries_of_value(rest, v) + ee + el =~= entries_of_value(rest, v) + el + ee);
    }
}

/// The leaderboard order is stable: the entries of any one value come out
/// in the order they were given.
pub proof fn lemma_ranking_stable(values: Seq<LeaderboardEntry>, v: u32)
    ensures
        entries_of_value(sort_by_value(values), v) == entries_of_value(values, v),
    decreases values.len(),
{
    if values.len() > 0 {
        lemma_ranking_stable(values.drop_last(), v);
        lemma_entries_of_value_insert(sort_by_value(values.drop_last()), values.last(), v);
    }
}

/// The leaderboard order puts the values in non-increasing order and keeps
/// every entry: a leaderboard ranks higher values first.
pub proof fn lemma_ranked_order(values: Seq<LeaderboardEntry>)
    requires
        values.len() < usize::MAX,
    ensures
        sorted_by_value(sort_by_value(values)),
        sort_by_value(values).to_multiset() == values.to_multiset(),
        sort_by_value(values).len() == values.len(),
        with_ranks(sort_by_value(values)).len() == values.len(),
        forall|i: int| 0 <= i < values.len() ==> #[trigger] with_ranks(sort_by_value(values))[i].rank == i + 1,
    decreases values.len(),
{
    broadcast use vstd::seq_lib::group_to_multiset_ensures;
    if values.len() > 0 {
        lemma_ranked_order(values.drop_last());
        lemma_insert_sorted(sort_by_value(values.drop_last()), values.last());
        lemma_insert_len(sort_by_value(values.drop_last()), values.last());
        lemma_insert_by_value_multiset(sort_by_value(values.drop_last()), values.last());
        assert(values =~= values.drop_last().push(values.last()));
        vstd::seq_lib::to_multiset_build(values.drop_last(), values.last());
    } else {
        assert(values.to_multiset() =~= vstd::multiset::Multiset::empty());
        assert(sort_by_value(values).to_multiset() =~= vstd::multiset::Multiset::empty());
    }
}

/// The kinds of leaderboard.
#[derive(Clone, Copy, PartialEq, Eq, Structural)]
pub enum LeaderboardType {
    /// Ranked by N7 rating
    N7Rating,
    /// Ranked by challenge points
    ChallengePoints,
}

/// A cached leaderboard group and whether it is being recomputed.
pub struct GroupState {
    /// Whether the group is being computed
    pub computing: bool,
    /// The group handed out
    pub group: LeaderboardGroup,
}

/// The cached leaderboard groups, one per kind.
pub struct Leaderboard {
    /// The N7 rating group, once queried
    pub n7_rating: Option<GroupState>,
    /// The challenge points group, once queried
    pub challenge_points: Option<GroupState>,
}

impl Leaderboard {
    /// The cached group of the kind `ty`.
    pub open spec fn slot(&self, ty: LeaderboardType) -> Option<GroupState> {
        match ty {
            LeaderboardType::N7Rating => self.n7_rating,
            LeaderboardType::ChallengePoints => self.challenge_points,
        }
    }

    /// A leaderboard with no group cached.
    pub fn new() -> (r: Leaderboard)
        ensures
            r.n7_rating is None,
            r.challenge_points is None,
    {
        Leaderboard { n7_rating: None, challenge_points: None }
    }

    /// Starts a query for the group of kind `ty` at time `now`: a cached
    /// group that is being computed or not expired is served as it is
    /// (`false`); otherwise the group is marked as being computed (an
    /// empty, expired group stands in for one never computed) and its
    /// values must be computed (`true`). The other kind is untouched.
    pub fn begin_query(&mut self, ty: LeaderboardType, now: u64) -> (r: bool)
        ensures
            match old(self).slot(ty) {
                Some(g) => if g.computing || now < g.group.expires {
                    !r && final(self).slot(ty) == old(self).slot(ty)
                } else {
                    r && final(self).slot(ty) == Some(GroupState { computing: true, group: g.group })
                },
                None => r && (final(self).slot(ty) matches Some(g) && g.computing
                    && g.group.values@.len() == 0 && g.group.expires == 0),
            },
            ty == LeaderboardType::N7Rating ==> final(self).challenge_points == old(self).challenge_points,
            ty == LeaderboardType::ChallengePoints ==> final(self).n7_rating == old(self).n7_rating,
    {
        let slot = match ty {
            LeaderboardType::N7Rating => &mut self.n7_rating,
            LeaderboardType::ChallengePoints => &mut self.challenge_points,
        };
        match slot {
            Some(state) => {
                if state.computing || !state.group.is_expired_at(now) {
                    return false;
                }
                state.computing = true;
                true
            },
            None => {
                *slot = Some(GroupState { computing: true, group: LeaderboardGroup::dummy() });
                true
            },
        }
    }

    /// Stores the computed `values` of kind `ty` at time `now`: they are
    /// ranked (see `rank_entries`) into a group that expires an hour after
    /// `now`, no longer being computed. The other kind is untouched.
    pub fn finish_query(&mut self, ty: LeaderboardType, values: Vec<LeaderboardEntry>, now: u64)
        requires
            values@.len() < usize::MAX,
        ensures
            final(self).slot(ty) matches Some(g) && !g.computing
                && g.group.values@ == with_ranks(sort_by_value(values@))
                && g.group.expires == (if now + 3600 <= u64::MAX { now + 3600 } else { u64::MAX as int }),
            ty == LeaderboardType::N7Rating ==> final(self).challenge_points == old(self).challenge_points,
            ty == LeaderboardType::ChallengePoints ==> final(self).n7_rating == old(self).n7_rating,
    {
        let group = LeaderboardGroup::new_at(rank_entries(values), now);
        let state = Some(GroupState { computing: false, group });
        match ty {
            LeaderboardType::N7Rating => self.n7_rating = state,
            LeaderboardType::ChallengePoints => self.challenge_points = state,
        }
    }

    /// The cached group of kind `ty`, if any.
    pub fn group(&self, ty: LeaderboardType) -> (r: Option<&LeaderboardGroup>)
        ensures
            match self.slot(ty) {
                Some(g) => r == Some(&g.group),
                None => r is None,
            },
    {
        let slot = match ty {
            LeaderboardType::N7Rating => &self.n7_rating,
            LeaderboardType::ChallengePoints => &self.challenge_points,
        };
        match slot {
            Some(state) => Some(&state.group),
            None => None,
        }
    }
}

/// A class of a player's saved data: its name, level and promotions.
pub struct PlayerClass {
    pub name: String,
    pub level: u32,
    pub promotions: u32,
}

/// A character kit of a player's saved data and whether it was deployed.
pub struct KitNameDeployed {
    pub kit_name: String,
    pub deployed: bool,
}

/// Whether a class is active: some deployed character's kit name contains
/// the class name.
pub open spec fn class_active(class: PlayerClass, characters: Seq<KitNameDeployed>) -> bool {
    exists|i: int| 0 <= i < characters.len() && #[trigger] characters[i].deployed && contains_text(
        characters[i].kit_name@,
        class.name@,
    )
}

/// Total promotions of the classes.
pub open spec fn total_promotions(classes: Seq<PlayerClass>) -> int
    decreases classes.len(),
{
    if classes.len() == 0 {
        0
    } else {
        total_promotions(classes.drop_last()) + classes.last().promotions
    }
}

/// Total level of the active classes.
pub open spec fn active_level(classes: Seq<PlayerClass>, characters: Seq<KitNameDeployed>) -> int
    decreases classes.len(),
{
    if classes.len() == 0 {
        0
    } else {
        active_level(classes.drop_last(), characters) + if class_active(classes.last(), characters) {
            classes.last().level as int
        } else {
            0
        }
    }
}

/// The N7 rating of a player: 30 per promotion of any class (20 for the
/// levels and 10 bonus) plus the levels of the active classes.
pub open spec fn n7_rating_value(classes: Seq<PlayerClass>, characters: Seq<KitNameDeployed>) -> int {
    total_promotions(classes) * 30 + active_level(classes, characters)
}

/// A player without classes has an N7 rating of zero.
pub proof fn lemma_n7_rating_empty(characters: Seq<KitNameDeployed>)
    ensures
        n7_rating_value(Seq::<PlayerClass>::empty(), characters) == 0,
{
}

/// A single class is worth 30 per promotion, plus its level when the class
/// is active (some deployed character's kit name contains the class name).
pub proof fn lemma_n7_rating_one_class(class: PlayerClass, characters: Seq<KitNameDeployed>)
    ensures
        n7_rating_value(seq![class], characters) == 30 * class.promotions + if exists|i: int|
            0 <= i < characters.len() && #[trigger] characters[i].deployed && contains_text(
                characters[i].kit_name@,
                class.name@,
            ) {
            class.level as int
        } else {
            0
        },
{
    let one = seq![class];
    assert(one.drop_last() =~= Seq::<PlayerClass>::empty());
    assert(one.last() == class);
    assert(total_promotions(Seq::<PlayerClass>::empty()) == 0);
    assert(active_level(Seq::<PlayerClass>::empty(), characters) == 0);
    assert(total_promotions(one) == class.promotions);
    assert(active_level(one, characters) == if class_active(class, characters) {
        class.level as int
    } else {
        0
    });
}

/// The N7 rating adds up over classes: the rating of two lists of classes
/// together is the sum of their ratings, so every active class counts
/// with its whole level and every class with all its promotions.
pub proof fn lemma_n7_rating_additive(
    first: Seq<PlayerClass>,
    second: Seq<PlayerClass>,
    characters: Seq<KitNameDeployed>,
)
    ensures
        n7_rating_value(first + second, characters) == n7_rating_value(first, characters)
            + n7_rating_value(second, characters),
    decreases second.len(),
{
    if second.len() == 0 {
        assert(first + second =~= first);
    } else {
        lemma_n7_rating_additive(first, second.drop_last(), characters);
        assert((first + second).drop_last() =~= first + second.drop_last());
        assert((first + second).last() == second.last());
    }
}

/// Adding one class to a player's classes raises the N7 rating by exactly
/// 30 per promotion of that class plus its level when it is active.
pub proof fn lemma_n7_rating_add_class(
    classes: Seq<PlayerClass>,
    class: PlayerClass,
    characters: Seq<KitNameDeployed>,
)
    ensures
        n7_rating_value(classes.push(class), characters) == n7_rating_value(classes, characters)
            + 30 * class.promotions + if class_active(class, characters) {
            class.level as int
        } else {
            0
        },
{
    lemma_n7_rating_additive(classes, seq![class], characters);
    lemma_n7_rating_one_class(class, characters);
    assert(classes + seq![class] =~= classes.push(class));
}

/// Totals over a prefix never exceed totals over the whole.
proof fn lemma_totals_monotone(classes: Seq<PlayerClass>, characters: Seq<KitNameDeployed>, k: int)
    requires
        0 <= k <= classes.len(),
    ensures
        total_promotions(classes.take(k)) <= total_promotions(classes),
        active_level(classes.take(k), characters) <= active_level(classes, characters),
        0 <= total_promotions(classes.take(k)),
        0 <= active_level(classes.take(k), characters),
    decreases classes.len(),
{
    if k < classes.len() {
        assert(classes.drop_last().take(k) =~= classes.take(k));
        lemma_totals_monotone(classes.drop_last(), characters, k);
    } else {
        assert(classes.take(k) =~= classes);
        if classes.len() > 0 {
            lemma_totals_monotone(classes.drop_last(), characters, classes.len() - 1);
            assert(classes.drop_last().take(classes.len() - 1) =~= classes.drop_last());
        }
    }
}

/// Whether `class` is active among `characters`.
fn is_class_active(class: &PlayerClass, characters: &Vec<KitNameDeployed>) -> (r: bool)
    ensures
        r == class_active(*class, characters@),
{
    let mut i: usize = 0;
    while i < characters.len()
        invariant
            0 <= i <= characters@.len(),
            forall|j: int| 0 <= j < i ==> !(#[trigger] characters@[j].deployed && contains_text(
                characters@[j].kit_name@,
                class.name@,
            )),
        decreases characters@.len() - i,
    {
        if characters[i].deployed && contains(characters[i].kit_name.as_str(), class.name.as_str()) {
            return true;
        }
        i = i + 1;
    }
    false
}

/// The N7 rating of a player with the given classes and characters.
pub fn n7_rating(classes: &Vec<PlayerClass>, characters: &Vec<KitNameDeployed>) -> (r: u32)
    requires
        n7_rating_value(classes@, characters@) <= u32::MAX,
    ensures
        r == n7_rating_value(classes@, characters@),
{
    let mut promotions: u32 = 0;
    let mut level: u32 = 0;
    let mut i: usize = 0;
    while i < classes.len()
        invariant
            0 <= i <= classes@.len(),
            n7_rating_value(classes@, characters@) <= u32::MAX,
            promotions == total_promotions(classes@.take(i as int)),
            level == active_level(classes@.take(i as int), characters@),
        decreases classes@.len() - i,
    {
        proof {
            assert(classes@.take(i + 1).drop_last() =~= classes@.take(i as int));
            lemma_totals_monotone(classes@, characters@, i + 1);
        }
        let class = &classes[i];
        if is_class_active(class, characters) {
            level = level + class.level;
        }
        promotions = promotions + class.promotions;
        i = i + 1;
    }
    proof {
        assert(classes@.take(i as int) =~= classes@);
    }
    promotions * 30 + level
}

} // verus!
