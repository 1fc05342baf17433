//! The store of running games and the matchmaking queue of players
//! waiting for a game that matches their rules.
use vstd::prelude::*;
use vstd::multiset::Multiset;
use crate::game::{Game, GameEffect, GameJoinableState, GameMessage, GamePlayer, DEFAULT_FIT};
use crate::models::game_manager::{AsyncMatchmakingStatus, GameSetupContext, GameState, MatchmakingResult};
use crate::models::net::NetData;
use crate::rules::RuleSet;
use crate::snapshot::GameSnapshot;

verus! {

/// The running games, in the order they were created.
pub struct Games {
    /// Stored value for the ID to give the next game
    pub next_id: u32,
    /// The games
    pub games: Vec<Game>,
}

/// The index of the first game of `games` with the ID `id`.
pub open spec fn spec_game_index(games: Seq<Game>, id: u32) -> Option<int>
    decreases games.len(),
{
    if games.len() == 0 {
        None
    } else if games[0].id == id {
        Some(0)
    } else {
        match spec_game_index(games.drop_first(), id) {
            Some(i) => Some(i + 1),
            None => None,
        }
    }
}

/// Where the index of a game ID points, and that no game has the ID when
/// there is none.
pub proof fn lemma_game_index(games: Seq<Game>, id: u32)
    ensures
        spec_game_index(games, id) matches Some(i) ==> 0 <= i < games.len() && games[i].id == id,
        spec_game_index(games, id) is None ==> forall|j: int| 0 <= j < games.len() ==> #[trigger] games[j].id != id,
    decreases games.len(),
{
    if games.len() > 0 {
        lemma_game_index(games.drop_first(), id);
        assert forall|j: int| 1 <= j < games.len() implies #[trigger] games[j].id == games.drop_first()[j - 1].id by {}
    }
}

impl Games {
    /// An empty store whose first game gets the ID 1.
    pub fn new() -> (r: Games)
        ensures
            r.next_id == 1,
            r.games@.len() == 0,
    {
        Games { next_id: 1, games: Vec::new() }
    }

    /// Obtains the total count of games.
    pub fn total(&self) -> (r: usize)
        ensures
            r == self.games@.len(),
    {
        self.games.len()
    }

    /// Finds the index of the game with the ID `game_id`.
    pub fn index_of(&self, game_id: u32) -> (r: Option<usize>)
        ensures
            r matches Some(i) ==> spec_game_index(self.games@, game_id) == Some(i as int),
            r is None ==> spec_game_index(self.games@, game_id) is None,
    {
        let n = self.games.len();
        let mut i: usize = 0;
        proof {
            assert(self.games@.skip(0) =~= self.games@);
        }
        while i < n
            invariant
                n == self.games@.len(),
                0 <= i <= n,
                spec_game_index(self.games@, game_id) == (match spec_game_index(self.games@.skip(i as int), game_id) {
                    Some(j) => Some(j + i),
                    None => None,
                }),
            decreases n - i,
        {
            proof {
                assert(self.games@.skip(i as int)[0] == self.games@[i as int]);
                assert(self.games@.skip(i as int).drop_first() =~= self.games@.skip(i + 1));
            }
            if self.games[i].id == game_id {
                return Some(i);
            }
            i = i + 1;
        }
        proof {
            assert(self.games@.skip(n as int).len() == 0);
        }
        None
    }

    /// The game with the ID `game_id`, if it is running.
    pub fn get_by_id(&self, game_id: u32) -> (r: Option<&Game>)
        ensures
            match spec_game_index(self.games@, game_id) {
                Some(i) => r matches Some(g) && *g == self.games@[i],
                None => r is None,
            },
    {
        match self.index_of(game_id) {
            Some(i) => {
                proof {
                    lemma_game_index(self.games@, game_id);
                }
                Some(&self.games[i])
            },
            None => None,
        }
    }

    /// Removes the game with the ID `game_id`, if it is running.
    pub fn remove_by_id(&mut self, game_id: u32)
        ensures
            final(self).next_id == old(self).next_id,
            match spec_game_index(old(self).games@, game_id) {
                Some(i) => final(self).games@ == old(self).games@.remove(i),
                None => final(self).games@ == old(self).games@,
            },
    {
        match self.index_of(game_id) {
            Some(i) => {
                proof {
                    lemma_game_index(self.games@, game_id);
                }
                self.games.remove(i);
            },
            None => {},
        }
    }

    /// Finds the first game joinable by a player searching with `rule_set`,
    /// giving its ID and index.
    pub fn get_by_rule_set(&self, rule_set: &RuleSet) -> (r: Option<(u32, usize)>)
        ensures
            r matches Some((id, i)) ==> i < self.games@.len() && self.games@[i as int].id == id
                && self.games@[i as int].spec_joinable_state(Some(rule_set)) == GameJoinableState::Joinable
                && forall|j: int| 0 <= j < i ==> #[trigger] self.games@[j].spec_joinable_state(Some(rule_set))
                    != GameJoinableState::Joinable,
            r is None ==> forall|j: int| 0 <= j < self.games@.len()
                ==> #[trigger] self.games@[j].spec_joinable_state(Some(rule_set)) != GameJoinableState::Joinable,
    {
        let n = self.games.len();
        let mut i: usize = 0;
        while i < n
            invariant
                n == self.games@.len(),
                0 <= i <= n,
                forall|j: int| 0 <= j < i ==> #[trigger] self.games@[j].spec_joinable_state(Some(rule_set))
                    != GameJoinableState::Joinable,
            decreases n - i,
        {
            if self.games[i].joinable_state(Some(rule_set)) == GameJoinableState::Joinable {
                return Some((self.games[i].id, i));
            }
            i = i + 1;
        }
        None
    }

    /// Takes the next game ID (wrapping around after the last one).
    pub fn next_id(&mut self) -> (r: u32)
        ensures
            r == old(self).next_id,
            final(self).next_id == old(self).next_id.wrapping_add(1),
            final(self).games@ == old(self).games@,
    {
        let id = self.next_id;
        self.next_id = self.next_id.wrapping_add(1);
        id
    }

    /// The store indices of the page of `count` games from `offset`, in
    /// game ID order (games of equal ID in store order), and whether games
    /// follow that page.
    pub fn snapshot_page(&self, offset: usize, count: usize) -> (r: (Vec<usize>, bool))
        ensures
            r.0@ == snapshot_page_of(self.games@, offset as int, count as int),
            r.1 == (self.games@.len() > offset + count),
    {
        let n = self.games.len();
        let ghost keys = game_keys(self.games@);
        let mut sorted: Vec<(u32, usize)> = Vec::new();
        let mut done: usize = 0;
        while done < n
            invariant
                n == self.games@.len(),
                keys == game_keys(self.games@),
                0 <= done <= n,
                sorted@ == sort_by_id(keys.take(done as int)),
                sorted@.len() == done,
            decreases n - done,
        {
            let k = (self.games[done].id, done);
            let ghost s = sorted@;
            proof {
                assert(keys[done as int] == k);
                assert(keys.take(done + 1).drop_last() =~= keys.take(done as int));
                assert(keys.take(done + 1).last() == k);
            }
            let mut p = sorted.len();
            while p > 0 && sorted[p - 1].0 > k.0
                invariant
                    sorted@ == s,
                    0 <= p <= s.len(),
                    forall|j: int| p <= j < s.len() ==> #[trigger] s[j].0 > k.0,
                decreases p,
            {
                p = p - 1;
            }
            proof {
                lemma_insert_by_id_tail(s, k, p as int);
                assert(insert_by_id(s.take(p as int), k) == s.take(p as int).push(k));
                assert(s.take(p as int).push(k) + s.skip(p as int) =~= s.insert(p as int, k));
                lemma_insert_by_id_len(s, k);
            }
            sorted.insert(p, k);
            done = done + 1;
        }
        proof {
            assert(keys.take(n as int) =~= keys);
        }
        let start = if offset < n { offset } else { n };
        let end = if count <= n - start { start + count } else { n };
        let mut page: Vec<usize> = Vec::new();
        let mut i = start;
        while i < end
            invariant
                sorted@ == sort_by_id(keys),
                sorted@.len() == n,
                start <= i <= end <= n,
                page@ == Seq::new((i - start) as nat, |j: int| sorted@[start + j].1),
            decreases end - i,
        {
            page.push(sorted[i].1);
            i = i + 1;
            proof {
                assert(page@ =~= Seq::new((i - start) as nat, |j: int| sorted@[start + j].1));
            }
        }
        proof {
            assert(page@ =~= snapshot_page_of(self.games@, offset as int, count as int));
        }
        let more = n > start && n - start > count;
        (page, more)
    }

    /// Snapshots of the page of `count` games from `offset`, in game ID
    /// order (see `snapshot_page`), with snapshots of their players when
    /// `include_players` holds; `nets[i][j]` is the net data collected for
    /// player `j` of the stored game `i`. Also whether games follow the
    /// page.
    pub fn create_snapshot(
        &self,
        offset: usize,
        count: usize,
        include_players: bool,
        nets: Vec<Vec<Option<NetData>>>,
    ) -> (r: (Vec<GameSnapshot>, bool))
        requires
            nets@.len() == self.games@.len(),
            forall|i: int| 0 <= i < nets@.len() ==> (#[trigger] nets@[i])@.len() == self.games@[i].players@.len(),
        ensures
            r.1 == (self.games@.len() > offset + count),
            r.0@.len() == snapshot_page_of(self.games@, offset as int, count as int).len(),
            forall|k: int| 0 <= k < r.0@.len() ==> {
                let i = snapshot_page_of(self.games@, offset as int, count as int)[k] as int;
                (#[trigger] r.0@[k]).snapshot_of(self.games@[i], include_players, nets@[i]@)
            },
    {
        let (page, more) = self.snapshot_page(offset, count);
        let n = self.games.len();
        proof {
            assert(self.games@.len() == n);
            lemma_snapshot_page_distinct(self.games@, offset as int, count as int);
        }
        let ghost all = nets@;
        let mut nets = nets;
        let mut out: Vec<GameSnapshot> = Vec::new();
        let mut k: usize = 0;
        while k < page.len()
            invariant
                page@ == snapshot_page_of(self.games@, offset as int, count as int),
                page@.no_duplicates(),
                forall|j: int| 0 <= j < page@.len() ==> #[trigger] page@[j] < self.games@.len(),
                all.len() == self.games@.len(),
                forall|i: int| 0 <= i < all.len() ==> (#[trigger] all[i])@.len() == self.games@[i].players@.len(),
                nets@.len() == all.len(),
                forall|i: int| 0 <= i < all.len() && !page@.take(k as int).contains(i as usize)
                    ==> #[trigger] nets@[i] == all[i],
                0 <= k <= page@.len(),
                out@.len() == k,
                forall|j: int| 0 <= j < k ==> (#[trigger] out@[j]).snapshot_of(self.games@[page@[j] as int],
                    include_players, all[page@[j] as int]@),
            decreases page@.len() - k,
        {
            let i = page[k];
            proof {
                assert(!page@.take(k as int).contains(i)) by {
                    if page@.take(k as int).contains(i) {
                        let j = choose|j: int| 0 <= j < k && page@.take(k as int)[j] == i;
                        assert(page@[j] == page@[k as int]);
                    }
                }
                assert(nets@[i as int] == all[i as int]);
            }
            let mut taken: Vec<Option<NetData>> = Vec::new();
            nets.set_and_swap(i, &mut taken);
            out.push(GameSnapshot::new(&self.games[i], include_players, taken));
            proof {
                assert forall|m: int| 0 <= m < all.len() && !page@.take(k + 1).contains(m as usize)
                    implies #[trigger] nets@[m] == all[m] by {
                    assert(page@.take(k + 1)[k as int] == i);
                    if m == i as int {
                        assert(page@.take(k + 1).contains(m as usize));
                    }
                    assert(!page@.take(k as int).contains(m as usize)) by {
                        if page@.take(k as int).contains(m as usize) {
                            let j = choose|j: int| 0 <= j < k && page@.take(k as int)[j] == m as usize;
                            assert(page@.take(k + 1)[j] == m as usize);
                        }
                    }
                }
            }
            k = k + 1;
        }
        (out, more)
    }

    /// Stores a new game, giving its index.
    pub fn insert(&mut self, game: Game) -> (r: usize)
        ensures
            r == old(self).games@.len(),
            final(self).games@ == old(self).games@.push(game),
            final(self).next_id == old(self).next_id,
    {
        let index = self.games.len();
        self.games.push(game);
        index
    }
}

/// The (ID, store index) key of each stored game, in store order.
pub open spec fn game_keys(games: Seq<Game>) -> Seq<(u32, usize)> {
    Seq::new(games.len(), |i: int| (games[i].id, i as usize))
}

/// `sorted` (by non-decreasing ID) with `k` inserted after every key whose
/// ID is at most `k`'s.
pub open spec fn insert_by_id(sorted: Seq<(u32, usize)>, k: (u32, usize)) -> Seq<(u32, usize)>
    decreases sorted.len(),
{
    if sorted.len() == 0 || sorted.last().0 <= k.0 {
        sorted.push(k)
    } else {
        insert_by_id(sorted.drop_last(), k).push(sorted.last())
    }
}

/// The keys sorted by non-decreasing ID; keys of equal ID keep their order
/// (a stable sort).
pub open spec fn sort_by_id(keys: Seq<(u32, usize)>) -> Seq<(u32, usize)>
    decreases keys.len(),
{
    if keys.len() == 0 {
        Seq::empty()
    } else {
        insert_by_id(sort_by_id(keys.drop_last()), keys.last())
    }
}

/// The store indices of the games on the page of `count` games from
/// `offset` in game ID order.
pub open spec fn snapshot_page_of(games: Seq<Game>, offset: int, count: int) -> Seq<usize> {
    let sorted = sort_by_id(game_keys(games));
    let start = if offset < sorted.len() { offset } else { sorted.len() as int };
    let end = if offset + count < sorted.len() { offset + count } else { sorted.len() as int };
    Seq::new((end - start) as nat, |i: int| sorted[start + i].1)
}

/// Inserting after a tail of greater IDs is inserting before that tail.
proof fn lemma_insert_by_id_tail(s: Seq<(u32, usize)>, k: (u32, usize), p: int)
    requires
        0 <= p <= s.len(),
        forall|j: int| p <= j < s.len() ==> #[trigger] s[j].0 > k.0,
    ensures
        insert_by_id(s, k) == insert_by_id(s.take(p), k) + s.skip(p),
    decreases s.len() - p,
{
    if p < s.len() {
        assert(s.drop_last().take(p) =~= s.take(p));
        lemma_insert_by_id_tail(s.drop_last(), k, p);
        assert(s.skip(p) =~= s.drop_last().skip(p).push(s.last()));
        assert(insert_by_id(s.take(p), k) + s.skip(p) =~= (insert_by_id(s.take(p), k) + s.drop_last().skip(p)).push(
            s.last(),
        ));
    } else {
        assert(s.take(p) =~= s);
        assert(s.skip(p) =~= Seq::<(u32, usize)>::empty());
        assert(insert_by_id(s, k) + s.skip(p) =~= insert_by_id(s, k));
    }
}

/// Inserting adds one key.
proof fn lemma_insert_by_id_len(s: Seq<(u32, usize)>, k: (u32, usize))
    ensures
        insert_by_id(s, k).len() == s.len() + 1,
    decreases s.len(),
{
    if s.len() > 0 && s.last().0 > k.0 {
        lemma_insert_by_id_len(s.drop_last(), k);
    }
}

/// Sorting keeps the number of keys.
proof fn lemma_sort_by_id_len(keys: Seq<(u32, usize)>)
    ensures
        sort_by_id(keys).len() == keys.len(),
    decreases keys.len(),
{
    if keys.len() > 0 {
        lemma_sort_by_id_len(keys.drop_last());
        lemma_insert_by_id_len(sort_by_id(keys.drop_last()), keys.last());
    }
}

/// Whether the keys are in non-decreasing order of ID.
pub open spec fn sorted_by_id(s: Seq<(u32, usize)>) -> bool {
    forall|i: int, j: int| 0 <= i < j < s.len() ==> #[trigger] s[i].0 <= #[trigger] s[j].0
}

/// Every ID after an insertion is at most a bound that the inserted key
/// and all the others meet.
proof fn lemma_insert_by_id_bound(s: Seq<(u32, usize)>, k: (u32, usize), x: u32)
    requires
        forall|i: int| 0 <= i < s.len() ==> #[trigger] s[i].0 <= x,
        k.0 <= x,
    ensures
        forall|i: int| 0 <= i < insert_by_id(s, k).len() ==> #[trigger] insert_by_id(s, k)[i].0 <= x,
    decreases s.len(),
{
    if s.len() > 0 && s.last().0 > k.0 {
        let rest = s.drop_last();
        assert forall|i: int| 0 <= i < rest.len() implies #[trigger] rest[i].0 <= x by {
            assert(rest[i] == s[i]);
        }
        lemma_insert_by_id_bound(rest, k, x);
        let r = insert_by_id(rest, k);
        assert(s.last() == s[s.len() - 1]);
        assert forall|i: int| 0 <= i < r.push(s.last()).len() implies #[trigger] r.push(s.last())[i].0 <= x by {
            if i < r.len() {
                assert(r.push(s.last())[i] == r[i]);
            }
        }
    } else {
        assert forall|i: int| 0 <= i < s.push(k).len() implies #[trigger] s.push(k)[i].0 <= x by {
            if i < s.len() {
                assert(s.push(k)[i] == s[i]);
            }
        }
    }
}

/// Inserting into a sorted list keeps it sorted.
proof fn lemma_insert_by_id_sorted(s: Seq<(u32, usize)>, k: (u32, usize))
    requires
        sorted_by_id(s),
    ensures
        sorted_by_id(insert_by_id(s, k)),
    decreases s.len(),
{
    if s.len() > 0 && s.last().0 > k.0 {
        let rest = s.drop_last();
        lemma_insert_by_id_sorted(rest, k);
        lemma_insert_by_id_bound(rest, k, s.last().0);
        lemma_insert_by_id_len(rest, k);
    }
}

/// Game snapshots come in order of game ID: the sorted keys are in
/// non-decreasing ID order and there is one per game.
pub proof fn lemma_snapshot_order(games: Seq<Game>)
    ensures
        sorted_by_id(sort_by_id(game_keys(games))),
        sort_by_id(game_keys(games)).len() == games.len(),
{
    lemma_sort_sorted(game_keys(games));
    lemma_sort_by_id_len(game_keys(games));
}

proof fn lemma_sort_sorted(keys: Seq<(u32, usize)>)
    ensures
        sorted_by_id(sort_by_id(keys)),
    decreases keys.len(),
{
    if keys.len() > 0 {
        lemma_sort_sorted(keys.drop_last());
        lemma_insert_by_id_sorted(sort_by_id(keys.drop_last()), keys.last());
    }
}

/// Inserting a key adds it to the keys.
proof fn lemma_insert_by_id_multiset(s: Seq<(u32, usize)>, k: (u32, usize))
    ensures
        insert_by_id(s, k).to_multiset() == s.to_multiset().insert(k),
    decreases s.len(),
{
    broadcast use vstd::seq_lib::group_to_multiset_ensures, vstd::multiset::group_multiset_axioms;
    if s.len() > 0 && s.last().0 > k.0 {
        let rest = s.drop_last();
        lemma_insert_by_id_multiset(rest, k);
        assert(s =~= rest.push(s.last()));
        vstd::seq_lib::to_multiset_build(rest, s.last());
        vstd::seq_lib::to_multiset_build(insert_by_id(rest, k), s.last());
        assert(insert_by_id(s, k).to_multiset() =~= s.to_multiset().insert(k));
    } else {
        vstd::seq_lib::to_multiset_build(s, k);
    }
}

/// Sorting keeps the keys.
proof fn lemma_sort_by_id_multiset(keys: Seq<(u32, usize)>)
    ensures
        sort_by_id(keys).to_multiset() == keys.to_multiset(),
    decreases keys.len(),
{
    broadcast use vstd::seq_lib::group_to_multiset_ensures, vstd::multiset::group_multiset_axioms;
    if keys.len() == 0 {
        assert(keys.to_multiset() =~= Multiset::empty());
        assert(Seq::<(u32, usize)>::empty().to_multiset() =~= Multiset::empty());
    } else {
        let rest = keys.drop_last();
        lemma_sort_by_id_multiset(rest);
        lemma_insert_by_id_multiset(sort_by_id(rest), keys.last());
        assert(keys =~= rest.push(keys.last()));
        vstd::seq_lib::to_multiset_build(rest, keys.last());
    }
}

/// A snapshot page names each stored game at most once.
pub proof fn lemma_snapshot_page_distinct(games: Seq<Game>, offset: int, count: int)
    requires
        games.len() <= usize::MAX,
        offset >= 0,
        count >= 0,
    ensures
        snapshot_page_of(games, offset, count).no_duplicates(),
        forall|k: int| 0 <= k < snapshot_page_of(games, offset, count).len()
            ==> #[trigger] snapshot_page_of(games, offset, count)[k] < games.len(),
{
    broadcast use vstd::seq_lib::group_to_multiset_ensures, vstd::multiset::group_multiset_axioms;
    let keys = game_keys(games);
    let sorted = sort_by_id(keys);
    lemma_sort_by_id_multiset(keys);
    lemma_sort_by_id_len(keys);
    assert forall|i: int| 0 <= i < keys.len() implies (#[trigger] keys[i]).1 == i by {}
    assert(keys.no_duplicates()) by {
        assert forall|i: int, j: int| 0 <= i < keys.len() && 0 <= j < keys.len() && i != j
            implies keys[i] != keys[j] by {
            assert(keys[i].1 == i && keys[j].1 == j);
        }
    }
    keys.lemma_multiset_has_no_duplicates();
    sorted.lemma_multiset_has_no_duplicates_conv();
    // Every sorted key is the key of its store index
    assert forall|j: int| 0 <= j < sorted.len() implies (#[trigger] sorted[j]).1 < games.len()
        && sorted[j] == keys[sorted[j].1 as int] by {
        assert(sorted.to_multiset().count(sorted[j]) > 0);
        assert(keys.contains(sorted[j]));
        let m = choose|m: int| 0 <= m < keys.len() && keys[m] == sorted[j];
        assert(keys[m].1 == m);
    }
    let page = snapshot_page_of(games, offset, count);
    let start = if offset < sorted.len() { offset } else { sorted.len() as int };
    assert forall|a: int, b: int| 0 <= a < page.len() && 0 <= b < page.len() && a != b implies page[a] != page[b] by {
        assert(page[a] == sorted[start + a].1);
        assert(page[b] == sorted[start + b].1);
        if page[a] == page[b] {
            assert(sorted[start + a] == keys[page[a] as int]);
            assert(sorted[start + b] == keys[page[b] as int]);
        }
    }
    assert forall|k: int| 0 <= k < page.len() implies #[trigger] page[k] < games.len() by {
        assert(page[k] == sorted[start + k].1);
    }
}

/// The elements of `v` in reverse order.
pub fn reversed<T>(v: Vec<T>) -> (r: Vec<T>)
    ensures
        r@ == v@.reverse(),
{
    let ghost all = v@;
    let mut v = v;
    let mut out: Vec<T> = Vec::new();
    while v.len() > 0
        invariant
            v@.len() + out@.len() == all.len(),
            v@ == all.take(v@.len() as int),
            out@ == all.skip(v@.len() as int).reverse(),
        decreases v@.len(),
    {
        let x = v.pop().unwrap();
        out.push(x);
        assert(v@ =~= all.take(v@.len() as int));
        assert(out@ =~= all.skip(v@.len() as int).reverse());
    }
    assert(all.skip(0) =~= all);
    out
}

/// A player waiting in the matchmaking queue.
pub struct MatchmakingEntry {
    /// The player entry
    pub player: GamePlayer,
    /// The rules that a game must match for the player to join
    pub rule_set: RuleSet,
    /// Time (seconds since the Unix epoch) the player entered matchmaking
    pub started: u64,
}

/// The setup context of a player joining through matchmaking.
pub open spec fn spec_matchmaking_context(player_id: u32) -> GameSetupContext {
    GameSetupContext::Matchmaking {
        fit_score: DEFAULT_FIT,
        max_fit_score: DEFAULT_FIT,
        session_id: player_id,
        result: MatchmakingResult::JoinedExistingGame,
        player_id,
    }
}

/// The effects of adding `player` to a game with `players` through
/// matchmaking: the matchmaking status is sent to the player, then it
/// joins the game.
pub open spec fn spec_matchmaking_join_effects(players: Seq<GamePlayer>, game_id: u32, player_id: u32) -> Seq<GameEffect> {
    seq![GameEffect::Notify {
        to: player_id,
        message: GameMessage::AsyncMatchmakingStatus(AsyncMatchmakingStatus { player_id }),
    }] + Game::spec_join_effects(players, game_id, player_id, spec_matchmaking_context(player_id))
}

/// The effects of adding the players `joining` one after another to a
/// game that starts with `players`.
pub open spec fn spec_queue_join_effects(players: Seq<GamePlayer>, game_id: u32, joining: Seq<GamePlayer>) -> Seq<GameEffect>
    decreases joining.len(),
{
    if joining.len() == 0 {
        Seq::empty()
    } else {
        spec_queue_join_effects(players, game_id, joining.drop_last())
            + spec_matchmaking_join_effects(players + joining.drop_last(), game_id, joining.last().player.id)
    }
}

/// Whether the entry at `j` of the queue could join a game in `state`
/// with `attrs`, `len` players already in it and `j` of the queue before it
/// added.
pub open spec fn spec_entry_joinable(game: Game, len: int, entry: MatchmakingEntry) -> bool {
    game.state != GameState::Destructing && len < 4 && entry.rule_set.spec_matches(game.attributes)
}

/// The queue of players searching for a game.
pub struct Matchmaking {
    pub queue: Vec<MatchmakingEntry>,
}

impl Matchmaking {
    pub fn new() -> (r: Matchmaking)
        ensures
            r.queue@.len() == 0,
    {
        Matchmaking { queue: Vec::new() }
    }

    /// Removes every queued entry of the player `player_id`.
    pub fn remove(&mut self, player_id: u32)
        ensures
            final(self).queue@ == old(self).queue@.filter(|e: MatchmakingEntry| e.player.player.id != player_id),
    {
        let mut old_queue: Vec<MatchmakingEntry> = Vec::new();
        std::mem::swap(&mut old_queue, &mut self.queue);
        let mut kept: Vec<MatchmakingEntry> = Vec::new();
        let ghost all = old_queue@;
        assert(all.len() == old_queue.len());
        let mut i: usize = 0;
        let mut rest = reversed(old_queue);
        assert(rest@ =~= all.skip(0).reverse());
        while rest.len() > 0
            invariant
                all.len() <= usize::MAX,
                i + rest@.len() == all.len(),
                rest@ == all.skip(i as int).reverse(),
                kept@ == all.take(i as int).filter(|e: MatchmakingEntry| e.player.player.id != player_id),
            decreases rest@.len(),
        {
            let entry = rest.pop().unwrap();
            proof {
                assert(entry == all[i as int]);
                assert(all.take(i + 1).drop_last() =~= all.take(i as int));
                assert(all.take(i + 1).last() == entry);
                reveal_with_fuel(Seq::filter, 1);
                assert(rest@ =~= all.skip(i + 1).reverse());
            }
            if entry.player.player.id != player_id {
                kept.push(entry);
            }
            i = i + 1;
        }
        proof {
            assert(all.take(all.len() as int) =~= all);
        }
        self.queue = kept;
    }

    /// Adds a player to the back of the queue, entered at `started`.
    pub fn queue_at(&mut self, player: GamePlayer, rule_set: RuleSet, started: u64)
        ensures
            final(self).queue@ == old(self).queue@.push(MatchmakingEntry { player, rule_set, started }),
    {
        self.queue.push(MatchmakingEntry { player, rule_set, started });
    }

    /// Adds a player to the back of the queue, entered now.
    pub fn queue(&mut self, player: GamePlayer, rule_set: RuleSet)
        ensures
            final(self).queue@.len() == old(self).queue@.len() + 1,
            final(self).queue@.drop_last() == old(self).queue@,
            final(self).queue@.last().player == player,
            final(self).queue@.last().rule_set == rule_set,
    {
        let started = crate::clock::unix_now_secs();
        self.queue_at(player, rule_set, started);
    }

    /// Adds `player` to `game` through matchmaking: it is sent its
    /// matchmaking status, then joins the game.
    pub fn add_from_matchmaking(game: &mut Game, player: GamePlayer) -> (r: Vec<GameEffect>)
        ensures
            final(game).players@ == old(game).players@.push(player),
            final(game).id == old(game).id,
            final(game).state == old(game).state,
            final(game).attributes == old(game).attributes,
            final(game).settings == old(game).settings,
            final(game).created_at == old(game).created_at,
            final(game).reporting_id == old(game).reporting_id,
            final(game).seed == old(game).seed,
            r@ == spec_matchmaking_join_effects(old(game).players@, old(game).id, player.player.id),
    {
        let msid = player.player.id;
        let mut effects: Vec<GameEffect> = Vec::new();
        effects.push(GameEffect::Notify {
            to: msid,
            message: GameMessage::AsyncMatchmakingStatus(AsyncMatchmakingStatus { player_id: msid }),
        });
        let context = GameSetupContext::Matchmaking {
            fit_score: DEFAULT_FIT,
            max_fit_score: DEFAULT_FIT,
            session_id: msid,
            result: MatchmakingResult::JoinedExistingGame,
            player_id: msid,
        };
        let (_slot, mut joined) = game.add_player_session(player, context);
        effects.append(&mut joined);
        effects
    }

    /// Moves queued players into `game`, front of the queue first: each
    /// entry whose rules the game matches joins while the game is running
    /// and has room; every other entry keeps its place in the queue.
    pub fn process_queue(&mut self, game: &mut Game) -> (r: Vec<GameEffect>)
        ensures
            ({
                let (joined, kept) = spec_queue_split(*old(game), old(game).players@.len() as int, old(self).queue@);
                &&& final(self).queue@ == kept
                &&& final(game).players@ == old(game).players@ + entry_players(joined)
                &&& r@ == spec_queue_join_effects(old(game).players@, old(game).id, entry_players(joined))
            }),
            final(game).id == old(game).id,
            final(game).state == old(game).state,
            final(game).attributes == old(game).attributes,
            final(game).settings == old(game).settings,
            final(game).created_at == old(game).created_at,
            final(game).reporting_id == old(game).reporting_id,
            final(game).seed == old(game).seed,
    {
        let ghost q0 = self.queue@;
        let ghost g0 = *game;
        let ghost len0 = game.players@.len() as int;
        assert(q0.len() == self.queue.len());
        let mut taken: Vec<MatchmakingEntry> = Vec::new();
        std::mem::swap(&mut taken, &mut self.queue);
        let mut rest = reversed(taken);
        let mut kept: Vec<MatchmakingEntry> = Vec::new();
        let mut effects: Vec<GameEffect> = Vec::new();
        let mut k: usize = 0;
        let ghost mut joined: Seq<MatchmakingEntry> = Seq::empty();
        proof {
            assert(rest@ =~= q0.skip(0).reverse());
            assert(q0.take(0) =~= Seq::<MatchmakingEntry>::empty());
            assert(entry_players(joined) =~= Seq::<GamePlayer>::empty());
            assert(g0.players@ + entry_players(joined) =~= g0.players@);
        }
        while rest.len() > 0
            invariant
                k + rest@.len() == q0.len(),
                q0.len() <= usize::MAX,
                rest@ == q0.skip(k as int).reverse(),
                len0 == g0.players@.len(),
                (joined, kept@) == spec_queue_split(g0, len0, q0.take(k as int)),
                game.players@ == g0.players@ + entry_players(joined),
                game.id == g0.id,
                game.state == g0.state,
                game.attributes == g0.attributes,
                game.settings == g0.settings,
                game.created_at == g0.created_at,
                game.reporting_id == g0.reporting_id,
                game.seed == g0.seed,
                effects@ == spec_queue_join_effects(g0.players@, g0.id, entry_players(joined)),
            decreases rest@.len(),
        {
            let entry = rest.pop().unwrap();
            let ghost e = entry;
            proof {
                assert(e == q0[k as int]);
                assert(q0.take(k + 1).drop_last() =~= q0.take(k as int));
                assert(q0.take(k + 1).last() == e);
                assert(rest@ =~= q0.skip(k + 1).reverse());
            }
            let join_state = game.joinable_state(Some(&entry.rule_set));
            if join_state == GameJoinableState::Joinable {
                let ghost before = entry_players(joined);
                let mut added = Self::add_from_matchmaking(game, entry.player);
                effects.append(&mut added);
                proof {
                    joined = joined.push(e);
                    assert(entry_players(joined) =~= before.push(e.player));
                    assert(entry_players(joined).drop_last() =~= before);
                    assert(g0.players@ + entry_players(joined) =~= (g0.players@ + before).push(e.player));
                }
            } else {
                kept.push(entry);
            }
            k = k + 1;
        }
        proof {
            assert(q0.take(k as int) =~= q0);
        }
        self.queue = kept;
        effects
    }
}

/// The players of `entries`, in order.
pub open spec fn entry_players(entries: Seq<MatchmakingEntry>) -> Seq<GamePlayer> {
    entries.map_values(|e: MatchmakingEntry| e.player)
}

/// Splits a matchmaking queue, front first, into the entries that join
/// `game` (which has `len` players before any of them joins) and those that
/// stay queued.
pub open spec fn spec_queue_split(game: Game, len: int, queue: Seq<MatchmakingEntry>)
    -> (Seq<MatchmakingEntry>, Seq<MatchmakingEntry>)
    decreases queue.len(),
{
    if queue.len() == 0 {
        (Seq::empty(), Seq::empty())
    } else {
        let (joined, kept) = spec_queue_split(game, len, queue.drop_last());
        if spec_entry_joinable(game, len + joined.len(), queue.last()) {
            (joined.push(queue.last()), kept)
        } else {
            (joined, kept.push(queue.last()))
        }
    }
}

/// Every entry of a queue either joins the game or stays queued.
pub proof fn lemma_queue_split_parts(game: Game, len: int, queue: Seq<MatchmakingEntry>)
    ensures
        spec_queue_split(game, len, queue).0.len() + spec_queue_split(game, len, queue).1.len() == queue.len(),
        spec_queue_split(game, len, queue).0.to_multiset().add(spec_queue_split(game, len, queue).1.to_multiset())
            == queue.to_multiset(),
    decreases queue.len(),
{
    broadcast use vstd::seq_lib::group_to_multiset_ensures, vstd::multiset::group_multiset_axioms;
    if queue.len() == 0 {
        assert(queue.to_multiset() =~= Multiset::empty());
        assert(Seq::<MatchmakingEntry>::empty().to_multiset() =~= Multiset::empty());
        assert(Multiset::<MatchmakingEntry>::empty().add(Multiset::empty()) =~= Multiset::empty());
    } else {
        lemma_queue_split_parts(game, len, queue.drop_last());
        let (j, k) = spec_queue_split(game, len, queue.drop_last());
        let x = queue.last();
        assert(queue =~= queue.drop_last().push(x));
        vstd::seq_lib::to_multiset_build(queue.drop_last(), x);
        vstd::seq_lib::to_multiset_build(j, x);
        vstd::seq_lib::to_multiset_build(k, x);
        if spec_entry_joinable(game, len + j.len(), x) {
            assert(j.push(x).to_multiset().add(k.to_multiset()) =~= j.to_multiset().add(k.to_multiset()).insert(x));
        } else {
            assert(j.to_multiset().add(k.push(x).to_multiset()) =~= j.to_multiset().add(k.to_multiset()).insert(x));
        }
    }
}

/// The split of a queue depends on a game only through its state and its
/// attributes.
pub proof fn lemma_queue_split_same_game(g1: Game, g2: Game, len: int, queue: Seq<MatchmakingEntry>)
    requires
        g1.state == g2.state,
        g1.attributes == g2.attributes,
    ensures
        spec_queue_split(g1, len, queue) == spec_queue_split(g2, len, queue),
    decreases queue.len(),
{
    if queue.len() > 0 {
        lemma_queue_split_same_game(g1, g2, len, queue.drop_last());
    }
}

} // verus!
