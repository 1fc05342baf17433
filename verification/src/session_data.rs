//! The data of one client session: who is logged in, their networking
//! details, their game, the sessions subscribed to them and keep-alive
//! timing. Each change says which notifications to other sessions it
//! causes; sending them is left to the caller.
use vstd::prelude::*;
use crate::models::net::{HardwareFlags, NetData, NetworkAddress, QosNetworkData};
use crate::models::user_sessions::{LookupResponse, UserDataFlags, UserSessionExtendedData};
use crate::models::Player;
use crate::models::util::{UtilError, SUSPEND_PING_TIME, suspend_ping_outcome};

verus! {

/// A notification to another session caused by a change to this one.
#[derive(Clone, Copy, PartialEq, Eq, Structural)]
pub enum SessionEffect {
    /// Send player `to` the user of this session and its extended data as
    /// they are now (the user was added to its view)
    NotifyUserAdded { to: u32 },
    /// Tell player `to` that user `player_id` now has the flags `flags`
    NotifyUserUpdated { to: u32, player_id: u32, flags: u8 },
    /// Tell player `to` that user `player_id` was removed from its view
    NotifyUserRemoved { to: u32, player_id: u32 },
    /// Send player `to` the extended data of user `user_id` as it is now
    PublishUpdate { to: u32, user_id: u32 },
    /// Remove player `player_id` from game `game_id`, as a player that left
    LeaveGame { game_id: u32, player_id: u32 },
}

/// Data of a session whose user is logged in.
pub struct SessionDataAuth {
    /// The logged in player
    pub player: Player,
    /// Networking details of the session
    pub net: NetData,
    /// The game the player is in, if any
    pub game: Option<u32>,
    /// IDs of the players subscribed to this session, in the order they
    /// subscribed
    pub subscribers: Vec<u32>,
}

/// Data of a session.
pub struct SessionData {
    /// Data present while a user is logged in
    pub auth: Option<SessionDataAuth>,
    /// IPv4 address of the client
    pub addr: u32,
    /// Association of the client (absent for outdated clients)
    pub association: Option<u128>,
    /// When the last keep-alive message arrived (milliseconds)
    pub last_keep_alive: u64,
    /// Time the session may go without keep-alive messages on top of the
    /// timeout (milliseconds)
    pub extended_grace: u64,
}

/// Milliseconds between keep-alive checks of a session.
pub const KEEP_ALIVE_DELAY_MS: u64 = 15_000;

/// Milliseconds without keep-alive messages after which a session is dead
/// (four missed keep-alive checks).
pub const KEEP_ALIVE_TIMEOUT_MS: u64 = 60_000;

/// The extended data update of user `user_id` for each of `subscribers`.
pub open spec fn publish_effects(subscribers: Seq<u32>, user_id: u32) -> Seq<SessionEffect> {
    Seq::new(subscribers.len(), |i: int| SessionEffect::PublishUpdate { to: subscribers[i], user_id })
}

/// The removal of user `user_id` from the view of each of `subscribers`.
pub open spec fn removal_effects(subscribers: Seq<u32>, user_id: u32) -> Seq<SessionEffect> {
    Seq::new(subscribers.len(), |i: int| SessionEffect::NotifyUserRemoved { to: subscribers[i], player_id: user_id })
}

/// Leaving the game `game` (if any) as player `player_id`.
pub open spec fn leave_effects(game: Option<u32>, player_id: u32) -> Seq<SessionEffect> {
    match game {
        Some(game_id) => seq![SessionEffect::LeaveGame { game_id, player_id }],
        None => Seq::empty(),
    }
}

/// What ending a login causes: the player leaves its game, then each
/// subscriber is told the user was removed.
pub open spec fn end_effects(auth: SessionDataAuth) -> Seq<SessionEffect> {
    leave_effects(auth.game, auth.player.id) + removal_effects(auth.subscribers@, auth.player.id)
}

/// What ending the login of `auth` (if any) causes.
pub open spec fn end_effects_of(auth: Option<SessionDataAuth>) -> Seq<SessionEffect> {
    match auth {
        Some(a) => end_effects(a),
        None => Seq::empty(),
    }
}

/// The entries of `subscribers` that are not `player_id`, in order.
pub open spec fn without(subscribers: Seq<u32>, player_id: u32) -> Seq<u32> {
    subscribers.filter(|s: u32| s != player_id)
}

/// The entries of `subscribers` that are `player_id`.
pub open spec fn only(subscribers: Seq<u32>, player_id: u32) -> Seq<u32> {
    subscribers.filter(|s: u32| s == player_id)
}

/// The notifications of user `user_id` to each of `subscribers`.
fn notify_each(subscribers: &Vec<u32>, user_id: u32, publish: bool) -> (r: Vec<SessionEffect>)
    ensures
        publish ==> r@ == publish_effects(subscribers@, user_id),
        !publish ==> r@ == removal_effects(subscribers@, user_id),
{
    let mut out: Vec<SessionEffect> = Vec::new();
    let mut i: usize = 0;
    while i < subscribers.len()
        invariant
            0 <= i <= subscribers@.len(),
            publish ==> out@ == publish_effects(subscribers@.take(i as int), user_id),
            !publish ==> out@ == removal_effects(subscribers@.take(i as int), user_id),
        decreases subscribers@.len() - i,
    {
        let to = subscribers[i];
        if publish {
            out.push(SessionEffect::PublishUpdate { to, user_id });
        } else {
            out.push(SessionEffect::NotifyUserRemoved { to, player_id: user_id });
        }
        i = i + 1;
        proof {
            assert(publish ==> out@ =~= publish_effects(subscribers@.take(i as int), user_id));
            assert(!publish ==> out@ =~= removal_effects(subscribers@.take(i as int), user_id));
        }
    }
    proof {
        assert(subscribers@.take(i as int) =~= subscribers@);
    }
    out
}

/// What ending the login `auth` causes.
fn end_login(auth: SessionDataAuth) -> (r: Vec<SessionEffect>)
    ensures
        r@ == end_effects(auth),
{
    let mut effects: Vec<SessionEffect> = Vec::new();
    if let Some(game_id) = auth.game {
        effects.push(SessionEffect::LeaveGame { game_id, player_id: auth.player.id });
    }
    let mut removed = notify_each(&auth.subscribers, auth.player.id, false);
    effects.append(&mut removed);
    proof {
        assert(effects@ =~= end_effects(auth));
    }
    effects
}

impl SessionData {
    /// Data of a new session from the client at `addr`, alive at `now`.
    pub fn new(addr: u32, association: Option<u128>, now: u64) -> (r: SessionData)
        ensures
            r.auth is None,
            r.addr == addr,
            r.association == association,
            r.last_keep_alive == now,
            r.extended_grace == 0,
    {
        SessionData { auth: None, addr, association, last_keep_alive: now, extended_grace: 0 }
    }

    /// Whether the session is dead at `now`: the time since its last
    /// keep-alive, less its grace period, is over the timeout.
    pub fn is_keep_alive_dead(&self, now: u64) -> (r: bool)
        ensures
            r == (now - self.last_keep_alive - self.extended_grace > KEEP_ALIVE_TIMEOUT_MS),
    {
        if now <= self.last_keep_alive {
            return false;
        }
        let elapsed = now - self.last_keep_alive;
        if elapsed <= self.extended_grace {
            return false;
        }
        elapsed - self.extended_grace > KEEP_ALIVE_TIMEOUT_MS
    }

    /// Marks the session alive at `now`, ending any grace period.
    pub fn set_alive(&mut self, now: u64)
        ensures
            final(self).last_keep_alive == now,
            final(self).extended_grace == 0,
            final(self).auth == old(self).auth,
            final(self).addr == old(self).addr,
            final(self).association == old(self).association,
    {
        self.extended_grace = 0;
        self.last_keep_alive = now;
    }

    /// Grants the session `grace` milliseconds without keep-alive messages.
    pub fn set_keep_alive_grace(&mut self, grace: u64)
        ensures
            final(self).extended_grace == grace,
            final(self).last_keep_alive == old(self).last_keep_alive,
            final(self).auth == old(self).auth,
            final(self).addr == old(self).addr,
            final(self).association == old(self).association,
    {
        self.extended_grace = grace;
    }

    /// Answers a request to suspend the ping timeout for `time_value`
    /// microseconds: accepted for exactly `SUSPEND_PING_TIME`, when the
    /// session is granted that much grace (in milliseconds); any other time
    /// is refused and leaves the session as it was.
    pub fn suspend_ping(&mut self, time_value: u32) -> (r: UtilError)
        ensures
            r == (if time_value < SUSPEND_PING_TIME {
                UtilError::SuspendPingTimeTooSmall
            } else if time_value > SUSPEND_PING_TIME {
                UtilError::SuspendPingTimeTooLarge
            } else {
                UtilError::PingSuspended
            }),
            r == UtilError::PingSuspended ==> {
                &&& final(self).extended_grace == time_value / 1000
                &&& final(self).last_keep_alive == old(self).last_keep_alive
                &&& final(self).auth == old(self).auth
                &&& final(self).addr == old(self).addr
                &&& final(self).association == old(self).association
            },
            r != UtilError::PingSuspended ==> *final(self) == *old(self),
    {
        let r = suspend_ping_outcome(time_value);
        if r == UtilError::PingSuspended {
            self.set_keep_alive_grace(time_value as u64 / 1000);
        }
        r
    }

    /// Logs `player` in, replacing any login: the replaced login ends
    /// (see `end_effects`) and the new one starts with default networking
    /// details, no game and no subscribers.
    pub fn set_auth(&mut self, player: Player) -> (r: Vec<SessionEffect>)
        ensures
            r@ == end_effects_of(old(self).auth),
            final(self).auth matches Some(a) && a.player == player && a.game is None
                && a.subscribers@.len() == 0 && a.net.addr == NetworkAddress::Unset
                && a.net.hardware_flags.bits == 0 && a.net.ping_site_latency@.len() == 0,
            final(self).addr == old(self).addr,
            final(self).association == old(self).association,
            final(self).last_keep_alive == old(self).last_keep_alive,
            final(self).extended_grace == old(self).extended_grace,
    {
        let fresh = SessionDataAuth { player, net: NetData::default_data(), game: None, subscribers: Vec::new() };
        let mut old_auth = Some(fresh);
        std::mem::swap(&mut old_auth, &mut self.auth);
        match old_auth {
            Some(auth) => end_login(auth),
            None => Vec::new(),
        }
    }

    /// Logs the user out (see `end_effects`).
    pub fn clear_auth(&mut self) -> (r: Vec<SessionEffect>)
        ensures
            r@ == end_effects_of(old(self).auth),
            final(self).auth is None,
            final(self).addr == old(self).addr,
            final(self).association == old(self).association,
            final(self).last_keep_alive == old(self).last_keep_alive,
            final(self).extended_grace == old(self).extended_grace,
    {
        let old_auth = self.auth.take();
        match old_auth {
            Some(auth) => end_login(auth),
            None => Vec::new(),
        }
    }

    /// The logged in player, if any.
    pub fn get_player(&self) -> (r: Option<&Player>)
        ensures
            match self.auth {
                Some(a) => r == Some(&a.player),
                None => r is None,
            },
    {
        match &self.auth {
            Some(auth) => Some(&auth.player),
            None => None,
        }
    }

    /// The game the logged in player is in, if any.
    pub fn get_game(&self) -> (r: Option<u32>)
        ensures
            r == match self.auth {
                Some(a) => a.game,
                None => None,
            },
    {
        match &self.auth {
            Some(auth) => auth.game,
            None => None,
        }
    }

    /// The logged in player with the session's extended data (networking
    /// details and game), if any.
    pub fn get_lookup_response(&self) -> (r: Option<LookupResponse>)
        ensures
            match self.auth {
                None => r is None,
                Some(a) => r matches Some(l) && l.player == a.player && l.extended_data.game == a.game
                    && l.extended_data.net.addr == a.net.addr && l.extended_data.net.qos == a.net.qos
                    && l.extended_data.net.hardware_flags == a.net.hardware_flags
                    && l.extended_data.net.ping_site_latency@ == a.net.ping_site_latency@,
            },
    {
        match &self.auth {
            Some(auth) => Some(LookupResponse {
                player: auth.player.duplicate(),
                extended_data: UserSessionExtendedData { net: auth.net.duplicate(), game: auth.game },
            }),
            None => None,
        }
    }

    /// Replaces the hardware flags of a logged in session, publishing its
    /// data to its subscribers; nothing changes without a login.
    pub fn set_hardware_flags(&mut self, flags: HardwareFlags) -> (r: Vec<SessionEffect>)
        ensures
            final(self).addr == old(self).addr,
            final(self).association == old(self).association,
            final(self).last_keep_alive == old(self).last_keep_alive,
            final(self).extended_grace == old(self).extended_grace,
            match old(self).auth {
                None => final(self).auth is None && r@.len() == 0,
                Some(a) => final(self).auth matches Some(b) && b.player == a.player && b.game == a.game
                    && b.subscribers@ == a.subscribers@ && b.net.hardware_flags == flags
                    && b.net.addr == a.net.addr && b.net.qos == a.net.qos
                    && b.net.ping_site_latency@ == a.net.ping_site_latency@
                    && r@ == publish_effects(a.subscribers@, a.player.id),
            },
    {
        match &mut self.auth {
            Some(auth) => {
                auth.net = auth.net.with_hardware_flags(flags);
                notify_each(&auth.subscribers, auth.player.id, true)
            },
            None => Vec::new(),
        }
    }

    /// Replaces the networking details of a logged in session (keeping its
    /// hardware flags), publishing its data to its subscribers; nothing
    /// changes without a login.
    pub fn set_network_info(&mut self, address: NetworkAddress, qos: QosNetworkData, ping_site_latency: Vec<u32>) -> (r: Vec<SessionEffect>)
        ensures
            final(self).addr == old(self).addr,
            final(self).association == old(self).association,
            final(self).last_keep_alive == old(self).last_keep_alive,
            final(self).extended_grace == old(self).extended_grace,
            match old(self).auth {
                None => final(self).auth is None && r@.len() == 0,
                Some(a) => final(self).auth matches Some(b) && b.player == a.player && b.game == a.game
                    && b.subscribers@ == a.subscribers@ && b.net.addr == address && b.net.qos == qos
                    && b.net.hardware_flags == a.net.hardware_flags
                    && b.net.ping_site_latency@ == ping_site_latency@
                    && r@ == publish_effects(a.subscribers@, a.player.id),
            },
    {
        match &mut self.auth {
            Some(auth) => {
                auth.net = auth.net.with_basic(address, qos, ping_site_latency);
                notify_each(&auth.subscribers, auth.player.id, true)
            },
            None => Vec::new(),
        }
    }

    /// Records `game_id` as the game of the logged in player: it leaves
    /// the game it was in (if any), then the session's data is published
    /// to its subscribers; nothing changes without a login.
    pub fn set_game(&mut self, game_id: u32) -> (r: Vec<SessionEffect>)
        ensures
            final(self).addr == old(self).addr,
            final(self).association == old(self).association,
            final(self).last_keep_alive == old(self).last_keep_alive,
            final(self).extended_grace == old(self).extended_grace,
            match old(self).auth {
                None => final(self).auth is None && r@.len() == 0,
                Some(a) => final(self).auth matches Some(b) && b.player == a.player && b.game == Some(game_id)
                    && b.subscribers@ == a.subscribers@ && b.net == a.net
                    && r@ == leave_effects(a.game, a.player.id) + publish_effects(a.subscribers@, a.player.id),
            },
    {
        self.replace_game(Some(game_id))
    }

    /// Clears the game of the logged in player: it leaves the game it was
    /// in (if any), then the session's data is published to its
    /// subscribers; nothing changes without a login.
    pub fn clear_game(&mut self) -> (r: Vec<SessionEffect>)
        ensures
            final(self).addr == old(self).addr,
            final(self).association == old(self).association,
            final(self).last_keep_alive == old(self).last_keep_alive,
            final(self).extended_grace == old(self).extended_grace,
            match old(self).auth {
                None => final(self).auth is None && r@.len() == 0,
                Some(a) => final(self).auth matches Some(b) && b.player == a.player && b.game is None
                    && b.subscribers@ == a.subscribers@ && b.net == a.net
                    && r@ == leave_effects(a.game, a.player.id) + publish_effects(a.subscribers@, a.player.id),
            },
    {
        self.replace_game(None)
    }

    fn replace_game(&mut self, game: Option<u32>) -> (r: Vec<SessionEffect>)
        ensures
            final(self).addr == old(self).addr,
            final(self).association == old(self).association,
            final(self).last_keep_alive == old(self).last_keep_alive,
            final(self).extended_grace == old(self).extended_grace,
            match old(self).auth {
                None => final(self).auth is None && r@.len() == 0,
                Some(a) => final(self).auth matches Some(b) && b.player == a.player && b.game == game
                    && b.subscribers@ == a.subscribers@ && b.net == a.net
                    && r@ == leave_effects(a.game, a.player.id) + publish_effects(a.subscribers@, a.player.id),
            },
    {
        match &mut self.auth {
            Some(auth) => {
                let mut effects: Vec<SessionEffect> = Vec::new();
                if let Some(old_game) = auth.game {
                    effects.push(SessionEffect::LeaveGame { game_id: old_game, player_id: auth.player.id });
                }
                auth.game = game;
                let mut published = notify_each(&auth.subscribers, auth.player.id, true);
                effects.append(&mut published);
                effects
            },
            None => Vec::new(),
        }
    }

    /// Subscribes player `player_id` to the logged in session: it is sent
    /// this user and its data, then told the user is subscribed and online;
    /// nothing changes without a login.
    pub fn add_subscriber(&mut self, player_id: u32) -> (r: Vec<SessionEffect>)
        ensures
            final(self).addr == old(self).addr,
            final(self).association == old(self).association,
            final(self).last_keep_alive == old(self).last_keep_alive,
            final(self).extended_grace == old(self).extended_grace,
            match old(self).auth {
                None => final(self).auth is None && r@.len() == 0,
                Some(a) => final(self).auth matches Some(b) && b.player == a.player && b.game == a.game
                    && b.net == a.net && b.subscribers@ == a.subscribers@.push(player_id)
                    && r@ == seq![
                        SessionEffect::NotifyUserAdded { to: player_id },
                        SessionEffect::NotifyUserUpdated {
                            to: player_id,
                            player_id: a.player.id,
                            flags: UserDataFlags::SUBSCRIBED | UserDataFlags::ONLINE,
                        },
                    ],
            },
    {
        match &mut self.auth {
            Some(auth) => {
                let target_id = auth.player.id;
                let mut effects: Vec<SessionEffect> = Vec::new();
                effects.push(SessionEffect::NotifyUserAdded { to: player_id });
                effects.push(SessionEffect::NotifyUserUpdated {
                    to: player_id,
                    player_id: target_id,
                    flags: UserDataFlags::SUBSCRIBED | UserDataFlags::ONLINE,
                });
                auth.subscribers.push(player_id);
                effects
            },
            None => Vec::new(),
        }
    }

    /// Removes every subscription of player `player_id` from the logged in
    /// session; it is told, once per removed subscription, that the user
    /// was removed. Nothing changes without a login.
    pub fn remove_subscriber(&mut self, player_id: u32) -> (r: Vec<SessionEffect>)
        ensures
            final(self).addr == old(self).addr,
            final(self).association == old(self).association,
            final(self).last_keep_alive == old(self).last_keep_alive,
            final(self).extended_grace == old(self).extended_grace,
            match old(self).auth {
                None => final(self).auth is None && r@.len() == 0,
                Some(a) => final(self).auth matches Some(b) && b.player == a.player && b.game == a.game
                    && b.net == a.net && b.subscribers@ == without(a.subscribers@, player_id)
                    && r@ == removal_effects(only(a.subscribers@, player_id), a.player.id),
            },
    {
        match &mut self.auth {
            Some(auth) => {
                let target_id = auth.player.id;
                let mut kept: Vec<u32> = Vec::new();
                let mut effects: Vec<SessionEffect> = Vec::new();
                let ghost subs = auth.subscribers@;
                let mut i: usize = 0;
                while i < auth.subscribers.len()
                    invariant
                        0 <= i <= subs.len(),
                        auth.subscribers@ == subs,
                        auth.player.id == target_id,
                        kept@ == without(subs.take(i as int), player_id),
                        effects@ == removal_effects(only(subs.take(i as int), player_id), target_id),
                    decreases subs.len() - i,
                {
                    let s = auth.subscribers[i];
                    proof {
                        assert(subs.take(i + 1).drop_last() =~= subs.take(i as int));
                        assert(subs.take(i + 1).last() == s);
                        reveal_with_fuel(Seq::filter, 1);
                    }
                    let ghost before = only(subs.take(i as int), player_id);
                    if s != player_id {
                        kept.push(s);
                    } else {
                        effects.push(SessionEffect::NotifyUserRemoved { to: s, player_id: target_id });
                        proof {
                            assert(only(subs.take(i + 1), player_id) =~= before.push(s));
                            assert(effects@ =~= removal_effects(only(subs.take(i + 1), player_id), target_id));
                        }
                    }
                    i = i + 1;
                }
                proof {
                    assert(subs.take(i as int) =~= subs);
                }
                auth.subscribers = kept;
                effects
            },
            None => Vec::new(),
        }
    }
}

/// A player that is not among `subscribers` is filtered out of nothing.
proof fn lemma_filters_absent(subscribers: Seq<u32>, player_id: u32)
    requires
        !subscribers.contains(player_id),
    ensures
        without(subscribers, player_id) == subscribers,
        only(subscribers, player_id).len() == 0,
    decreases subscribers.len(),
{
    reveal_with_fuel(Seq::filter, 1);
    if subscribers.len() > 0 {
        let rest = subscribers.drop_last();
        assert(!rest.contains(player_id)) by {
            if rest.contains(player_id) {
                let k = choose|k: int| 0 <= k < rest.len() && rest[k] == player_id;
                assert(subscribers[k] == player_id);
            }
        }
        lemma_filters_absent(rest, player_id);
        assert(subscribers.last() != player_id) by {
            assert(subscribers[subscribers.len() - 1] == subscribers.last());
        }
        assert(without(subscribers, player_id) =~= rest.push(subscribers.last()));
        assert(rest.push(subscribers.last()) =~= subscribers);
    }
}

/// Subscribing a player that was not subscribed and then removing its
/// subscriptions leaves the subscribers as they were, and tells the player
/// exactly once that the user was removed.
pub proof fn lemma_subscribe_then_remove(subscribers: Seq<u32>, player_id: u32, user_id: u32)
    requires
        !subscribers.contains(player_id),
    ensures
        without(subscribers.push(player_id), player_id) == subscribers,
        removal_effects(only(subscribers.push(player_id), player_id), user_id)
            == seq![SessionEffect::NotifyUserRemoved { to: player_id, player_id: user_id }],
{
    reveal_with_fuel(Seq::filter, 1);
    lemma_filters_absent(subscribers, player_id);
    let pushed = subscribers.push(player_id);
    assert(pushed.drop_last() =~= subscribers);
    assert(only(pushed, player_id) =~= seq![player_id]);
    assert(removal_effects(only(pushed, player_id), user_id)
        =~= seq![SessionEffect::NotifyUserRemoved { to: player_id, player_id: user_id }]);
}

} // verus!
