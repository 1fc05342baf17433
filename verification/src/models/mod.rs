//! Message and data models exchanged with clients.
use vstd::prelude::*;

pub mod auth;
pub mod errors;
pub mod game_manager;
pub mod messaging;
pub mod net;
pub mod other;
pub mod stats;
pub mod user_sessions;
pub mod util;

verus! {

/// A player account.
pub struct Player {
    /// Unique ID of the player
    pub id: u32,
    /// Email address of the account
    pub email: String,
    /// Name shown to other players
    pub display_name: String,
}

impl Player {
    /// A copy of this player.
    pub fn duplicate(&self) -> (r: Player)
        ensures
            r == *self,
    {
        Player { id: self.id, email: self.email.clone(), display_name: self.display_name.clone() }
    }
}

} // verus!
