//! Messaging messages: message counts and message notifications.
use vstd::prelude::*;
use crate::encode::{tag_usize, tdf_tag_usize};
use crate::text::{push_char, replace_all, replace_text};
use crate::models::Player;

verus! {

/// Response to a fetch messages request: how many messages to expect.
pub struct FetchMessageResponse {
    /// The total number of messages to expect
    pub count: usize,
}

impl FetchMessageResponse {
    /// Writes this response to `w`.
    pub fn serialize(&self, w: &mut Vec<u8>)
        ensures
            final(w)@ == old(w)@ + tdf_tag_usize(['M', 'C', 'N', 'T'], self.count),
    {
        tag_usize(w, ['M', 'C', 'N', 'T'], self.count);
    }
}

/// A message notification.
pub struct MessageNotify {
    /// The ID of the player the message is for
    pub player_id: u32,
    /// The message contents
    pub message: String,
}

/// The menu message sent to a player: the configured `template` with
/// `{v}` replaced by the server `version` and then `{n}` by the player's
/// `name`, ending in a line feed.
pub open spec fn menu_message_text(template: Seq<char>, version: Seq<char>, name: Seq<char>) -> Seq<char> {
    replace_text(replace_text(template, "{v}"@, version), "{n}"@, name).push('\n')
}

/// The menu message sent to a player.
pub fn menu_message(template: &str, version: &str, name: &str) -> (r: String)
    ensures
        r@ == menu_message_text(template@, version@, name@),
{
    proof {
        reveal_strlit("{v}");
        reveal_strlit("{n}");
    }
    let with_version = replace_all(template, "{v}", version);
    let mut message = replace_all(with_version.as_str(), "{n}", name);
    push_char(&mut message, '\n');
    message
}

/// Answers a request of `player` to fetch their messages: the response
/// announces one message, and that one message, the menu message made
/// from `template` and the server `version`, is sent to the player.
pub fn fetch_messages(template: &str, version: &str, player: &Player) -> (r: (FetchMessageResponse, MessageNotify))
    ensures
        r.0.count == 1,
        r.1.player_id == player.id,
        r.1.message@ == menu_message_text(template@, version@, player.display_name@),
{
    let message = menu_message(template, version, player.display_name.as_str());
    (FetchMessageResponse { count: 1 }, MessageNotify { player_id: player.id, message })
}

} // verus!
