use vstd::prelude::*;
use crate::twitch::channel::{IrcCommand, IrcMessage};

verus! {

/// The capability the bot asks Twitch for, so that messages carry their tags.
pub open spec fn tags_capability() -> Seq<char> {
    ":twitch.tv/tags"@
}

/// `m` asks the server for the tags capability.
pub open spec fn is_capability_request(m: IrcMessage) -> bool {
    &&& m.tags is None
    &&& m.prefix is None
    &&& m.command matches IrcCommand::CapRequest(caps) && caps@ == tags_capability()
}

/// The message that asks Twitch to tag chat messages (which marks moderators).
pub fn enable_capabilities() -> (m: IrcMessage)
    ensures
        is_capability_request(m),
{
    IrcMessage {
        tags: None,
        prefix: None,
        command: IrcCommand::CapRequest(String::from_str(":twitch.tv/tags")),
    }
}

} // verus!
