use std::collections::VecDeque;
use vstd::prelude::*;
use crate::twitch::channel::TwitchMessage;

pub mod argv;
pub mod settings;

verus! {

/// All the internal state to cache in memory and store on disk.
pub struct State {
    /// Whether or not the bot is responding to messages.
    pub running: bool,
    /// A running buffer of messages to be sent.
    pub messages: VecDeque<TwitchMessage>,
}

impl Default for State {
    /// A running bot with no buffered message.
    fn default() -> (s: Self)
        ensures
            s.running,
            s.messages@.len() == 0,
    {
        State { running: true, messages: VecDeque::new() }
    }
}

impl State {
    /// Hands out the buffered messages, oldest first, and empties the buffer.
    pub fn take_messages(&mut self) -> (taken: VecDeque<TwitchMessage>)
        ensures
            taken@ == old(self).messages@,
            final(self).messages@.len() == 0,
            final(self).running == old(self).running,
    {
        let mut taken: VecDeque<TwitchMessage> = VecDeque::new();
        std::mem::swap(&mut taken, &mut self.messages);
        taken
    }

    /// Buffers a message behind those already buffered.
    pub fn add_message(&mut self, message: TwitchMessage)
        ensures
            final(self).messages@ == old(self).messages@.push(message),
            final(self).running == old(self).running,
    {
        self.messages.push_back(message)
    }
}

/// The buffer is first in, first out: starting from the buffered messages
/// `before`, adding the messages of `added` one by one (each step being what
/// `add_message` leaves, `steps[k + 1] == steps[k].push(added[k])`) and then
/// taking the buffer hands out `before` followed by `added`, in that order.
pub proof fn law_messages_taken_in_order(
    before: Seq<TwitchMessage>,
    added: Seq<TwitchMessage>,
    steps: Seq<Seq<TwitchMessage>>,
)
    requires
        steps.len() == added.len() + 1,
        steps[0] == before,
        forall|k: int| 0 <= k < added.len() ==> #[trigger] steps[k + 1] == steps[k].push(added[k]),
    ensures
        steps.last() == before + added,
    decreases added.len(),
{
    if added.len() == 0 {
        assert(before + added =~= before);
    } else {
        let n = added.len() - 1;
        law_messages_taken_in_order(before, added.take(n), steps.take(n + 1));
        assert(steps[n + 1] == steps[n].push(added[n]));
        assert(before + added =~= (before + added.take(n)).push(added[n]));
    }
}

} // verus!
