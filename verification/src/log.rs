use vstd::prelude::*;

verus! {

/// How many messages the log of a battle keeps.
pub const MAX_MESSAGES: usize = 5;

/// A message for the log of the battle.
#[derive(Debug)]
pub struct LogMessageEvent(pub String);

/// The log of a battle, oldest message first.
#[derive(Debug)]
pub struct BattleLog {
    pub messages: Vec<LogMessageEvent>,
}

/// The newest messages of a log, as many as it keeps.
pub open spec fn newest(messages: Seq<LogMessageEvent>) -> Seq<LogMessageEvent> {
    if messages.len() > MAX_MESSAGES {
        messages.subrange(messages.len() - MAX_MESSAGES, messages.len() as int)
    } else {
        messages
    }
}

impl BattleLog {
    /// An empty log, as at the start of a battle.
    pub fn new() -> (log: Self)
        ensures
            log.messages@ == Seq::<LogMessageEvent>::empty(),
    {
        BattleLog { messages: Vec::new() }
    }

    /// Writes the messages into the log, in their order.
    pub fn handle_log_message_events(&mut self, events: Vec<LogMessageEvent>)
        ensures
            final(self).messages@ == old(self).messages@ + events@,
    {
        let mut events = events;
        self.messages.append(&mut events);
    }

    /// Drops all but the newest messages.
    pub fn cleanup_logs(&mut self)
        ensures
            final(self).messages@ == newest(old(self).messages@),
            final(self).messages@.len() <= MAX_MESSAGES,
    {
        let ghost all = self.messages@;
        let ghost mut dropped: int = 0;
        while self.messages.len() > MAX_MESSAGES
            invariant
                0 <= dropped <= all.len(),
                dropped + self.messages@.len() == all.len(),
                dropped > 0 ==> self.messages@.len() >= MAX_MESSAGES,
                self.messages@ == all.subrange(dropped, all.len() as int),
                all == old(self).messages@,
            decreases self.messages.len(),
        {
            let _ = self.messages.remove(0);
            proof {
                dropped = dropped + 1;
            }
            assert(self.messages@ =~= all.subrange(dropped, all.len() as int));
        }
        assert(all.subrange(0, all.len() as int) =~= all);
    }
}

} // verus!
