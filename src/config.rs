use vstd::prelude::*;

use crate::codec::Codec;

verus! {

/// Which end of the sorted set a pop takes from.
#[derive(Clone, Copy, Debug, PartialEq, Eq, Structural)]
pub enum PopRule {
    /// The item with the lowest score leaves first.
    PopMin,
    /// The item with the highest score leaves first.
    PopMax,
}

impl Default for PopRule {
    fn default() -> (r: Self)
        ensures
            r == PopRule::PopMin,
    {
        PopRule::PopMin
    }
}

/// The store command that removes the extremum named by `rule`, blocking
/// until an item is there or the timeout runs out.
pub open spec fn command_name(rule: PopRule) -> Seq<char> {
    match rule {
        PopRule::PopMin => "BZPOPMIN"@,
        PopRule::PopMax => "BZPOPMAX"@,
    }
}

/// The names in a list of queue names, as character sequences.
pub open spec fn names_of(names: Seq<String>) -> Seq<Seq<char>> {
    names.map_values(|s: String| s@)
}

impl PopRule {
    /// The blocking pop command for this rule.
    pub fn into_command(&self) -> (r: String)
        ensures
            r@ == command_name(*self),
    {
        match self {
            PopRule::PopMin => "BZPOPMIN".to_owned(),
            PopRule::PopMax => "BZPOPMAX".to_owned(),
        }
    }
}

/// Where a client connects, which queues it serves, and how.
///
/// The first queue name is where pushes go and whose length `length`
/// reports by default; pops take from all of them at once.
#[derive(Clone, Debug)]
pub struct QueueConfig {
    pub redis_url: String,
    pub queue_names: Vec<String>,
    pub pop_rule: PopRule,
    pub codec: Codec,
}

impl QueueConfig {
    /// Puts `queue_name` in front of the queue names, making it the target
    /// of pushes.
    pub fn with_queue(&mut self, queue_name: &str)
        ensures
            names_of(final(self).queue_names@) == seq![queue_name@] + names_of(
                old(self).queue_names@,
            ),
            final(self).redis_url == old(self).redis_url,
            final(self).pop_rule == old(self).pop_rule,
            final(self).codec == old(self).codec,
    {
        self.queue_names.insert(0, queue_name.to_owned());
        assert(names_of(self.queue_names@) =~= seq![queue_name@] + names_of(
            old(self).queue_names@,
        ));
    }
}

impl Default for QueueConfig {
    fn default() -> (r: Self)
        ensures
            r.redis_url@ == "redis://127.0.0.1:6379/0"@,
            r.queue_names@.len() == 0,
            r.pop_rule == PopRule::PopMin,
            r.codec == Codec::Json,
    {
        QueueConfig {
            redis_url: "redis://127.0.0.1:6379/0".to_owned(),
            queue_names: Vec::new(),
            pop_rule: PopRule::default(),
            codec: Codec::default(),
        }
    }
}

} // verus!
