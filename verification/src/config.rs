//! Immutable-once-built subscription configuration.

use vstd::prelude::*;

verus! {

/// A span of time, counted in whole seconds.
#[derive(Debug, Clone, Copy, PartialEq, Eq, Structural)]
pub struct Duration {
    /// Length of the span in seconds.
    pub seconds: i64,
}

/// The mapping that an ordered list of label entries denotes: a later entry
/// for a name shadows an earlier one.
pub open spec fn labels_map(entries: Seq<(String, String)>) -> Map<Seq<char>, Seq<char>>
    decreases entries.len(),
{
    if entries.len() == 0 {
        Map::empty()
    } else {
        labels_map(entries.drop_last()).insert(entries.last().0@, entries.last().1@)
    }
}

/// Configuration of a subscription. Built by chained calls, each returning an
/// updated copy by value, so no partially-built state is observable.
///
/// Labels are stored as the list of entries in the order they were attached;
/// the mapping they denote is [`labels_map`], under which a later entry for a
/// name shadows an earlier one, as repeated insertion into a map would.
#[derive(Debug, Clone, PartialEq)]
pub struct SubscriptionConfig {
    /// Window after delivery within which a message must be acknowledged.
    pub ack_deadline_duration: Duration,
    /// How long the broker retains messages; unset means the broker default.
    pub message_retention_duration: Option<Duration>,
    /// Label entries attached so far, oldest first.
    pub labels: Vec<(String, String)>,
}

impl SubscriptionConfig {
    /// Set the acknowledgement deadline.
    pub fn ack_deadline(self, duration: Duration) -> (r: SubscriptionConfig)
        ensures
            r.ack_deadline_duration == duration,
            r.message_retention_duration == self.message_retention_duration,
            r.labels == self.labels,
    {
        let SubscriptionConfig { ack_deadline_duration: _, message_retention_duration, labels } =
            self;
        SubscriptionConfig { ack_deadline_duration: duration, message_retention_duration, labels }
    }

    /// Enable message retention and set its duration.
    pub fn retain_messages(self, duration: Duration) -> (r: SubscriptionConfig)
        ensures
            r.ack_deadline_duration == self.ack_deadline_duration,
            r.message_retention_duration == Some(duration),
            r.labels == self.labels,
    {
        let SubscriptionConfig { ack_deadline_duration, message_retention_duration: _, labels } =
            self;
        SubscriptionConfig {
            ack_deadline_duration,
            message_retention_duration: Some(duration),
            labels,
        }
    }

    /// Attach a label, replacing any earlier value under the same name in the
    /// denoted mapping.
    pub fn label(self, name: String, value: String) -> (r: SubscriptionConfig)
        ensures
            r.labels@ == self.labels@.push((name, value)),
            labels_map(r.labels@) == labels_map(self.labels@).insert(name@, value@),
            r.ack_deadline_duration == self.ack_deadline_duration,
            r.message_retention_duration == self.message_retention_duration,
    {
        let SubscriptionConfig { ack_deadline_duration, message_retention_duration, mut labels } =
            self;
        labels.push((name, value));
        proof {
            assert(labels@.drop_last() =~= self.labels@);
        }
        SubscriptionConfig { ack_deadline_duration, message_retention_duration, labels }
    }
}

impl Default for SubscriptionConfig {
    /// Defaults: a ten-second acknowledgement deadline, broker-default
    /// retention, and no labels.
    fn default() -> (r: SubscriptionConfig)
        ensures
            r.ack_deadline_duration.seconds == 10,
            r.message_retention_duration is None,
            r.labels@.len() == 0,
    {
        SubscriptionConfig {
            ack_deadline_duration: Duration { seconds: 10 },
            message_retention_duration: None,
            labels: Vec::new(),
        }
    }
}

} // verus!
