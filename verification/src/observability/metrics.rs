use crate::model::direction::Direction;
use crate::observability::labels::LevelBucket;
use crate::observability::labels::MessageType;
use crate::observability::labels::SearchOutcome;
use std::time::Duration;
use vstd::prelude::*;

verus! {

/// Records metrics of searches.
pub trait SearchMetrics: Send + Sync {
    /// Records a completed search by its outcome, hop count and duration.
    fn record_search(&self, outcome: SearchOutcome, hops: usize, elapsed: Duration);
}

/// Records metrics of lookup-table mutations.
pub trait LookupTableMetrics: Send + Sync {
    /// Records that a neighbor was installed.
    fn record_neighbor_install(&self, level: LevelBucket, direction: Direction);
}

/// Records metrics of the message flow.
pub trait NetworkMetrics: Send + Sync {
    /// Records that a message was sent.
    fn record_message_sent(&self, message_type: MessageType);

    /// Records that a message was received.
    fn record_message_received(&self, message_type: MessageType);
}

/// All that a node records. A backend implements the three parts, and this follows.
pub trait NodeMetrics: SearchMetrics + LookupTableMetrics + NetworkMetrics {

}

impl<T> NodeMetrics for T where T: SearchMetrics + LookupTableMetrics + NetworkMetrics {

}

} // verus!
