use vstd::prelude::*;

use crate::event::{ApiEvent, EventType};

verus! {

/// A message for the durable event log.
#[derive(Clone, Debug)]
pub struct OutboundRecord {
    pub topic: EventType,
    pub key: String,
    pub event: ApiEvent,
}

/// What the log client reported for one dispatched record.
#[derive(Clone, Copy, Debug, PartialEq, Eq, Structural)]
pub enum DeliveryOutcome {
    Delivered,
    Failed,
}

/// The record that publishing `event` queues: the API log partition, keyed
/// by the transaction's correlation id.
pub open spec fn record_for(event: ApiEvent) -> OutboundRecord {
    OutboundRecord { topic: EventType::ApiLogs, key: event@.request_id, event }
}

/// The record queued for a transaction's event carries that event whole,
/// is keyed by the transaction's correlation id, and goes to the API log
/// partition; its latency is never negative.
pub proof fn lemma_record_keyed_by_request(event: ApiEvent)
    ensures
        record_for(event).key == event@.request_id,
        record_for(event).event == event,
        record_for(event).topic == EventType::ApiLogs,
        record_for(event).event@.latency >= 0,
{
}

/// One more, without passing the largest `u64`.
pub open spec fn bumped(n: u64) -> u64 {
    if n < u64::MAX {
        (n + 1) as u64
    } else {
        n
    }
}

fn bump(n: u64) -> (r: u64)
    ensures
        r == bumped(n),
{
    if n < u64::MAX {
        n + 1
    } else {
        n
    }
}

/// A bounded hand-off between request processing and the task that owns
/// the log client. Publishing never fails and never waits: a full queue
/// drops the event and counts it, and delivery failures are only counted.
pub struct EventPublisher {
    queue: Vec<OutboundRecord>,
    capacity: usize,
    dropped: u64,
    failed: u64,
    delivered: u64,
}

impl EventPublisher {
    pub closed spec fn pending(&self) -> Seq<OutboundRecord> {
        self.queue@
    }

    pub closed spec fn spec_capacity(&self) -> nat {
        self.capacity as nat
    }

    pub closed spec fn spec_dropped(&self) -> u64 {
        self.dropped
    }

    pub closed spec fn spec_failed(&self) -> u64 {
        self.failed
    }

    pub closed spec fn spec_delivered(&self) -> u64 {
        self.delivered
    }

    pub open spec fn wf(&self) -> bool {
        self.pending().len() <= self.spec_capacity()
    }

    /// An empty publisher that holds at most `capacity` undelivered records.
    pub fn new(capacity: usize) -> (r: EventPublisher)
        ensures
            r.wf(),
            r.pending() == Seq::<OutboundRecord>::empty(),
            r.spec_capacity() == capacity,
            r.spec_dropped() == 0,
            r.spec_failed() == 0,
            r.spec_delivered() == 0,
    {
        EventPublisher { queue: Vec::new(), capacity, dropped: 0, failed: 0, delivered: 0 }
    }

    /// Hands `event` off for delivery without waiting and without failing.
    /// It is queued under its correlation id when there is room, and
    /// dropped and counted otherwise.
    pub fn publish(&mut self, event: ApiEvent)
        requires
            old(self).wf(),
        ensures
            final(self).wf(),
            final(self).spec_capacity() == old(self).spec_capacity(),
            final(self).spec_failed() == old(self).spec_failed(),
            final(self).spec_delivered() == old(self).spec_delivered(),
            old(self).pending().len() < old(self).spec_capacity() ==> final(self).pending()
                == old(self).pending().push(record_for(event)) && final(self).spec_dropped()
                == old(self).spec_dropped(),
            old(self).pending().len() >= old(self).spec_capacity() ==> final(self).pending()
                == old(self).pending() && final(self).spec_dropped() == bumped(
                old(self).spec_dropped(),
            ),
    {
        if self.queue.len() < self.capacity {
            let key = event.key();
            self.queue.push(OutboundRecord { topic: event.event_type(), key, event });
        } else {
            self.dropped = bump(self.dropped);
        }
    }

    /// The oldest queued record, taken out for delivery.
    pub fn next_dispatch(&mut self) -> (r: Option<OutboundRecord>)
        requires
            old(self).wf(),
        ensures
            final(self).wf(),
            final(self).spec_capacity() == old(self).spec_capacity(),
            final(self).spec_dropped() == old(self).spec_dropped(),
            final(self).spec_failed() == old(self).spec_failed(),
            final(self).spec_delivered() == old(self).spec_delivered(),
            old(self).pending().len() == 0 ==> r is None
                && final(self).pending() == old(self).pending(),
            old(self).pending().len() > 0 ==> r == Some(old(self).pending()[0])
                && final(self).pending() == old(self).pending().subrange(
                1,
                old(self).pending().len() as int,
            ),
    {
        if self.queue.len() == 0 {
            return None;
        }
        let first = self.queue.remove(0);
        proof {
            assert(old(self).queue@.remove(0) =~= old(self).queue@.subrange(
                1,
                old(self).queue@.len() as int,
            ));
        }
        Some(first)
    }

    /// Records how a dispatched record fared. A failure is counted and the
    /// record dropped: nothing is retried and nothing reaches the caller.
    pub fn on_outcome(&mut self, outcome: DeliveryOutcome)
        requires
            old(self).wf(),
        ensures
            final(self).wf(),
            final(self).pending() == old(self).pending(),
            final(self).spec_capacity() == old(self).spec_capacity(),
            final(self).spec_dropped() == old(self).spec_dropped(),
            outcome == DeliveryOutcome::Delivered ==> final(self).spec_delivered() == bumped(
                old(self).spec_delivered(),
            ) && final(self).spec_failed() == old(self).spec_failed(),
            outcome == DeliveryOutcome::Failed ==> final(self).spec_failed() == bumped(
                old(self).spec_failed(),
            ) && final(self).spec_delivered() == old(self).spec_delivered(),
    {
        match outcome {
            DeliveryOutcome::Delivered => {
                self.delivered = bump(self.delivered);
            },
            DeliveryOutcome::Failed => {
                self.failed = bump(self.failed);
            },
        }
    }

    /// Number of records waiting for delivery.
    pub fn pending_len(&self) -> (r: usize)
        ensures
            r == self.pending().len(),
    {
        self.queue.len()
    }

    /// Events dropped because the queue was full.
    pub fn dropped(&self) -> (r: u64)
        ensures
            r == self.spec_dropped(),
    {
        self.dropped
    }

    /// Records whose delivery failed.
    pub fn failed(&self) -> (r: u64)
        ensures
            r == self.spec_failed(),
    {
        self.failed
    }

    /// Records delivered.
    pub fn delivered(&self) -> (r: u64)
        ensures
            r == self.spec_delivered(),
    {
        self.delivered
    }
}

} // verus!
