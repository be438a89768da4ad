//! Integration events between the services, and the outbox relay that
//! publishes them: the auth service writes events to an outbox table in the
//! same transaction as the user, and the relay forwards them to NATS.

use vstd::prelude::*;

verus! {

/// Subject of the event published when a user registers.
pub const SUBJECT_REGISTERED: &'static str = "velora.users.registered";

/// The JetStream stream that holds the users events.
pub const USERS_STREAM: &'static str = "VELORA_USERS";

/// The subjects that the users stream captures.
pub const USERS_STREAM_SUBJECTS: &'static str = "velora.users.>";

/// The durable consumer of the users service.
pub const USERS_CONSUMER: &'static str = "users-service";

/// Published when a user registers. The time is in nanoseconds since the
/// Unix epoch.
pub struct UserRegistered {
    pub user_id: u128,
    pub email: String,
    pub occured_at: i128,
}

/// A row of the outbox that waits to be published. The payload is the JSON
/// text of the event.
pub struct PendingEvent {
    pub id: u128,
    pub subject: String,
    pub payload: Vec<u8>,
}

/// What the relay does next for the batch it holds.
pub enum RelayAction {
    /// Nothing (left) to do: the batch is empty.
    Finish,
    /// Publish this event and wait for the stream's acknowledgement.
    Publish { subject: String, payload: Vec<u8> },
    /// Every event was acknowledged: mark these outbox rows as published,
    /// then commit.
    MarkPublished(Vec<u128>),
}

pub open spec fn event_ids(events: Seq<PendingEvent>) -> Seq<u128> {
    events.map_values(|e: PendingEvent| e.id)
}

/// One batch of the outbox relay. Events are published in the order in
/// which they were read; a row is marked as published only once the stream
/// acknowledged it. A failed publish abandons the batch (its transaction is
/// rolled back), so those rows are read again by a later batch.
pub struct OutboxBatch {
    pending: Vec<PendingEvent>,
    acknowledged: usize,
}

impl OutboxBatch {
    pub closed spec fn spec_pending(&self) -> Seq<PendingEvent> {
        self.pending@
    }

    /// How many events, from the first one, were acknowledged.
    pub closed spec fn spec_acknowledged(&self) -> nat {
        self.acknowledged as nat
    }

    #[verifier::type_invariant]
    spec fn acknowledged_in_range(&self) -> bool {
        self.acknowledged <= self.pending@.len()
    }

    pub fn new(pending: Vec<PendingEvent>) -> (r: OutboxBatch)
        ensures
            r.spec_pending() == pending@,
            r.spec_acknowledged() == 0,
    {
        OutboxBatch { pending, acknowledged: 0 }
    }

    /// The next step: publish the first event that is not acknowledged yet,
    /// or, once all are, mark them all; an empty batch finishes at once.
    pub fn next_action(&self) -> (r: RelayAction)
        ensures
            self.spec_pending().len() == 0 ==> r is Finish,
            self.spec_pending().len() > 0 && self.spec_acknowledged() < self.spec_pending().len()
                ==> (r matches RelayAction::Publish { subject, payload } && subject
                == self.spec_pending()[self.spec_acknowledged() as int].subject && payload@
                == self.spec_pending()[self.spec_acknowledged() as int].payload@),
            self.spec_pending().len() > 0 && self.spec_acknowledged() == self.spec_pending().len()
                ==> (r matches RelayAction::MarkPublished(ids) && ids@ == event_ids(
                self.spec_pending(),
            )),
    {
        proof {
            use_type_invariant(self);
        }
        let n = self.pending.len();
        if n == 0 {
            return RelayAction::Finish;
        }
        if self.acknowledged < n {
            let e = &self.pending[self.acknowledged];
            return RelayAction::Publish { subject: e.subject.clone(), payload: e.payload.clone() };
        }
        let mut ids: Vec<u128> = Vec::new();
        let mut i: usize = 0;
        while i < n
            invariant
                i <= n == self.pending@.len(),
                ids@ == event_ids(self.pending@.take(i as int)),
            decreases n - i,
        {
            ids.push(self.pending[i].id);
            i = i + 1;
            assert(ids@ =~= event_ids(self.pending@.take(i as int)));
        }
        assert(self.pending@.take(n as int) =~= self.pending@);
        RelayAction::MarkPublished(ids)
    }

    /// Records the stream's acknowledgement of the event being published.
    pub fn on_acknowledged(&mut self)
        requires
            old(self).spec_acknowledged() < old(self).spec_pending().len(),
        ensures
            final(self).spec_pending() == old(self).spec_pending(),
            final(self).spec_acknowledged() == old(self).spec_acknowledged() + 1,
    {
        assert(self.acknowledged < self.pending.len());
        self.acknowledged = self.acknowledged + 1;
    }
}

} // verus!
