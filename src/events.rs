//! The events that the transport's callbacks produce, and the queue that
//! holds them until the application drains it.
use crate::client_ll::ConfirmationResult;
use crate::client_ll::ConnectionStatus;
use crate::client_ll::ConnectionStatusReason;
use crate::client_ll::DeviceTwinUpdateState;
use crate::message::IotHubMessage;
use vstd::prelude::*;

verus! {

/// One thing that a transport callback reported.
pub enum IotHubEvent {
    /// A sent message was confirmed (or given up); the message comes back.
    MessageConfirmation { result: ConfirmationResult, message: IotHubMessage },
    /// The hub sent a message to the device.
    InboundMessage(IotHubMessage),
    /// The connection's authentication status changed.
    ConnectionStatusChanged { status: ConnectionStatus, reason: ConnectionStatusReason },
    /// A device twin document, whole or in part.
    DeviceTwinUpdated { update_state: DeviceTwinUpdateState, payload: Vec<u8> },
    /// The hub acknowledged a reported-state update.
    ReportedStateAck(ConnectionStatusReason),
    /// The hub invoked a device method.
    DeviceMethodInvoked { method_name: String, payload: Vec<u8> },
}

/// An operation on a queue: a callback pushing an event, or a drain.
pub enum QueueOp<A> {
    Push(A),
    Drain,
}

/// The batches that the drains of `ops` return, and what is left queued,
/// starting from an empty queue.
pub open spec fn run_queue<A>(ops: Seq<QueueOp<A>>) -> (Seq<Seq<A>>, Seq<A>)
    decreases ops.len(),
{
    if ops.len() == 0 {
        (Seq::empty(), Seq::empty())
    } else {
        let (batches, queued) = run_queue(ops.drop_last());
        match ops.last() {
            QueueOp::Push(e) => (batches, queued.push(e)),
            QueueOp::Drain => (batches.push(queued), Seq::empty()),
        }
    }
}

/// The events pushed by `ops`, in the order of the pushes.
pub open spec fn pushed<A>(ops: Seq<QueueOp<A>>) -> Seq<A>
    decreases ops.len(),
{
    if ops.len() == 0 {
        Seq::empty()
    } else {
        match ops.last() {
            QueueOp::Push(e) => pushed(ops.drop_last()).push(e),
            QueueOp::Drain => pushed(ops.drop_last()),
        }
    }
}

/// The batches one after the other.
pub open spec fn concat<A>(batches: Seq<Seq<A>>) -> Seq<A>
    decreases batches.len(),
{
    if batches.len() == 0 {
        Seq::empty()
    } else {
        concat(batches.drop_last()) + batches.last()
    }
}

/// For any interleaving of pushes and drains, the drained batches one after
/// the other, followed by what is still queued, are exactly the pushed
/// events in the order they were pushed: none is lost, none comes twice, and
/// a batch holds only events pushed before its drain.
pub proof fn lemma_queue_integrity<A>(ops: Seq<QueueOp<A>>)
    ensures
        concat(run_queue(ops).0) + run_queue(ops).1 == pushed(ops),
    decreases ops.len(),
{
    if ops.len() > 0 {
        let prev = ops.drop_last();
        lemma_queue_integrity(prev);
        let (batches, queued) = run_queue(prev);
        match ops.last() {
            QueueOp::Push(e) => {
                assert(concat(batches) + queued.push(e) =~= (concat(batches) + queued).push(e));
            },
            QueueOp::Drain => {
                assert(batches.push(queued).drop_last() =~= batches);
                assert(concat(batches.push(queued)) + Seq::<A>::empty() =~= concat(batches)
                    + queued);
            },
        }
    } else {
        assert(concat(Seq::<Seq<A>>::empty()) + Seq::<A>::empty() =~= Seq::<A>::empty());
    }
}

/// Events in the order their callbacks fired.
pub struct EventQueue {
    events: Vec<IotHubEvent>,
}

impl View for EventQueue {
    type V = Seq<IotHubEvent>;

    closed spec fn view(&self) -> Seq<IotHubEvent> {
        self.events@
    }
}

impl EventQueue {
    /// An empty queue.
    pub fn new() -> (r: Self)
        ensures
            r@ == Seq::<IotHubEvent>::empty(),
    {
        EventQueue { events: Vec::new() }
    }

    /// Appends an event at the end.
    pub fn push(&mut self, event: IotHubEvent)
        ensures
            final(self)@ == old(self)@.push(event),
    {
        self.events.push(event);
    }

    /// Takes every queued event at once, in arrival order, and leaves the
    /// queue empty.
    pub fn drain(&mut self) -> (r: Vec<IotHubEvent>)
        ensures
            r@ == old(self)@,
            final(self)@ == Seq::<IotHubEvent>::empty(),
    {
        let mut batch: Vec<IotHubEvent> = Vec::new();
        std::mem::swap(&mut batch, &mut self.events);
        batch
    }

    /// How many events are queued.
    pub fn len(&self) -> (r: usize)
        ensures
            r == self@.len(),
    {
        self.events.len()
    }
}

} // verus!
