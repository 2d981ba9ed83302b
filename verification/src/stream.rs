//! The publish side of the hand-off: admitted batches and the single worker
//! that forwards them to the broker, one at a time, until the hand-off
//! channel is closed.

use vstd::prelude::*;
use crate::api::{clone_events, event_names, Event};

pub mod consumer;
pub mod producer;

verus! {

/// Seconds the worker waits before each publish attempt.
pub const PUBLISH_DELAY_SECS: u64 = 3;

/// An admitted batch: the events of one request under its correlation token.
#[derive(Debug, PartialEq, Eq)]
pub struct Events {
    pub token: String,
    pub events: Vec<Event>,
}

/// The mathematical content of an admitted batch.
pub ghost struct AdmittedView {
    pub token: Seq<char>,
    pub events: Seq<Seq<char>>,
}

impl View for Events {
    type V = AdmittedView;

    open spec fn view(&self) -> AdmittedView {
        AdmittedView { token: self.token@, events: event_names(self.events@) }
    }
}

impl Clone for Events {
    fn clone(&self) -> (copy: Self)
        ensures
            copy@ == self@,
    {
        Events { token: self.token.clone(), events: clone_events(&self.events) }
    }
}

impl Events {
    /// The key under which the batch is submitted to the broker: its token.
    pub fn record_key(&self) -> (key: &str)
        ensures
            key@ == self@.token,
    {
        self.token.as_str()
    }
}

/// The receiving half of a `crossbeam_channel` channel, opaque to the
/// verifier.
#[verifier::external_type_specification]
#[verifier::external_body]
#[verifier::reject_recursive_types(T)]
pub struct ExReceiver<T>(crossbeam_channel::Receiver<T>);

/// `crossbeam_channel::Receiver::recv`. Waits for a batch; `None` once the
/// channel is empty and every sender is gone. Nothing is claimed of the
/// batch: it is whatever some sender put on the channel.
#[verifier::external_body]
fn channel_recv(receiver: &crossbeam_channel::Receiver<Events>) -> (received: Option<Events>) {
    receiver.recv().ok()
}

/// Where the publish worker stands.
#[derive(Clone, Copy, Debug, PartialEq, Eq, Structural)]
pub enum WorkerState {
    /// Waiting for the next batch from the hand-off channel.
    Idle,
    /// A batch was taken from the channel and is being sent to the broker.
    Publishing,
    /// The channel was closed and drained; the worker has ended.
    Stopped,
}

/// The state after the channel answered a receive with `received`
/// (`None`: closed and empty), and the batch to publish, if any.
pub open spec fn after_receive(state: WorkerState, received: Option<Events>) -> (
    WorkerState,
    Option<Events>,
) {
    match state {
        WorkerState::Idle => match received {
            Some(batch) => (WorkerState::Publishing, Some(batch)),
            None => (WorkerState::Stopped, None),
        },
        _ => (state, None),
    }
}

/// The state after a publish attempt ended; a failed attempt is not fatal.
pub open spec fn after_publish(state: WorkerState, delivered: bool) -> WorkerState {
    match state {
        WorkerState::Publishing => WorkerState::Idle,
        _ => state,
    }
}

/// What a worker in `state` hands to the broker while it takes the batches of
/// `queue` in order and then finds the channel closed, and where it ends.
/// `delivered(i)` tells whether the broker accepted the i-th batch.
pub open spec fn drain(
    state: WorkerState,
    queue: Seq<Events>,
    delivered: spec_fn(int) -> bool,
) -> (WorkerState, Seq<Events>)
    decreases queue.len(),
{
    if queue.len() == 0 {
        (after_receive(state, None).0, Seq::empty())
    } else {
        let (taken, batch) = after_receive(state, Some(queue[0]));
        let next = after_publish(taken, delivered(0));
        let (end, rest) = drain(next, queue.drop_first(), |i: int| delivered(i + 1));
        match batch {
            Some(b) => (end, seq![b] + rest),
            None => (end, rest),
        }
    }
}

impl WorkerState {
    /// A worker that has not taken anything yet.
    pub fn start() -> (state: WorkerState)
        ensures
            state == WorkerState::Idle,
    {
        WorkerState::Idle
    }

    /// Whether the worker should ask the channel for the next batch.
    pub fn wants_batch(&self) -> (wants: bool)
        ensures
            wants == (*self == WorkerState::Idle),
    {
        match self {
            WorkerState::Idle => true,
            _ => false,
        }
    }

    /// Whether the worker has ended.
    pub fn is_stopped(&self) -> (stopped: bool)
        ensures
            stopped == (*self == WorkerState::Stopped),
    {
        match self {
            WorkerState::Stopped => true,
            _ => false,
        }
    }

    /// Takes what the channel answered: a batch to publish, or `None` once all
    /// senders are gone and nothing is queued. Returns the next state and the
    /// batch to hand to the broker now.
    pub fn on_receive(self, received: Option<Events>) -> (next: (WorkerState, Option<Events>))
        ensures
            next == after_receive(self, received),
    {
        match self {
            WorkerState::Idle => match received {
                Some(batch) => (WorkerState::Publishing, Some(batch)),
                None => (WorkerState::Stopped, None),
            },
            _ => (self, None),
        }
    }

    /// Lets a waiting worker take the next batch from the hand-off channel,
    /// waiting for one if need be. A worker that is not waiting takes
    /// nothing. Returns the next state and the batch to hand to the broker
    /// now.
    pub fn receive(self, receiver: &crossbeam_channel::Receiver<Events>) -> (next: (
        WorkerState,
        Option<Events>,
    ))
        ensures
            self != WorkerState::Idle ==> next == (self, None::<Events>),
            self == WorkerState::Idle ==> (next.0 == WorkerState::Publishing && next.1 is Some)
                || next == (WorkerState::Stopped, None::<Events>),
            exists|received: Option<Events>| next == #[trigger] after_receive(self, received),
    {
        match self {
            WorkerState::Idle => {
                let received = channel_recv(receiver);
                let next = self.on_receive(received);
                assert(next == after_receive(self, received));
                next
            },
            _ => {
                assert((self, None::<Events>) == after_receive(self, None));
                (self, None)
            },
        }
    }

    /// Takes the end of a publish attempt. Whether the broker accepted the
    /// batch or not, the worker goes back to waiting.
    pub fn on_published(self, delivered: bool) -> (next: WorkerState)
        ensures
            next == after_publish(self, delivered),
    {
        match self {
            WorkerState::Publishing => WorkerState::Idle,
            _ => self,
        }
    }
}

/// A waiting worker publishes every queued batch exactly once, in the order
/// in which they were queued, whatever the broker answers, and stops when it
/// finds the channel closed.
pub proof fn lemma_drain_publishes_all(queue: Seq<Events>, delivered: spec_fn(int) -> bool)
    ensures
        drain(WorkerState::Idle, queue, delivered) == (WorkerState::Stopped, queue),
    decreases queue.len(),
{
    if queue.len() > 0 {
        let shifted = |i: int| delivered(i + 1);
        lemma_drain_publishes_all(queue.drop_first(), shifted);
        assert(seq![queue[0]] + queue.drop_first() =~= queue);
    } else {
        assert(queue =~= Seq::<Events>::empty());
    }
}

/// A stopped worker takes nothing more: whatever is offered to it afterwards
/// is neither published nor does it leave the stopped state.
pub proof fn lemma_stopped_is_final(queue: Seq<Events>, delivered: spec_fn(int) -> bool)
    ensures
        drain(WorkerState::Stopped, queue, delivered) == (
            WorkerState::Stopped,
            Seq::<Events>::empty(),
        ),
    decreases queue.len(),
{
    if queue.len() > 0 {
        let shifted = |i: int| delivered(i + 1);
        lemma_stopped_is_final(queue.drop_first(), shifted);
    }
}

} // verus!
