use vstd::prelude::*;

use crate::messages::{ChannelEvent, ViewMsg};
use crate::short_code::ShortCode;
use crate::store::{bumped, map_of, wf_entries, ViewStore};
use crate::worker::{worker_step, WorkerAction, IDLE_FLUSH_WAIT_MS};

verus! {

#[verifier::external_type_specification]
#[verifier::external_body]
#[verifier::reject_recursive_types(T)]
pub struct ExSender<T>(crossbeam_channel::Sender<T>);

#[verifier::external_type_specification]
#[verifier::external_body]
#[verifier::reject_recursive_types(T)]
pub struct ExReceiver<T>(crossbeam_channel::Receiver<T>);

/// Relies on crossbeam_channel::unbounded: a multi-producer channel without
/// capacity bound, so a send never waits for room. Nothing is claimed of the
/// pair itself: what the receiving end hands back is decided by every sender
/// racing on the channel.
#[verifier::external_body]
fn channel_unbounded() -> (
    crossbeam_channel::Sender<ViewMsg>,
    crossbeam_channel::Receiver<ViewMsg>,
) {
    crossbeam_channel::unbounded()
}

/// Relies on crossbeam_channel::Sender::send: on an unbounded channel it
/// queues the message without blocking and errs only once every receiver is
/// gone. Nothing is claimed of the result: whether the message is later
/// received is a fact about the other end, not about this call.
#[verifier::external_body]
fn channel_send(tx: &crossbeam_channel::Sender<ViewMsg>, msg: ViewMsg) -> (accepted: bool) {
    tx.send(msg).is_ok()
}

/// Relies on crossbeam_channel::Receiver::recv_timeout: waits at most the
/// given window for one message and tells a lapsed window apart from a
/// channel whose senders are all gone. Which message comes back depends on
/// every concurrent producer, so nothing is claimed beyond the shape of the
/// answer.
#[verifier::external_body]
fn channel_recv(rx: &crossbeam_channel::Receiver<ViewMsg>, wait_ms: u64) -> (event: ChannelEvent) {
    match rx.recv_timeout(core::time::Duration::from_millis(wait_ms)) {
        Ok(msg) => ChannelEvent::Received(msg),
        Err(crossbeam_channel::RecvTimeoutError::Timeout) => ChannelEvent::TimedOut,
        Err(crossbeam_channel::RecvTimeoutError::Disconnected) => ChannelEvent::Disconnected,
    }
}

/// Relies on crossbeam_channel::Sender::clone: another sending end of the
/// same channel. Nothing more is claimed of it.
#[verifier::external_body]
fn channel_sender_clone(tx: &crossbeam_channel::Sender<ViewMsg>) -> crossbeam_channel::Sender<
    ViewMsg,
> {
    tx.clone()
}

/// The engine's public handle: the thin front that request handlers record
/// views through. It only enqueues onto the command channel and never waits
/// on persistence.
pub struct Views {
    tx: crossbeam_channel::Sender<ViewMsg>,
}

/// The aggregation worker's end of the engine: the receiving side of the
/// command channel, plus a sender of its own for the self-addressed flush
/// orders the idle policy produces. Exactly one worker drives it, so
/// flushes are inherently serialized.
pub struct Worker {
    rx: crossbeam_channel::Receiver<ViewMsg>,
    tx: crossbeam_channel::Sender<ViewMsg>,
}

impl Views {
    /// Creates the engine's two ends: the handle for the request handlers
    /// and the worker half that a background loop drives.
    pub fn new() -> (Views, Worker) {
        let (tx, rx) = channel_unbounded();
        let worker_tx = channel_sender_clone(&tx);
        (Views { tx }, Worker { rx, tx: worker_tx })
    }

    /// Records `count` further views of the clip named by `short_code`:
    /// enqueues an increment for the worker and returns at once, whatever
    /// the storage layer is doing. The result says whether the engine took
    /// the batch; it is false only once the worker is gone, and the views
    /// are then dropped — losing a count is an accepted degradation, while
    /// failing the read path is not, so no error is raised.
    pub fn view(&self, short_code: ShortCode, count: u32) -> (accepted: bool) {
        channel_send(&self.tx, ViewMsg::View(short_code, count))
    }
}

impl Worker {
    /// One turn of the worker loop. Listens on the command channel with a
    /// bounded wait: a received view batch is folded into the store, a
    /// received commit drains the store into the returned snapshot, and a
    /// wait window that lapses with no message makes the worker order a
    /// flush to itself — bounding how stale persisted counts can grow —
    /// before it goes on listening.
    pub fn listen_once(&self, store: &mut ViewStore) -> (action: WorkerAction)
        requires
            old(store).wf(),
        ensures
            final(store).wf(),
            match action {
                WorkerAction::Continue => exists|k: Seq<char>, n: u32|
                    final(store)@ == bumped(old(store)@, k, n),
                WorkerAction::StartFlush(snap) => {
                    &&& wf_entries(snap@)
                    &&& map_of(snap@) == old(store)@
                    &&& final(store)@ == Map::<Seq<char>, u64>::empty()
                },
                WorkerAction::SelfFlush => final(store)@ == old(store)@,
                WorkerAction::Stop => final(store)@ == old(store)@,
            },
    {
        let event = channel_recv(&self.rx, IDLE_FLUSH_WAIT_MS);
        let action = worker_step(store, event);
        match &action {
            WorkerAction::SelfFlush => {
                channel_send(&self.tx, ViewMsg::Commit);
            },
            _ => {},
        }
        action
    }
}

} // verus!
