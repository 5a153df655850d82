use vstd::prelude::*;

use crate::messages::{ChannelEvent, ViewMsg};
use crate::short_code::ShortCode;
use crate::store::{bumped, lemma_map_of_index, map_of, pending, wf_entries, ViewStore};

verus! {

/// How long the worker listens before it treats the engine as idle and
/// orders a flush of its own, in milliseconds. This bounds the staleness of
/// persisted view counts even under low or bursty traffic.
pub const IDLE_FLUSH_WAIT_MS: u64 = 5000;

/// What the worker decides to do after one channel event.
#[derive(Debug)]
pub enum WorkerAction {
    /// Keep listening; nothing to persist right now.
    Continue,
    /// Run the commit protocol over this drained snapshot.
    StartFlush(Vec<(ShortCode, u64)>),
    /// The idle window passed: enqueue a `Commit` to ourselves, then keep
    /// listening.
    SelfFlush,
    /// The channel is closed for good; the worker loop ends.
    Stop,
}

/// Applies one message to the store: a view batch is accumulated, a commit
/// drains everything pending into a snapshot for the flush protocol.
pub fn process_msg(store: &mut ViewStore, msg: ViewMsg) -> (flush: Option<
    Vec<(ShortCode, u64)>,
>)
    requires
        old(store).wf(),
    ensures
        final(store).wf(),
        match msg {
            ViewMsg::View(k, n) => {
                &&& flush is None
                &&& final(store)@ == bumped(old(store)@, k@, n)
            },
            ViewMsg::Commit => {
                &&& flush matches Some(snap)
                &&& snap@ == old(store).entries_seq()
                &&& wf_entries(snap@)
                &&& map_of(snap@) == old(store)@
                &&& final(store)@ == Map::<Seq<char>, u64>::empty()
            },
        },
{
    match msg {
        ViewMsg::Commit => Some(store.drain_all()),
        ViewMsg::View(short_code, count) => {
            store.add(&short_code, count);
            None
        },
    }
}

/// The worker's whole decision for one turn of its loop: what one channel
/// event does to the store and what the loop must do next. A received view
/// batch is accumulated and the loop goes on; a received commit drains the
/// store and starts a flush; a quiet idle window orders a self-addressed
/// flush without touching the store; a dead channel stops the loop.
pub fn worker_step(store: &mut ViewStore, event: ChannelEvent) -> (action: WorkerAction)
    requires
        old(store).wf(),
    ensures
        final(store).wf(),
        match event {
            ChannelEvent::Received(msg) => match msg {
                ViewMsg::View(k, n) => {
                    &&& action is Continue
                    &&& final(store)@ == bumped(old(store)@, k@, n)
                },
                ViewMsg::Commit => {
                    &&& action matches WorkerAction::StartFlush(snap)
                    &&& snap@ == old(store).entries_seq()
                    &&& wf_entries(snap@)
                    &&& map_of(snap@) == old(store)@
                    &&& final(store)@ == Map::<Seq<char>, u64>::empty()
                },
            },
            ChannelEvent::TimedOut => {
                &&& action is SelfFlush
                &&& final(store)@ == old(store)@
            },
            ChannelEvent::Disconnected => {
                &&& action is Stop
                &&& final(store)@ == old(store)@
            },
        },
{
    match event {
        ChannelEvent::Received(msg) => match process_msg(store, msg) {
            Some(snapshot) => WorkerAction::StartFlush(snapshot),
            None => WorkerAction::Continue,
        },
        ChannelEvent::TimedOut => WorkerAction::SelfFlush,
        ChannelEvent::Disconnected => WorkerAction::Stop,
    }
}

/// The store contents after a sequence of messages is applied in order.
pub open spec fn accumulated(m: Map<Seq<char>, u64>, msgs: Seq<ViewMsg>) -> Map<Seq<char>, u64>
    decreases msgs.len(),
{
    if msgs.len() == 0 {
        m
    } else {
        accumulated(
            match msgs[0] {
                ViewMsg::Commit => Map::empty(),
                ViewMsg::View(k, n) => bumped(m, k@, n),
            },
            msgs.drop_first(),
        )
    }
}

/// The total number of views the messages carry for key `k`.
pub open spec fn sum_views(k: Seq<char>, msgs: Seq<ViewMsg>) -> int
    decreases msgs.len(),
{
    if msgs.len() == 0 {
        0int
    } else {
        (match msgs[0] {
            ViewMsg::Commit => 0int,
            ViewMsg::View(c, n) => if c@ == k {
                n as int
            } else {
                0int
            },
        }) + sum_views(k, msgs.drop_first())
    }
}

pub proof fn lemma_sum_views_nonneg(k: Seq<char>, msgs: Seq<ViewMsg>)
    ensures
        sum_views(k, msgs) >= 0,
    decreases msgs.len(),
{
    if msgs.len() > 0 {
        lemma_sum_views_nonneg(k, msgs.drop_first());
    }
}

/// Accumulation correctness: for any run of view batches recorded before a
/// flush, the pending count drained for a key grows by exactly the sum of
/// the batch sizes for that key — so the flush then persists exactly that
/// sum, as long as the total stays within the 64-bit counter.
pub proof fn lemma_accumulation(m: Map<Seq<char>, u64>, k: Seq<char>, msgs: Seq<ViewMsg>)
    requires
        forall|i: int| 0 <= i < msgs.len() ==> msgs[i] is View,
        pending(m, k) + sum_views(k, msgs) <= u64::MAX,
    ensures
        pending(accumulated(m, msgs), k) == pending(m, k) + sum_views(k, msgs),
    decreases msgs.len(),
{
    if msgs.len() > 0 {
        let rest = msgs.drop_first();
        lemma_sum_views_nonneg(k, rest);
        let m1 = match msgs[0] {
            ViewMsg::Commit => Map::<Seq<char>, u64>::empty(),
            ViewMsg::View(c, n) => bumped(m, c@, n),
        };
        assert(pending(m1, k) == pending(m, k) + (match msgs[0] {
            ViewMsg::Commit => 0int,
            ViewMsg::View(c, n) => if c@ == k {
                n as int
            } else {
                0int
            },
        }));
        assert(forall|i: int| 0 <= i < rest.len() ==> rest[i] is View);
        lemma_accumulation(m1, k, rest);
    }
}

/// Accumulation correctness at the flush boundary: in the snapshot a commit
/// drains after these view batches, the key holds one entry at most, and
/// that entry carries exactly its prior pending count plus the sum of its
/// batches — so the flush asks the storage layer for one update of exactly
/// the accumulated sum.
pub proof fn lemma_snapshot_carries_the_sums(
    m: Map<Seq<char>, u64>,
    msgs: Seq<ViewMsg>,
    snap: Seq<(ShortCode, u64)>,
    k: Seq<char>,
    i: int,
)
    requires
        forall|j: int| 0 <= j < msgs.len() ==> msgs[j] is View,
        pending(m, k) + sum_views(k, msgs) <= u64::MAX,
        wf_entries(snap),
        map_of(snap) == accumulated(m, msgs),
        0 <= i < snap.len(),
        snap[i].0@ == k,
    ensures
        snap[i].1 == pending(m, k) + sum_views(k, msgs),
        forall|j: int| 0 <= j < snap.len() && snap[j].0@ == k ==> j == i,
{
    lemma_accumulation(m, k, msgs);
    lemma_map_of_index(snap, i);
    assert forall|j: int| 0 <= j < snap.len() && snap[j].0@ == k implies j == i by {
        if j < i {
            assert(snap[j].0@ != snap[i].0@);
        }
        if i < j {
            assert(snap[i].0@ != snap[j].0@);
        }
    }
}

} // verus!
