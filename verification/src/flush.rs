use vstd::prelude::*;

use crate::short_code::ShortCode;
use crate::store::wf_entries;

verus! {

/// Where the commit protocol of one flush cycle stands.
#[derive(Debug, PartialEq, Eq, Clone, Copy)]
pub enum FlushPhase {
    /// The transaction has not been opened yet.
    NotBegun,
    /// The transaction is open; the per-key updates are being issued.
    Persisting,
    /// Every key has been attempted; the commit is outstanding.
    Committing,
    /// The cycle is over, well or badly.
    Done,
}

/// The next call the protocol asks of the storage layer.
#[derive(Debug)]
pub enum StorageOp {
    /// Open a transaction against the persistent store.
    Begin,
    /// Add this count to the persisted counter of this key, inside the open
    /// transaction.
    Increase(ShortCode, u64),
    /// Commit the open transaction.
    Commit,
    /// Nothing is left to do for this cycle.
    Finished,
}

/// How the storage layer answered the op it was handed.
#[derive(Debug, PartialEq, Eq, Clone, Copy)]
pub enum StorageEvent {
    /// The transaction is open.
    BeginOk,
    /// The store could not be reached; the whole cycle's counts are lost.
    BeginFailed,
    /// The key's persisted counter took the count.
    IncreaseOk,
    /// The key's update failed (the clip is gone, or the store erred); only
    /// this key's count for the cycle is lost, the rest go on.
    IncreaseFailed,
    /// The transaction committed; the attempted counts are durable.
    CommitOk,
    /// The commit could not be completed; the snapshot's counts are lost.
    CommitFailed,
}

/// Whether an event is a possible answer to the op a cycle in this phase
/// last asked for.
pub open spec fn answers(ev: StorageEvent, phase: FlushPhase) -> bool {
    match phase {
        FlushPhase::NotBegun => ev is BeginOk || ev is BeginFailed,
        FlushPhase::Persisting => ev is IncreaseOk || ev is IncreaseFailed,
        FlushPhase::Committing => ev is CommitOk || ev is CommitFailed,
        FlushPhase::Done => false,
    }
}

/// One flush of the aggregation engine: a drained snapshot and the commit
/// protocol run over it. The cycle asks for one storage op at a time
/// (`next_op`) and advances on the storage layer's answer (`apply`): begin a
/// transaction, attempt every snapshot key exactly once in order — a failed
/// key is tallied and skipped, never allowed to abort the batch — then
/// commit. Counts lost to a failed begin, key or commit are not re-queued:
/// persistence is best-effort, at-most-once.
pub struct FlushCycle {
    snap: Vec<(ShortCode, u64)>,
    next: usize,
    phase: FlushPhase,
    committed_flag: bool,
    key_failures: usize,
}

/// The cycle that one storage answer turns a cycle into.
pub closed spec fn stepped(c: FlushCycle, ev: StorageEvent) -> FlushCycle {
    match ev {
        StorageEvent::BeginOk => FlushCycle {
            phase: if c.snap@.len() == 0 {
                FlushPhase::Committing
            } else {
                FlushPhase::Persisting
            },
            ..c
        },
        StorageEvent::BeginFailed => FlushCycle { phase: FlushPhase::Done, ..c },
        StorageEvent::IncreaseOk => FlushCycle {
            next: (c.next + 1) as usize,
            phase: if c.next + 1 == c.snap@.len() {
                FlushPhase::Committing
            } else {
                FlushPhase::Persisting
            },
            ..c
        },
        StorageEvent::IncreaseFailed => FlushCycle {
            next: (c.next + 1) as usize,
            key_failures: (c.key_failures + 1) as usize,
            phase: if c.next + 1 == c.snap@.len() {
                FlushPhase::Committing
            } else {
                FlushPhase::Persisting
            },
            ..c
        },
        StorageEvent::CommitOk => FlushCycle {
            phase: FlushPhase::Done,
            committed_flag: true,
            ..c
        },
        StorageEvent::CommitFailed => FlushCycle { phase: FlushPhase::Done, ..c },
    }
}

impl FlushCycle {
    /// The snapshot this cycle persists, in accumulation order.
    pub closed spec fn snapshot(&self) -> Seq<(ShortCode, u64)> {
        self.snap@
    }

    /// How many snapshot keys have been attempted so far.
    pub closed spec fn pos(&self) -> int {
        self.next as int
    }

    /// Where the protocol stands.
    pub closed spec fn phase(&self) -> FlushPhase {
        self.phase
    }

    /// Whether the transaction committed in the end.
    pub closed spec fn committed(&self) -> bool {
        self.committed_flag
    }

    /// How many per-key updates failed this cycle.
    pub closed spec fn failures(&self) -> int {
        self.key_failures as int
    }

    pub closed spec fn wf(&self) -> bool {
        &&& wf_entries(self.snap@)
        &&& self.next <= self.snap@.len()
        &&& self.key_failures <= self.next
        &&& match self.phase {
            FlushPhase::NotBegun => self.next == 0 && !self.committed_flag,
            FlushPhase::Persisting => self.next < self.snap@.len() && !self.committed_flag,
            FlushPhase::Committing => self.next == self.snap@.len() && !self.committed_flag,
            FlushPhase::Done => true,
        }
    }

    /// Starts the commit protocol over a drained snapshot.
    pub fn start(snapshot: Vec<(ShortCode, u64)>) -> (c: FlushCycle)
        requires
            wf_entries(snapshot@),
        ensures
            c.wf(),
            c.snapshot() == snapshot@,
            c.phase() is NotBegun,
            c.pos() == 0,
            c.failures() == 0,
            !c.committed(),
    {
        FlushCycle {
            snap: snapshot,
            next: 0,
            phase: FlushPhase::NotBegun,
            committed_flag: false,
            key_failures: 0,
        }
    }

    /// The storage call the cycle is waiting on. While persisting, it is the
    /// update of exactly the snapshot key at the current position: position
    /// and phase never depend on how earlier keys fared, so every key is
    /// asked for exactly once, in snapshot order.
    pub fn next_op(&self) -> (op: StorageOp)
        requires
            self.wf(),
        ensures
            match self.phase() {
                FlushPhase::NotBegun => op is Begin,
                FlushPhase::Persisting => {
                    &&& op matches StorageOp::Increase(k, n)
                    &&& k@ == self.snapshot()[self.pos()].0@
                    &&& n == self.snapshot()[self.pos()].1
                },
                FlushPhase::Committing => op is Commit,
                FlushPhase::Done => op is Finished,
            },
    {
        match self.phase {
            FlushPhase::NotBegun => StorageOp::Begin,
            FlushPhase::Persisting => {
                let entry = &self.snap[self.next];
                StorageOp::Increase(entry.0.clone(), entry.1)
            },
            FlushPhase::Committing => StorageOp::Commit,
            FlushPhase::Done => StorageOp::Finished,
        }
    }

    /// Advances the protocol on the storage layer's answer. A per-key
    /// failure moves on to the next key exactly as a success does; a failed
    /// begin or commit ends the cycle with nothing durable.
    pub fn apply(&mut self, ev: StorageEvent)
        requires
            old(self).wf(),
            answers(ev, old(self).phase()),
        ensures
            final(self).wf(),
            *final(self) == stepped(*old(self), ev),
            final(self).snapshot() == old(self).snapshot(),
            final(self).pos() == old(self).pos() + (if ev is IncreaseOk || ev is IncreaseFailed {
                1int
            } else {
                0int
            }),
            final(self).failures() == old(self).failures() + (if ev is IncreaseFailed {
                1int
            } else {
                0int
            }),
            final(self).committed() <==> (old(self).committed() || ev is CommitOk),
            match ev {
                StorageEvent::BeginOk => {
                    &&& if old(self).snapshot().len() == 0 {
                        final(self).phase() is Committing
                    } else {
                        final(self).phase() is Persisting
                    }
                    &&& final(self).pos() == 0
                },
                StorageEvent::BeginFailed => {
                    &&& final(self).phase() is Done
                    &&& !final(self).committed()
                },
                StorageEvent::IncreaseOk => {
                    &&& final(self).pos() == old(self).pos() + 1
                    &&& final(self).failures() == old(self).failures()
                    &&& if final(self).pos() == final(self).snapshot().len() {
                        final(self).phase() is Committing
                    } else {
                        final(self).phase() is Persisting
                    }
                },
                StorageEvent::IncreaseFailed => {
                    &&& final(self).pos() == old(self).pos() + 1
                    &&& final(self).failures() == old(self).failures() + 1
                    &&& if final(self).pos() == final(self).snapshot().len() {
                        final(self).phase() is Committing
                    } else {
                        final(self).phase() is Persisting
                    }
                },
                StorageEvent::CommitOk => {
                    &&& final(self).phase() is Done
                    &&& final(self).committed()
                },
                StorageEvent::CommitFailed => {
                    &&& final(self).phase() is Done
                    &&& !final(self).committed()
                },
            },
    {
        match ev {
            StorageEvent::BeginOk => {
                self.phase = if self.snap.len() == 0 {
                    FlushPhase::Committing
                } else {
                    FlushPhase::Persisting
                };
            },
            StorageEvent::BeginFailed => {
                self.phase = FlushPhase::Done;
            },
            StorageEvent::IncreaseOk => {
                let len = self.snap.len();
                self.next = self.next + 1;
                self.phase = if self.next == len {
                    FlushPhase::Committing
                } else {
                    FlushPhase::Persisting
                };
            },
            StorageEvent::IncreaseFailed => {
                let len = self.snap.len();
                self.next = self.next + 1;
                self.key_failures = self.key_failures + 1;
                self.phase = if self.next == len {
                    FlushPhase::Committing
                } else {
                    FlushPhase::Persisting
                };
            },
            StorageEvent::CommitOk => {
                self.phase = FlushPhase::Done;
                self.committed_flag = true;
            },
            StorageEvent::CommitFailed => {
                self.phase = FlushPhase::Done;
            },
        }
    }

    /// Whether the cycle is over.
    pub fn is_done(&self) -> (r: bool)
        ensures
            r <==> self.phase() is Done,
    {
        matches!(self.phase, FlushPhase::Done)
    }

    /// Whether the transaction committed: the attempted counts are durable.
    pub fn was_committed(&self) -> (r: bool)
        ensures
            r == self.committed(),
    {
        self.committed_flag
    }

    /// How many per-key updates the storage layer failed this cycle: the
    /// observability counter that stands in for silently dropped errors.
    pub fn key_failure_count(&self) -> (n: usize)
        ensures
            n == self.failures(),
    {
        self.key_failures
    }
}

/// Cross-key independence: a failed per-key update steers the cycle exactly
/// where a successful one does — same snapshot, same position, same phase —
/// so a failure for one key never keeps the flush from attempting the
/// remaining keys; only the failure tally differs.
pub proof fn lemma_cross_key_independence(c: FlushCycle)
    requires
        c.wf(),
        c.phase() is Persisting,
    ensures
        stepped(c, StorageEvent::IncreaseFailed).snapshot() == stepped(
            c,
            StorageEvent::IncreaseOk,
        ).snapshot(),
        stepped(c, StorageEvent::IncreaseFailed).pos() == stepped(
            c,
            StorageEvent::IncreaseOk,
        ).pos(),
        stepped(c, StorageEvent::IncreaseFailed).phase() == stepped(
            c,
            StorageEvent::IncreaseOk,
        ).phase(),
        stepped(c, StorageEvent::IncreaseFailed).failures() == stepped(
            c,
            StorageEvent::IncreaseOk,
        ).failures() + 1,
{
    vstd::std_specs::vec::axiom_spec_len(&c.snap);
}

} // verus!
