use vstd::prelude::*;

use crate::short_code::ShortCode;

verus! {

/// Addition on 64-bit pending counters that pins the result at `u64::MAX`
/// instead of wrapping: accumulation windows are unbounded in principle, so
/// overflow must degrade, never corrupt.
pub open spec fn sat_add(a: u64, b: u64) -> u64 {
    if a + b > u64::MAX {
        u64::MAX
    } else {
        (a + b) as u64
    }
}

/// The pending count a store holds for key `k`: zero when the key is absent.
pub open spec fn pending(m: Map<Seq<char>, u64>, k: Seq<char>) -> u64 {
    if m.dom().contains(k) {
        m[k]
    } else {
        0
    }
}

/// The store after `count` further views of key `k` are accumulated.
/// A count of zero leaves the store untouched, so absent keys stay absent.
pub open spec fn bumped(m: Map<Seq<char>, u64>, k: Seq<char>, count: u32) -> Map<Seq<char>, u64> {
    if count == 0 {
        m
    } else {
        m.insert(k, sat_add(pending(m, k), count as u64))
    }
}

/// The key-to-count mapping that a sequence of entries represents.
pub open spec fn map_of(entries: Seq<(ShortCode, u64)>) -> Map<Seq<char>, u64>
    decreases entries.len(),
{
    if entries.len() == 0 {
        Map::empty()
    } else {
        map_of(entries.drop_last()).insert(entries.last().0@, entries.last().1)
    }
}

/// A well-formed entry sequence: keys pairwise distinct, every count non-zero.
/// A key is present only while it holds a non-zero pending count.
pub open spec fn wf_entries(entries: Seq<(ShortCode, u64)>) -> bool {
    &&& forall|i: int, j: int|
        0 <= i < j < entries.len() ==> entries[i].0@ != entries[j].0@
    &&& forall|i: int| 0 <= i < entries.len() ==> entries[i].1 > 0
}

/// Drain atomicity: an increment racing a drain lands wholly in one of the
/// two places the lock allows — the drained snapshot (the add ran first) or
/// the emptied store (the drain ran first). In either interleaving the
/// increment is accounted for in full; it is never lost to the boundary.
pub proof fn lemma_drain_atomicity(m: Map<Seq<char>, u64>, k: Seq<char>, n: u32)
    requires
        pending(m, k) + n <= u64::MAX,
    ensures
        pending(bumped(m, k, n), k) == pending(m, k) + n,
        pending(bumped(Map::empty(), k, n), k) == n,
{
}

/// The in-memory accumulation buffer of the aggregation engine: a mapping
/// from clip key to the view count accumulated since the last flush.
/// Lives only in memory; it is created empty, grown by `add`, and emptied
/// wholesale by `drain_all` at each flush.
pub struct ViewStore {
    entries: Vec<(ShortCode, u64)>,
}

impl View for ViewStore {
    type V = Map<Seq<char>, u64>;

    closed spec fn view(&self) -> Map<Seq<char>, u64> {
        map_of(self.entries@)
    }
}

pub proof fn lemma_map_of_contains(entries: Seq<(ShortCode, u64)>, k: Seq<char>)
    ensures
        map_of(entries).dom().contains(k) <==> exists|i: int|
            0 <= i < entries.len() && entries[i].0@ == k,
    decreases entries.len(),
{
    if entries.len() > 0 {
        lemma_map_of_contains(entries.drop_last(), k);
        if entries.last().0@ != k && map_of(entries).dom().contains(k) {
            let i = choose|i: int|
                0 <= i < entries.drop_last().len() && entries.drop_last()[i].0@ == k;
            assert(entries[i].0@ == k);
        }
        if exists|i: int| 0 <= i < entries.len() && entries[i].0@ == k {
            let i = choose|i: int| 0 <= i < entries.len() && entries[i].0@ == k;
            if i < entries.len() - 1 {
                assert(entries.drop_last()[i].0@ == k);
            }
        }
    }
}

pub proof fn lemma_map_of_index(entries: Seq<(ShortCode, u64)>, i: int)
    requires
        wf_entries(entries),
        0 <= i < entries.len(),
    ensures
        map_of(entries).dom().contains(entries[i].0@),
        map_of(entries)[entries[i].0@] == entries[i].1,
    decreases entries.len(),
{
    if i == entries.len() - 1 {
        lemma_map_of_contains(entries, entries[i].0@);
    } else {
        lemma_map_of_index(entries.drop_last(), i);
        assert(entries.drop_last()[i] == entries[i]);
        assert(entries.last().0@ != entries[i].0@);
    }
}

pub proof fn lemma_map_of_update(entries: Seq<(ShortCode, u64)>, i: int, e: (ShortCode, u64))
    requires
        wf_entries(entries),
        0 <= i < entries.len(),
        e.0@ == entries[i].0@,
    ensures
        map_of(entries.update(i, e)) == map_of(entries).insert(e.0@, e.1),
    decreases entries.len(),
{
    let updated = entries.update(i, e);
    if i == entries.len() - 1 {
        assert(updated.drop_last() =~= entries.drop_last());
        assert(map_of(updated) =~= map_of(entries).insert(e.0@, e.1));
    } else {
        lemma_map_of_update(entries.drop_last(), i, e);
        assert(updated.drop_last() =~= entries.drop_last().update(i, e));
        assert(updated.last() == entries.last());
        assert(entries.last().0@ != e.0@);
        assert(map_of(updated) =~= map_of(entries).insert(e.0@, e.1));
    }
}

impl ViewStore {
    /// A store is well-formed when its entry list is: keys distinct, counts
    /// non-zero. Every operation of the store preserves this.
    pub closed spec fn wf(&self) -> bool {
        wf_entries(self.entries@)
    }

    /// Creates the empty store the worker starts from.
    pub fn new() -> (r: ViewStore)
        ensures
            r.wf(),
            r@ == Map::<Seq<char>, u64>::empty(),
    {
        ViewStore { entries: Vec::new() }
    }

    /// Accumulates `count` further views for `key`, creating the entry when
    /// absent and saturating instead of overflowing. A zero count changes
    /// nothing, so no zero entry can linger.
    pub fn add(&mut self, key: &ShortCode, count: u32)
        requires
            old(self).wf(),
        ensures
            final(self).wf(),
            final(self)@ == bumped(old(self)@, key@, count),
    {
        if count == 0 {
            return;
        }
        let n = self.entries.len();
        let mut i: usize = 0;
        while i < n
            invariant
                n == self.entries.len(),
                0 <= i <= n,
                wf_entries(self.entries@),
                self.entries@ == old(self).entries@,
                forall|j: int| 0 <= j < i ==> self.entries@[j].0@ != key@,
            decreases n - i,
        {
            if self.entries[i].0 == *key {
                proof {
                    lemma_map_of_index(self.entries@, i as int);
                }
                let cur = self.entries[i].1;
                let grown = if cur <= u64::MAX - (count as u64) {
                    cur + (count as u64)
                } else {
                    u64::MAX
                };
                let ghost pre = self.entries@;
                self.entries[i].1 = grown;
                proof {
                    assert(self.entries@ =~= pre.update(i as int, (pre[i as int].0, grown)));
                    lemma_map_of_update(pre, i as int, (pre[i as int].0, grown));
                }
                return;
            }
            i += 1;
        }
        proof {
            lemma_map_of_contains(self.entries@, key@);
            assert(!self@.dom().contains(key@));
        }
        let ghost pre = self.entries@;
        self.entries.push((key.clone(), count as u64));
        proof {
            assert(self.entries@.drop_last() =~= pre);
            assert(self@ =~= bumped(old(self)@, key@, count));
        }
    }

    /// Atomically hands back the full snapshot of pending counts and resets
    /// the store to empty: the one call does both, so a caller sees either
    /// the pre-drain contents or an empty store, nothing in between.
    pub fn drain_all(&mut self) -> (snapshot: Vec<(ShortCode, u64)>)
        requires
            old(self).wf(),
        ensures
            final(self).wf(),
            final(self)@ == Map::<Seq<char>, u64>::empty(),
            snapshot@ == old(self).entries_seq(),
            wf_entries(snapshot@),
            map_of(snapshot@) == old(self)@,
    {
        let mut snapshot: Vec<(ShortCode, u64)> = Vec::new();
        core::mem::swap(&mut snapshot, &mut self.entries);
        snapshot
    }

    /// The entry sequence itself, in accumulation order: the first view of a
    /// key fixes its place.
    pub closed spec fn entries_seq(&self) -> Seq<(ShortCode, u64)> {
        self.entries@
    }

    /// How many keys currently hold a pending count.
    pub fn len(&self) -> (n: usize)
        ensures
            n == self.entries_seq().len(),
    {
        self.entries.len()
    }

    /// Whether nothing is pending.
    pub fn is_empty(&self) -> (r: bool)
        requires
            self.wf(),
        ensures
            r <==> self@ == Map::<Seq<char>, u64>::empty(),
    {
        let r = self.entries.len() == 0;
        proof {
            if self.entries@.len() == 0 {
                assert(self@ =~= Map::<Seq<char>, u64>::empty());
            } else {
                lemma_map_of_index(self.entries@, 0);
            }
        }
        r
    }
}

} // verus!
