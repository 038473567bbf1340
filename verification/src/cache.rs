//! The bounded LRU index of the disk cache.
//!
//! The cache maps a track identifier to a local file of raw audio bytes. The
//! index here owns all bookkeeping: which entries exist, their sizes and
//! access times, and the least-to-most-recently-used order. Entries are kept
//! in one vector ordered from least to most recently used, so the access
//! order and the entry set are the same structure and can never disagree.
//!
//! The surrounding process performs the downloads, the file checks and the
//! deletions, and reads the clock; it hands the results in as plain values.
//! Every operation here keeps the canonical invariant: after any operation
//! completes, the entry count is at most the configured capacity.

use vstd::prelude::*;

verus! {

/// One cached track: its identifier, the path of its file on disk, the
/// timestamp of its last access and the size of the file in bytes.
#[derive(Debug)]
pub struct CacheEntry {
    pub track_id: String,
    pub file_path: String,
    pub last_accessed: u64,
    pub file_size: u64,
}

/// Whether `s` holds an entry for `id`.
pub open spec fn contains_id(s: Seq<CacheEntry>, id: Seq<char>) -> bool {
    exists|i: int| 0 <= i < s.len() && s[i].track_id@ == id
}

/// The index of the entry for `id` in `s`; meaningful only when
/// `contains_id(s, id)` holds and the identifiers of `s` are distinct.
pub open spec fn idx_of(s: Seq<CacheEntry>, id: Seq<char>) -> int {
    choose|i: int| 0 <= i < s.len() && s[i].track_id@ == id
}

/// No two entries share an identifier.
pub open spec fn distinct_ids(s: Seq<CacheEntry>) -> bool {
    forall|i: int, j: int|
        0 <= i < j < s.len() ==> s[i].track_id@ != s[j].track_id@
}

/// Access times never decrease along the vector: position order is
/// least-to-most-recently-used order.
pub open spec fn sorted_by_access(s: Seq<CacheEntry>) -> bool {
    forall|i: int, j: int|
        0 <= i <= j < s.len() ==> s[i].last_accessed <= s[j].last_accessed
}

/// `now` is no earlier than any recorded access time.
pub open spec fn fresh_time(s: Seq<CacheEntry>, now: u64) -> bool {
    forall|i: int| 0 <= i < s.len() ==> s[i].last_accessed <= now
}

/// The state of `s` after a cache hit on the entry at index `i`: the entry
/// moves to the most-recently-used end with its access time bumped to `now`;
/// every other entry keeps its place in the order.
pub open spec fn hit_update(s: Seq<CacheEntry>, i: int, now: u64) -> Seq<CacheEntry> {
    s.remove(i).push(CacheEntry { last_accessed: now, ..s[i] })
}

/// The total size in bytes of the entries of `s`.
pub open spec fn total_size(s: Seq<CacheEntry>) -> int
    decreases s.len(),
{
    if s.len() == 0 {
        0
    } else {
        total_size(s.drop_last()) + s.last().file_size
    }
}

/// How many entries eviction removes from a cache of `len` entries at
/// capacity `max` so that one insertion stays within capacity.
pub open spec fn evict_count(len: int, max: int) -> int {
    if len >= max {
        len - max + 1
    } else {
        0
    }
}

/// The LRU-bounded index of the disk cache. `entries` is ordered from least
/// to most recently used.
#[derive(Debug)]
pub struct AudioCache {
    pub entries: Vec<CacheEntry>,
    pub max_entries: usize,
}

impl AudioCache {
    /// The invariant every operation preserves: a positive capacity, at most
    /// `max_entries` entries, distinct identifiers, and the vector ordered by
    /// access time.
    pub open spec fn wf(&self) -> bool {
        &&& self.max_entries >= 1
        &&& self.entries@.len() <= self.max_entries
        &&& distinct_ids(self.entries@)
        &&& sorted_by_access(self.entries@)
    }

    /// An empty cache bounded by `max_entries`.
    pub fn new(max_entries: usize) -> (c: AudioCache)
        requires
            max_entries >= 1,
        ensures
            c.wf(),
            c.entries@.len() == 0,
            c.max_entries == max_entries,
    {
        AudioCache { entries: Vec::new(), max_entries }
    }

    /// The position of the entry for `id`, if the index has one.
    pub fn find(&self, id: &String) -> (r: Option<usize>)
        requires
            self.wf(),
        ensures
            match r {
                Some(i) => i < self.entries@.len() && self.entries@[i as int].track_id@ == id@
                    && i == idx_of(self.entries@, id@),
                None => !contains_id(self.entries@, id@),
            },
    {
        let n: usize = self.entries.len();
        let mut i: usize = 0;
        while i < n
            invariant
                self.wf(),
                n == self.entries@.len(),
                i <= n,
                forall|k: int| 0 <= k < i ==> self.entries@[k].track_id@ != id@,
            decreases n - i,
        {
            if self.entries[i].track_id == *id {
                proof {
                    let w = idx_of(self.entries@, id@);
                    assert(0 <= w < self.entries@.len() && self.entries@[w].track_id@ == id@);
                    assert(w == i);
                }
                return Some(i);
            }
            i = i + 1;
        }
        None
    }

    /// Whether the index has an entry for `id`.
    pub fn contains(&self, id: &String) -> (r: bool)
        requires
            self.wf(),
        ensures
            r == contains_id(self.entries@, id@),
    {
        self.find(id).is_some()
    }

    /// Looks `id` up. `file_present` is what the filesystem reported about
    /// the entry's file; `now` is the current clock reading.
    ///
    /// On a hit with the file present, returns the cached path and moves the
    /// entry to the most-recently-used end with its access time bumped; every
    /// other entry keeps its place. If the entry is stale (its file is gone),
    /// it is removed and the lookup misses. A miss changes nothing.
    pub fn lookup(&mut self, id: &String, file_present: bool, now: u64) -> (r: Option<String>)
        requires
            old(self).wf(),
            fresh_time(old(self).entries@, now),
        ensures
            final(self).wf(),
            final(self).max_entries == old(self).max_entries,
            !contains_id(old(self).entries@, id@) ==> {
                &&& r is None
                &&& final(self).entries@ == old(self).entries@
            },
            contains_id(old(self).entries@, id@) && !file_present ==> {
                &&& r is None
                &&& final(self).entries@ == old(self).entries@.remove(
                    idx_of(old(self).entries@, id@))
            },
            contains_id(old(self).entries@, id@) && file_present ==> {
                &&& r matches Some(p) && p@ == old(self).entries@[idx_of(
                    old(self).entries@, id@)].file_path@
                &&& final(self).entries@ == hit_update(old(self).entries@,
                    idx_of(old(self).entries@, id@), now)
            },
    {
        let found: Option<usize> = self.find(id);
        match found {
            Some(i) => {
                if file_present {
                    let e: CacheEntry = self.entries.remove(i);
                    let path: String = e.file_path.clone();
                    let touched = CacheEntry {
                        track_id: e.track_id,
                        file_path: e.file_path,
                        last_accessed: now,
                        file_size: e.file_size,
                    };
                    self.entries.push(touched);
                    proof {
                        let s = old(self).entries@;
                        let k = idx_of(s, id@);
                        assert(self.entries@ =~= hit_update(s, k, now));
                        lemma_hit_update_wf(s, k, now);
                    }
                    Some(path)
                } else {
                    let e: CacheEntry = self.entries.remove(i);
                    proof {
                        let s = old(self).entries@;
                        let k = idx_of(s, id@);
                        lemma_remove_wf(s, k);
                    }
                    None
                }
            }
            None => None,
        }
    }

    /// Evicts least-recently-used entries until one more entry fits within
    /// capacity, returning the evicted entries so their files can be deleted.
    /// Eviction is proactive: it runs before an insertion, so the cache never
    /// exceeds capacity.
    pub fn ensure_cache_size(&mut self) -> (evicted: Vec<CacheEntry>)
        requires
            old(self).wf(),
        ensures
            final(self).wf(),
            final(self).max_entries == old(self).max_entries,
            evicted@ == old(self).entries@.take(
                evict_count(old(self).entries@.len() as int, old(self).max_entries as int)),
            final(self).entries@ == old(self).entries@.skip(
                evict_count(old(self).entries@.len() as int, old(self).max_entries as int)),
            final(self).entries@.len() < final(self).max_entries,
    {
        let ghost s0 = old(self).entries@;
        let ghost k = evict_count(s0.len() as int, old(self).max_entries as int);
        let mut evicted: Vec<CacheEntry> = Vec::new();
        proof {
            assert(s0.take(0) =~= evicted@);
            assert(s0.skip(0) =~= self.entries@);
        }
        while self.entries.len() >= self.max_entries
            invariant
                self.wf(),
                self.max_entries == old(self).max_entries,
                k == evict_count(s0.len() as int, self.max_entries as int),
                evicted@.len() <= k,
                evicted@.len() + self.entries@.len() == s0.len(),
                evicted@ == s0.take(evicted@.len() as int),
                self.entries@ == s0.skip(evicted@.len() as int),
            decreases self.entries@.len(),
        {
            let e: CacheEntry = self.entries.remove(0);
            evicted.push(e);
            proof {
                assert(evicted@ =~= s0.take(evicted@.len() as int));
                assert(self.entries@ =~= s0.skip(evicted@.len() as int));
            }
        }
        proof {
            assert(evicted@.len() == k);
        }
        evicted
    }

    /// Registers a freshly downloaded file under `id`, evicting
    /// least-recently-used entries first so the capacity bound holds after
    /// the insertion. Returns the evicted entries so their files can be
    /// deleted. The caller registers an identifier at most once; a hit is
    /// served from `lookup` instead.
    pub fn store_commit(&mut self, id: String, path: String, size: u64, now: u64) -> (evicted:
        Vec<CacheEntry>)
        requires
            old(self).wf(),
            !contains_id(old(self).entries@, id@),
            fresh_time(old(self).entries@, now),
        ensures
            final(self).wf(),
            final(self).max_entries == old(self).max_entries,
            evicted@ == old(self).entries@.take(
                evict_count(old(self).entries@.len() as int, old(self).max_entries as int)),
            final(self).entries@ == old(self).entries@.skip(
                evict_count(old(self).entries@.len() as int, old(self).max_entries as int)).push(
                CacheEntry { track_id: id, file_path: path, last_accessed: now, file_size: size }),
            contains_id(final(self).entries@, id@),
    {
        let ghost s0 = old(self).entries@;
        let ghost k = evict_count(s0.len() as int, old(self).max_entries as int);
        let evicted: Vec<CacheEntry> = self.ensure_cache_size();
        let entry = CacheEntry { track_id: id, file_path: path, last_accessed: now, file_size: size };
        self.entries.push(entry);
        proof {
            let s1 = s0.skip(k);
            let s2 = self.entries@;
            assert(s2 == s1.push(s2.last()));
            assert forall|i: int, j: int| 0 <= i < j < s2.len() implies
                s2[i].track_id@ != s2[j].track_id@ by {
                if j < s2.len() - 1 {
                    assert(s2[i] == s1[i] && s2[j] == s1[j]);
                } else {
                    assert(s2[i] == s1[i] && s1[i] == s0[i + k]);
                    assert(contains_id(s0, s0[i + k].track_id@));
                }
            }
            assert(sorted_by_access(s2)) by {
                assert(forall|i: int| 0 <= i < s2.len() - 1 ==> s2[i].last_accessed <= now);
            }
            assert(s2[s2.len() - 1].track_id@ == id@);
        }
        evicted
    }

    /// The number of cached entries and their total size in bytes. The size
    /// saturates at `u64::MAX`.
    pub fn get_cache_stats(&self) -> (r: (usize, u64))
        requires
            self.wf(),
        ensures
            r.0 == self.entries@.len(),
            r.1 == if total_size(self.entries@) <= u64::MAX {
                total_size(self.entries@)
            } else {
                u64::MAX as int
            },
    {
        let n: usize = self.entries.len();
        let mut total: u64 = 0;
        let mut i: usize = 0;
        while i < n
            invariant
                self.wf(),
                n == self.entries@.len(),
                i <= n,
                total == if total_size(self.entries@.take(i as int)) <= u64::MAX {
                    total_size(self.entries@.take(i as int))
                } else {
                    u64::MAX as int
                },
            decreases n - i,
        {
            proof {
                let t = self.entries@.take(i + 1);
                assert(t.drop_last() =~= self.entries@.take(i as int));
                assert(t.last() == self.entries@[i as int]);
            }
            total = total.saturating_add(self.entries[i].file_size);
            i = i + 1;
        }
        proof {
            assert(self.entries@.take(n as int) =~= self.entries@);
        }
        (n, total)
    }

    /// Empties the index unconditionally, returning every entry so the files
    /// can be deleted (deletion failures outside are non-fatal: the index no
    /// longer references them either way).
    pub fn clear_cache(&mut self) -> (removed: Vec<CacheEntry>)
        requires
            old(self).wf(),
        ensures
            final(self).wf(),
            final(self).max_entries == old(self).max_entries,
            final(self).entries@.len() == 0,
            removed@ == old(self).entries@,
    {
        let ghost s0 = old(self).entries@;
        let mut removed: Vec<CacheEntry> = Vec::new();
        proof {
            assert(s0.take(0) =~= removed@);
            assert(s0.skip(0) =~= self.entries@);
        }
        while self.entries.len() > 0
            invariant
                self.max_entries == old(self).max_entries,
                self.wf(),
                removed@.len() + self.entries@.len() == s0.len(),
                removed@ == s0.take(removed@.len() as int),
                self.entries@ == s0.skip(removed@.len() as int),
            decreases self.entries@.len(),
        {
            let e: CacheEntry = self.entries.remove(0);
            removed.push(e);
            proof {
                assert(removed@ =~= s0.take(removed@.len() as int));
                assert(self.entries@ =~= s0.skip(removed@.len() as int));
            }
        }
        proof {
            assert(removed@ =~= s0);
        }
        removed
    }

    /// Rebuilds the index at startup from a directory scan. The scan supplies
    /// one entry per cache file (identifier from the file name, size and best
    /// available timestamp from file metadata); file names are unique, so the
    /// identifiers are distinct. The entries are ordered ascending by timestamp
    /// to establish an approximate LRU order, and the oldest are dropped so the
    /// capacity bound holds from the start.
    pub fn load_existing_entries(scanned: Vec<CacheEntry>, max_entries: usize) -> (c: AudioCache)
        requires
            max_entries >= 1,
            distinct_ids(scanned@),
        ensures
            c.wf(),
            c.max_entries == max_entries,
            c.entries@.len() == if scanned@.len() <= max_entries {
                scanned@.len() as int
            } else {
                max_entries as int
            },
            exists|all: Seq<CacheEntry>|
                {
                    &&& #[trigger] all.to_multiset() == scanned@.to_multiset()
                    &&& sorted_by_access(all)
                    &&& c.entries@ == all.skip(all.len() - c.entries@.len())
                },
    {
        broadcast use vstd::seq_lib::group_to_multiset_ensures, vstd::seq_lib::to_multiset_insert;

        let ghost s0 = scanned@;
        let mut rest: Vec<CacheEntry> = scanned;
        let mut built: Vec<CacheEntry> = Vec::new();
        let ghost mut i: int = 0;
        proof {
            assert(rest@ =~= s0.skip(0));
            assert(s0.take(0).to_multiset() =~= built@.to_multiset());
        }
        while rest.len() > 0
            invariant
                0 <= i <= s0.len(),
                rest@ == s0.skip(i),
                i + rest@.len() == s0.len(),
                distinct_ids(s0),
                sorted_by_access(built@),
                distinct_ids(built@),
                built@.to_multiset() == s0.take(i).to_multiset(),
                built@.len() == i,
                forall|p: int|
                    0 <= p < built@.len() ==> exists|q: int|
                        0 <= q < i && #[trigger] built@[p] == #[trigger] s0[q],
            decreases rest@.len(),
        {
            let e: CacheEntry = rest.remove(0);
            proof {
                assert(e == s0[i]);
                assert(rest@ =~= s0.skip(i + 1));
            }
            // Find the first position whose timestamp exceeds the new entry's.
            let mut pos: usize = 0;
            let blen: usize = built.len();
            while pos < blen && built[pos].last_accessed <= e.last_accessed
                invariant
                    pos <= blen,
                    blen == built@.len(),
                    forall|k: int| 0 <= k < pos ==> built@[k].last_accessed <= e.last_accessed,
                decreases blen - pos,
            {
                pos = pos + 1;
            }
            let ghost bprev = built@;
            built.insert(pos, e);
            proof {
                broadcast use vstd::seq_lib::group_to_multiset_ensures, vstd::seq_lib::to_multiset_insert;
                assert(s0.take(i + 1) =~= s0.take(i).push(s0[i]));
                assert(bprev.insert(pos as int, e).to_multiset() == bprev.to_multiset().insert(e));
                assert(s0.take(i).push(s0[i]).to_multiset() == s0.take(i).to_multiset().insert(s0[i]));
                assert(built@.to_multiset() == s0.take(i + 1).to_multiset());
                assert forall|p: int, q: int| 0 <= p < q < built@.len() implies
                    built@[p].track_id@ != built@[q].track_id@ by {
                    let b = built@;
                    let p0 = if p < pos { p } else { p - 1 };
                    let q0 = if q < pos { q } else { q - 1 };
                    if p == pos {
                        assert(b[q] == bprev[q0]);
                        let w = choose|w: int| 0 <= w < i && bprev[q0] == s0[w];
                        assert(s0[w].track_id@ != s0[i].track_id@);
                    } else if q == pos {
                        assert(b[p] == bprev[p0]);
                        let w = choose|w: int| 0 <= w < i && bprev[p0] == s0[w];
                        assert(s0[w].track_id@ != s0[i].track_id@);
                    } else {
                        assert(b[p] == bprev[p0] && b[q] == bprev[q0]);
                    }
                }
                assert forall|p: int, q: int| 0 <= p <= q < built@.len() implies
                    built@[p].last_accessed <= built@[q].last_accessed by {
                    let b = built@;
                    let p0 = if p < pos { p } else { p - 1 };
                    let q0 = if q < pos { q } else { q - 1 };
                    if p == pos && q == pos {
                    } else if p == pos {
                        assert(b[q] == bprev[q0] && q0 >= pos);
                        assert(!(pos < blen && bprev[pos as int].last_accessed <= e.last_accessed));
                        if pos < blen {
                            assert(bprev[pos as int].last_accessed <= bprev[q0].last_accessed);
                        }
                    } else if q == pos {
                        assert(b[p] == bprev[p0] && p0 < pos);
                    } else {
                        assert(b[p] == bprev[p0] && b[q] == bprev[q0]);
                    }
                }
                assert forall|p: int| 0 <= p < built@.len() implies
                    exists|q: int| 0 <= q < i + 1 && #[trigger] built@[p] == #[trigger] s0[q] by {
                    let b = built@;
                    if p == pos {
                        assert(b[p] == s0[i]);
                    } else {
                        let p0 = if p < pos { p } else { p - 1 };
                        assert(b[p] == bprev[p0]);
                        let w = choose|w: int| 0 <= w < i && bprev[p0] == s0[w];
                        assert(0 <= w < i + 1 && b[p] == s0[w]);
                    }
                }
                i = i + 1;
            }
        }
        proof {
            assert(s0.take(i) =~= s0);
        }
        let ghost all = built@;
        let ghost mut d: int = 0;
        while built.len() > max_entries
            invariant
                max_entries >= 1,
                0 <= d <= all.len(),
                built@ == all.skip(d),
                d + built@.len() == all.len(),
                built@.len() >= max_entries || d == 0,
            decreases built@.len(),
        {
            let _dropped: CacheEntry = built.remove(0);
            proof {
                assert(built@ =~= all.skip(d + 1));
                d = d + 1;
            }
        }
        let c = AudioCache { entries: built, max_entries };
        proof {
            broadcast use vstd::seq_lib::group_to_multiset_ensures;
            assert forall|p: int, q: int| 0 <= p < q < c.entries@.len() implies
                c.entries@[p].track_id@ != c.entries@[q].track_id@ by {
                assert(c.entries@[p] == all[p + d] && c.entries@[q] == all[q + d]);
            }
            assert forall|p: int, q: int| 0 <= p <= q < c.entries@.len() implies
                c.entries@[p].last_accessed <= c.entries@[q].last_accessed by {
                assert(c.entries@[p] == all[p + d] && c.entries@[q] == all[q + d]);
            }
            assert(all.len() == s0.len()) by {
                assert(all.to_multiset().len() == all.len());
                assert(s0.to_multiset().len() == s0.len());
            }
            assert(all.to_multiset() == s0.to_multiset() && sorted_by_access(all)
                && c.entries@ == all.skip(all.len() - c.entries@.len()));
        }
        c
    }
}


/// The LRU eviction law: once the cache is at capacity, the entry the next
/// eviction removes (the front of the order) carries the oldest access
/// timestamp among the current entries.
pub proof fn lemma_lru_eviction_oldest(c: AudioCache)
    requires
        c.wf(),
        c.entries@.len() >= c.max_entries,
    ensures
        c.entries@.len() > 0,
        forall|i: int|
            0 <= i < c.entries@.len() ==> c.entries@[0].last_accessed
                <= #[trigger] c.entries@[i].last_accessed,
{
}

/// The idempotent-lookup law: two consecutive hits on the same identifier
/// (no intervening eviction, the file present both times) return the
/// identical path, do not duplicate the entry, and leave every other entry
/// in exactly the order it had after the first hit.
pub proof fn lemma_lookup_idempotent(s: Seq<CacheEntry>, id: Seq<char>, t1: u64, t2: u64)
    requires
        distinct_ids(s),
        sorted_by_access(s),
        fresh_time(s, t1),
        t1 <= t2,
        contains_id(s, id),
    ensures
        ({
            let i1 = idx_of(s, id);
            let s1 = hit_update(s, i1, t1);
            let i2 = idx_of(s1, id);
            let s2 = hit_update(s1, i2, t2);
            &&& contains_id(s1, id)
            &&& s1[i2].file_path@ == s[i1].file_path@
            &&& s1.len() == s.len() && s2.len() == s.len()
            &&& distinct_ids(s1) && distinct_ids(s2)
            &&& s1.take(s1.len() - 1) == s.remove(i1)
            &&& s2.take(s2.len() - 1) == s1.take(s1.len() - 1)
        }),
{
    let i1 = idx_of(s, id);
    assert(0 <= i1 < s.len() && s[i1].track_id@ == id);
    let s1 = hit_update(s, i1, t1);
    lemma_hit_update_wf(s, i1, t1);
    assert(s1[s1.len() - 1].track_id@ == id);
    assert(contains_id(s1, id));
    let i2 = idx_of(s1, id);
    assert(0 <= i2 < s1.len() && s1[i2].track_id@ == id);
    assert(i2 == s1.len() - 1);
    let s2 = hit_update(s1, i2, t2);
    lemma_hit_update_wf(s1, i2, t2);
    assert(s1.take(s1.len() - 1) =~= s.remove(i1));
    assert(s1.remove(i2) =~= s.remove(i1));
    assert(s2.take(s2.len() - 1) =~= s1.remove(i2));
}

/// Removing any entry preserves distinctness and the access order.
proof fn lemma_remove_wf(s: Seq<CacheEntry>, i: int)
    requires
        0 <= i < s.len(),
        distinct_ids(s),
        sorted_by_access(s),
    ensures
        s.remove(i).len() == s.len() - 1,
        distinct_ids(s.remove(i)),
        sorted_by_access(s.remove(i)),
{
    let t = s.remove(i);
    assert forall|p: int, q: int| 0 <= p < q < t.len() implies t[p].track_id@ != t[q].track_id@ by {
        let p0 = if p < i { p } else { p + 1 };
        let q0 = if q < i { q } else { q + 1 };
        assert(t[p] == s[p0] && t[q] == s[q0]);
    }
    assert forall|p: int, q: int| 0 <= p <= q < t.len() implies
        t[p].last_accessed <= t[q].last_accessed by {
        let p0 = if p < i { p } else { p + 1 };
        let q0 = if q < i { q } else { q + 1 };
        assert(t[p] == s[p0] && t[q] == s[q0]);
    }
}

/// A cache hit keeps the invariant: the touched entry moves to the end with
/// a timestamp at least as large as every other.
proof fn lemma_hit_update_wf(s: Seq<CacheEntry>, i: int, now: u64)
    requires
        0 <= i < s.len(),
        distinct_ids(s),
        sorted_by_access(s),
        fresh_time(s, now),
    ensures
        hit_update(s, i, now).len() == s.len(),
        distinct_ids(hit_update(s, i, now)),
        sorted_by_access(hit_update(s, i, now)),
        fresh_time(hit_update(s, i, now), now),
{
    lemma_remove_wf(s, i);
    let t = s.remove(i);
    let u = hit_update(s, i, now);
    assert forall|p: int, q: int| 0 <= p < q < u.len() implies u[p].track_id@ != u[q].track_id@ by {
        if q < u.len() - 1 {
            assert(u[p] == t[p] && u[q] == t[q]);
        } else {
            assert(u[p] == t[p]);
            assert(u[q].track_id@ == s[i].track_id@);
            let p0 = if p < i { p } else { p + 1 };
            assert(t[p] == s[p0]);
        }
    }
    assert forall|p: int, q: int| 0 <= p <= q < u.len() implies
        u[p].last_accessed <= u[q].last_accessed by {
        if q < u.len() - 1 {
            assert(u[p] == t[p] && u[q] == t[q]);
        } else if p < u.len() - 1 {
            assert(u[p] == t[p]);
            let p0 = if p < i { p } else { p + 1 };
            assert(t[p] == s[p0]);
        }
    }
}

} // verus!
