//! Bookkeeping of the gallery thumbnails: which image indices are cached
//! (least recently used ones leave first), which are being generated, and
//! which wait for a free generation slot.
//!
//! The thumbnail pixels themselves are kept by the caller, keyed by image
//! index; this manager tells it which index to generate next and which
//! cached index was evicted.

use vstd::prelude::*;
use lru::LruCache;
use std::collections::{HashSet, VecDeque};

verus! {

broadcast use vstd::std_specs::hash::group_hash_axioms;

/// Maximum number of concurrent thumbnail generation tasks.
pub const MAX_CONCURRENT_GENERATION: usize = 4;

/// Edge length of the square thumbnails.
pub const THUMBNAIL_SIZE: u32 = 256;

#[verifier::external_type_specification]
#[verifier::external_body]
#[verifier::reject_recursive_types(K)]
#[verifier::reject_recursive_types(V)]
#[verifier::reject_recursive_types(S)]
pub struct ExLruCache<K, V, S>(LruCache<K, V, S>);

#[verifier::external_type_specification]
#[verifier::external_body]
pub struct ExLruDefaultHasher(lru::DefaultHasher);

/// The keys an LRU cache holds, most recently used first.
pub uninterp spec fn lru_keys(c: LruCache<usize, ()>) -> Seq<usize>;

/// The number of entries an LRU cache was made to hold.
pub uninterp spec fn lru_cap(c: LruCache<usize, ()>) -> nat;

/// A key list after `k` became the most recently used key.
pub open spec fn promoted(keys: Seq<usize>, k: usize) -> Seq<usize> {
    seq![k] + keys.remove(keys.index_of(k))
}

/// `lru::LruCache::new` with capacity `cap`: the cache starts empty and
/// holds at most `cap` entries.
#[verifier::external_body]
fn lru_new(cap: usize) -> (c: LruCache<usize, ()>)
    requires
        cap > 0,
    ensures
        lru_keys(c) == Seq::<usize>::empty(),
        lru_cap(c) == cap,
{
    LruCache::new(std::num::NonZeroUsize::new(cap).unwrap())
}

/// `lru::LruCache::push`. As the crate's source shows: a key already held
/// moves to the front and its own entry is handed back; otherwise the key is
/// put in front, and when the cache was full the least recently used entry
/// (the last) leaves and is handed back.
#[verifier::external_body]
fn lru_push(c: &mut LruCache<usize, ()>, k: usize) -> (r: Option<usize>)
    requires
        lru_keys(*old(c)).no_duplicates(),
        lru_keys(*old(c)).len() <= lru_cap(*old(c)),
    ensures
        lru_cap(*final(c)) == lru_cap(*old(c)),
        lru_keys(*old(c)).contains(k) ==> lru_keys(*final(c)) == promoted(lru_keys(*old(c)), k)
            && r == Some(k),
        !lru_keys(*old(c)).contains(k) && lru_keys(*old(c)).len() == lru_cap(*old(c))
            ==> lru_keys(*final(c)) == seq![k] + lru_keys(*old(c)).drop_last() && r == Some(
            lru_keys(*old(c)).last(),
        ),
        !lru_keys(*old(c)).contains(k) && lru_keys(*old(c)).len() < lru_cap(*old(c))
            ==> lru_keys(*final(c)) == seq![k] + lru_keys(*old(c)) && r is None,
{
    c.push(k, ()).map(|(key, _)| key)
}

/// `lru::LruCache::get`: a held key moves to the front and the call reports
/// it found; otherwise nothing changes.
#[verifier::external_body]
fn lru_get(c: &mut LruCache<usize, ()>, k: usize) -> (found: bool)
    requires
        lru_keys(*old(c)).no_duplicates(),
    ensures
        lru_cap(*final(c)) == lru_cap(*old(c)),
        found == lru_keys(*old(c)).contains(k),
        found ==> lru_keys(*final(c)) == promoted(lru_keys(*old(c)), k),
        !found ==> lru_keys(*final(c)) == lru_keys(*old(c)),
{
    c.get(&k).is_some()
}

/// `lru::LruCache::contains`, which leaves the order alone.
#[verifier::external_body]
fn lru_contains(c: &LruCache<usize, ()>, k: usize) -> (b: bool)
    ensures
        b == lru_keys(*c).contains(k),
{
    c.contains(&k)
}

/// `lru::LruCache::len`.
#[verifier::external_body]
fn lru_len(c: &LruCache<usize, ()>) -> (n: usize)
    ensures
        n == lru_keys(*c).len(),
{
    c.len()
}

/// `lru::LruCache::clear`: every entry leaves; the capacity stays.
#[verifier::external_body]
fn lru_clear(c: &mut LruCache<usize, ()>)
    ensures
        lru_keys(*final(c)) == Seq::<usize>::empty(),
        lru_cap(*final(c)) == lru_cap(*old(c)),
{
    c.clear()
}

/// `lru::LruCache::iter`, each entry mapped to its key: the keys in
/// most-recently-used order.
#[verifier::external_body]
fn lru_key_list(c: &LruCache<usize, ()>) -> (v: Vec<usize>)
    ensures
        v@ == lru_keys(*c),
{
    c.iter().map(|(k, _)| *k).collect()
}

/// Whether a queued request asks for index `i`.
pub open spec fn queued(pending: Seq<(usize, String)>, i: usize) -> bool {
    exists|j: int| 0 <= j < pending.len() && (#[trigger] pending[j]).0 == i
}

/// What draining the waiting queue gives: the indices being generated, the
/// requests still waiting, and the requests started, in order. Requests for
/// an index already cached or being generated are dropped; draining stops
/// when all generation slots are busy or nothing waits.
pub open spec fn drain(cached: Seq<usize>, loading: Set<usize>, pending: Seq<(usize, String)>) -> (
    Set<usize>,
    Seq<(usize, String)>,
    Seq<(usize, String)>,
)
    decreases pending.len(),
{
    if loading.len() >= MAX_CONCURRENT_GENERATION || pending.len() == 0 {
        (loading, pending, Seq::empty())
    } else {
        let i = pending[0].0;
        if cached.contains(i) || loading.contains(i) {
            drain(cached, loading, pending.drop_first())
        } else {
            let rest = drain(cached, loading.insert(i), pending.drop_first());
            (rest.0, rest.1, seq![pending[0]] + rest.2)
        }
    }
}

/// Bookkeeping of the gallery thumbnails.
pub struct ThumbnailManager {
    cache: LruCache<usize, ()>,
    loading_tasks: HashSet<usize>,
    pending_queue: VecDeque<(usize, String)>,
    newly_cached: Vec<usize>,
}

impl ThumbnailManager {
    /// Cached indices, most recently used first.
    pub closed spec fn cached(&self) -> Seq<usize> {
        lru_keys(self.cache)
    }

    /// How many thumbnails the cache holds at most.
    pub closed spec fn capacity(&self) -> nat {
        lru_cap(self.cache)
    }

    /// Indices whose thumbnails are being generated.
    pub closed spec fn loading(&self) -> Set<usize> {
        self.loading_tasks@
    }

    /// Requests waiting for a free generation slot, oldest first.
    pub closed spec fn pending(&self) -> Seq<(usize, String)> {
        self.pending_queue@
    }

    /// Indices cached since the last drain, in order.
    pub closed spec fn newly(&self) -> Seq<usize> {
        self.newly_cached@
    }

    /// The manager's invariant: no index is cached twice, the cache never
    /// exceeds its capacity, and at most the allowed number of thumbnails
    /// are generated at once.
    pub closed spec fn wf(&self) -> bool {
        &&& lru_keys(self.cache).no_duplicates()
        &&& lru_keys(self.cache).len() <= lru_cap(self.cache)
        &&& lru_cap(self.cache) > 0
        &&& self.loading_tasks@.finite()
        &&& self.loading_tasks@.len() <= MAX_CONCURRENT_GENERATION
    }

    /// A manager whose cache holds at most `max_cache_size` thumbnails.
    pub fn new(max_cache_size: usize) -> (m: ThumbnailManager)
        requires
            max_cache_size > 0,
        ensures
            m.wf(),
            m.cached() == Seq::<usize>::empty(),
            m.capacity() == max_cache_size,
            m.loading() == Set::<usize>::empty(),
            m.pending() == Seq::<(usize, String)>::empty(),
            m.newly() == Seq::<usize>::empty(),
    {
        ThumbnailManager {
            cache: lru_new(max_cache_size),
            loading_tasks: HashSet::new(),
            pending_queue: VecDeque::new(),
            newly_cached: Vec::new(),
        }
    }

    /// Asks for the thumbnail of image `index`. Nothing happens when it is
    /// cached, being generated or already waiting. When every generation
    /// slot is busy the request waits at the back of the queue; otherwise the
    /// index counts as being generated and the request is handed back for
    /// the caller to start.
    pub fn request_thumbnail(&mut self, index: usize, path: String) -> (start: Option<(usize, String)>)
        requires
            old(self).wf(),
        ensures
            final(self).wf(),
            final(self).cached() == old(self).cached(),
            final(self).capacity() == old(self).capacity(),
            final(self).newly() == old(self).newly(),
            old(self).cached().contains(index) || old(self).loading().contains(index) || queued(
                old(self).pending(),
                index,
            ) ==> start is None && final(self).loading() == old(self).loading()
                && final(self).pending() == old(self).pending(),
            !(old(self).cached().contains(index) || old(self).loading().contains(index) || queued(
                old(self).pending(),
                index,
            )) && old(self).loading().len() >= MAX_CONCURRENT_GENERATION ==> start is None
                && final(self).loading() == old(self).loading() && final(self).pending()
                == old(self).pending().push((index, path)),
            !(old(self).cached().contains(index) || old(self).loading().contains(index) || queued(
                old(self).pending(),
                index,
            )) && old(self).loading().len() < MAX_CONCURRENT_GENERATION ==> start == Some(
                (index, path),
            ) && final(self).loading() == old(self).loading().insert(index) && final(self).pending() == old(self).pending(),
    {
        if lru_contains(&self.cache, index) || self.loading_tasks.contains(&index) {
            return None;
        }
        let mut j: usize = 0;
        while j < self.pending_queue.len()
            invariant
                self.wf(),
                j <= self.pending_queue@.len(),
                forall|k: int| 0 <= k < j ==> (#[trigger] self.pending_queue@[k]).0 != index,
            decreases self.pending_queue@.len() - j,
        {
            if self.pending_queue[j].0 == index {
                assert(self.pending_queue@[j as int].0 == index);
                return None;
            }
            j = j + 1;
        }
        if self.loading_tasks.len() >= MAX_CONCURRENT_GENERATION {
            self.pending_queue.push_back((index, path));
            return None;
        }
        self.loading_tasks.insert(index);
        Some((index, path))
    }

    /// Records that generating the thumbnail of `index` has ended;
    /// `succeeded` tells whether a thumbnail came out. A thumbnail that came
    /// out enters the cache as the most recently used one and is listed as
    /// newly cached; when that pushes out the least recently used entry of a
    /// full cache, its index is handed back so the caller can drop its pixels.
    pub fn complete(&mut self, index: usize, succeeded: bool) -> (evicted: Option<usize>)
        requires
            old(self).wf(),
        ensures
            final(self).wf(),
            final(self).capacity() == old(self).capacity(),
            final(self).loading() == old(self).loading().remove(index),
            final(self).pending() == old(self).pending(),
            !succeeded ==> evicted is None && final(self).cached() == old(self).cached()
                && final(self).newly() == old(self).newly(),
            succeeded ==> final(self).newly() == old(self).newly().push(index),
            succeeded ==> final(self).cached().len() > 0 && final(self).cached()[0] == index
                && final(self).cached().contains(index),
            succeeded && old(self).cached().contains(index) ==> final(self).cached() == promoted(
                old(self).cached(),
                index,
            ) && evicted is None,
            succeeded && !old(self).cached().contains(index) && old(self).cached().len()
                == old(self).capacity() ==> final(self).cached() == seq![index] + old(self).cached().drop_last() && evicted == Some(old(self).cached().last()),
            succeeded && !old(self).cached().contains(index) && old(self).cached().len()
                < old(self).capacity() ==> final(self).cached() == seq![index] + old(self).cached()
                && evicted is None,
    {
        let ghost l0 = self.loading_tasks@;
        self.loading_tasks.remove(&index);
        proof {
            if l0.contains(index) {
                assert(self.loading_tasks@.len() == l0.len() - 1);
            } else {
                assert(self.loading_tasks@ =~= l0);
            }
        }
        if !succeeded {
            return None;
        }
        let ghost keys = lru_keys(self.cache);
        let replaced = lru_push(&mut self.cache, index);
        self.newly_cached.push(index);
        proof {
            lemma_promoted_keeps_distinct(keys, index);
            lemma_fresh_front_keeps_distinct(keys, index);
        }
        match replaced {
            Some(k) => {
                if k == index {
                    None
                } else {
                    Some(k)
                }
            },
            None => None,
        }
    }

    /// Starts waiting requests while generation slots are free, dropping
    /// those whose index was cached or started meanwhile; returns the
    /// requests started, oldest first, for the caller to run.
    pub fn start_pending(&mut self) -> (started: Vec<(usize, String)>)
        requires
            old(self).wf(),
        ensures
            final(self).wf(),
            final(self).cached() == old(self).cached(),
            final(self).capacity() == old(self).capacity(),
            final(self).newly() == old(self).newly(),
            (final(self).loading(), final(self).pending(), started@) == drain(
                old(self).cached(),
                old(self).loading(),
                old(self).pending(),
            ),
    {
        let ghost cached = lru_keys(self.cache);
        let ghost target = drain(cached, self.loading_tasks@, self.pending_queue@);
        let ghost cap0 = lru_cap(self.cache);
        let ghost newly0 = self.newly_cached@;
        let mut started: Vec<(usize, String)> = Vec::new();
        while self.loading_tasks.len() < MAX_CONCURRENT_GENERATION && self.pending_queue.len() > 0
            invariant
                self.wf(),
                lru_keys(self.cache) == cached,
                lru_cap(self.cache) == cap0,
                self.newly_cached@ == newly0,
                ({
                    let rest = drain(cached, self.loading_tasks@, self.pending_queue@);
                    target == (rest.0, rest.1, started@ + rest.2)
                }),
            decreases self.pending_queue@.len(),
        {
            let ghost before_l = self.loading_tasks@;
            let ghost before_p = self.pending_queue@;
            let ghost before_s = started@;
            if let Some((i, p)) = self.pending_queue.pop_front() {
                assert(self.pending_queue@ =~= before_p.drop_first());
                if lru_contains(&self.cache, i) || self.loading_tasks.contains(&i) {
                } else {
                    self.loading_tasks.insert(i);
                    started.push((i, p));
                    proof {
                        let rest = drain(cached, self.loading_tasks@, self.pending_queue@);
                        assert(started@ + rest.2 =~= before_s + (seq![before_p[0]] + rest.2));
                    }
                }
            }
        }
        proof {
            assert(started@ + Seq::<(usize, String)>::empty() =~= started@);
        }
        started
    }

    /// Whether the thumbnail of `index` is cached; a cached one becomes the
    /// most recently used.
    pub fn get_thumbnail(&mut self, index: usize) -> (found: bool)
        requires
            old(self).wf(),
        ensures
            final(self).wf(),
            found == old(self).cached().contains(index),
            found ==> final(self).cached() == promoted(old(self).cached(), index),
            !found ==> final(self).cached() == old(self).cached(),
            final(self).capacity() == old(self).capacity(),
            final(self).loading() == old(self).loading(),
            final(self).pending() == old(self).pending(),
            final(self).newly() == old(self).newly(),
    {
        let ghost keys = lru_keys(self.cache);
        let found = lru_get(&mut self.cache, index);
        proof {
            lemma_promoted_keeps_distinct(keys, index);
        }
        found
    }

    /// Forgets every cached thumbnail, every task and every waiting request.
    pub fn clear(&mut self)
        requires
            old(self).wf(),
        ensures
            final(self).wf(),
            final(self).cached() == Seq::<usize>::empty(),
            final(self).capacity() == old(self).capacity(),
            final(self).loading() == Set::<usize>::empty(),
            final(self).pending() == Seq::<(usize, String)>::empty(),
            final(self).newly() == Seq::<usize>::empty(),
    {
        lru_clear(&mut self.cache);
        self.loading_tasks.clear();
        self.pending_queue.clear();
        self.newly_cached.clear();
    }

    /// Drops the waiting requests only.
    pub fn clear_pending(&mut self)
        requires
            old(self).wf(),
        ensures
            final(self).wf(),
            final(self).cached() == old(self).cached(),
            final(self).capacity() == old(self).capacity(),
            final(self).loading() == old(self).loading(),
            final(self).pending() == Seq::<(usize, String)>::empty(),
            final(self).newly() == old(self).newly(),
    {
        self.pending_queue.clear();
    }

    /// The indices cached since the previous call, in order; the list
    /// starts over empty.
    pub fn drain_newly_cached(&mut self) -> (v: Vec<usize>)
        requires
            old(self).wf(),
        ensures
            final(self).wf(),
            v@ == old(self).newly(),
            final(self).newly() == Seq::<usize>::empty(),
            final(self).cached() == old(self).cached(),
            final(self).capacity() == old(self).capacity(),
            final(self).loading() == old(self).loading(),
            final(self).pending() == old(self).pending(),
    {
        let mut v: Vec<usize> = Vec::new();
        std::mem::swap(&mut v, &mut self.newly_cached);
        v
    }

    /// The number of cached thumbnails.
    pub fn cache_size(&self) -> (n: usize)
        ensures
            n == self.cached().len(),
    {
        lru_len(&self.cache)
    }

    /// The number of thumbnails being generated.
    pub fn pending_count(&self) -> (n: usize)
        requires
            self.wf(),
        ensures
            n == self.loading().len(),
    {
        self.loading_tasks.len()
    }

    /// The cached indices, most recently used first.
    pub fn get_cached_indices(&self) -> (v: Vec<usize>)
        ensures
            v@ == self.cached(),
    {
        lru_key_list(&self.cache)
    }
}

/// Moving a held key to the front keeps the keys distinct and their number.
proof fn lemma_promoted_keeps_distinct(keys: Seq<usize>, k: usize)
    requires
        keys.no_duplicates(),
    ensures
        keys.contains(k) ==> promoted(keys, k).no_duplicates() && promoted(keys, k).len()
            == keys.len() && promoted(keys, k).to_set() == keys.to_set(),
{
    if keys.contains(k) {
        let i = keys.index_of(k);
        keys.index_of_first_ensures(k);
        let rest = keys.remove(i);
        let p = promoted(keys, k);
        assert forall|a: int, b: int| 0 <= a < p.len() && 0 <= b < p.len() && a != b implies p[a]
            != p[b] by {
            if a > 0 && b > 0 {
                let a0 = if a - 1 < i { a - 1 } else { a };
                let b0 = if b - 1 < i { b - 1 } else { b };
                assert(p[a] == keys[a0]);
                assert(p[b] == keys[b0]);
            } else if a == 0 {
                let b0 = if b - 1 < i { b - 1 } else { b };
                assert(p[b] == keys[b0]);
                assert(b0 != i);
            } else {
                let a0 = if a - 1 < i { a - 1 } else { a };
                assert(p[a] == keys[a0]);
                assert(a0 != i);
            }
        }
        assert forall|x: usize| p.to_set().contains(x) <==> keys.to_set().contains(x) by {
            if keys.contains(x) {
                let j = choose|j: int| 0 <= j < keys.len() && keys[j] == x;
                if j < i {
                    assert(p[j + 1] == x);
                } else if j > i {
                    assert(p[j] == x);
                } else {
                    assert(p[0] == x);
                }
            }
            if p.contains(x) {
                let j = choose|j: int| 0 <= j < p.len() && p[j] == x;
                if j > 0 {
                    let j0 = if j - 1 < i { j - 1 } else { j };
                    assert(keys[j0] == x);
                }
            }
        }
        assert(p.to_set() =~= keys.to_set());
    }
}

/// Putting a key not held in front of the keys, possibly without the last
/// one, keeps the keys distinct.
proof fn lemma_fresh_front_keeps_distinct(keys: Seq<usize>, k: usize)
    requires
        keys.no_duplicates(),
    ensures
        !keys.contains(k) ==> (seq![k] + keys).no_duplicates(),
        !keys.contains(k) && keys.len() > 0 ==> (seq![k] + keys.drop_last()).no_duplicates(),
{
    if !keys.contains(k) {
        let s = seq![k] + keys;
        assert forall|a: int, b: int| 0 <= a < s.len() && 0 <= b < s.len() && a != b implies s[a]
            != s[b] by {
            if a > 0 && b > 0 {
                assert(s[a] == keys[a - 1]);
                assert(s[b] == keys[b - 1]);
            } else if a == 0 {
                assert(s[b] == keys[b - 1]);
            } else {
                assert(s[a] == keys[a - 1]);
            }
        }
        if keys.len() > 0 {
            let d = keys.drop_last();
            let t = seq![k] + d;
            assert forall|a: int, b: int| 0 <= a < t.len() && 0 <= b < t.len() && a != b implies t[a]
                != t[b] by {
                assert(t[a] == s[a]);
                assert(t[b] == s[b]);
            }
        }
    }
}

} // verus!
