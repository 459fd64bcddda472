//! The image list, the current position in it, and the planning of the
//! rolling texture cache around that position.

use rand::seq::SliceRandom;
use std::collections::HashMap;
use vstd::prelude::*;

verus! {

broadcast use vstd::std_specs::hash::group_hash_axioms;

/// Maximum number of image loads in flight at once.
pub const MAX_CONCURRENT_TASKS: usize = 4;

/// `floor(log2(n))` for `n >= 1` (and 0 for `n == 0`).
pub open spec fn floor_log2(n: nat) -> nat
    decreases n,
{
    if n <= 1 {
        0
    } else {
        1 + floor_log2(n / 2)
    }
}

/// The largest of the two dimensions, and at least 1.
pub open spec fn mip_base(width: u32, height: u32) -> nat {
    let m = if width >= height {
        width
    } else {
        height
    };
    if m >= 1 {
        m as nat
    } else {
        1
    }
}

/// `floor_log2` of a value below `2^b` is below `b`.
pub proof fn lemma_floor_log2_bound(n: nat, b: nat)
    requires
        1 <= n,
        n < vstd::arithmetic::power2::pow2(b),
    ensures
        floor_log2(n) < b,
    decreases b,
{
    if n <= 1 {
        if b == 0 {
            vstd::arithmetic::power2::lemma2_to64();
        }
    } else {
        if b == 0 {
            vstd::arithmetic::power2::lemma2_to64();
        } else {
            vstd::arithmetic::power2::lemma_pow2_unfold(b);
            lemma_floor_log2_bound(n / 2, (b - 1) as nat);
        }
    }
}

/// `floor_log2(n)` is the exponent of the largest power of two not above `n`.
pub proof fn lemma_floor_log2_brackets(n: nat)
    requires
        n >= 1,
    ensures
        vstd::arithmetic::power2::pow2(floor_log2(n)) <= n < vstd::arithmetic::power2::pow2(
            floor_log2(n) + 1,
        ),
    decreases n,
{
    vstd::arithmetic::power2::lemma2_to64();
    if n > 1 {
        let k = floor_log2(n / 2);
        lemma_floor_log2_brackets(n / 2);
        vstd::arithmetic::power2::lemma_pow2_unfold(k + 1);
        vstd::arithmetic::power2::lemma_pow2_unfold(k + 2);
    }
}

/// An image gets one mip level per halving of its larger side down to a
/// single pixel: with `c` levels, `2^(c-1) <= max(width, height, 1) < 2^c`,
/// so the last level is 1 pixel on its larger side and no level is left out.
pub proof fn lemma_mip_levels_halve_to_one(width: u32, height: u32)
    ensures
        mip_base(width, height) >= width,
        mip_base(width, height) >= height,
        mip_base(width, height) >= 1,
        width >= 1 || height >= 1 ==> (mip_base(width, height) == width || mip_base(width, height) == height),
        vstd::arithmetic::power2::pow2((floor_log2(mip_base(width, height)) + 1 - 1) as nat) <= mip_base(width, height),
        mip_base(width, height) < vstd::arithmetic::power2::pow2(floor_log2(mip_base(width, height)) + 1),
{
    lemma_floor_log2_brackets(mip_base(width, height));
}

/// Number of mip levels for an image: one per halving of the larger side
/// down to a single pixel, i.e. `floor(log2(max(width, height, 1))) + 1`.
pub fn mip_level_count(width: u32, height: u32) -> (c: u32)
    ensures
        c == floor_log2(mip_base(width, height)) + 1,
{
    let mut m: u32 = if width >= height {
        width
    } else {
        height
    };
    if m < 1 {
        m = 1;
    }
    let ghost base = m as nat;
    proof {
        vstd::arithmetic::power2::lemma2_to64();
        lemma_floor_log2_bound(base, 32);
    }
    let mut k: u32 = 0;
    while m > 1
        invariant
            1 <= m,
            floor_log2(base) == k + floor_log2(m as nat),
            floor_log2(base) < 32,
        decreases m,
    {
        m = m / 2;
        k = k + 1;
    }
    k + 1
}

/// Index after a forward step: `(moved, new_index)`.
pub open spec fn next_step(cur: int, len: int, pause_at_last: bool) -> (bool, int) {
    if len == 0 {
        (false, cur)
    } else if cur + 1 < len {
        (true, cur + 1)
    } else if !pause_at_last {
        (true, 0)
    } else {
        (false, cur)
    }
}

/// Index after a backward step: `(moved, new_index)`.
pub open spec fn previous_step(cur: int, len: int, pause_at_last: bool) -> (bool, int) {
    if len == 0 {
        (false, cur)
    } else if cur > 0 {
        (true, cur - 1)
    } else if !pause_at_last {
        (true, len - 1)
    } else {
        (false, cur)
    }
}


/// The epoch that follows `e` (wrapping at `u64::MAX`).
pub open spec fn next_epoch(e: u64) -> u64 {
    if e == u64::MAX {
        0
    } else {
        (e + 1) as u64
    }
}

/// Shuffles the list in place with `rand::seq::SliceRandom::shuffle` and the
/// thread-local generator `rand::rng()`. The contract claims only that the
/// result is a permutation of the input; which permutation is left to chance.
#[verifier::external_body]
pub(crate) fn shuffle_strings(v: &mut Vec<String>)
    ensures
        final(v)@.to_multiset() == old(v)@.to_multiset(),
        final(v)@.len() == old(v)@.len(),
{
    v.shuffle(&mut rand::rng());
}

/// A copy of a list of paths.
pub fn clone_paths(v: &Vec<String>) -> (r: Vec<String>)
    ensures
        r@ == v@,
{
    let mut r: Vec<String> = Vec::new();
    let mut i: usize = 0;
    while i < v.len()
        invariant
            i <= v.len(),
            r@ == v@.subrange(0, i as int),
        decreases v.len() - i,
    {
        r.push(v[i].clone());
        i = i + 1;
    }
    assert(r@ =~= v@);
    r
}

/// The first position whose path reads the same as `target`.
pub fn position_of(paths: &Vec<String>, target: &String) -> (r: Option<usize>)
    ensures
        r matches Some(i) ==> i < paths@.len() && paths@[i as int]@ == target@ && forall|j: int|
            0 <= j < i ==> paths@[j]@ != target@,
        r is None ==> forall|j: int| 0 <= j < paths@.len() ==> paths@[j]@ != target@,
{
    let mut i: usize = 0;
    while i < paths.len()
        invariant
            i <= paths@.len(),
            forall|j: int| 0 <= j < i ==> paths@[j]@ != target@,
        decreases paths.len() - i,
    {
        if paths[i] == *target {
            return Some(i);
        }
        i = i + 1;
    }
    None
}


/// Distance walking forward (with wrap-around) from `cur` to `j` in a list of `len`.
pub open spec fn forward_distance(cur: int, j: int, len: int) -> int {
    if j >= cur {
        j - cur
    } else {
        j + len - cur
    }
}

/// Distance walking backward (with wrap-around) from `cur` to `j`.
pub open spec fn backward_distance(cur: int, j: int, len: int) -> int {
    if cur >= j {
        cur - j
    } else {
        cur + len - j
    }
}

/// How far the cache reaches on each side: the extent, but never more than
/// the list minus the current image.
pub open spec fn effective_extent(extent: int, len: int) -> int {
    if extent < len - 1 {
        extent
    } else {
        len - 1
    }
}

/// Whether image `j` lies in the cache window around `cur`: at most
/// `extent` steps away in either direction, wrapping around the list.
pub open spec fn in_window(cur: int, j: int, len: int, extent: int) -> bool {
    &&& 0 <= j < len
    &&& (forward_distance(cur, j, len) <= effective_extent(extent, len) || backward_distance(
        cur,
        j,
        len,
    ) <= effective_extent(extent, len))
}

/// The number of steps between `i` and `c` in a list of `n` that wraps
/// around: the shorter of the two ways.
pub open spec fn cyclic_distance(i: int, c: int, n: int) -> int {
    let f = (i + n - c) % n;
    let b = (c + n - i) % n;
    if f <= b {
        f
    } else {
        b
    }
}

/// Image `i` lies in the cache window around `c` exactly when it is in the
/// list and its cyclic distance from `c` is at most the extent (and at most
/// the list minus the current image).
pub proof fn lemma_window_cyclic_distance(c: int, n: int, extent: int, i: int)
    requires
        0 <= c < n,
        0 <= extent,
    ensures
        in_window(c, i, n, extent) <==> (0 <= i < n && cyclic_distance(i, c, n)
            <= effective_extent(extent, n)),
{
    if 0 <= i < n {
        if i >= c {
            vstd::arithmetic::div_mod::lemma_small_mod((i - c) as nat, n as nat);
            vstd::arithmetic::div_mod::lemma_mod_add_multiples_vanish(i - c, n);
            if i == c {
                vstd::arithmetic::div_mod::lemma_small_mod(0, n as nat);
                vstd::arithmetic::div_mod::lemma_mod_add_multiples_vanish(0, n);
            } else {
                vstd::arithmetic::div_mod::lemma_small_mod((c + n - i) as nat, n as nat);
            }
        } else {
            vstd::arithmetic::div_mod::lemma_small_mod((c - i) as nat, n as nat);
            vstd::arithmetic::div_mod::lemma_mod_add_multiples_vanish(c - i, n);
            vstd::arithmetic::div_mod::lemma_small_mod((i + n - c) as nat, n as nat);
        }
    }
}

/// The cache window as a set of indices.
pub open spec fn window_set(cur: int, len: int, extent: int) -> Set<usize> {
    Set::new(|j: usize| in_window(cur, j as int, len, extent))
}

/// The index `d` steps forward of `cur`, wrapping around.
pub open spec fn fwd_index(cur: int, d: int, len: int) -> usize {
    if cur + d < len {
        (cur + d) as usize
    } else {
        (cur + d - len) as usize
    }
}

/// The index `d` steps back from `cur`, wrapping around.
pub open spec fn bwd_index(cur: int, d: int, len: int) -> usize {
    if d <= cur {
        (cur - d) as usize
    } else {
        (cur + len - d) as usize
    }
}

/// The cache window in the order its images are wanted: the current image,
/// then one step forward and one back, two steps forward and two back, and
/// so on up to the effective extent.
pub open spec fn window_seq(cur: int, len: int, extent: int) -> Seq<usize> {
    let e = effective_extent(extent, len);
    seq![cur as usize] + Seq::new(
        (2 * e) as nat,
        |k: int|
            if k % 2 == 0 {
                fwd_index(cur, k / 2 + 1, len)
            } else {
                bwd_index(cur, k / 2 + 1, len)
            },
    )
}

/// The indices of the cache window, nearest first: the current image, then
/// one step forward and one back, two steps forward and two back, and so on.
/// An index can appear twice when the window wraps onto itself.
pub fn window_indices(cur: usize, len: usize, extent: usize) -> (v: Vec<usize>)
    requires
        cur < len,
    ensures
        v@.len() > 0,
        v@[0] == cur,
        forall|k: int| 0 <= k < v@.len() ==> in_window(cur as int, #[trigger] v@[k] as int, len as int, extent as int),
        forall|j: usize| #[trigger] in_window(cur as int, j as int, len as int, extent as int) ==> v@.contains(j),
        v@.to_set() == window_set(cur as int, len as int, extent as int),
        v@ == window_seq(cur as int, len as int, extent as int),
{
    let e: usize = if extent < len - 1 {
        extent
    } else {
        len - 1
    };
    let mut v: Vec<usize> = Vec::new();
    v.push(cur);
    let mut i: usize = 1;
    while i <= e
        invariant
            cur < len,
            e == effective_extent(extent as int, len as int),
            1 <= i <= e + 1,
            v@.len() > 0,
            v@[0] == cur,
            forall|k: int| 0 <= k < v@.len() ==> in_window(cur as int, #[trigger] v@[k] as int, len as int, extent as int),
            forall|d: int| 1 <= d < i ==> #[trigger] v@.contains(fwd_index(cur as int, d, len as int)),
            forall|d: int| 1 <= d < i ==> #[trigger] v@.contains(bwd_index(cur as int, d, len as int)),
            v@ == seq![cur] + Seq::new(
                (2 * (i - 1)) as nat,
                |k: int|
                    if k % 2 == 0 {
                        fwd_index(cur as int, k / 2 + 1, len as int)
                    } else {
                        bwd_index(cur as int, k / 2 + 1, len as int)
                    },
            ),
        decreases e + 1 - i,
    {
        let fwd: usize = if i < len - cur {
            cur + i
        } else {
            i - (len - cur)
        };
        let bwd: usize = if i <= cur {
            cur - i
        } else {
            len - (i - cur)
        };
        let ghost before = v@;
        v.push(fwd);
        v.push(bwd);
        assert(v@ =~= seq![cur] + Seq::new(
            (2 * i) as nat,
            |k: int|
                if k % 2 == 0 {
                    fwd_index(cur as int, k / 2 + 1, len as int)
                } else {
                    bwd_index(cur as int, k / 2 + 1, len as int)
                },
        ));
        assert forall|d: int| 1 <= d < i + 1 implies #[trigger] v@.contains(fwd_index(cur as int, d, len as int)) by {
            if d < i {
                let x = fwd_index(cur as int, d, len as int);
                assert(before.contains(x));
                let k = choose|k: int| 0 <= k < before.len() && before[k] == x;
                assert(v@[k] == x);
            } else {
                assert(v@[v@.len() - 2] == fwd);
            }
        }
        assert forall|d: int| 1 <= d < i + 1 implies #[trigger] v@.contains(bwd_index(cur as int, d, len as int)) by {
            if d < i {
                let x = bwd_index(cur as int, d, len as int);
                assert(before.contains(x));
                let k = choose|k: int| 0 <= k < before.len() && before[k] == x;
                assert(v@[k] == x);
            } else {
                assert(v@[v@.len() - 1] == bwd);
            }
        }
        i = i + 1;
    }
    assert forall|j: usize| #[trigger] in_window(cur as int, j as int, len as int, extent as int) implies v@.contains(j) by {
        let fd = forward_distance(cur as int, j as int, len as int);
        let bd = backward_distance(cur as int, j as int, len as int);
        if j == cur {
            assert(v@[0] == j);
        } else if fd <= e {
            assert(1 <= fd <= e);
            assert(fwd_index(cur as int, fd, len as int) == j);
        } else {
            assert(1 <= bd <= e);
            assert(bwd_index(cur as int, bd, len as int) == j);
        }
    }
    assert(v@.to_set() =~= window_set(cur as int, len as int, extent as int));
    assert(v@ =~= window_seq(cur as int, len as int, extent as int));
    v
}

/// Keep the entries of `m` whose keys appear in `keys`; drop the rest.
pub fn retain_keys<V>(m: &mut HashMap<usize, V>, keys: &Vec<usize>)
    ensures
        final(m)@ == old(m)@.restrict(keys@.to_set()),
{
    let ghost orig = m@;
    let mut r: HashMap<usize, V> = HashMap::new();
    let mut i: usize = 0;
    while i < keys.len()
        invariant
            i <= keys@.len(),
            r@ == orig.restrict(keys@.subrange(0, i as int).to_set()),
            m@ == orig.remove_keys(keys@.subrange(0, i as int).to_set()),
        decreases keys.len() - i,
    {
        let k = keys[i];
        let ghost prefix = keys@.subrange(0, i as int).to_set();
        assert(keys@.subrange(0, i + 1).to_set() =~= prefix.insert(k)) by {
            assert(keys@.subrange(0, i + 1) =~= keys@.subrange(0, i as int).push(k));
            keys@.subrange(0, i as int).lemma_push_to_set_commute(k);
        }
        match m.remove(&k) {
            Some(value) => {
                r.insert(k, value);
            },
            None => {},
        }
        assert(r@ =~= orig.restrict(prefix.insert(k)));
        assert(m@ =~= orig.remove_keys(prefix.insert(k)));
        i = i + 1;
    }
    assert(keys@.subrange(0, keys@.len() as int) =~= keys@);
    std::mem::swap(m, &mut r);
}

/// A load the caller should start: decode `path` for slot `index`, resized
/// to fit `max_size` (`(0, 0)` means no limit), keeping linear HDR data when
/// `is_hdr`; the result is handed back with `epoch`.
pub struct LoadRequest {
    pub index: usize,
    pub path: String,
    pub epoch: u64,
    pub max_size: (u32, u32),
    pub is_hdr: bool,
}

/// The images a load plan asks for, in order: walking `ws`, each image not
/// in `covered` (decoded, failed or already loading) is asked for and then
/// counts as covered, until the `slots` free load slots are used up; at a
/// missing image with no slot left the walk stops.
pub open spec fn planned(ws: Seq<usize>, covered: Set<usize>, slots: nat) -> Seq<usize>
    decreases ws.len(),
{
    if ws.len() == 0 {
        Seq::empty()
    } else if covered.contains(ws[0]) {
        planned(ws.drop_first(), covered, slots)
    } else if slots == 0 {
        Seq::empty()
    } else {
        seq![ws[0]] + planned(ws.drop_first(), covered.insert(ws[0]), (slots - 1) as nat)
    }
}

/// The slots that a list of requests asks for.
pub open spec fn request_indices(reqs: Seq<LoadRequest>) -> Seq<usize> {
    reqs.map_values(|r: LoadRequest| r.index)
}

/// The image list with its current position, the textures decoded so far,
/// the load errors, and the loads in flight. `T` is whatever the caller keeps
/// for an uploaded texture; this type never looks inside it.
pub struct TextureManager<T> {
    paths: Vec<String>,
    current_index: usize,
    textures: HashMap<usize, T>,
    max_texture_size: (u32, u32),
    cache_extent: usize,
    is_hdr: bool,
    original_paths: Vec<String>,
    loading_tasks: HashMap<usize, u64>,
    errors: HashMap<usize, String>,
    epoch: u64,
}

impl<T> TextureManager<T> {
    /// The current image list.
    pub closed spec fn paths_spec(&self) -> Seq<String> {
        self.paths@
    }

    /// The list in scan order, restored when shuffle is switched off.
    pub closed spec fn original_spec(&self) -> Seq<String> {
        self.original_paths@
    }

    /// The current position in the list.
    pub closed spec fn index_spec(&self) -> int {
        self.current_index as int
    }

    /// Uploaded textures by image index.
    pub closed spec fn textures_spec(&self) -> Map<usize, T> {
        self.textures@
    }

    /// Load errors by image index.
    pub closed spec fn errors_spec(&self) -> Map<usize, String> {
        self.errors@
    }

    /// Loads in flight: image index to the epoch it was started in.
    pub closed spec fn loading_spec(&self) -> Map<usize, u64> {
        self.loading_tasks@
    }

    /// The generation counter; results of an older generation are dropped.
    pub closed spec fn epoch_spec(&self) -> u64 {
        self.epoch
    }

    /// Cache extent, texture size limit and HDR flag.
    pub closed spec fn settings_spec(&self) -> (usize, (u32, u32), bool) {
        (self.cache_extent, self.max_texture_size, self.is_hdr)
    }

    /// `new` differs from `self` at most in the current position.
    pub open spec fn only_position_changed(&self, new: &Self) -> bool {
        &&& new.paths_spec() == self.paths_spec()
        &&& new.original_spec() == self.original_spec()
        &&& new.textures_spec() == self.textures_spec()
        &&& new.errors_spec() == self.errors_spec()
        &&& new.loading_spec() == self.loading_spec()
        &&& new.epoch_spec() == self.epoch_spec()
        &&& new.settings_spec() == self.settings_spec()
    }

    /// The manager's invariant: the position is inside the list (or 0 on an
    /// empty list), the list is a permutation of the scan-order list, and at
    /// most `MAX_CONCURRENT_TASKS` loads are in flight.
    pub closed spec fn wf(&self) -> bool {
        &&& (self.current_index < self.paths@.len() || (self.paths@.len() == 0
            && self.current_index == 0))
        &&& self.paths@.to_multiset() == self.original_paths@.to_multiset()
        &&& self.loading_tasks@.len() <= MAX_CONCURRENT_TASKS
        &&& self.loading_tasks@.dom().finite()
    }

    /// An empty manager.
    pub fn new(cache_extent: usize, max_texture_size: (u32, u32)) -> (m: Self)
        ensures
            m.wf(),
            m.paths_spec() == Seq::<String>::empty(),
            m.original_spec() == Seq::<String>::empty(),
            m.index_spec() == 0,
            m.textures_spec() == Map::<usize, T>::empty(),
            m.errors_spec() == Map::<usize, String>::empty(),
            m.loading_spec() == Map::<usize, u64>::empty(),
            m.epoch_spec() == 0,
            m.settings_spec() == (cache_extent, max_texture_size, false),
    {
        TextureManager {
            paths: Vec::new(),
            current_index: 0,
            textures: HashMap::new(),
            max_texture_size,
            cache_extent,
            is_hdr: false,
            original_paths: Vec::new(),
            loading_tasks: HashMap::new(),
            errors: HashMap::new(),
            epoch: 0,
        }
    }

    /// Advance to the next image. Returns whether the position moved.
    pub fn next(&mut self, pause_at_last: bool) -> (moved: bool)
        requires
            old(self).wf(),
        ensures
            final(self).wf(),
            (moved, final(self).index_spec()) == next_step(
                old(self).index_spec(),
                old(self).paths_spec().len() as int,
                pause_at_last,
            ),
            final(self).paths_spec() == old(self).paths_spec(),
            final(self).original_spec() == old(self).original_spec(),
            final(self).textures_spec() == old(self).textures_spec(),
            final(self).errors_spec() == old(self).errors_spec(),
            final(self).loading_spec() == old(self).loading_spec(),
            final(self).epoch_spec() == old(self).epoch_spec(),
            !moved ==> *final(self) == *old(self),
            final(self).settings_spec() == old(self).settings_spec(),
    {
        if self.paths.len() == 0 {
            return false;
        }
        if self.current_index + 1 < self.paths.len() {
            self.current_index = self.current_index + 1;
            true
        } else if !pause_at_last {
            self.current_index = 0;
            true
        } else {
            false
        }
    }

    /// Go back to the previous image. Returns whether the position moved.
    pub fn previous(&mut self, pause_at_last: bool) -> (moved: bool)
        requires
            old(self).wf(),
        ensures
            final(self).wf(),
            (moved, final(self).index_spec()) == previous_step(
                old(self).index_spec(),
                old(self).paths_spec().len() as int,
                pause_at_last,
            ),
            final(self).paths_spec() == old(self).paths_spec(),
            final(self).original_spec() == old(self).original_spec(),
            final(self).textures_spec() == old(self).textures_spec(),
            final(self).errors_spec() == old(self).errors_spec(),
            final(self).loading_spec() == old(self).loading_spec(),
            final(self).epoch_spec() == old(self).epoch_spec(),
            !moved ==> *final(self) == *old(self),
            final(self).settings_spec() == old(self).settings_spec(),
    {
        if self.paths.len() == 0 {
            return false;
        }
        if self.current_index > 0 {
            self.current_index = self.current_index - 1;
        } else if !pause_at_last {
            self.current_index = self.paths.len() - 1;
        } else {
            return false;
        }
        true
    }

    /// Move to `index` when it lies inside the list; otherwise do nothing.
    pub fn jump_to(&mut self, index: usize)
        requires
            old(self).wf(),
        ensures
            final(self).wf(),
            final(self).index_spec() == (if index < old(self).paths_spec().len() {
                index as int
            } else {
                old(self).index_spec()
            }),
            final(self).paths_spec() == old(self).paths_spec(),
            final(self).original_spec() == old(self).original_spec(),
            final(self).textures_spec() == old(self).textures_spec(),
            final(self).errors_spec() == old(self).errors_spec(),
            final(self).loading_spec() == old(self).loading_spec(),
            final(self).epoch_spec() == old(self).epoch_spec(),
            final(self).settings_spec() == old(self).settings_spec(),
    {
        if index < self.paths.len() {
            self.current_index = index;
        }
    }


    /// Install the result of a scan as the image list, in scan order.
    /// The position is kept, so a scan happens before any navigation.
    pub fn scan_paths(&mut self, sorted_paths: Vec<String>)
        requires
            old(self).wf(),
            old(self).index_spec() == 0 || old(self).index_spec() < sorted_paths@.len(),
        ensures
            final(self).wf(),
            final(self).paths_spec() == sorted_paths@,
            final(self).original_spec() == sorted_paths@,
            final(self).index_spec() == old(self).index_spec(),
            final(self).textures_spec() == old(self).textures_spec(),
            final(self).errors_spec() == old(self).errors_spec(),
            final(self).loading_spec() == old(self).loading_spec(),
            final(self).epoch_spec() == old(self).epoch_spec(),
            final(self).settings_spec() == old(self).settings_spec(),
    {
        self.original_paths = clone_paths(&sorted_paths);
        self.paths = sorted_paths;
    }

    /// Shuffle the image list. The position is not changed.
    pub fn shuffle_paths(&mut self)
        requires
            old(self).wf(),
        ensures
            final(self).wf(),
            final(self).paths_spec().to_multiset() == old(self).paths_spec().to_multiset(),
            final(self).paths_spec().len() == old(self).paths_spec().len(),
            final(self).original_spec() == old(self).original_spec(),
            final(self).index_spec() == old(self).index_spec(),
            final(self).textures_spec() == old(self).textures_spec(),
            final(self).errors_spec() == old(self).errors_spec(),
            final(self).loading_spec() == old(self).loading_spec(),
            final(self).epoch_spec() == old(self).epoch_spec(),
            final(self).settings_spec() == old(self).settings_spec(),
    {
        shuffle_strings(&mut self.paths);
    }

    /// Replace the whole image list, dropping every cached texture, error and
    /// pending load, and go back to the first image.
    pub fn replace_paths(&mut self, new_paths: Vec<String>)
        requires
            old(self).wf(),
        ensures
            final(self).wf(),
            final(self).paths_spec() == new_paths@,
            final(self).original_spec() == new_paths@,
            final(self).index_spec() == 0,
            final(self).textures_spec() == Map::<usize, T>::empty(),
            final(self).errors_spec() == Map::<usize, String>::empty(),
            final(self).loading_spec() == Map::<usize, u64>::empty(),
            final(self).epoch_spec() == next_epoch(old(self).epoch_spec()),
            final(self).settings_spec() == old(self).settings_spec(),
    {
        self.original_paths = clone_paths(&new_paths);
        self.paths = new_paths;
        self.epoch = self.epoch.wrapping_add(1);
        self.textures.clear();
        self.loading_tasks.clear();
        self.errors.clear();
        self.current_index = 0;
    }

    /// Append paths to the list, keeping the position and everything cached.
    /// On an empty list this is `replace_paths`.
    pub fn append_paths(&mut self, new_paths: Vec<String>)
        requires
            old(self).wf(),
        ensures
            final(self).wf(),
            old(self).paths_spec().len() == 0 ==> {
                &&& final(self).paths_spec() == new_paths@
                &&& final(self).original_spec() == new_paths@
                &&& final(self).index_spec() == 0
                &&& final(self).textures_spec() == Map::<usize, T>::empty()
                &&& final(self).errors_spec() == Map::<usize, String>::empty()
                &&& final(self).loading_spec() == Map::<usize, u64>::empty()
                &&& final(self).epoch_spec() == next_epoch(old(self).epoch_spec())
            },
            old(self).paths_spec().len() > 0 ==> {
                &&& final(self).paths_spec() == old(self).paths_spec() + new_paths@
                &&& final(self).original_spec() == old(self).original_spec() + new_paths@
                &&& final(self).index_spec() == old(self).index_spec()
                &&& final(self).textures_spec() == old(self).textures_spec()
                &&& final(self).errors_spec() == old(self).errors_spec()
                &&& final(self).loading_spec() == old(self).loading_spec()
                &&& final(self).epoch_spec() == old(self).epoch_spec()
            },
            final(self).settings_spec() == old(self).settings_spec(),
    {
        if self.paths.len() == 0 {
            self.replace_paths(new_paths);
            return;
        }
        let mut extra = clone_paths(&new_paths);
        let mut new_paths = new_paths;
        proof {
            vstd::seq_lib::lemma_multiset_commutative(self.paths@, new_paths@);
            vstd::seq_lib::lemma_multiset_commutative(self.original_paths@, new_paths@);
        }
        self.original_paths.append(&mut extra);
        self.paths.append(&mut new_paths);
    }

    /// Switch shuffle on (shuffle the list) or off (restore scan order) and
    /// move the position to the image that was current before. Every cached
    /// texture except the current one, every error and every pending load is
    /// dropped, and the epoch advances so results of older loads are ignored.
    /// Returns the new position.
    pub fn set_shuffle_enabled(&mut self, enabled: bool) -> (new_index: usize)
        requires
            old(self).wf(),
        ensures
            final(self).wf(),
            new_index == final(self).index_spec(),
            old(self).paths_spec().len() == 0 ==> new_index == 0 && *final(self) == *old(self),
            old(self).paths_spec().len() > 0 ==> {
                let cur_path = old(self).paths_spec()[old(self).index_spec()];
                &&& enabled ==> final(self).paths_spec().to_multiset()
                    == old(self).paths_spec().to_multiset()
                &&& !enabled ==> final(self).paths_spec() == old(self).original_spec()
                &&& final(self).original_spec() == old(self).original_spec()
                &&& new_index == final(self).index_spec()
                &&& new_index < final(self).paths_spec().len()
                &&& final(self).paths_spec()[new_index as int]@ == cur_path@
                &&& forall|j: int|
                    0 <= j < new_index ==> final(self).paths_spec()[j]@ != cur_path@
                &&& final(self).textures_spec() == (if old(self).textures_spec().contains_key(
                    old(self).index_spec() as usize,
                ) {
                    map![new_index => old(self).textures_spec()[old(self).index_spec() as usize]]
                } else {
                    Map::<usize, T>::empty()
                })
                &&& final(self).errors_spec() == Map::<usize, String>::empty()
                &&& final(self).loading_spec() == Map::<usize, u64>::empty()
                &&& final(self).epoch_spec() == next_epoch(old(self).epoch_spec())
            },
            final(self).settings_spec() == old(self).settings_spec(),
    {
        if self.paths.len() == 0 {
            return 0;
        }
        let current_path = self.paths[self.current_index].clone();
        let ghost old_paths = self.paths@;
        let current_texture = self.textures.remove(&self.current_index);
        if enabled {
            shuffle_strings(&mut self.paths);
        } else {
            self.paths = clone_paths(&self.original_paths);
        }
        proof {
            broadcast use vstd::seq_lib::group_to_multiset_ensures;

            assert(old_paths.contains(current_path));
            assert(self.paths@.to_multiset().count(current_path) > 0);
            assert(self.paths@.contains(current_path));
        }
        let new_index = match position_of(&self.paths, &current_path) {
            Some(i) => i,
            None => 0,
        };
        self.epoch = self.epoch.wrapping_add(1);
        self.textures.clear();
        self.loading_tasks.clear();
        self.errors.clear();
        match current_texture {
            Some(texture) => {
                self.textures.insert(new_index, texture);
            },
            None => {},
        }
        self.current_index = new_index;
        proof {
            if self.textures@.len() > 0 {
                assert(self.textures@ =~= map![new_index => self.textures@[new_index]]);
            } else {
                assert(self.textures@ =~= Map::<usize, T>::empty());
            }
        }
        new_index
    }


    /// Whether a load result from generation `epoch` is still wanted.
    pub fn accepts_epoch(&self, epoch: u64) -> (r: bool)
        ensures
            r == (epoch == self.epoch_spec()),
    {
        epoch == self.epoch
    }

    /// Record the outcome of a finished load for slot `idx`. Results of an
    /// older generation are ignored. The slot leaves the in-flight set when
    /// the entry there was started in this generation; a texture goes into
    /// the cache, an error message into the error table.
    pub fn complete_load(&mut self, msg_epoch: u64, idx: usize, result: Result<T, String>)
        requires
            old(self).wf(),
        ensures
            final(self).wf(),
            msg_epoch != old(self).epoch_spec() ==> *final(self) == *old(self),
            msg_epoch == old(self).epoch_spec() ==> {
                &&& final(self).loading_spec() == (if old(self).loading_spec().contains_key(idx)
                    && old(self).loading_spec()[idx] == msg_epoch {
                    old(self).loading_spec().remove(idx)
                } else {
                    old(self).loading_spec()
                })
                &&& match result {
                    Ok(t) => final(self).textures_spec() == old(self).textures_spec().insert(idx, t)
                        && final(self).errors_spec() == old(self).errors_spec(),
                    Err(e) => final(self).errors_spec() == old(self).errors_spec().insert(idx, e)
                        && final(self).textures_spec() == old(self).textures_spec(),
                }
                &&& final(self).paths_spec() == old(self).paths_spec()
                &&& final(self).original_spec() == old(self).original_spec()
                &&& final(self).index_spec() == old(self).index_spec()
                &&& final(self).epoch_spec() == old(self).epoch_spec()
                &&& final(self).settings_spec() == old(self).settings_spec()
            },
    {
        if msg_epoch != self.epoch {
            return;
        }
        let started_now = match self.loading_tasks.get(&idx) {
            Some(e) => *e == msg_epoch,
            None => false,
        };
        if started_now {
            self.loading_tasks.remove(&idx);
            proof {
                old(self).loading_tasks@.lemma_remove_key_len(idx);
            }
        }
        match result {
            Ok(texture) => {
                self.textures.insert(idx, texture);
            },
            Err(message) => {
                self.errors.insert(idx, message);
            },
        }
    }

    /// Drop cached textures, errors and in-flight entries outside the window
    /// around the current image, then ask for loads of the window's missing
    /// images, nearest first, while fewer than `MAX_CONCURRENT_TASKS` are in
    /// flight. Afterwards either the in-flight limit is reached or every image
    /// of the window is cached, failed or in flight.
    pub fn plan_loads(&mut self) -> (reqs: Vec<LoadRequest>)
        requires
            old(self).wf(),
        ensures
            final(self).wf(),
            final(self).loading_spec().len() <= MAX_CONCURRENT_TASKS,
            final(self).paths_spec() == old(self).paths_spec(),
            final(self).original_spec() == old(self).original_spec(),
            final(self).index_spec() == old(self).index_spec(),
            final(self).epoch_spec() == old(self).epoch_spec(),
            final(self).settings_spec() == old(self).settings_spec(),
            old(self).paths_spec().len() == 0 ==> reqs@.len() == 0 && *final(self) == *old(self),
            old(self).paths_spec().len() > 0 ==> {
                let w = window_set(
                    old(self).index_spec(),
                    old(self).paths_spec().len() as int,
                    old(self).settings_spec().0 as int,
                );
                let base = old(self).loading_spec().restrict(w);
                let ix = request_indices(reqs@);
                let cur = old(self).index_spec() as usize;
                &&& ix == planned(
                    window_seq(
                        old(self).index_spec(),
                        old(self).paths_spec().len() as int,
                        old(self).settings_spec().0 as int,
                    ),
                    final(self).textures_spec().dom() + final(self).errors_spec().dom() + base.dom(),
                    (MAX_CONCURRENT_TASKS - base.len()) as nat,
                )
                &&& !old(self).textures_spec().contains_key(cur) && !old(self).errors_spec().contains_key(cur)
                    && !old(self).loading_spec().contains_key(cur) && base.len() < MAX_CONCURRENT_TASKS
                    ==> reqs@.len() > 0 && reqs@[0].index == cur
                &&& forall|i: usize| #![trigger final(self).textures_spec().contains_key(i)]
                    #![trigger final(self).errors_spec().contains_key(i)]
                    #![trigger final(self).loading_spec().contains_key(i)]
                    final(self).textures_spec().contains_key(i) || final(self).errors_spec().contains_key(i)
                        || final(self).loading_spec().contains_key(i) ==> i < old(self).paths_spec().len()
                        && cyclic_distance(i as int, old(self).index_spec(), old(self).paths_spec().len() as int)
                        <= effective_extent(old(self).settings_spec().0 as int, old(self).paths_spec().len() as int)
                &&& final(self).textures_spec() == old(self).textures_spec().restrict(w)
                &&& final(self).errors_spec() == old(self).errors_spec().restrict(w)
                &&& ix.no_duplicates()
                &&& forall|k: int| 0 <= k < reqs@.len() ==> {
                    let r = #[trigger] reqs@[k];
                    &&& w.contains(r.index)
                    &&& !final(self).textures_spec().contains_key(r.index)
                    &&& !final(self).errors_spec().contains_key(r.index)
                    &&& !base.contains_key(r.index)
                    &&& r.path == old(self).paths_spec()[r.index as int]
                    &&& r.epoch == old(self).epoch_spec()
                    &&& r.max_size == old(self).settings_spec().1
                    &&& r.is_hdr == old(self).settings_spec().2
                }
                &&& forall|i: usize| #[trigger] final(self).loading_spec().contains_key(i)
                    <==> (base.contains_key(i) || ix.contains(i))
                &&& forall|i: usize| #[trigger] base.contains_key(i)
                    ==> final(self).loading_spec()[i] == base[i]
                &&& forall|k: int| 0 <= k < reqs@.len() ==> final(self).loading_spec()[#[trigger] reqs@[k].index]
                    == old(self).epoch_spec()
                &&& final(self).loading_spec().len() < MAX_CONCURRENT_TASKS ==> forall|j: usize| #[trigger] w.contains(j)
                    ==> (final(self).textures_spec().contains_key(j) || final(self).errors_spec().contains_key(j)
                    || final(self).loading_spec().contains_key(j))
            },
    {
        let mut reqs: Vec<LoadRequest> = Vec::new();
        let len = self.paths.len();
        if len == 0 {
            return reqs;
        }
        let window = window_indices(self.current_index, len, self.cache_extent);
        let ghost w = window_set(self.current_index as int, len as int, self.cache_extent as int);
        retain_keys(&mut self.textures, &window);
        retain_keys(&mut self.errors, &window);
        retain_keys(&mut self.loading_tasks, &window);
        let ghost base = self.loading_tasks@;
        proof {
            assert(base.dom().subset_of(old(self).loading_tasks@.dom()));
            vstd::set_lib::lemma_len_subset(base.dom(), old(self).loading_tasks@.dom());
        }
        let mut k: usize = 0;
        let mut capped = false;
        proof {
            assert(window@.skip(0) =~= window@);
            assert(request_indices(reqs@) =~= Seq::<usize>::empty());
            assert(self.textures@.dom() + self.errors@.dom() + self.loading_tasks@.dom() =~= self.textures@.dom() + self.errors@.dom() + base.dom());
            let p = planned(window@, self.textures@.dom() + self.errors@.dom() + base.dom(), (MAX_CONCURRENT_TASKS - base.len()) as nat);
            assert(Seq::<usize>::empty() + p =~= p);
        }
        while k < window.len() && !capped
            invariant
                self.wf(),
                len == self.paths@.len(),
                self.paths@ == old(self).paths@,
                self.original_paths@ == old(self).original_paths@,
                self.current_index == old(self).current_index,
                self.epoch == old(self).epoch,
                self.cache_extent == old(self).cache_extent,
                self.max_texture_size == old(self).max_texture_size,
                self.is_hdr == old(self).is_hdr,
                window@.to_set() == w,
                w == window_set(old(self).current_index as int, len as int, old(self).cache_extent as int),
                forall|m: int| 0 <= m < window@.len() ==> #[trigger] window@[m] < len,
                self.textures@ == old(self).textures@.restrict(w),
                self.errors@ == old(self).errors@.restrict(w),
                base == old(self).loading_tasks@.restrict(w),
                k <= window@.len(),
                request_indices(reqs@).no_duplicates(),
                forall|q: int| 0 <= q < reqs@.len() ==> {
                    let r = #[trigger] reqs@[q];
                    &&& w.contains(r.index)
                    &&& !self.textures@.contains_key(r.index)
                    &&& !self.errors@.contains_key(r.index)
                    &&& !base.contains_key(r.index)
                    &&& r.path == old(self).paths@[r.index as int]
                    &&& r.epoch == old(self).epoch
                    &&& r.max_size == old(self).max_texture_size
                    &&& r.is_hdr == old(self).is_hdr
                },
                forall|i: usize| #[trigger] self.loading_tasks@.contains_key(i)
                    <==> (base.contains_key(i) || request_indices(reqs@).contains(i)),
                forall|i: usize| #[trigger] base.contains_key(i) ==> self.loading_tasks@[i] == base[i],
                forall|q: int| 0 <= q < reqs@.len() ==> self.loading_tasks@[#[trigger] reqs@[q].index] == old(self).epoch,
                capped ==> self.loading_tasks@.len() >= MAX_CONCURRENT_TASKS,
                window@ == window_seq(old(self).current_index as int, len as int, old(self).cache_extent as int),
                request_indices(reqs@) + planned(
                    window@.skip(k as int),
                    self.textures@.dom() + self.errors@.dom() + self.loading_tasks@.dom(),
                    (MAX_CONCURRENT_TASKS - self.loading_tasks@.len()) as nat,
                ) == planned(
                    window@,
                    self.textures@.dom() + self.errors@.dom() + base.dom(),
                    (MAX_CONCURRENT_TASKS - base.len()) as nat,
                ),
                capped ==> planned(
                    window@.skip(k as int),
                    self.textures@.dom() + self.errors@.dom() + self.loading_tasks@.dom(),
                    (MAX_CONCURRENT_TASKS - self.loading_tasks@.len()) as nat,
                ) == Seq::<usize>::empty(),
                !capped ==> forall|m: int| 0 <= m < k ==> (self.textures@.contains_key(#[trigger] window@[m])
                    || self.errors@.contains_key(window@[m]) || self.loading_tasks@.contains_key(window@[m])),
            decreases window@.len() - k, (if capped { 0int } else { 1int }),
        {
            let idx = window[k];
            let ghost cov = self.textures@.dom() + self.errors@.dom() + self.loading_tasks@.dom();
            let ghost slots = (MAX_CONCURRENT_TASKS - self.loading_tasks@.len()) as nat;
            let ghost ix0 = request_indices(reqs@);
            proof {
                assert(window@.skip(k as int).drop_first() =~= window@.skip(k + 1));
                assert(window@.skip(k as int)[0] == idx);
            }
            if !self.textures.contains_key(&idx) && !self.errors.contains_key(&idx)
                && !self.loading_tasks.contains_key(&idx) {
                if self.loading_tasks.len() >= MAX_CONCURRENT_TASKS {
                    capped = true;
                    proof {
                        assert(!cov.contains(idx));
                        assert(slots == 0);
                    }
                } else {
                    let ghost old_reqs = reqs@;
                    let ghost old_loading = self.loading_tasks@;
                    reqs.push(
                        LoadRequest {
                            index: idx,
                            path: self.paths[idx].clone(),
                            epoch: self.epoch,
                            max_size: self.max_texture_size,
                            is_hdr: self.is_hdr,
                        },
                    );
                    self.loading_tasks.insert(idx, self.epoch);
                    proof {
                        assert(request_indices(reqs@) =~= request_indices(old_reqs).push(idx));
                        assert(!request_indices(old_reqs).contains(idx));
                        assert forall|q: int| 0 <= q < reqs@.len() implies self.loading_tasks@[#[trigger] reqs@[q].index] == old(self).epoch by {
                            if q < old_reqs.len() {
                                assert(reqs@[q] == old_reqs[q]);
                            }
                        }
                        let ghost ix_old = request_indices(old_reqs);
                        let ghost ix_new = request_indices(reqs@);
                        assert forall|i: usize| #[trigger] ix_new.contains(i) <==> (ix_old.contains(i) || i == idx) by {
                            if ix_old.contains(i) {
                                let q = choose|q: int| 0 <= q < ix_old.len() && ix_old[q] == i;
                                assert(ix_new[q] == i);
                            }
                            if i == idx {
                                assert(ix_new[ix_new.len() - 1] == idx);
                            }
                            if ix_new.contains(i) && i != idx {
                                let q = choose|q: int| 0 <= q < ix_new.len() && ix_new[q] == i;
                                assert(q < ix_old.len());
                                assert(ix_old[q] == i);
                            }
                        }
                        assert forall|i: usize| #[trigger] self.loading_tasks@.contains_key(i)
                            <==> (base.contains_key(i) || ix_new.contains(i)) by {
                            assert(old_loading.contains_key(i) <==> (base.contains_key(i) || ix_old.contains(i)));
                            assert(ix_new.contains(i) <==> (ix_old.contains(i) || i == idx));
                        }
                    }
                    proof {
                        assert(!cov.contains(idx));
                        assert(self.textures@.dom() + self.errors@.dom() + self.loading_tasks@.dom() =~= cov.insert(idx));
                        assert(self.loading_tasks@.len() == old_loading.len() + 1);
                        let rest = planned(window@.skip(k + 1), cov.insert(idx), (slots - 1) as nat);
                        assert(planned(window@.skip(k as int), cov, slots) == seq![idx] + rest);
                        assert(ix0 + (seq![idx] + rest) =~= request_indices(reqs@) + rest);
                    }
                    k = k + 1;
                }
            } else {
                proof {
                    assert(cov.contains(idx));
                }
                k = k + 1;
            }
        }
        proof {
            let cov0 = self.textures@.dom() + self.errors@.dom() + base.dom();
            let slots0 = (MAX_CONCURRENT_TASKS - base.len()) as nat;
            if !capped {
                assert(window@.skip(k as int) =~= Seq::<usize>::empty());
            }
            assert(request_indices(reqs@) + Seq::<usize>::empty() =~= request_indices(reqs@));
            assert forall|i: usize| #![trigger self.textures@.contains_key(i)]
                #![trigger self.errors@.contains_key(i)]
                #![trigger self.loading_tasks@.contains_key(i)]
                self.textures@.contains_key(i) || self.errors@.contains_key(i)
                    || self.loading_tasks@.contains_key(i) implies i < len
                    && cyclic_distance(i as int, old(self).current_index as int, len as int)
                    <= effective_extent(old(self).cache_extent as int, len as int) by {
                if self.loading_tasks@.contains_key(i) && !base.contains_key(i) {
                    let q = choose|q: int| 0 <= q < request_indices(reqs@).len() && request_indices(reqs@)[q] == i;
                    assert(reqs@[q].index == i);
                }
                assert(w.contains(i));
                lemma_window_cyclic_distance(old(self).current_index as int, len as int, old(self).cache_extent as int, i as int);
            }
            let cur = old(self).current_index;
            assert(window@[0] == cur);
            assert(w.contains(cur));
            if !old(self).textures@.contains_key(cur) && !old(self).errors@.contains_key(cur)
                && !old(self).loading_tasks@.contains_key(cur) && base.len() < MAX_CONCURRENT_TASKS {
                assert(!cov0.contains(cur));
                assert(planned(window@, cov0, slots0)[0] == cur);
                assert(request_indices(reqs@)[0] == cur);
            }
            if !capped {
                assert forall|j: usize| #[trigger] w.contains(j) implies (self.textures@.contains_key(j)
                    || self.errors@.contains_key(j) || self.loading_tasks@.contains_key(j)) by {
                    assert(window@.to_set().contains(j));
                    let m = choose|m: int| 0 <= m < window@.len() && window@[m] == j;
                }
            }
        }
        reqs
    }

    /// The cached texture of image `idx`, if any.
    pub fn get_texture(&self, idx: usize) -> (t: Option<&T>)
        ensures
            t matches Some(v) ==> self.textures_spec().contains_key(idx) && *v == self.textures_spec()[idx],
            t is None ==> !self.textures_spec().contains_key(idx),
    {
        self.textures.get(&idx)
    }

    /// The cached texture of the current image, if any.
    pub fn get_current_texture(&self) -> (t: Option<&T>)
        ensures
            t matches Some(v) ==> self.textures_spec().contains_key(self.index_spec() as usize) && *v
                == self.textures_spec()[self.index_spec() as usize],
            t is None ==> !self.textures_spec().contains_key(self.index_spec() as usize),
    {
        self.textures.get(&self.current_index)
    }

    /// The load error recorded for image `idx`, if any.
    pub fn get_error(&self, idx: usize) -> (e: Option<&String>)
        ensures
            e matches Some(v) ==> self.errors_spec().contains_key(idx) && *v == self.errors_spec()[idx],
            e is None ==> !self.errors_spec().contains_key(idx),
    {
        self.errors.get(&idx)
    }

    /// Whether any load is still in flight.
    pub fn is_loading(&self) -> (b: bool)
        ensures
            b == !self.loading_spec().is_empty(),
    {
        !self.loading_tasks.is_empty()
    }

    /// Number of cached textures.
    pub fn texture_count(&self) -> (n: usize)
        ensures
            n == self.textures_spec().len(),
    {
        self.textures.len()
    }

    /// Number of loads in flight.
    pub fn loading_count(&self) -> (n: usize)
        requires
            self.wf(),
        ensures
            n == self.loading_spec().len(),
            n <= MAX_CONCURRENT_TASKS,
    {
        self.loading_tasks.len()
    }

    /// The cache extent the manager was made with.
    pub fn cache_extent(&self) -> (e: usize)
        ensures
            e == self.settings_spec().0,
    {
        self.cache_extent
    }

    /// The texture size limit the manager was made with.
    pub fn max_texture_size(&self) -> (m: (u32, u32))
        ensures
            m == self.settings_spec().1,
    {
        self.max_texture_size
    }

    /// Whether EXR files are loaded as linear HDR textures.
    pub fn is_hdr(&self) -> (b: bool)
        ensures
            b == self.settings_spec().2,
    {
        self.is_hdr
    }

    /// Choose whether EXR files are loaded as linear HDR textures.
    pub fn set_hdr(&mut self, is_hdr: bool)
        requires
            old(self).wf(),
        ensures
            final(self).wf(),
            final(self).settings_spec() == (old(self).settings_spec().0, old(self).settings_spec().1, is_hdr),
            final(self).paths_spec() == old(self).paths_spec(),
            final(self).original_spec() == old(self).original_spec(),
            final(self).index_spec() == old(self).index_spec(),
            final(self).textures_spec() == old(self).textures_spec(),
            final(self).errors_spec() == old(self).errors_spec(),
            final(self).loading_spec() == old(self).loading_spec(),
            final(self).epoch_spec() == old(self).epoch_spec(),
    {
        self.is_hdr = is_hdr;
    }

    /// Number of images in the list.
    pub fn len(&self) -> (n: usize)
        ensures
            n == self.paths_spec().len(),
    {
        self.paths.len()
    }

    /// The current position.
    pub fn current_index(&self) -> (i: usize)
        ensures
            i == self.index_spec(),
    {
        self.current_index
    }

    /// The image list.
    pub fn paths(&self) -> (p: &Vec<String>)
        ensures
            p@ == self.paths_spec(),
    {
        &self.paths
    }

    /// The position lies inside a non-empty list, and is 0 on an empty one.
    pub proof fn lemma_index_in_range(&self)
        requires
            self.wf(),
        ensures
            self.paths_spec().len() == 0 ==> self.index_spec() == 0,
            self.paths_spec().len() > 0 ==> 0 <= self.index_spec() < self.paths_spec().len(),
    {
    }

    /// The path of the current image, if the list is not empty.
    pub fn current_path(&self) -> (p: Option<&String>)
        ensures
            p matches Some(s) ==> 0 <= self.index_spec() < self.paths_spec().len() && *s
                == self.paths_spec()[self.index_spec()],
            p is None ==> !(0 <= self.index_spec() < self.paths_spec().len()),
    {
        if self.current_index < self.paths.len() {
            Some(&self.paths[self.current_index])
        } else {
            None
        }
    }
}

/// Stepping forward and then back, with wrap-around on, returns to the
/// starting image; so does stepping back and then forward.
pub proof fn lemma_next_previous_inverse(cur: int, len: int)
    requires
        0 <= cur < len,
    ensures
        previous_step(next_step(cur, len, false).1, len, false) == (true, cur),
        next_step(previous_step(cur, len, false).1, len, false) == (true, cur),
        next_step(cur, len, false).0 && previous_step(cur, len, false).0,
        0 <= next_step(cur, len, false).1 < len,
        0 <= previous_step(cur, len, false).1 < len,
{
}

/// With `pause_at_last`, a step forward that moved is undone by a step back,
/// and the position never leaves the list.
pub proof fn lemma_pause_at_last_steps(cur: int, len: int)
    requires
        0 <= cur < len,
    ensures
        next_step(cur, len, true).0 ==> previous_step(next_step(cur, len, true).1, len, true) == (
        true, cur),
        next_step(cur, len, true).0 <==> cur + 1 < len,
        previous_step(cur, len, true).0 <==> cur > 0,
        0 <= next_step(cur, len, true).1 < len,
        0 <= previous_step(cur, len, true).1 < len,
{
}

} // verus!
