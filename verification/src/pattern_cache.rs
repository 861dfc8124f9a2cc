use vstd::prelude::*;

use crate::grid::pos_in_bounds;
use crate::rect_size::RectSize;
use crate::patterns::GridPattern;
use crate::position::Position;
use crate::shapes::{
    adjacent_cell, new_adjacent_pattern, new_cross_pattern, new_empty_rectangle_pattern,
    new_rectangle_pattern,
};

verus! {

/// The exact parameter tuple a memoized pattern was built from.
#[derive(Debug, Clone, Copy, PartialEq, Eq, Structural)]
pub enum PatternKey {
    Adjacent,
    Cross(usize),
    Rectangle(usize, usize, usize, usize),
    EmptyRectangle(usize, usize, usize, usize),
}

/// `p` is the pattern that `k` names: the shape constructors' contracts,
/// keyed by parameter tuple.
pub open spec fn pattern_matches_key(p: GridPattern, k: PatternKey) -> bool {
    &&& p.wf()
    &&& match k {
        PatternKey::Adjacent => {
            &&& p.center == (Position { x: 1, y: 1 })
            &&& p.mapping@.size == (RectSize { width: 3, height: 3 })
            &&& forall|q: Position|
                pos_in_bounds(q, p.mapping@.size) ==> #[trigger] p.mapping@.cell(q)
                    == adjacent_cell(q)
        },
        PatternKey::Cross(arm) => {
            &&& p.center == (Position { x: arm as i64, y: arm as i64 })
            &&& p.mapping@.size.width as int == 2 * arm + 1
            &&& p.mapping@.size.height as int == 2 * arm + 1
            &&& forall|q: Position|
                pos_in_bounds(q, p.mapping@.size) ==> #[trigger] p.mapping@.cell(q) == (q.x as int
                    == arm as int || q.y as int == arm as int)
        },
        PatternKey::Rectangle(left, up, right, down) => {
            &&& p.center == (Position { x: left as i64, y: up as i64 })
            &&& p.mapping@.size.width as int == left + 1 + right
            &&& p.mapping@.size.height as int == up + 1 + down
            &&& forall|q: Position|
                pos_in_bounds(q, p.mapping@.size) ==> #[trigger] p.mapping@.cell(q) == true
        },
        PatternKey::EmptyRectangle(left, up, right, down) => {
            &&& p.center == (Position { x: left as i64, y: up as i64 })
            &&& p.mapping@.size.width as int == left + 1 + right
            &&& p.mapping@.size.height as int == up + 1 + down
            &&& forall|q: Position|
                pos_in_bounds(q, p.mapping@.size) ==> #[trigger] p.mapping@.cell(q) == (q.x == 0
                    || q.y == 0 || q.x as int == p.mapping@.size.width - 1 || q.y as int
                    == p.mapping@.size.height - 1)
        },
    }
}

/// A shared, read-only handle into a [`PatternCache`]: equal handles refer
/// to the same underlying pattern instance.
#[derive(Debug, Clone, Copy, PartialEq, Eq, Structural)]
pub struct PatternHandle {
    index: usize,
}

impl PatternHandle {
    /// The cache slot this handle refers to.
    pub closed spec fn spec_index(&self) -> int {
        self.index as int
    }

    /// The cache slot this handle refers to.
    pub fn index(&self) -> (i: usize)
        ensures
            i == self.spec_index(),
    {
        self.index
    }
}

/// A memoization table from parameter keys to built patterns. Entries are
/// created lazily on first request for a key, never evicted or rebuilt;
/// the cache only grows, and equal keys always yield the same entry.
pub struct PatternCache {
    keys: Vec<PatternKey>,
    patterns: Vec<GridPattern>,
}

impl PatternCache {
    /// The parameter keys with a built pattern, in insertion order.
    pub closed spec fn keys_spec(&self) -> Seq<PatternKey> {
        self.keys@
    }

    /// The built patterns, slot by slot.
    pub closed spec fn patterns_spec(&self) -> Seq<GridPattern> {
        self.patterns@
    }

    /// Every key has exactly one slot, and each slot holds exactly the
    /// pattern its key names.
    pub open spec fn wf(&self) -> bool {
        &&& self.keys_spec().len() == self.patterns_spec().len()
        &&& forall|i: int, j: int|
            0 <= i < j < self.keys_spec().len() ==> self.keys_spec()[i] != self.keys_spec()[j]
        &&& forall|i: int|
            0 <= i < self.keys_spec().len() ==> pattern_matches_key(
                #[trigger] self.patterns_spec()[i],
                self.keys_spec()[i],
            )
    }

    pub fn new() -> (c: PatternCache)
        ensures
            c.wf(),
            c.keys_spec().len() == 0,
    {
        PatternCache { keys: Vec::new(), patterns: Vec::new() }
    }

    /// Borrows the pattern a handle refers to.
    pub fn pattern(&self, handle: PatternHandle) -> (p: &GridPattern)
        requires
            0 <= handle.spec_index() < self.patterns_spec().len(),
        ensures
            *p == self.patterns_spec()[handle.spec_index()],
    {
        &self.patterns[handle.index]
    }

    /// The slot already holding `key`, if any.
    fn find(&self, key: PatternKey) -> (r: Option<usize>)
        ensures
            match r {
                Some(i) => 0 <= i < self.keys_spec().len() && self.keys_spec()[i as int] == key,
                None => forall|j: int|
                    0 <= j < self.keys_spec().len() ==> self.keys_spec()[j] != key,
            },
    {
        let mut i: usize = 0;
        while i < self.keys.len()
            invariant
                0 <= i <= self.keys_spec().len(),
                forall|j: int| 0 <= j < i ==> self.keys_spec()[j] != key,
            decreases self.keys_spec().len() - i,
        {
            if self.keys[i] == key {
                return Some(i);
            }
            i = i + 1;
        }
        None
    }

    /// Stores a freshly built pattern under its key and hands back its slot.
    fn insert(&mut self, key: PatternKey, pattern: GridPattern) -> (h: PatternHandle)
        requires
            old(self).wf(),
            forall|j: int|
                0 <= j < old(self).keys_spec().len() ==> old(self).keys_spec()[j] != key,
            pattern_matches_key(pattern, key),
        ensures
            final(self).wf(),
            final(self).keys_spec() == old(self).keys_spec().push(key),
            final(self).patterns_spec() == old(self).patterns_spec().push(pattern),
            h.spec_index() == old(self).keys_spec().len(),
    {
        let h = PatternHandle { index: self.keys.len() };
        self.keys.push(key);
        self.patterns.push(pattern);
        h
    }

    /// The memoized adjacency pattern: built by [`new_adjacent_pattern`]
    /// on first request, shared afterwards.
    pub fn adjacent_pattern(&mut self) -> (h: PatternHandle)
        requires
            old(self).wf(),
        ensures
            final(self).wf(),
            cache_get_post(*old(self), *final(self), PatternKey::Adjacent, h),
    {
        let key = PatternKey::Adjacent;
        match self.find(key) {
            Some(i) => PatternHandle { index: i },
            None => {
                let p = new_adjacent_pattern();
                self.insert(key, p)
            },
        }
    }

    /// The memoized cross pattern for `arm_length`: built by
    /// [`new_cross_pattern`] on first request, shared afterwards.
    pub fn cross_pattern(&mut self, arm_length: usize) -> (h: PatternHandle)
        requires
            old(self).wf(),
            2 * arm_length + 1 <= i64::MAX,
            2 * arm_length + 1 <= usize::MAX,
        ensures
            final(self).wf(),
            cache_get_post(*old(self), *final(self), PatternKey::Cross(arm_length), h),
    {
        let key = PatternKey::Cross(arm_length);
        match self.find(key) {
            Some(i) => PatternHandle { index: i },
            None => {
                let p = new_cross_pattern(arm_length);
                self.insert(key, p)
            },
        }
    }

    /// The memoized filled rectangle pattern for the four offsets: built
    /// by [`new_rectangle_pattern`] on first request, shared afterwards.
    pub fn rectangle_pattern(
        &mut self,
        offset_left: usize,
        offset_up: usize,
        offset_right: usize,
        offset_down: usize,
    ) -> (h: PatternHandle)
        requires
            old(self).wf(),
            offset_left + 1 + offset_right <= i64::MAX,
            offset_left + 1 + offset_right <= usize::MAX,
            offset_up + 1 + offset_down <= i64::MAX,
            offset_up + 1 + offset_down <= usize::MAX,
        ensures
            final(self).wf(),
            cache_get_post(
                *old(self),
                *final(self),
                PatternKey::Rectangle(offset_left, offset_up, offset_right, offset_down),
                h,
            ),
    {
        let key = PatternKey::Rectangle(offset_left, offset_up, offset_right, offset_down);
        match self.find(key) {
            Some(i) => PatternHandle { index: i },
            None => {
                let p = new_rectangle_pattern(offset_left, offset_up, offset_right, offset_down);
                self.insert(key, p)
            },
        }
    }

    /// The memoized hollow rectangle pattern for the four offsets: built
    /// by [`new_empty_rectangle_pattern`] on first request, shared
    /// afterwards.
    pub fn empty_rectangle_pattern(
        &mut self,
        offset_left: usize,
        offset_up: usize,
        offset_right: usize,
        offset_down: usize,
    ) -> (h: PatternHandle)
        requires
            old(self).wf(),
            offset_left + 1 + offset_right <= i64::MAX,
            offset_left + 1 + offset_right <= usize::MAX,
            offset_up + 1 + offset_down <= i64::MAX,
            offset_up + 1 + offset_down <= usize::MAX,
        ensures
            final(self).wf(),
            cache_get_post(
                *old(self),
                *final(self),
                PatternKey::EmptyRectangle(offset_left, offset_up, offset_right, offset_down),
                h,
            ),
    {
        let key = PatternKey::EmptyRectangle(offset_left, offset_up, offset_right, offset_down);
        match self.find(key) {
            Some(i) => PatternHandle { index: i },
            None => {
                let p = new_empty_rectangle_pattern(
                    offset_left,
                    offset_up,
                    offset_right,
                    offset_down,
                );
                self.insert(key, p)
            },
        }
    }

    /// The memoized filled square pattern: the rectangle pattern whose
    /// four offsets all equal `radius`, sharing its cache entry.
    pub fn square_pattern(&mut self, radius: usize) -> (h: PatternHandle)
        requires
            old(self).wf(),
            2 * radius + 1 <= i64::MAX,
            2 * radius + 1 <= usize::MAX,
        ensures
            final(self).wf(),
            cache_get_post(
                *old(self),
                *final(self),
                PatternKey::Rectangle(radius, radius, radius, radius),
                h,
            ),
    {
        self.rectangle_pattern(radius, radius, radius, radius)
    }

    /// The memoized hollow square pattern: the hollow rectangle pattern
    /// whose four offsets all equal `radius`, sharing its cache entry.
    pub fn empty_square_pattern(&mut self, radius: usize) -> (h: PatternHandle)
        requires
            old(self).wf(),
            2 * radius + 1 <= i64::MAX,
            2 * radius + 1 <= usize::MAX,
        ensures
            final(self).wf(),
            cache_get_post(
                *old(self),
                *final(self),
                PatternKey::EmptyRectangle(radius, radius, radius, radius),
                h,
            ),
    {
        self.empty_rectangle_pattern(radius, radius, radius, radius)
    }
}

/// What a cached accessor did: the handle names the one slot holding
/// `key`, whose pattern is the one `key` names; on a hit the cache is
/// untouched, on a miss exactly this key's entry was appended.
pub open spec fn cache_get_post(
    old_cache: PatternCache,
    new_cache: PatternCache,
    key: PatternKey,
    h: PatternHandle,
) -> bool {
    &&& 0 <= h.spec_index() < new_cache.keys_spec().len()
    &&& new_cache.keys_spec()[h.spec_index()] == key
    &&& pattern_matches_key(new_cache.patterns_spec()[h.spec_index()], key)
    &&& if old_cache.keys_spec().contains(key) {
        new_cache.keys_spec() == old_cache.keys_spec() && new_cache.patterns_spec()
            == old_cache.patterns_spec()
    } else {
        new_cache.keys_spec() == old_cache.keys_spec().push(key) && new_cache.patterns_spec().len()
            == old_cache.patterns_spec().len() + 1 && forall|i: int|
            0 <= i < old_cache.patterns_spec().len() ==> #[trigger] new_cache.patterns_spec()[i]
                == old_cache.patterns_spec()[i]
    }
}

/// Cache identity: within one well-formed cache, handles obtained for
/// equal parameter keys are equal — they share one underlying pattern
/// instance — and handles obtained for different keys never alias.
pub proof fn lemma_cache_identity(
    cache: &PatternCache,
    h1: PatternHandle,
    h2: PatternHandle,
    k1: PatternKey,
    k2: PatternKey,
)
    requires
        cache.wf(),
        0 <= h1.spec_index() < cache.keys_spec().len(),
        cache.keys_spec()[h1.spec_index()] == k1,
        0 <= h2.spec_index() < cache.keys_spec().len(),
        cache.keys_spec()[h2.spec_index()] == k2,
    ensures
        (k1 == k2) <==> (h1.spec_index() == h2.spec_index()),
{
    if h1.spec_index() != h2.spec_index() {
        if h1.spec_index() < h2.spec_index() {
            assert(cache.keys_spec()[h1.spec_index()] != cache.keys_spec()[h2.spec_index()]);
        } else {
            assert(cache.keys_spec()[h2.spec_index()] != cache.keys_spec()[h1.spec_index()]);
        }
    }
}

} // verus!
