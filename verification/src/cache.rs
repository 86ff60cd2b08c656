//! A memo cell for rendered geometry, keyed by canvas size and invalidated
//! by hand.

use vstd::prelude::*;
use crate::geometry::Size;

verus! {

/// Geometry together with the canvas size it was rendered for.
pub struct Entry<G> {
    pub size: Size,
    pub geometry: G,
}

/// What a cache is, to its callers: the entry it holds, if any, and how often
/// it has rendered since it was made.
pub struct CacheModel<G> {
    pub entry: Option<Entry<G>>,
    pub rebuilds: nat,
}

impl<G> CacheModel<G> {
    /// A cache that has never rendered.
    pub open spec fn fresh() -> Self {
        CacheModel { entry: None, rebuilds: 0 }
    }

    /// The cache holds geometry rendered for `size`: a draw at `size` will
    /// not render.
    pub open spec fn holds(self, size: Size) -> bool {
        self.entry matches Some(e) && e.size == size
    }

    /// The cache after `clear`: the entry is gone, the count stays.
    pub open spec fn cleared(self) -> Self {
        CacheModel { entry: None, rebuilds: self.rebuilds }
    }

    /// The cache after a draw at `size`, where `rendered` is what the render
    /// function returns if it is called. A cache that holds `size` stays as
    /// it is; any other takes the new entry and counts one rebuild.
    pub open spec fn drawn(self, size: Size, rendered: G) -> Self {
        if self.holds(size) {
            self
        } else {
            CacheModel {
                entry: Some(Entry { size, geometry: rendered }),
                rebuilds: self.rebuilds + 1,
            }
        }
    }
}

/// A cell that keeps the geometry of one layer until the canvas size changes
/// or the cell is cleared.
pub struct RenderCache<G> {
    entry: Option<Entry<G>>,
    /// The number of rebuilds as far as 64 bits count.
    counted: u64,
    /// The number of rebuilds.
    rebuilds: Ghost<nat>,
}

/// `n`, as far as 64 bits count.
pub open spec fn saturated(n: nat) -> u64 {
    if n <= u64::MAX {
        n as u64
    } else {
        u64::MAX
    }
}

impl<G> View for RenderCache<G> {
    type V = CacheModel<G>;

    closed spec fn view(&self) -> CacheModel<G> {
        CacheModel { entry: self.entry, rebuilds: self.rebuilds@ }
    }
}

impl<G> RenderCache<G> {
    #[verifier::type_invariant]
    spec fn counts_agree(self) -> bool {
        self.counted == saturated(self.rebuilds@)
    }

    /// An empty cache that has never rendered.
    pub fn new() -> (cache: Self)
        ensures
            cache@ == CacheModel::<G>::fresh(),
    {
        RenderCache { entry: None, counted: 0, rebuilds: Ghost(0) }
    }

    /// Drops the entry, so that the next draw renders whatever its size.
    pub fn clear(&mut self)
        ensures
            final(self)@ == old(self)@.cleared(),
    {
        proof {
            use_type_invariant(&*self);
        }
        self.entry = None;
    }

    /// Whether a draw at `size` would be answered from the cache.
    pub fn holds(&self, size: Size) -> (held: bool)
        ensures
            held == self@.holds(size),
    {
        match &self.entry {
            Some(e) => e.size == size,
            None => false,
        }
    }

    /// The entry, if the cache holds one.
    pub fn entry(&self) -> (entry: Option<&Entry<G>>)
        ensures
            entry is Some <==> self@.entry is Some,
            entry matches Some(e) ==> self@.entry == Some(*e),
    {
        self.entry.as_ref()
    }

    /// How often the cache has rendered since it was made. The count stops at
    /// the largest number that 64 bits hold.
    pub fn rebuilds(&self) -> (count: u64)
        ensures
            count == saturated(self@.rebuilds),
    {
        proof {
            use_type_invariant(self);
        }
        self.counted
    }

    /// The geometry for a canvas of `size`. A cache that holds geometry for
    /// `size` returns it and does not call `render_fn`. Any other cache calls
    /// `render_fn` once, keeps what it returns in place of what it held, and
    /// counts one rebuild.
    pub fn draw<F: FnOnce(Size) -> G>(&mut self, size: Size, render_fn: F) -> (geometry: &G)
        requires
            render_fn.requires((size,)),
        ensures
            final(self)@ == old(self)@.drawn(size, *geometry),
            final(self)@.entry == Some(Entry { size, geometry: *geometry }),
            !old(self)@.holds(size) ==> render_fn.ensures((size,), *geometry),
    {
        if !self.holds(size) {
            proof {
                use_type_invariant(&*self);
            }
            let geometry = render_fn(size);
            let counted = if self.counted < u64::MAX {
                self.counted + 1
            } else {
                self.counted
            };
            let rebuilds = Ghost(self.rebuilds@ + 1);
            *self = RenderCache { entry: Some(Entry { size, geometry }), counted, rebuilds };
        }
        &self.entry.as_ref().unwrap().geometry
    }
}

impl<G> Default for RenderCache<G> {
    /// An empty cache that has never rendered.
    fn default() -> (cache: Self)
        ensures
            cache@ == CacheModel::<G>::fresh(),
    {
        RenderCache::new()
    }
}

/// A draw leaves the cache holding the size it was asked for, and a second
/// draw at that size, with no clear between the two, changes nothing: it
/// does not rebuild, and it returns the geometry that the first returned.
/// Over the two draws the cache rebuilds once if it did not hold the size
/// before, and not at all if it did.
pub proof fn second_draw_is_answered_from_the_cache<G>(
    cache: CacheModel<G>,
    size: Size,
    first: G,
    second: G,
)
    ensures
        cache.drawn(size, first).holds(size),
        cache.drawn(size, first).drawn(size, second) == cache.drawn(size, first),
        !cache.holds(size) ==> cache.drawn(size, first).drawn(size, second).rebuilds
            == cache.rebuilds + 1,
        cache.holds(size) ==> cache.drawn(size, first).drawn(size, second).rebuilds
            == cache.rebuilds,
{
}

/// After a clear the next draw rebuilds exactly once, whether or not the
/// size is the one that the cache held, and keeps what was rendered.
pub proof fn draw_after_clear_rebuilds_once<G>(cache: CacheModel<G>, size: Size, rendered: G)
    ensures
        !cache.cleared().holds(size),
        cache.cleared().drawn(size, rendered).rebuilds == cache.rebuilds + 1,
        cache.cleared().drawn(size, rendered).entry == Some(Entry { size, geometry: rendered }),
{
}

} // verus!
