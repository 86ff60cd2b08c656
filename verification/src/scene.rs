//! The scene: a fixed star field, the clock that turns it, and the two
//! cached layers that a paint returns.

use core::mem::swap;
use vstd::prelude::*;
use crate::cache::{saturated, CacheModel, Entry, RenderCache};
use crate::clock::{angle, angle_between, Angle, Timestamp};
use crate::error::SceneError;
use crate::geometry::Size;
use crate::layers::{
    backdrop_layer, render_backdrop, render_system, system_layer, Layer, LayerModel,
};
use crate::random::seeded;
use crate::stars::{random_star, Star};

verus! {

/// The number of stars in a scene, unless the host asks for another.
pub const DEFAULT_STAR_COUNT: usize = 100;

/// The two layers of one paint. The host composes them in this order, so
/// that the turning stars lie over the backdrop.
#[derive(Debug, PartialEq, Eq)]
pub struct Frame {
    pub backdrop: Layer,
    pub system: Layer,
}

impl Clone for Frame {
    /// A copy of both layers.
    fn clone(&self) -> (copy: Frame)
        ensures
            copy.backdrop@ == self.backdrop@,
            copy.system@ == self.system@,
    {
        Frame { backdrop: self.backdrop.clone(), system: self.system.clone() }
    }
}

/// What a cache of layers is, to its callers: the cache with each layer
/// taken as its display list.
pub open spec fn layer_cache(cache: CacheModel<Layer>) -> CacheModel<LayerModel> {
    CacheModel {
        entry: match cache.entry {
            Some(e) => Some(Entry { size: e.size, geometry: e.geometry@ }),
            None => None,
        },
        rebuilds: cache.rebuilds,
    }
}

/// The animation state, as contracts speak of it.
pub struct StateModel {
    /// The star field. It is fixed when the state is made.
    pub stars: Seq<Star>,
    /// When the field began to turn.
    pub start: Timestamp,
    /// The time of the last tick, or `start` before the first.
    pub now: Timestamp,
    /// The cache of the backdrop.
    pub backdrop: CacheModel<LayerModel>,
    /// The cache of the turning layer.
    pub system: CacheModel<LayerModel>,
}

impl StateModel {
    /// How far the field has turned.
    pub open spec fn turn(self) -> Angle {
        angle_between(self.start, self.now)
    }

    /// What holds of every state: the clock has not gone back behind the
    /// start, and what each cache holds is what a fresh render for the cached
    /// size would give now.
    pub open spec fn consistent(self) -> bool {
        &&& self.start.millis <= self.now.millis
        &&& self.backdrop.entry matches Some(e) ==> e.geometry == backdrop_layer(
            self.stars,
            e.size,
        )
        &&& self.system.entry matches Some(e) ==> e.geometry == system_layer(
            self.stars,
            e.size,
            self.turn(),
        )
    }

    /// The state after a tick at `now`: the clock stands at `now`, the cache
    /// of the turning layer is cleared, and nothing else has changed.
    pub open spec fn ticked(self, now: Timestamp) -> StateModel {
        StateModel { now, system: self.system.cleared(), ..self }
    }

    /// The state after a paint at `bounds`: each cache has answered a draw
    /// at `bounds`, and nothing else has changed.
    pub open spec fn painted(self, bounds: Size) -> StateModel {
        StateModel {
            backdrop: self.backdrop.drawn(bounds, backdrop_layer(self.stars, bounds)),
            system: self.system.drawn(bounds, system_layer(self.stars, bounds, self.turn())),
            ..self
        }
    }
}

/// The animation state: the star field, the clock and the two layer caches.
/// A tick is the only thing that changes what a paint shows. Every state is
/// consistent in the sense of [`StateModel::consistent`].
pub struct State {
    space_cache: RenderCache<Layer>,
    system_cache: RenderCache<Layer>,
    start: Timestamp,
    now: Timestamp,
    stars: Vec<Star>,
}

impl View for State {
    type V = StateModel;

    closed spec fn view(&self) -> StateModel {
        StateModel {
            stars: self.stars@,
            start: self.start,
            now: self.now,
            backdrop: layer_cache(self.space_cache@),
            system: layer_cache(self.system_cache@),
        }
    }
}

impl State {
    #[verifier::type_invariant]
    spec fn is_consistent(self) -> bool {
        self@.consistent()
    }

    /// A field of `count` stars scattered over a canvas of `width` by
    /// `height`, in canvas units, by the random stream that `seed` fixes.
    /// Every star lies on the canvas centred on the origin and has a size of
    /// at least half a pixel and less than one. A canvas without width or
    /// without height is refused.
    pub fn generate_stars(width: u64, height: u64, count: usize, seed: u64) -> (result: Result<
        Vec<Star>,
        SceneError,
    >)
        ensures
            result is Ok <==> width > 0 && height > 0,
            result matches Ok(stars) ==> {
                &&& stars@.len() == count
                &&& forall|i: int| 0 <= i < count ==> (#[trigger] stars@[i]).fits(width, height)
            },
            result matches Err(e) ==> e == SceneError::InvalidDimensions,
    {
        if width == 0 || height == 0 {
            return Err(SceneError::InvalidDimensions);
        }
        let mut rng = seeded(seed);
        let mut stars: Vec<Star> = Vec::new();
        let mut i: usize = 0;
        while i < count
            invariant
                width > 0,
                height > 0,
                i <= count,
                stars@.len() == i,
                forall|k: int| 0 <= k < i ==> (#[trigger] stars@[k]).fits(width, height),
            decreases count - i,
        {
            let star = random_star(&mut rng, width, height);
            stars.push(star);
            i += 1;
        }
        Ok(stars)
    }

    /// A scene of `count` stars for a canvas of `bounds`, whose field begins
    /// to turn at `start`. Both caches are empty. A canvas without area is
    /// refused.
    pub fn new(bounds: Size, count: usize, seed: u64, start: Timestamp) -> (result: Result<
        State,
        SceneError,
    >)
        ensures
            result is Ok <==> !bounds.is_empty(),
            result matches Ok(state) ==> {
                &&& state@.consistent()
                &&& state@.stars.len() == count
                &&& forall|i: int|
                    0 <= i < count ==> (#[trigger] state@.stars[i]).fits(
                        bounds.width,
                        bounds.height,
                    )
                &&& state@.start == start
                &&& state@.now == start
                &&& state@.backdrop == CacheModel::<LayerModel>::fresh()
                &&& state@.system == CacheModel::<LayerModel>::fresh()
            },
            result matches Err(e) ==> e == SceneError::InvalidDimensions,
    {
        match State::generate_stars(bounds.width, bounds.height, count, seed) {
            Ok(stars) => Ok(
                State {
                    space_cache: RenderCache::new(),
                    system_cache: RenderCache::new(),
                    start,
                    now: start,
                    stars,
                },
            ),
            Err(e) => Err(e),
        }
    }

    /// Takes a tick: the clock moves to `now` and the turning layer is
    /// rendered anew at the next paint. The backdrop and the stars are left
    /// alone. A `now` before the start is refused, and the state stays as it
    /// was.
    pub fn update(&mut self, now: Timestamp) -> (result: Result<(), SceneError>)
        ensures
            final(self)@.consistent(),
            old(self)@.start.millis <= now.millis ==> result is Ok && final(self)@ == old(
                self,
            )@.ticked(now),
            now.millis < old(self)@.start.millis ==> result == Err::<(), SceneError>(
                SceneError::InvalidTimestamp,
            ) && final(self)@ == old(self)@,
    {
        proof {
            use_type_invariant(&*self);
        }
        if now.millis < self.start.millis {
            return Err(SceneError::InvalidTimestamp);
        }
        // The cache is out of the state while the clock moves, so that the
        // state never holds a layer rendered for another moment.
        let mut cache = RenderCache::new();
        swap(&mut self.system_cache, &mut cache);
        cache.clear();
        self.now = now;
        swap(&mut self.system_cache, &mut cache);
        Ok(())
    }

    /// Paints the scene on a canvas of `bounds`: the backdrop, then the
    /// turning layer as it stands at the last tick. Each layer comes from its
    /// cache and is rendered only if the cache does not hold it for `bounds`.
    pub fn draw(&mut self, bounds: Size) -> (frame: Frame)
        ensures
            final(self)@.consistent(),
            final(self)@ == old(self)@.painted(bounds),
            frame.backdrop@ == backdrop_layer(old(self)@.stars, bounds),
            frame.system@ == system_layer(old(self)@.stars, bounds, old(self)@.turn()),
    {
        proof {
            use_type_invariant(&*self);
        }
        let turn = self.turn();
        let stars = &self.stars;
        // Each cache is out of the state while it draws, with an empty one
        // in its place: the state is whole at every step.
        let mut cache = RenderCache::new();
        swap(&mut self.space_cache, &mut cache);
        let render = |size: Size| -> (layer: Layer)
            ensures
                layer@ == backdrop_layer(stars@, size),
            {
                render_backdrop(stars, size)
            };
        let backdrop = cache.draw(bounds, render).clone();
        swap(&mut self.space_cache, &mut cache);
        swap(&mut self.system_cache, &mut cache);
        let render = |size: Size| -> (layer: Layer)
            ensures
                layer@ == system_layer(stars@, size, turn),
            {
                render_system(stars, size, turn)
            };
        let system = cache.draw(bounds, render).clone();
        swap(&mut self.system_cache, &mut cache);
        Frame { backdrop, system }
    }

    /// The star field.
    pub fn stars(&self) -> (stars: &Vec<Star>)
        ensures
            stars@ == self@.stars,
    {
        &self.stars
    }

    /// When the field began to turn.
    pub fn start(&self) -> (start: Timestamp)
        ensures
            start == self@.start,
    {
        self.start
    }

    /// The time of the last tick, or the start before the first.
    pub fn now(&self) -> (now: Timestamp)
        ensures
            now == self@.now,
    {
        self.now
    }

    /// How far the field has turned at the last tick.
    pub fn turn(&self) -> (turn: Angle)
        ensures
            turn == self@.turn(),
    {
        proof {
            use_type_invariant(self);
        }
        angle(self.start, self.now).unwrap()
    }

    /// How often the backdrop has been rendered, as far as 64 bits count.
    pub fn backdrop_rebuilds(&self) -> (count: u64)
        ensures
            count == saturated(self@.backdrop.rebuilds),
    {
        self.space_cache.rebuilds()
    }

    /// How often the turning layer has been rendered, as far as 64 bits
    /// count.
    pub fn system_rebuilds(&self) -> (count: u64)
        ensures
            count == saturated(self@.system.rebuilds),
    {
        self.system_cache.rebuilds()
    }
}

impl StateModel {
    /// The state after `paints` paints at `bounds` with no tick between
    /// them.
    pub open spec fn repainted(self, bounds: Size, paints: nat) -> StateModel
        decreases paints,
    {
        if paints == 0 {
            self
        } else {
            self.repainted(bounds, (paints - 1) as nat).painted(bounds)
        }
    }

    /// The state after the ticks `ticks`, in order, each followed by one
    /// paint at `bounds`.
    pub open spec fn animated(self, bounds: Size, ticks: Seq<Timestamp>) -> StateModel
        decreases ticks.len(),
    {
        if ticks.len() == 0 {
            self
        } else {
            self.animated(bounds, ticks.drop_last()).ticked(ticks.last()).painted(bounds)
        }
    }
}

/// Ticks that are not refused and paints keep a state consistent, and
/// neither adds, removes or changes a star.
pub proof fn ticks_and_paints_keep_the_scene(state: StateModel, now: Timestamp, bounds: Size)
    requires
        state.consistent(),
        state.start.millis <= now.millis,
    ensures
        state.ticked(now).consistent(),
        state.painted(bounds).consistent(),
        state.ticked(now).stars == state.stars,
        state.painted(bounds).stars == state.stars,
{
}

/// A paint right after a paint at the same size renders nothing: the state
/// stays as the first paint left it.
pub proof fn repaint_renders_nothing(state: StateModel, bounds: Size)
    ensures
        state.painted(bounds).painted(bounds) == state.painted(bounds),
{
}

/// However often a scene is painted at one size with no tick between, the
/// backdrop and the turning layer are each rendered once if the cache did
/// not hold them for that size, and not at all if it did.
pub proof fn repainting_renders_at_most_once(state: StateModel, bounds: Size, paints: nat)
    requires
        paints >= 1,
    ensures
        state.repainted(bounds, paints) == state.painted(bounds),
        state.repainted(bounds, paints).backdrop.rebuilds == state.backdrop.rebuilds + (if
            state.backdrop.holds(bounds) {
            0nat
        } else {
            1nat
        }),
        state.repainted(bounds, paints).system.rebuilds == state.system.rebuilds + (if
            state.system.holds(bounds) {
            0nat
        } else {
            1nat
        }),
    decreases paints,
{
    if paints > 1 {
        repainting_renders_at_most_once(state, bounds, (paints - 1) as nat);
    } else {
        assert(state.repainted(bounds, 0) == state);
    }
}

/// A tick followed by a paint renders the turning layer exactly once and
/// the backdrop only if its cache did not hold it for the size painted.
pub proof fn tick_then_paint_renders_the_system_once(
    state: StateModel,
    now: Timestamp,
    bounds: Size,
)
    ensures
        state.ticked(now).painted(bounds).system.rebuilds == state.system.rebuilds + 1,
        state.ticked(now).painted(bounds).backdrop == state.painted(bounds).backdrop,
        state.backdrop.holds(bounds) ==> state.ticked(now).painted(bounds).backdrop
            == state.backdrop,
{
}

/// Over any run of ticks, each followed by a paint at one size, the turning
/// layer is rendered once per tick, and the backdrop at most once over the
/// whole run.
pub proof fn animation_renders_the_system_once_per_tick(
    state: StateModel,
    bounds: Size,
    ticks: Seq<Timestamp>,
)
    ensures
        state.animated(bounds, ticks).system.rebuilds == state.system.rebuilds + ticks.len(),
        state.animated(bounds, ticks).backdrop.rebuilds <= state.backdrop.rebuilds + 1,
        state.backdrop.holds(bounds) ==> state.animated(bounds, ticks).backdrop == state.backdrop,
        ticks.len() > 0 ==> state.animated(bounds, ticks).backdrop == state.painted(
            bounds,
        ).backdrop,
        state.animated(bounds, ticks).stars == state.stars,
    decreases ticks.len(),
{
    if ticks.len() > 0 {
        animation_renders_the_system_once_per_tick(state, bounds, ticks.drop_last());
    }
}

} // verus!
