//! Stars, and how one is drawn at random.

use rand::rngs::StdRng;
use vstd::prelude::*;
use crate::geometry::Point;
use crate::random::sample;

verus! {

/// The least size of a star, in canvas units: half a pixel.
pub const MIN_STAR_SIZE: u32 = 500;

/// The size that no star reaches, in canvas units: one pixel.
pub const STAR_SIZE_LIMIT: u32 = 1000;

/// A star: where it lies, measured from the canvas centre, and how large it
/// is. The backdrop paints a square of this side, the turning layer a circle
/// of this radius.
#[derive(Clone, Copy, Debug, PartialEq, Eq, Structural)]
pub struct Star {
    pub position: Point,
    pub size: u32,
}

impl Star {
    /// The star lies on a canvas of `width` by `height` centred on the
    /// origin, that is `-width/2 <= x < width/2` and the same for `y` (stated
    /// here without the division), and its size is at least half a pixel and
    /// less than one.
    pub open spec fn fits(&self, width: u64, height: u64) -> bool {
        &&& -(width as int) <= 2 * self.position.x < width
        &&& -(height as int) <= 2 * self.position.y < height
        &&& MIN_STAR_SIZE <= self.size < STAR_SIZE_LIMIT
    }

    /// Whether `column`, `row` and `size` are draws that a star can be made
    /// of on a canvas of `width` by `height`: a cell of the canvas, counted
    /// from its top-left corner, and a permitted size.
    pub open spec fn admits(width: u64, height: u64, column: u64, row: u64, size: u64) -> bool {
        &&& column < width
        &&& row < height
        &&& MIN_STAR_SIZE <= size < STAR_SIZE_LIMIT
    }

    /// The star that three draws stand for: the cell (`column`, `row`) of a
    /// canvas of `width` by `height`, moved so that the canvas centre is the
    /// origin, with the size drawn. `None` if the draws are not admitted.
    pub fn from_draws(width: u64, height: u64, column: u64, row: u64, size: u64) -> (star: Option<
        Star,
    >)
        ensures
            star is Some <==> Star::admits(width, height, column, row, size),
            star matches Some(s) ==> {
                &&& s.position.x == column - width / 2
                &&& s.position.y == row - height / 2
                &&& s.size == size
                &&& s.fits(width, height)
            },
    {
        if column < width && row < height && MIN_STAR_SIZE as u64 <= size && size
            < STAR_SIZE_LIMIT as u64 {
            let x = centered(column, width);
            let y = centered(row, height);
            Some(Star { position: Point { x, y }, size: size as u32 })
        } else {
            None
        }
    }
}

/// The coordinate of cell `offset` on an axis of `extent` cells, once the
/// middle of the axis is the origin.
fn centered(offset: u64, extent: u64) -> (c: i64)
    requires
        offset < extent,
    ensures
        c == offset - extent / 2,
        -(extent as int) <= 2 * c < extent,
{
    let half: u64 = extent / 2;
    if offset >= half {
        (offset - half) as i64
    } else {
        -((half - offset) as i64)
    }
}

/// One star drawn for a canvas of `width` by `height`.
pub(crate) fn random_star(rng: &mut StdRng, width: u64, height: u64) -> (star: Star)
    requires
        width > 0,
        height > 0,
    ensures
        star.fits(width, height),
{
    let column = sample(rng, 0, width - 1);
    let row = sample(rng, 0, height - 1);
    let size = sample(rng, MIN_STAR_SIZE as u64, (STAR_SIZE_LIMIT - 1) as u64);
    Star::from_draws(width, height, column, row, size).unwrap()
}

} // verus!
