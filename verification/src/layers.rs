//! Layers as display lists, and how the star field is rendered into them.

use vstd::prelude::*;
use crate::clock::Angle;
use crate::geometry::{Point, Size};
use crate::stars::Star;

verus! {

/// What is filled, in the coordinates that the transform sets up.
#[derive(Clone, Copy, Debug, PartialEq, Eq, Structural)]
pub enum Shape {
    /// An axis-aligned square with its middle at `center`.
    Square { center: Point, side: u32 },
    /// A circle about `center`.
    Circle { center: Point, radius: u32 },
}

/// The transform under which one shape is filled: the origin is moved to
/// `translate`, measured from the top-left corner of the canvas, and the
/// plane is then turned about the new origin by `rotate`.
#[derive(Clone, Copy, Debug, PartialEq, Eq, Structural)]
pub struct Transform {
    pub translate: Point,
    pub rotate: Angle,
}

/// One shape filled under a transform of its own. The transform holds for
/// this shape alone: whoever paints a layer restores the canvas transform
/// before the next fill.
#[derive(Clone, Copy, Debug, PartialEq, Eq, Structural)]
pub struct Fill {
    pub transform: Transform,
    pub shape: Shape,
}

/// A layer as a display list: the canvas size it was rendered for and the
/// fills in painting order.
#[derive(Debug, PartialEq, Eq)]
pub struct Layer {
    pub size: Size,
    pub fills: Vec<Fill>,
}

/// A layer, as contracts speak of it.
pub struct LayerModel {
    pub size: Size,
    pub fills: Seq<Fill>,
}

impl View for Layer {
    type V = LayerModel;

    open spec fn view(&self) -> LayerModel {
        LayerModel { size: self.size, fills: self.fills@ }
    }
}

/// How the backdrop shows a star: a square of the star's size about the
/// star's position, with the origin at the canvas centre and no turn.
pub open spec fn backdrop_fill(star: Star, size: Size) -> Fill {
    Fill {
        transform: Transform { translate: size.center(), rotate: Angle { microradians: 0 } },
        shape: Shape::Square { center: star.position, side: star.size },
    }
}

/// How the turning layer shows a star: a circle of the star's size about the
/// star's own position, with the origin at the canvas centre and the plane
/// turned by `turn` about it.
pub open spec fn system_fill(star: Star, size: Size, turn: Angle) -> Fill {
    Fill {
        transform: Transform { translate: size.center(), rotate: turn },
        shape: Shape::Circle { center: star.position, radius: star.size },
    }
}

/// The backdrop of `stars` on a canvas of `size`: one square per star, in the
/// stars' order, and nothing at all on a canvas without area.
pub open spec fn backdrop_layer(stars: Seq<Star>, size: Size) -> LayerModel {
    LayerModel {
        size,
        fills: if size.is_empty() {
            Seq::empty()
        } else {
            Seq::new(stars.len(), |i: int| backdrop_fill(stars[i], size))
        },
    }
}

/// The turning layer of `stars` on a canvas of `size` when the field has
/// turned by `turn`: one circle per star, in the stars' order, and nothing at
/// all on a canvas without area.
pub open spec fn system_layer(stars: Seq<Star>, size: Size, turn: Angle) -> LayerModel {
    LayerModel {
        size,
        fills: if size.is_empty() {
            Seq::empty()
        } else {
            Seq::new(stars.len(), |i: int| system_fill(stars[i], size, turn))
        },
    }
}

/// The field turns as one disk. Every star of the turning layer is filled
/// under one and the same transform, turned about the canvas centre; what is
/// filled for a star is a circle about the star's own position, whatever the
/// turn; and the layer shows every star, in the stars' order.
pub proof fn the_field_turns_as_one(stars: Seq<Star>, size: Size, turn: Angle, other: Angle)
    requires
        !size.is_empty(),
    ensures
        system_layer(stars, size, turn).fills.len() == stars.len(),
        forall|i: int|
            0 <= i < stars.len() ==> (#[trigger] system_layer(stars, size, turn).fills[i]).transform
                == (Transform { translate: size.center(), rotate: turn }),
        forall|i: int|
            0 <= i < stars.len() ==> (#[trigger] system_layer(stars, size, turn).fills[i]).shape
                == (Shape::Circle { center: stars[i].position, radius: stars[i].size }),
        forall|i: int|
            0 <= i < stars.len() ==> (#[trigger] system_layer(stars, size, turn).fills[i]).shape
                == system_layer(stars, size, other).fills[i].shape,
{
}

/// The backdrop does not depend on the clock: it shows every star, in the
/// stars' order, as a square about the star's position, with the origin at
/// the canvas centre and no turn.
pub proof fn the_backdrop_stands_still(stars: Seq<Star>, size: Size)
    requires
        !size.is_empty(),
    ensures
        backdrop_layer(stars, size).fills.len() == stars.len(),
        forall|i: int|
            0 <= i < stars.len() ==> (#[trigger] backdrop_layer(stars, size).fills[i]) == (Fill {
                transform: Transform {
                    translate: size.center(),
                    rotate: Angle { microradians: 0 },
                },
                shape: Shape::Square { center: stars[i].position, side: stars[i].size },
            }),
{
}

impl Clone for Layer {
    /// A copy of the layer: the same size and the same fills in the same
    /// order.
    fn clone(&self) -> (copy: Layer)
        ensures
            copy@ == self@,
    {
        let mut fills: Vec<Fill> = Vec::new();
        let mut i: usize = 0;
        while i < self.fills.len()
            invariant
                i <= self.fills.len(),
                fills@ == self.fills@.take(i as int),
            decreases self.fills.len() - i,
        {
            fills.push(self.fills[i]);
            i += 1;
        }
        assert(self.fills@.take(i as int) == self.fills@);
        Layer { size: self.size, fills }
    }
}

/// Renders the backdrop of `stars` for a canvas of `size`.
pub fn render_backdrop(stars: &Vec<Star>, size: Size) -> (layer: Layer)
    ensures
        layer@ == backdrop_layer(stars@, size),
{
    let mut fills: Vec<Fill> = Vec::new();
    if !size.is_empty() {
        let translate = size.center();
        let mut i: usize = 0;
        while i < stars.len()
            invariant
                i <= stars.len(),
                translate == size.center(),
                fills@ == Seq::new(i as nat, |k: int| backdrop_fill(stars@[k], size)),
            decreases stars.len() - i,
        {
            let star = stars[i];
            fills.push(
                Fill {
                    transform: Transform { translate, rotate: Angle { microradians: 0 } },
                    shape: Shape::Square { center: star.position, side: star.size },
                },
            );
            i += 1;
        }
    }
    Layer { size, fills }
}

/// Renders the turning layer of `stars` for a canvas of `size`, turned by
/// `turn`.
pub fn render_system(stars: &Vec<Star>, size: Size, turn: Angle) -> (layer: Layer)
    ensures
        layer@ == system_layer(stars@, size, turn),
{
    let mut fills: Vec<Fill> = Vec::new();
    if !size.is_empty() {
        let translate = size.center();
        let mut i: usize = 0;
        while i < stars.len()
            invariant
                i <= stars.len(),
                translate == size.center(),
                fills@ == Seq::new(i as nat, |k: int| system_fill(stars@[k], size, turn)),
            decreases stars.len() - i,
        {
            let star = stars[i];
            fills.push(
                Fill {
                    transform: Transform { translate, rotate: turn },
                    shape: Shape::Circle { center: star.position, radius: star.size },
                },
            );
            i += 1;
        }
    }
    Layer { size, fills }
}

} // verus!
