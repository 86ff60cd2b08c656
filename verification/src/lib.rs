//! An animated two-layer star field: a fixed backdrop of square stars and a
//! layer of round stars that turns about the canvas centre once a minute.
//!
//! Everything here is integer arithmetic. Lengths and coordinates are counted
//! in canvas units, [`geometry::UNITS_PER_PIXEL`] to the pixel; angles in
//! microradians; time in milliseconds. The host turns the display lists that
//! [`scene::State::draw`] returns into pixels.

pub mod cache;
pub mod clock;
pub mod error;
pub mod geometry;
pub mod layers;
mod random;
pub mod scene;
pub mod stars;
