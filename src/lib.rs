//! A 2D camera: the region of the world that a renderer shows, turned and
//! zoomed, and the part of the render target it draws into.
//!
//! Coordinates, sizes and angles are exact fractions (`ratio::Ratio`), so
//! every operation has an exact result that its contract states.
pub mod geometry;
pub mod laws;
pub mod ratio;
pub mod view;
