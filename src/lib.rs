//! The chaos game for the Sierpinski triangle, on exact integer geometry.
//!
//! Points live on a fixed-point grid (`UNITS_PER_PIXEL` units to a pixel), the
//! wandering point of the game is kept in barycentric weights, and the plotted
//! pixel is the floor of its exact position.
pub mod barycentric;
pub mod canvas;
pub mod engine;
pub mod geometry;
pub mod random;
