//! Tessellation of 2D shapes and textured sprites into triangle lists.
//!
//! The crate is generic in the coordinate type: callers place the geometry
//! (stroke bands, circle rims, texture rectangles) and the crate arranges it
//! into triangles, in a layout and an order that its contracts state exactly.

pub mod color;
pub mod geometry;
pub mod shape;
pub mod batch;
pub mod sprite;
