//! Area of planar polygons by the shoelace formula.
//!
//! The algorithm is written once over a scalar trait, [`RealNumber`], and reads
//! vertices through [`Vertex`], so points can stay in whatever layout the caller
//! already has. Two polygon representations are offered: [`VertexPolygon`], a
//! heap-allocated vertex list measured through the [`Polygon`] trait, and
//! [`Polygon2D`], a fixed-size pair of coordinate arrays that needs no heap and
//! runs an exchangeable [`Area2D`] strategy.
pub mod scalar;
pub mod fixed;
pub mod shoelace;
pub mod strategy;
pub mod polygon2d;
pub mod vertex;
pub mod polygon;

pub use fixed::Fixed;
pub use polygon::{Polygon, VertexPolygon};
pub use polygon2d::{Polygon2D, Square};
pub use scalar::RealNumber;
pub use strategy::{Area2D, DefaultSubprograms, Squarea, UnitShape};
pub use vertex::Vertex;
