//! Geometric primitives for physical design: intervals, points, vectors and
//! the rotated-space rectangles used to merge Manhattan regions.

pub mod generic;
pub mod halton_int;
pub mod interval;
pub mod merge_obj;
pub mod point;
pub mod polygon;
pub mod rpolygon;
mod text;
pub mod vector2;

pub use crate::interval::Interval;
pub use crate::merge_obj::MergeObj;
pub use crate::point::Point;
pub use crate::polygon::Polygon;
pub use crate::rpolygon::RPolygon;
pub use crate::vector2::Vector2;
