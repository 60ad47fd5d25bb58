//! Two-dimensional integer geometry: points, vectors, sizes and
//! axis-aligned rectangles, with contracts over their components.
//!
//! Every type is a plain value with public fields. Arithmetic that could
//! leave the range of a component type is ruled out by preconditions;
//! conversions between signed and unsigned components are stated as the
//! two's-complement reinterpretation that `as` performs.

pub mod arc_segment;
pub mod interop;
pub mod num;
pub mod point2i;
pub mod point2u;
pub mod rect_corner;
pub mod recti;
pub mod rectu;
pub mod sizeu;
pub mod vector2i;

pub use crate::arc_segment::{ArcSize, SweepDirection};
pub use crate::point2i::Point2i;
pub use crate::point2u::Point2u;
pub use crate::rect_corner::RectCorner;
pub use crate::recti::Recti;
pub use crate::rectu::Rectu;
pub use crate::sizeu::Sizeu;
pub use crate::vector2i::Vector2i;
