//! A dense rectangular matrix over any element type that offers an
//! additive identity, addition and multiplication, together with the
//! semiring laws that make matrix algebra behave.

pub mod element;
pub mod laws;
pub mod matrix;
pub mod sums;

pub use crate::element::Element;
pub use crate::matrix::Matrix;
