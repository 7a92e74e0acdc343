//! A vector abstraction over slices of primitive numbers.
//!
//! An element type describes its raw vector: how many lanes it has and how
//! values move between memory and the vector. [`SimdRef`] and [`SimdMut`]
//! borrow a slice and apply an operation to it chunk by chunk, finishing
//! with a zero-padded partial chunk where the length is no multiple of the
//! vector width.
//!
//! # Example
//! ```
//! use carbon_simd::{SimdMut, SimdRef};
//!
//! let mut left = [1, 2, 3, 4, 5, 6, 7, 8];
//! let right = [7, 6, 5, 4, 3, 2, 1, 0];
//!
//! let mut left_simd = SimdMut::new(&mut left);
//! let right_simd = SimdRef::new(&right);
//!
//! left_simd.add_assign(&right_simd);
//!
//! assert_eq!(left, [8, 8, 8, 8, 8, 8, 8, 8]);
//! ```
pub mod driver;
pub mod element;
pub mod exponent;
pub mod floating;
pub mod integer;
pub mod lanes;
pub mod laws;
pub mod num;
pub mod packed;
pub mod simd;

pub use crate::element::SimdElement;
pub use crate::floating::SimdFloatingElement;
pub use crate::integer::SimdIntegerElement;
pub use crate::num::SimdNumElement;
pub use crate::simd::{Simd, SimdMut, SimdRef};
