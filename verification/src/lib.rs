//! A Caesar (rotation) cipher over grapheme clusters.
//!
//! Each text unit is an extended grapheme cluster. A cluster consisting of
//! exactly one ASCII letter is rotated by the shift amount within its
//! case-respective alphabet; every other cluster passes through unchanged,
//! whatever its length. Shift amounts of any magnitude are folded into
//! `[0, 26)` before use.

pub mod rotate;
pub mod segment;
pub mod transform;

pub use transform::{transform, transform_units};
