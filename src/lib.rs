//! Toolpath and extrusion engine for spiral-wound cylindrical prints.
//!
//! All lengths are integer nanometres; flow multipliers are thousandths.

pub mod cylinder;
pub mod decay;
pub mod error;
pub mod extrusion;
pub mod geometry;
pub mod printer;
