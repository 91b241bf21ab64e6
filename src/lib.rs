//! Encoding of 2D vector shapes into fixed-layout GPU records.
//!
//! Floating-point quantities (matrices, colors, thicknesses, points) are held
//! as their IEEE-754 single-precision bit patterns, so that two records are
//! equal exactly when they are byte-identical.
pub mod flags;
pub mod record;
pub mod shape;
pub mod polyline;
