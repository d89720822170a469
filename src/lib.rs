//! Interchange between drawing-command paths and polygonal contours.
//!
//! The library is generic over the point type, so the same verified logic
//! serves any coordinate representation a caller chooses.
pub mod assembly;
pub mod emit;
pub mod grouping;
pub mod laws;
pub mod shapes;
