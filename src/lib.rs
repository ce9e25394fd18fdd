//! Turn logic of a 3x3x3 twisty puzzle: which slice a drag selects, how the
//! selection evolves while the pointer is held, and how a finished quarter turn
//! permutes the logical grid coordinates of the cubies.
pub mod geometry;
pub mod puzzle;
pub mod gesture;
