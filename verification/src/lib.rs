//! Core of a 3x3x3 twisty-puzzle simulation.
//!
//! The cube is modelled on a fixed-point integer grid: every coordinate is a
//! whole number of hundredths, so a solved piece sits at a lattice point with
//! components in {-100, 0, 100}.  Quarter and half turns are exact signed
//! permutations of coordinates on that grid, which lets the rotation algebra,
//! the piece/face bookkeeping and the face-unwrapping be verified end to end.

pub mod cube;
pub mod direction;
pub mod geometry;
pub mod laws;
pub mod moves;
pub mod trig;
pub mod uvmap;
