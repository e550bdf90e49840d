//! Direct-sum gravitational dynamics of point masses.
//!
//! A [`Universe`] holds an ordered collection of bodies and two physical
//! constants. One tick computes the acceleration of every body from all
//! the others, against the state before the tick, and then moves every
//! body by semi-implicit Euler integration. The tick exists in two forms,
//! [`Universe::step_serial`] on the calling thread and
//! [`Universe::step_parallel`] on a pool of workers, and [`laws`] proves
//! that the two compute the same state.
//!
//! The numbers are values of any type that implements [`Scalar`]. The
//! contracts say which operations are applied to which operands and in
//! which order; they say nothing of rounding.
pub mod body;
pub mod force;
pub mod laws;
pub mod parallel;
pub mod scalar;
pub mod universe;
pub mod vector;

pub use body::{Body, BodyState, Orbit};
pub use scalar::Scalar;
pub use universe::{Mode, Universe, UniverseState};
pub use vector::Vector;
