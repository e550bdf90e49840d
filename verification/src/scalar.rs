//! The number type that the simulation computes with.
//!
//! Coordinates, velocities and masses are values of a type that implements
//! [`Scalar`]. The simulation never looks inside such a value: it only
//! combines values through the operations of the trait, so everything that
//! is proved about it holds for every number type, whatever its precision
//! and rounding.
use vstd::prelude::*;

verus! {

/// A real number type with the operations that the simulation needs.
///
/// Every operation comes as a pair: a specification function that names the
/// result, and the executable method that computes it. The contracts of the
/// methods say one thing only, that an operation is a function of its
/// operands: the same operands give the same result, whoever asks and
/// whenever. Nothing is assumed about what the result is, in particular no
/// law of arithmetic (the operations of a rounding number type are neither
/// associative nor distributive).
///
/// This crate implements the trait for no type, so the contracts below are
/// assumptions about the implementor: nothing proves them. They hold of a
/// binary floating-point type with the arithmetic of IEEE 754, whose sum,
/// difference, product, quotient and square root are correctly rounded and
/// whose negation is exact, if two values that no operation tells apart,
/// such as two encodings of "not a number", count as equal. An operation whose precision may vary from call to call,
/// such as a sine, cannot be given a contract of this kind, and the trait
/// has none.
pub trait Scalar: Copy + Send + Sync {
    /// The scalar that stands for the whole number `n`.
    spec fn of_int(n: u32) -> Self;

    /// `a + b`.
    spec fn sum(a: Self, b: Self) -> Self;

    /// `a - b`.
    spec fn difference(a: Self, b: Self) -> Self;

    /// `a * b`.
    spec fn product(a: Self, b: Self) -> Self;

    /// `a / b`.
    spec fn quotient(a: Self, b: Self) -> Self;

    /// `-a`.
    spec fn negation(a: Self) -> Self;

    /// The square root of `a`.
    spec fn root(a: Self) -> Self;

    /// Converts a whole number.
    fn from_int(n: u32) -> (r: Self)
        ensures
            r == Self::of_int(n),
    ;

    /// Adds `rhs` to `self`.
    fn add(self, rhs: Self) -> (r: Self)
        ensures
            r == Self::sum(self, rhs),
    ;

    /// Subtracts `rhs` from `self`.
    fn sub(self, rhs: Self) -> (r: Self)
        ensures
            r == Self::difference(self, rhs),
    ;

    /// Multiplies `self` by `rhs`.
    fn mul(self, rhs: Self) -> (r: Self)
        ensures
            r == Self::product(self, rhs),
    ;

    /// Divides `self` by `rhs`.
    fn div(self, rhs: Self) -> (r: Self)
        ensures
            r == Self::quotient(self, rhs),
    ;

    /// Changes the sign of `self`.
    fn neg(self) -> (r: Self)
        ensures
            r == Self::negation(self),
    ;

    /// Takes the square root of `self`.
    fn sqrt(self) -> (r: Self)
        ensures
            r == Self::root(self),
    ;
}

} // verus!
