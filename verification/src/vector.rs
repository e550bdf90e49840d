//! Three-component vectors of scalars, as the contracts see them.
use crate::scalar::Scalar;
use vstd::prelude::*;

verus! {

/// A vector of three scalars: the mathematical value of a `[S; 3]`.
pub struct Vector<S> {
    pub x: S,
    pub y: S,
    pub z: S,
}

/// The vector that an array of three scalars holds.
pub open spec fn vector<S>(a: [S; 3]) -> Vector<S> {
    Vector { x: a[0], y: a[1], z: a[2] }
}

/// The vector whose components are all zero.
pub open spec fn origin<S: Scalar>() -> Vector<S> {
    Vector { x: S::of_int(0), y: S::of_int(0), z: S::of_int(0) }
}

/// `a + b`, component by component.
pub open spec fn plus<S: Scalar>(a: Vector<S>, b: Vector<S>) -> Vector<S> {
    Vector { x: S::sum(a.x, b.x), y: S::sum(a.y, b.y), z: S::sum(a.z, b.z) }
}

/// `a + b * t`, component by component: `b` over the time `t`, added to `a`.
pub open spec fn drifted<S: Scalar>(a: Vector<S>, b: Vector<S>, t: S) -> Vector<S> {
    Vector {
        x: S::sum(a.x, S::product(b.x, t)),
        y: S::sum(a.y, S::product(b.y, t)),
        z: S::sum(a.z, S::product(b.z, t)),
    }
}

} // verus!
