//! The force law, and the acceleration of one body from all the others.
use crate::body::{Body, BodyState};
use crate::scalar::Scalar;
use crate::vector::{origin, plus, vector, Vector};
use vstd::prelude::*;

verus! {

/// The acceleration of a body at `target` caused by a body of the mass
/// `source_mass` at `source`: Newtonian gravity with a softened distance.
///
/// With `d = source - target` and `r2 = d.x^2 + d.y^2 + d.z^2 + softening`,
/// it is `(g * source_mass / r2) * d / sqrt(r2)`. The softening is added to
/// the squared distance, so `r2` is not zero where the two bodies coincide.
pub open spec fn pull<S: Scalar>(
    g: S,
    softening: S,
    target: Vector<S>,
    source: Vector<S>,
    source_mass: S,
) -> Vector<S> {
    let dx = S::difference(source.x, target.x);
    let dy = S::difference(source.y, target.y);
    let dz = S::difference(source.z, target.z);
    let dist_sq = S::sum(
        S::sum(S::sum(S::product(dx, dx), S::product(dy, dy)), S::product(dz, dz)),
        softening,
    );
    let dist = S::root(dist_sq);
    let f = S::quotient(S::product(g, source_mass), dist_sq);
    Vector {
        x: S::quotient(S::product(f, dx), dist),
        y: S::quotient(S::product(f, dy), dist),
        z: S::quotient(S::product(f, dz), dist),
    }
}

/// The acceleration of `target` from the first `n` of `bodies`, summed in
/// ascending order from zero. A body with the identity of `target` adds
/// nothing: no body pulls on itself, wherever it is.
pub open spec fn pull_of_others<S: Scalar>(
    g: S,
    softening: S,
    bodies: Seq<BodyState<S>>,
    target: BodyState<S>,
    n: nat,
) -> Vector<S>
    decreases n,
{
    if n == 0 {
        origin()
    } else {
        let before = pull_of_others(g, softening, bodies, target, (n - 1) as nat);
        let source = bodies[n - 1];
        if target.id != source.id {
            plus(before, pull(g, softening, target.pos, source.pos, source.mass))
        } else {
            before
        }
    }
}

/// The acceleration of `target` from the first `n` entries of a snapshot of
/// positions and masses, summed in ascending order from zero. The entry
/// whose index is the identity of `target` adds nothing.
pub open spec fn pull_of_snapshot<S: Scalar>(
    g: S,
    softening: S,
    positions: Seq<Vector<S>>,
    masses: Seq<S>,
    target: BodyState<S>,
    n: nat,
) -> Vector<S>
    decreases n,
{
    if n == 0 {
        origin()
    } else {
        let before = pull_of_snapshot(g, softening, positions, masses, target, (n - 1) as nat);
        if target.id != n - 1 {
            plus(before, pull(g, softening, target.pos, positions[n - 1], masses[n - 1]))
        } else {
            before
        }
    }
}

/// The vectors that a sequence of arrays holds.
pub open spec fn vectors<S>(arrays: Seq<[S; 3]>) -> Seq<Vector<S>> {
    Seq::new(arrays.len(), |i: int| vector(arrays[i]))
}

/// Computes the acceleration of a body at `target` caused by a body of the
/// mass `source_mass` at `source`.
pub fn pull_between<S: Scalar>(
    g: S,
    softening: S,
    target: &[S; 3],
    source: &[S; 3],
    source_mass: S,
) -> (acc: [S; 3])
    ensures
        vector(acc) == pull(g, softening, vector(*target), vector(*source), source_mass),
{
    let dx = source[0].sub(target[0]);
    let dy = source[1].sub(target[1]);
    let dz = source[2].sub(target[2]);
    let dist_sq = dx.mul(dx).add(dy.mul(dy)).add(dz.mul(dz)).add(softening);
    let dist = dist_sq.sqrt();
    let f = g.mul(source_mass).div(dist_sq);
    [f.mul(dx).div(dist), f.mul(dy).div(dist), f.mul(dz).div(dist)]
}

/// Computes the acceleration of `target` from a snapshot of the positions
/// and masses of all bodies, the body itself left out.
pub(crate) fn pull_from_snapshot<S: Scalar>(
    g: S,
    softening: S,
    positions: &Vec<[S; 3]>,
    masses: &Vec<S>,
    target: &Body<S>,
) -> (acc: [S; 3])
    requires
        positions.len() == masses.len(),
    ensures
        vector(acc) == pull_of_snapshot(
            g,
            softening,
            vectors(positions@),
            masses@,
            target@,
            positions.len() as nat,
        ),
{
    let zero = S::from_int(0);
    let mut acc = [zero, zero, zero];
    let mut i: usize = 0;
    while i < positions.len()
        invariant
            i <= positions.len(),
            positions.len() == masses.len(),
            vector(acc) == pull_of_snapshot(
                g,
                softening,
                vectors(positions@),
                masses@,
                target@,
                i as nat,
            ),
        decreases positions.len() - i,
    {
        if target.id != i {
            let f = pull_between(g, softening, &target.pos, &positions[i], masses[i]);
            acc[0] = acc[0].add(f[0]);
            acc[1] = acc[1].add(f[1]);
            acc[2] = acc[2].add(f[2]);
        }
        i += 1;
    }
    acc
}

} // verus!
