//! The two fan-outs of the parallel tick, on rayon's pool of workers.
use crate::body::{advanced, Body};
use crate::force::{pull_from_snapshot, pull_of_snapshot, vectors};
use crate::scalar::Scalar;
use crate::vector::vector;
use rayon::iter::{
    IndexedParallelIterator, IntoParallelRefIterator, IntoParallelRefMutIterator, ParallelIterator,
};
use vstd::prelude::*;

verus! {

/// Computes the acceleration of every body from the snapshot, one task per
/// body.
///
/// Calls `par_iter`, `map` and `collect` of rayon: every body is handed to
/// [`pull_from_snapshot`], and what that returns is collected in a fresh
/// `Vec`. Assumed of rayon, and not proved: the vector has one entry for
/// every body, and the entry at index `i` is what the mapped function
/// returned for the body at index `i`, whichever worker ran it and in
/// whatever order the workers finished. What is stated of the entry is the
/// postcondition of `pull_from_snapshot`, whose precondition is the one
/// here. Rayon starts its pool of workers at the first use and panics if
/// the system lets it start none.
#[verifier::external_body]
pub(crate) fn pull_on_all<S: Scalar>(
    g: S,
    softening: S,
    positions: &Vec<[S; 3]>,
    masses: &Vec<S>,
    bodies: &Vec<Body<S>>,
) -> (accelerations: Vec<[S; 3]>)
    requires
        positions.len() == masses.len(),
    ensures
        accelerations.len() == bodies.len(),
        forall|i: int|
            0 <= i < bodies.len() ==> vector(#[trigger] accelerations[i]) == pull_of_snapshot(
                g,
                softening,
                vectors(positions@),
                masses@,
                bodies[i]@,
                positions.len() as nat,
            ),
{
    bodies.par_iter().map(|body| pull_from_snapshot(g, softening, positions, masses, body)).collect()
}

/// Moves every body over the time step `dt` under its own acceleration,
/// one task per body.
///
/// Calls `par_iter_mut`, `zip` and `for_each` of rayon: the body at index
/// `i` is paired with the acceleration at index `i`, and each pair is
/// handed to [`Body::advance`]. Assumed of rayon, and not proved: every
/// pair is handed over exactly once, no body is touched otherwise, and when
/// the call returns all pairs have been handled. What is stated of each
/// body is the postcondition of `Body::advance`. Rayon starts its pool of
/// workers at the first use and panics if the system lets it start none.
#[verifier::external_body]
pub(crate) fn advance_all<S: Scalar>(bodies: &mut Vec<Body<S>>, accelerations: &Vec<[S; 3]>, dt: S)
    requires
        accelerations.len() == old(bodies).len(),
    ensures
        final(bodies).len() == old(bodies).len(),
        forall|i: int|
            0 <= i < old(bodies).len() ==> (#[trigger] final(bodies)[i])@ == advanced(
                old(bodies)[i]@,
                vector(accelerations[i]),
                dt,
            ),
{
    bodies.par_iter_mut().zip(accelerations.par_iter()).for_each(|(body, acc)| body.advance(acc, dt));
}

} // verus!
