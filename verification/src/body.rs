//! Point masses, and how one of them moves over a time step.
use crate::scalar::Scalar;
use crate::vector::{drifted, origin, vector, Vector};
use vstd::prelude::*;

verus! {

/// The mass of the central body, as a whole number.
pub const CENTRAL_MASS: u32 = 1_000_000;

/// A point mass.
///
/// `id` is the body's place in the collection that holds it. It is given
/// once, when the body is made, and no operation of this crate changes it,
/// nor the mass.
#[derive(Clone, Copy, Debug)]
pub struct Body<S> {
    pub id: usize,
    pub pos: [S; 3],
    pub vel: [S; 3],
    pub mass: S,
}

/// The mathematical value of a [`Body`].
pub struct BodyState<S> {
    pub id: nat,
    pub pos: Vector<S>,
    pub vel: Vector<S>,
    pub mass: S,
}

impl<S> View for Body<S> {
    type V = BodyState<S>;

    open spec fn view(&self) -> BodyState<S> {
        BodyState { id: self.id as nat, pos: vector(self.pos), vel: vector(self.vel), mass: self.mass }
    }
}

/// What places a body on a circular orbit round the central body: its
/// distance from the centre, the direction in which it lies from there in
/// the plane `z = 0`, given by the cosine and the sine of its angle, and
/// its mass.
#[derive(Clone, Copy, Debug)]
pub struct Orbit<S> {
    pub dist: S,
    pub cos: S,
    pub sin: S,
    pub mass: S,
}

/// The central body: at rest at the origin, with the mass [`CENTRAL_MASS`]
/// and the identity 0.
pub open spec fn central_state<S: Scalar>() -> BodyState<S> {
    BodyState { id: 0, pos: origin(), vel: origin(), mass: S::of_int(CENTRAL_MASS) }
}

/// The speed of a circular orbit at the distance `dist` from the central
/// body: the square root of the central mass over the distance.
pub open spec fn orbital_speed<S: Scalar>(dist: S) -> S {
    S::root(S::quotient(S::of_int(CENTRAL_MASS), dist))
}

/// The body `id` on the orbit `orbit`. It lies in the plane `z = 0` at
/// `(dist * cos, dist * sin)` and moves along the tangent,
/// `(-v * sin, v * cos)`, with the orbital speed `v`.
pub open spec fn orbiter_state<S: Scalar>(id: nat, orbit: Orbit<S>) -> BodyState<S> {
    let speed = orbital_speed(orbit.dist);
    BodyState {
        id,
        pos: Vector {
            x: S::product(orbit.dist, orbit.cos),
            y: S::product(orbit.dist, orbit.sin),
            z: S::of_int(0),
        },
        vel: Vector {
            x: S::product(S::negation(speed), orbit.sin),
            y: S::product(speed, orbit.cos),
            z: S::of_int(0),
        },
        mass: orbit.mass,
    }
}

/// The body `b` after a time step `dt` under the acceleration `acc`, by
/// semi-implicit Euler integration: the velocity changes first, and the
/// position then moves with the new velocity. Identity and mass stay.
pub open spec fn advanced<S: Scalar>(b: BodyState<S>, acc: Vector<S>, dt: S) -> BodyState<S> {
    let vel = drifted(b.vel, acc, dt);
    BodyState { id: b.id, pos: drifted(b.pos, vel, dt), vel, mass: b.mass }
}

impl<S: Scalar> Body<S> {
    /// Makes the central body.
    pub fn central() -> (b: Self)
        ensures
            b@ == central_state::<S>(),
    {
        let zero = S::from_int(0);
        Body { id: 0, pos: [zero, zero, zero], vel: [zero, zero, zero], mass: S::from_int(CENTRAL_MASS) }
    }

    /// Makes the body `id` on the orbit `orbit`.
    pub fn orbiter(id: usize, orbit: &Orbit<S>) -> (b: Self)
        ensures
            b@ == orbiter_state(id as nat, *orbit),
    {
        let zero = S::from_int(0);
        let speed = S::from_int(CENTRAL_MASS).div(orbit.dist).sqrt();
        Body {
            id,
            pos: [orbit.dist.mul(orbit.cos), orbit.dist.mul(orbit.sin), zero],
            vel: [speed.neg().mul(orbit.sin), speed.mul(orbit.cos), zero],
            mass: orbit.mass,
        }
    }

    /// Moves the body over the time step `dt` under the acceleration `acc`.
    pub fn advance(&mut self, acc: &[S; 3], dt: S)
        ensures
            final(self)@ == advanced(old(self)@, vector(*acc), dt),
    {
        self.vel[0] = self.vel[0].add(acc[0].mul(dt));
        self.vel[1] = self.vel[1].add(acc[1].mul(dt));
        self.vel[2] = self.vel[2].add(acc[2].mul(dt));
        self.pos[0] = self.pos[0].add(self.vel[0].mul(dt));
        self.pos[1] = self.pos[1].add(self.vel[1].mul(dt));
        self.pos[2] = self.pos[2].add(self.vel[2].mul(dt));
    }
}

} // verus!
