//! The collection of bodies, how it is set up, and how it moves in time.
use crate::body::{advanced, central_state, orbiter_state, Body, BodyState, Orbit};
use crate::force::{pull, pull_between, pull_of_others, pull_of_snapshot, vectors};
use crate::parallel::{advance_all, pull_on_all};
use crate::scalar::Scalar;
use crate::vector::{vector, Vector};
use vstd::prelude::*;

verus! {

/// The gravitational constant of a new universe, as a whole number.
pub const GRAVITY: u32 = 1;

/// The softening length of a new universe is one part in this many.
pub const SOFTENING_PARTS: u32 = 100_000;

/// The length of a tick is one part in this many of the unit of time.
pub const TICKS_PER_UNIT: u32 = 100;

/// How a tick is computed.
#[derive(Clone, Copy, Debug)]
pub enum Mode {
    /// On the calling thread.
    Serial,
    /// Body by body on a pool of workers.
    Parallel,
}

/// An ordered collection of bodies with the constants of their physics.
///
/// The body at index `i` is meant to have the identity `i`; the universes
/// that [`Universe::new`] makes are so, and no operation changes an
/// identity (see [`UniverseState::wf`]).
pub struct Universe<S> {
    pub bodies: Vec<Body<S>>,
    /// The gravitational constant.
    pub g_const: S,
    /// The softening, which is added to every squared distance.
    pub softening: S,
}

/// The mathematical value of a [`Universe`].
pub struct UniverseState<S> {
    pub bodies: Seq<BodyState<S>>,
    pub g_const: S,
    pub softening: S,
}

/// The values of a sequence of bodies.
pub open spec fn states<S>(bodies: Seq<Body<S>>) -> Seq<BodyState<S>> {
    Seq::new(bodies.len(), |i: int| bodies[i]@)
}

impl<S> View for Universe<S> {
    type V = UniverseState<S>;

    open spec fn view(&self) -> UniverseState<S> {
        UniverseState {
            bodies: states(self.bodies@),
            g_const: self.g_const,
            softening: self.softening,
        }
    }
}

/// The universe of one central body and one body on each of `orbits`, in
/// their order: the body on `orbits[k]` has the identity `k + 1`. The
/// gravitational constant is 1 and the softening one part in
/// [`SOFTENING_PARTS`].
pub open spec fn initial_state<S: Scalar>(orbits: Seq<Orbit<S>>) -> UniverseState<S> {
    UniverseState {
        bodies: Seq::new(
            orbits.len() + 1,
            |i: int|
                if i == 0 {
                    central_state()
                } else {
                    orbiter_state(i as nat, orbits[i - 1])
                },
        ),
        g_const: S::of_int(GRAVITY),
        softening: S::quotient(S::of_int(1), S::of_int(SOFTENING_PARTS)),
    }
}

impl<S: Scalar> UniverseState<S> {
    /// Every body has its index as its identity.
    pub open spec fn wf(self) -> bool {
        forall|i: int| 0 <= i < self.bodies.len() ==> (#[trigger] self.bodies[i]).id == i
    }

    /// The positions of all bodies, in their order.
    pub open spec fn positions(self) -> Seq<Vector<S>> {
        Seq::new(self.bodies.len(), |i: int| self.bodies[i].pos)
    }

    /// The masses of all bodies, in their order.
    pub open spec fn masses(self) -> Seq<S> {
        Seq::new(self.bodies.len(), |i: int| self.bodies[i].mass)
    }

    /// The acceleration of the body at index `i` as the serial tick computes
    /// it: from every body of another identity, in ascending order.
    pub open spec fn serial_acceleration(self, i: int) -> Vector<S> {
        pull_of_others(self.g_const, self.softening, self.bodies, self.bodies[i], self.bodies.len())
    }

    /// The acceleration of the body at index `i` as the parallel tick
    /// computes it: from the snapshot of all positions and masses, the entry
    /// at the body's identity left out, in ascending order.
    pub open spec fn parallel_acceleration(self, i: int) -> Vector<S> {
        pull_of_snapshot(
            self.g_const,
            self.softening,
            self.positions(),
            self.masses(),
            self.bodies[i],
            self.bodies.len(),
        )
    }

    /// The universe one serial tick of the length `dt` later. Every
    /// acceleration is taken in the state before the tick.
    pub open spec fn after_serial_step(self, dt: S) -> Self {
        UniverseState {
            bodies: Seq::new(
                self.bodies.len(),
                |i: int| advanced(self.bodies[i], self.serial_acceleration(i), dt),
            ),
            g_const: self.g_const,
            softening: self.softening,
        }
    }

    /// The universe one parallel tick of the length `dt` later. Every
    /// acceleration is taken in the state before the tick.
    pub open spec fn after_parallel_step(self, dt: S) -> Self {
        UniverseState {
            bodies: Seq::new(
                self.bodies.len(),
                |i: int| advanced(self.bodies[i], self.parallel_acceleration(i), dt),
            ),
            g_const: self.g_const,
            softening: self.softening,
        }
    }

    /// The universe one tick of the length `dt` later, computed in `mode`.
    pub open spec fn after_step(self, mode: Mode, dt: S) -> Self {
        match mode {
            Mode::Serial => self.after_serial_step(dt),
            Mode::Parallel => self.after_parallel_step(dt),
        }
    }

    /// The universe `ticks` ticks of the length `dt` later: one tick after
    /// the other, each from the state that the one before it left.
    pub open spec fn after_ticks(self, mode: Mode, dt: S, ticks: nat) -> Self
        decreases ticks,
    {
        if ticks == 0 {
            self
        } else {
            self.after_ticks(mode, dt, (ticks - 1) as nat).after_step(mode, dt)
        }
    }
}

/// `after` has the bodies of `before` in number, identity and mass, and its
/// two constants: at most positions and velocities differ.
pub open spec fn same_shape<S>(before: Universe<S>, after: Universe<S>) -> bool {
    &&& after.bodies.len() == before.bodies.len()
    &&& forall|i: int|
        0 <= i < before.bodies.len() ==> (#[trigger] after.bodies[i]).id == before.bodies[i].id
            && after.bodies[i].mass == before.bodies[i].mass
    &&& after.g_const == before.g_const
    &&& after.softening == before.softening
}

impl<S: Scalar> Universe<S> {
    /// Makes a universe of `orbits.len() + 1` bodies: the central body,
    /// which has the identity 0, and after it one body on each orbit.
    pub fn new(orbits: &Vec<Orbit<S>>) -> (u: Self)
        ensures
            u@ == initial_state(orbits@),
            u.bodies.len() == orbits.len() + 1,
            u@.wf(),
            u@.bodies[0] == central_state::<S>(),
    {
        let mut bodies: Vec<Body<S>> = Vec::with_capacity(orbits.len());
        bodies.push(Body::central());
        let mut i: usize = 0;
        while i < orbits.len()
            invariant
                i <= orbits.len(),
                bodies.len() == i + 1,
                bodies[0]@ == central_state::<S>(),
                forall|k: int| 1 <= k <= i ==> (#[trigger] bodies[k])@ == orbiter_state(k as nat, orbits[k - 1]),
            decreases orbits.len() - i,
        {
            bodies.push(Body::orbiter(i + 1, &orbits[i]));
            i += 1;
        }
        let u = Universe {
            bodies,
            g_const: S::from_int(GRAVITY),
            softening: S::from_int(1).div(S::from_int(SOFTENING_PARTS)),
        };
        assert(u@.bodies =~= initial_state(orbits@).bodies);
        u
    }

    /// The length of the tick that the simulation is meant to run with, one
    /// part in [`TICKS_PER_UNIT`] of the unit of time.
    pub fn tick_length() -> (dt: S)
        ensures
            dt == S::quotient(S::of_int(1), S::of_int(TICKS_PER_UNIT)),
    {
        S::from_int(1).div(S::from_int(TICKS_PER_UNIT))
    }

    /// Computes the acceleration of `target` caused by `source`.
    pub fn compute_force(&self, target: &Body<S>, source: &Body<S>) -> (acc: [S; 3])
        ensures
            vector(acc) == pull(self.g_const, self.softening, target@.pos, source@.pos, source.mass),
    {
        pull_between(self.g_const, self.softening, &target.pos, &source.pos, source.mass)
    }

    /// Computes the acceleration of the body at index `i` from every body
    /// of another identity.
    fn pull_on(&self, i: usize) -> (acc: [S; 3])
        requires
            i < self.bodies.len(),
        ensures
            vector(acc) == self@.serial_acceleration(i as int),
    {
        let zero = S::from_int(0);
        let mut acc = [zero, zero, zero];
        let mut j: usize = 0;
        while j < self.bodies.len()
            invariant
                i < self.bodies.len(),
                j <= self.bodies.len(),
                vector(acc) == pull_of_others(
                    self.g_const,
                    self.softening,
                    self@.bodies,
                    self@.bodies[i as int],
                    j as nat,
                ),
            decreases self.bodies.len() - j,
        {
            if self.bodies[i].id != self.bodies[j].id {
                let f = self.compute_force(&self.bodies[i], &self.bodies[j]);
                acc[0] = acc[0].add(f[0]);
                acc[1] = acc[1].add(f[1]);
                acc[2] = acc[2].add(f[2]);
            }
            j += 1;
        }
        acc
    }

    /// Copies the positions of all bodies.
    fn snapshot_positions(&self) -> (positions: Vec<[S; 3]>)
        ensures
            vectors(positions@) == self@.positions(),
            positions.len() == self.bodies.len(),
    {
        let mut positions: Vec<[S; 3]> = Vec::with_capacity(self.bodies.len());
        let mut i: usize = 0;
        while i < self.bodies.len()
            invariant
                i <= self.bodies.len(),
                positions.len() == i,
                forall|k: int| 0 <= k < i ==> vector(#[trigger] positions[k]) == self@.bodies[k].pos,
            decreases self.bodies.len() - i,
        {
            positions.push(self.bodies[i].pos);
            i += 1;
        }
        assert(vectors(positions@) =~= self@.positions());
        positions
    }

    /// Copies the masses of all bodies.
    fn snapshot_masses(&self) -> (masses: Vec<S>)
        ensures
            masses@ == self@.masses(),
    {
        let mut masses: Vec<S> = Vec::with_capacity(self.bodies.len());
        let mut i: usize = 0;
        while i < self.bodies.len()
            invariant
                i <= self.bodies.len(),
                masses.len() == i,
                forall|k: int| 0 <= k < i ==> #[trigger] masses[k] == self@.bodies[k].mass,
            decreases self.bodies.len() - i,
        {
            masses.push(self.bodies[i].mass);
            i += 1;
        }
        assert(masses@ =~= self@.masses());
        masses
    }

    /// Advances the universe by one tick of the length `dt` on the calling
    /// thread.
    ///
    /// All accelerations are computed first, from the state before the
    /// tick; only then is any body moved.
    pub fn step_serial(&mut self, dt: S)
        ensures
            final(self)@ == old(self)@.after_serial_step(dt),
            same_shape(*old(self), *final(self)),
    {
        let n = self.bodies.len();
        let mut updates: Vec<[S; 3]> = Vec::with_capacity(n);
        let mut i: usize = 0;
        while i < n
            invariant
                n == self.bodies.len(),
                i <= n,
                updates.len() == i,
                forall|k: int| 0 <= k < i ==> vector(#[trigger] updates[k]) == self@.serial_acceleration(k),
            decreases n - i,
        {
            let acc = self.pull_on(i);
            updates.push(acc);
            i += 1;
        }
        let mut i: usize = 0;
        while i < n
            invariant
                n == self.bodies.len(),
                n == old(self).bodies.len(),
                n == updates.len(),
                i <= n,
                self.g_const == old(self).g_const,
                self.softening == old(self).softening,
                forall|k: int| 0 <= k < n ==> vector(#[trigger] updates[k]) == old(self)@.serial_acceleration(k),
                forall|k: int| 0 <= k < i ==> (#[trigger] self.bodies[k])@ == advanced(old(self).bodies[k]@, vector(updates[k]), dt),
                forall|k: int| i <= k < n ==> #[trigger] self.bodies[k] == old(self).bodies[k],
            decreases n - i,
        {
            self.bodies[i].advance(&updates[i], dt);
            i += 1;
        }
        assert(self@.bodies =~= old(self)@.after_serial_step(dt).bodies);
    }

    /// Advances the universe by one tick of the length `dt`, with the work
    /// spread body by body over a pool of workers.
    ///
    /// The positions and masses of all bodies are copied first. Every
    /// acceleration is computed from that snapshot, and only when all of
    /// them are there is any body moved.
    pub fn step_parallel(&mut self, dt: S)
        ensures
            final(self)@ == old(self)@.after_parallel_step(dt),
            same_shape(*old(self), *final(self)),
    {
        let positions = self.snapshot_positions();
        let masses = self.snapshot_masses();
        let accelerations = pull_on_all(
            self.g_const,
            self.softening,
            &positions,
            &masses,
            &self.bodies,
        );
        advance_all(&mut self.bodies, &accelerations, dt);
        assert(self@.bodies =~= old(self)@.after_parallel_step(dt).bodies);
    }

    /// Advances the universe by `ticks` ticks of the length `dt`, each
    /// computed in `mode`.
    pub fn run(&mut self, mode: Mode, ticks: usize, dt: S)
        ensures
            final(self)@ == old(self)@.after_ticks(mode, dt, ticks as nat),
            same_shape(*old(self), *final(self)),
    {
        let mut done: usize = 0;
        while done < ticks
            invariant
                done <= ticks,
                self@ == old(self)@.after_ticks(mode, dt, done as nat),
                same_shape(*old(self), *self),
            decreases ticks - done,
        {
            match mode {
                Mode::Parallel => self.step_parallel(dt),
                Mode::Serial => self.step_serial(dt),
            }
            done += 1;
        }
    }
}

} // verus!
