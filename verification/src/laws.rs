//! What holds of the simulation as a whole.
use crate::body::BodyState;
use crate::force::{pull, pull_of_others, pull_of_snapshot};
use crate::scalar::Scalar;
use crate::universe::{Mode, UniverseState};
use crate::vector::{origin, plus, Vector};
use vstd::prelude::*;

verus! {

/// The acceleration of a body at `target` from the first `n` of `sources`,
/// every one of them counted, summed in ascending order from zero.
pub open spec fn pull_of_all<S: Scalar>(
    g: S,
    softening: S,
    sources: Seq<BodyState<S>>,
    target: Vector<S>,
    n: nat,
) -> Vector<S>
    decreases n,
{
    if n == 0 {
        origin()
    } else {
        plus(
            pull_of_all(g, softening, sources, target, (n - 1) as nat),
            pull(g, softening, target, sources[n - 1].pos, sources[n - 1].mass),
        )
    }
}

/// A tick moves bodies and does nothing else: the number of bodies, the
/// identity and the mass of each, and the two constants are after the tick
/// what they were before it. So a universe in which every body has its
/// index as its identity stays one.
pub proof fn lemma_step_keeps_shape<S: Scalar>(u: UniverseState<S>, mode: Mode, dt: S)
    ensures
        u.after_step(mode, dt).bodies.len() == u.bodies.len(),
        forall|i: int|
            0 <= i < u.bodies.len() ==> (#[trigger] u.after_step(mode, dt).bodies[i]).id
                == u.bodies[i].id,
        forall|i: int|
            0 <= i < u.bodies.len() ==> (#[trigger] u.after_step(mode, dt).bodies[i]).mass
                == u.bodies[i].mass,
        u.after_step(mode, dt).g_const == u.g_const,
        u.after_step(mode, dt).softening == u.softening,
        u.wf() ==> u.after_step(mode, dt).wf(),
{
}

/// Any number of ticks keeps what one tick keeps: the number of bodies, the
/// identity and the mass of each, and the two constants.
pub proof fn lemma_ticks_keep_shape<S: Scalar>(u: UniverseState<S>, mode: Mode, dt: S, ticks: nat)
    ensures
        u.after_ticks(mode, dt, ticks).bodies.len() == u.bodies.len(),
        forall|i: int|
            0 <= i < u.bodies.len() ==> (#[trigger] u.after_ticks(mode, dt, ticks).bodies[i]).id
                == u.bodies[i].id,
        forall|i: int|
            0 <= i < u.bodies.len() ==> (#[trigger] u.after_ticks(mode, dt, ticks).bodies[i]).mass
                == u.bodies[i].mass,
        u.after_ticks(mode, dt, ticks).g_const == u.g_const,
        u.after_ticks(mode, dt, ticks).softening == u.softening,
        u.wf() ==> u.after_ticks(mode, dt, ticks).wf(),
    decreases ticks,
{
    if ticks > 0 {
        let before = u.after_ticks(mode, dt, (ticks - 1) as nat);
        lemma_ticks_keep_shape(u, mode, dt, (ticks - 1) as nat);
        lemma_step_keeps_shape(before, mode, dt);
    }
}

/// Where every body has its index as its identity, the sum over a snapshot
/// of positions and masses that leaves out the entry at the target's
/// identity is, term for term, the sum over the bodies that leaves out
/// those of the target's identity.
pub proof fn lemma_pulls_agree<S: Scalar>(u: UniverseState<S>, target: BodyState<S>, n: nat)
    requires
        u.wf(),
        n <= u.bodies.len(),
    ensures
        pull_of_snapshot(u.g_const, u.softening, u.positions(), u.masses(), target, n)
            == pull_of_others(u.g_const, u.softening, u.bodies, target, n),
    decreases n,
{
    if n > 0 {
        lemma_pulls_agree(u, target, (n - 1) as nat);
        assert(u.bodies[n - 1].id == n - 1);
    }
}

/// The serial tick and the parallel tick compute the same state, exactly:
/// from any universe in which every body has its index as its identity,
/// and for any time step, the two leave every body with the same position
/// and the same velocity.
pub proof fn lemma_steps_agree<S: Scalar>(u: UniverseState<S>, dt: S)
    requires
        u.wf(),
    ensures
        u.after_serial_step(dt) == u.after_parallel_step(dt),
{
    assert forall|i: int| 0 <= i < u.bodies.len() implies u.serial_acceleration(i)
        == u.parallel_acceleration(i) by {
        lemma_pulls_agree(u, u.bodies[i], u.bodies.len());
    }
    assert(u.after_serial_step(dt).bodies =~= u.after_parallel_step(dt).bodies);
}

/// A run of serial ticks and a run of as many parallel ticks end in the
/// same state.
pub proof fn lemma_runs_agree<S: Scalar>(u: UniverseState<S>, dt: S, ticks: nat)
    requires
        u.wf(),
    ensures
        u.after_ticks(Mode::Serial, dt, ticks) == u.after_ticks(Mode::Parallel, dt, ticks),
    decreases ticks,
{
    if ticks > 0 {
        lemma_runs_agree(u, dt, (ticks - 1) as nat);
        lemma_ticks_keep_shape(u, Mode::Serial, dt, (ticks - 1) as nat);
        lemma_steps_agree(u.after_ticks(Mode::Serial, dt, (ticks - 1) as nat), dt);
    }
}

/// The sum over the bodies that leaves out the target, up to `n`, is the
/// sum over the collection from which the target was taken out, every body
/// counted.
proof fn lemma_others_are_the_rest<S: Scalar>(u: UniverseState<S>, i: int, n: nat)
    requires
        u.wf(),
        0 <= i < u.bodies.len(),
        n <= u.bodies.len(),
    ensures
        pull_of_others(u.g_const, u.softening, u.bodies, u.bodies[i], n) == pull_of_all(
            u.g_const,
            u.softening,
            u.bodies.remove(i),
            u.bodies[i].pos,
            if n <= i {
                n
            } else {
                (n - 1) as nat
            },
        ),
    decreases n,
{
    if n > 0 {
        lemma_others_are_the_rest(u, i, (n - 1) as nat);
        assert(u.bodies[n - 1].id == n - 1);
        if n - 1 < i {
            assert(u.bodies.remove(i)[n - 1] == u.bodies[n - 1]);
        } else if n - 1 > i {
            assert(u.bodies.remove(i)[n - 2] == u.bodies[n - 1]);
        }
    }
}

/// No body pulls on itself. In a universe in which every body has its
/// index as its identity, the acceleration of a body is the sum of the
/// pulls of all the other bodies and of nothing else: it is what the
/// collection without that body gives, every body of it counted. The two
/// ticks agree on it.
pub proof fn lemma_no_self_pull<S: Scalar>(u: UniverseState<S>, i: int)
    requires
        u.wf(),
        0 <= i < u.bodies.len(),
    ensures
        u.serial_acceleration(i) == pull_of_all(
            u.g_const,
            u.softening,
            u.bodies.remove(i),
            u.bodies[i].pos,
            (u.bodies.len() - 1) as nat,
        ),
        u.parallel_acceleration(i) == u.serial_acceleration(i),
{
    lemma_others_are_the_rest(u, i, u.bodies.len());
    lemma_pulls_agree(u, u.bodies[i], u.bodies.len());
}

/// A body that is alone is not accelerated, at any tick: in a universe of
/// one body, and in every state that any number of ticks leads to from it,
/// the acceleration of that body is zero in every component, in the serial
/// tick whatever its identity, and in the parallel tick where its identity
/// is its index.
pub proof fn lemma_lone_body_is_free<S: Scalar>(u: UniverseState<S>, mode: Mode, dt: S, ticks: nat)
    requires
        u.bodies.len() == 1,
    ensures
        u.after_ticks(mode, dt, ticks).bodies.len() == 1,
        u.after_ticks(mode, dt, ticks).serial_acceleration(0) == origin::<S>(),
        u.wf() ==> u.after_ticks(mode, dt, ticks).parallel_acceleration(0) == origin::<S>(),
{
    lemma_ticks_keep_shape(u, mode, dt, ticks);
    reveal_with_fuel(pull_of_others, 2);
    reveal_with_fuel(pull_of_snapshot, 2);
}

/// A run of ticks is its single ticks, one after the other: `first + rest`
/// ticks leave the state that `rest` ticks leave when they start from the
/// state that `first` ticks left.
pub proof fn lemma_ticks_compose<S: Scalar>(
    u: UniverseState<S>,
    mode: Mode,
    dt: S,
    first: nat,
    rest: nat,
)
    ensures
        u.after_ticks(mode, dt, first + rest) == u.after_ticks(mode, dt, first).after_ticks(
            mode,
            dt,
            rest,
        ),
    decreases rest,
{
    if rest > 0 {
        lemma_ticks_compose(u, mode, dt, first, (rest - 1) as nat);
        assert(first + rest - 1 == first + (rest - 1) as nat);
    }
}

/// A run of one tick is one step, and a run of no tick changes nothing.
pub proof fn lemma_single_tick<S: Scalar>(u: UniverseState<S>, mode: Mode, dt: S)
    ensures
        u.after_ticks(mode, dt, 0) == u,
        u.after_ticks(mode, dt, 1) == u.after_step(mode, dt),
{
    reveal_with_fuel(UniverseState::after_ticks, 2);
}

} // verus!
