use nbody::body::CENTRAL_MASS;
use nbody::force::pull_between;
use nbody::{Body, Mode, Orbit, Scalar, Universe};
use rand::Rng;

/// Double precision, with the operations of the hardware.
#[derive(Clone, Copy, Debug, PartialEq)]
struct Real(f64);

impl Scalar for Real {
    fn of_int(n: u32) -> Self {
        Real(f64::from(n))
    }

    fn sum(a: Self, b: Self) -> Self {
        Real(a.0 + b.0)
    }

    fn difference(a: Self, b: Self) -> Self {
        Real(a.0 - b.0)
    }

    fn product(a: Self, b: Self) -> Self {
        Real(a.0 * b.0)
    }

    fn quotient(a: Self, b: Self) -> Self {
        Real(a.0 / b.0)
    }

    fn negation(a: Self) -> Self {
        Real(-a.0)
    }

    fn root(a: Self) -> Self {
        Real(a.0.sqrt())
    }

    fn from_int(n: u32) -> Self {
        Self::of_int(n)
    }

    fn add(self, rhs: Self) -> Self {
        Self::sum(self, rhs)
    }

    fn sub(self, rhs: Self) -> Self {
        Self::difference(self, rhs)
    }

    fn mul(self, rhs: Self) -> Self {
        Self::product(self, rhs)
    }

    fn div(self, rhs: Self) -> Self {
        Self::quotient(self, rhs)
    }

    fn neg(self) -> Self {
        Self::negation(self)
    }

    fn sqrt(self) -> Self {
        Self::root(self)
    }
}

fn reals(v: [f64; 3]) -> [Real; 3] {
    [Real(v[0]), Real(v[1]), Real(v[2])]
}

fn floats(v: [Real; 3]) -> [f64; 3] {
    [v[0].0, v[1].0, v[2].0]
}

fn body(id: usize, pos: [f64; 3], vel: [f64; 3], mass: f64) -> Body<Real> {
    Body { id, pos: reals(pos), vel: reals(vel), mass: Real(mass) }
}

fn universe(bodies: Vec<Body<Real>>, g_const: f64, softening: f64) -> Universe<Real> {
    Universe { bodies, g_const: Real(g_const), softening: Real(softening) }
}

fn orbit(dist: f64, angle: f64, mass: f64) -> Orbit<Real> {
    Orbit { dist: Real(dist), cos: Real(angle.cos()), sin: Real(angle.sin()), mass: Real(mass) }
}

fn random_orbits(count: usize) -> Vec<Orbit<Real>> {
    let mut rng = rand::thread_rng();
    let mut orbits = Vec::new();
    for _ in 1..count {
        let dist = rng.gen_range(100.0..1000.0);
        let angle = rng.gen_range(0.0..std::f64::consts::PI * 2.0);
        let mass = rng.gen_range(1.0..10.0);
        orbits.push(orbit(dist, angle, mass));
    }
    orbits
}

/// Three bodies of unlike masses, none at rest, none in a common plane.
fn three_bodies() -> Vec<Body<Real>> {
    vec![
        body(0, [0.0, 0.0, 0.0], [0.0, 0.1, 0.0], 1000.0),
        body(1, [3.0, 4.0, 0.5], [-1.0, 0.0, 0.25], 7.5),
        body(2, [-2.0, 1.0, 6.0], [0.0, 2.0, -0.5], 0.125),
    ]
}

fn same_state(a: &Universe<Real>, b: &Universe<Real>) -> bool {
    a.bodies.len() == b.bodies.len()
        && a.g_const == b.g_const
        && a.softening == b.softening
        && a.bodies.iter().zip(b.bodies.iter()).all(|(x, y)| {
            x.id == y.id && x.pos == y.pos && x.vel == y.vel && x.mass == y.mass
        })
}

#[test]
fn test_parallel_determinism() {
    let mut universe_serial = Universe::new(&random_orbits(100));
    let mut universe_parallel = Universe::new(&random_orbits(100));
    universe_parallel.bodies = universe_serial.bodies.clone();

    let dt = Real(0.01);

    universe_serial.step_serial(dt);
    universe_parallel.step_parallel(dt);

    assert_eq!(universe_serial.bodies.len(), 100);
    for i in 0..universe_serial.bodies.len() {
        let s_pos = floats(universe_serial.bodies[i].pos);
        let p_pos = floats(universe_parallel.bodies[i].pos);

        let diff_x = (s_pos[0] - p_pos[0]).abs();
        let diff_y = (s_pos[1] - p_pos[1]).abs();
        let diff_z = (s_pos[2] - p_pos[2]).abs();

        assert!(diff_x < 1e-10, "Drift detected in X at index {}", i);
        assert!(diff_y < 1e-10, "Drift detected in Y at index {}", i);
        assert!(diff_z < 1e-10, "Drift detected in Z at index {}", i);
    }
}

#[test]
fn serial_and_parallel_steps_give_the_same_bits() {
    let mut serial = universe(three_bodies(), 1.0, 1e-5);
    let mut parallel = universe(three_bodies(), 1.0, 1e-5);
    serial.step_serial(Real(0.01));
    parallel.step_parallel(Real(0.01));
    assert!(same_state(&serial, &parallel));
    let start = universe(three_bodies(), 1.0, 1e-5);
    for i in 0..3 {
        assert_ne!(parallel.bodies[i].pos, start.bodies[i].pos);
        assert_ne!(parallel.bodies[i].vel, start.bodies[i].vel);
    }
}

#[test]
fn serial_and_parallel_runs_give_the_same_bits() {
    let orbits = random_orbits(40);
    let mut serial = Universe::new(&orbits);
    let mut parallel = Universe::new(&orbits);
    serial.run(Mode::Serial, 25, Real(0.01));
    parallel.run(Mode::Parallel, 25, Real(0.01));
    assert!(same_state(&serial, &parallel));
}

#[test]
fn pull_is_newtonian_with_softened_distance() {
    // d = (0, 0, 2), r2 = 4, r = 2, f = 1 * 8 / 4 = 2, acc = 2 * d / 2.
    let acc = pull_between(
        Real(1.0),
        Real(0.0),
        &reals([1.0, 1.0, 1.0]),
        &reals([1.0, 1.0, 3.0]),
        Real(8.0),
    );
    assert_eq!(floats(acc), [0.0, 0.0, 2.0]);

    // d = (2, 0, 0), r2 = 4 + 5 = 9, r = 3, f = 3 * 9 / 9 = 3, acc.x = 3 * 2 / 3.
    let acc = pull_between(
        Real(3.0),
        Real(5.0),
        &reals([0.0, 0.0, 0.0]),
        &reals([2.0, 0.0, 0.0]),
        Real(9.0),
    );
    assert_eq!(floats(acc), [2.0, 0.0, 0.0]);

    // The pull points from the target to the source.
    let acc = pull_between(
        Real(1.0),
        Real(0.0),
        &reals([0.0, 0.0, 0.0]),
        &reals([-3.0, 4.0, 0.0]),
        Real(125.0),
    );
    assert_eq!(floats(acc), [5.0 * -3.0 / 5.0, 5.0 * 4.0 / 5.0, 0.0]);
}

#[test]
fn compute_force_uses_the_constants_of_the_universe() {
    let u = universe(three_bodies(), 3.0, 5.0);
    let target = body(7, [0.0, 0.0, 0.0], [9.0, 9.0, 9.0], 4.0);
    let source = body(8, [2.0, 0.0, 0.0], [1.0, 1.0, 1.0], 9.0);
    assert_eq!(floats(u.compute_force(&target, &source)), [2.0, 0.0, 0.0]);
    assert_eq!(floats(u.compute_force(&source, &target)), [4.0 / 3.0 * -2.0 / 3.0, 0.0, 0.0]);
}

#[test]
fn softening_is_added_to_the_squared_distance() {
    // With r = 4 and softening 9 the softened squared distance is 25, not (4 + 9)^2.
    let acc = pull_between(
        Real(1.0),
        Real(9.0),
        &reals([0.0, 0.0, 0.0]),
        &reals([0.0, 4.0, 0.0]),
        Real(50.0),
    );
    assert_eq!(floats(acc), [0.0, 2.0 * 4.0 / 5.0, 0.0]);
}

#[test]
fn coincident_bodies_pull_finitely() {
    let g = 1.0;
    let mass = 1_000_000.0;
    let softening = 1e-5;
    let bound = g * mass / softening;
    let mut gap = 1.0;
    while gap > 1e-300 {
        let acc = floats(pull_between(
            Real(g),
            Real(softening),
            &reals([5.0, -2.0, 1.0]),
            &reals([5.0 + gap, -2.0, 1.0]),
            Real(mass),
        ));
        for c in acc {
            assert!(c.is_finite());
            assert!(c.abs() <= bound);
        }
        gap /= 10.0;
    }
    let acc = floats(pull_between(
        Real(g),
        Real(softening),
        &reals([5.0, -2.0, 1.0]),
        &reals([5.0, -2.0, 1.0]),
        Real(mass),
    ));
    assert_eq!(acc, [0.0, 0.0, 0.0]);

    let mut u = universe(
        vec![
            body(0, [1.0, 2.0, 3.0], [0.0, 0.0, 0.0], mass),
            body(1, [1.0, 2.0, 3.0], [0.0, 0.0, 0.0], mass),
        ],
        g,
        softening,
    );
    u.step_serial(Real(0.01));
    for b in &u.bodies {
        assert_eq!(floats(b.pos), [1.0, 2.0, 3.0]);
        assert_eq!(floats(b.vel), [0.0, 0.0, 0.0]);
    }
}

#[test]
fn lone_body_is_not_accelerated() {
    for mode in [Mode::Serial, Mode::Parallel] {
        let mut u = universe(vec![body(0, [1.0, 2.0, 3.0], [4.0, -8.0, 16.0], 5.0)], 1.0, 1e-5);
        u.run(mode, 3, Real(0.5));
        assert_eq!(u.bodies.len(), 1);
        assert_eq!(floats(u.bodies[0].vel), [4.0, -8.0, 16.0]);
        assert_eq!(floats(u.bodies[0].pos), [7.0, -10.0, 27.0]);
    }
}

#[test]
fn body_does_not_pull_on_itself() {
    // Without softening a body that pulled on itself would divide 0 by 0.
    for mode in [Mode::Serial, Mode::Parallel] {
        let mut u = universe(
            vec![
                body(0, [0.0, 0.0, 0.0], [0.0, 0.0, 0.0], 8.0),
                body(1, [0.0, 0.0, 2.0], [0.0, 0.0, 0.0], 8.0),
            ],
            1.0,
            0.0,
        );
        u.run(mode, 1, Real(1.0));
        // r2 = 4, r = 2, f = 8 / 4 = 2, acc = 2 * 2 / 2 = 2 towards the other body.
        assert_eq!(floats(u.bodies[0].vel), [0.0, 0.0, 2.0]);
        assert_eq!(floats(u.bodies[1].vel), [0.0, 0.0, -2.0]);
    }
}

#[test]
fn body_is_left_out_by_identity_not_by_position() {
    // Bodies 0 and 2 are at one place. Without softening each divides 0 by
    // 0 for the other, so both are counted; body 1 sees two sources.
    for mode in [Mode::Serial, Mode::Parallel] {
        let mut u = universe(
            vec![
                body(0, [0.0, 0.0, 0.0], [0.0, 0.0, 0.0], 8.0),
                body(1, [0.0, 0.0, 2.0], [0.0, 0.0, 0.0], 8.0),
                body(2, [0.0, 0.0, 0.0], [0.0, 0.0, 0.0], 8.0),
            ],
            1.0,
            0.0,
        );
        u.run(mode, 1, Real(1.0));
        assert!(u.bodies[0].vel[2].0.is_nan());
        assert!(u.bodies[2].vel[2].0.is_nan());
        assert_eq!(floats(u.bodies[1].vel), [0.0, 0.0, -4.0]);
    }
}

#[test]
fn pulls_are_summed_in_ascending_order() {
    let bodies = three_bodies();
    let u = universe(three_bodies(), 1.0, 1e-5);
    let dt = 0.01;
    let mut expected = Vec::new();
    for target in &bodies {
        let mut acc = [0.0_f64; 3];
        for source in &bodies {
            if source.id != target.id {
                let f = floats(u.compute_force(target, source));
                for k in 0..3 {
                    acc[k] += f[k];
                }
            }
        }
        let mut vel = floats(target.vel);
        let mut pos = floats(target.pos);
        for k in 0..3 {
            vel[k] += acc[k] * dt;
            pos[k] += vel[k] * dt;
        }
        expected.push((pos, vel));
    }
    for mode in [Mode::Serial, Mode::Parallel] {
        let mut u = universe(three_bodies(), 1.0, 1e-5);
        u.run(mode, 1, Real(dt));
        for i in 0..3 {
            assert_eq!(floats(u.bodies[i].pos), expected[i].0);
            assert_eq!(floats(u.bodies[i].vel), expected[i].1);
        }
    }
}

#[test]
fn accelerations_come_from_the_state_before_the_tick() {
    // Two equal bodies: if the second saw the first already moved, the two
    // would not end mirror images of each other.
    for mode in [Mode::Serial, Mode::Parallel] {
        let mut u = universe(
            vec![
                body(0, [-1.0, 0.0, 0.0], [0.0, 0.0, 0.0], 4.0),
                body(1, [1.0, 0.0, 0.0], [0.0, 0.0, 0.0], 4.0),
            ],
            1.0,
            0.0,
        );
        u.run(mode, 1, Real(1.0));
        // r2 = 4, r = 2, f = 1, acc = 1 * 2 / 2 = 1 towards the other body.
        assert_eq!(floats(u.bodies[0].vel), [1.0, 0.0, 0.0]);
        assert_eq!(floats(u.bodies[1].vel), [-1.0, 0.0, 0.0]);
        assert_eq!(floats(u.bodies[0].pos), [0.0, 0.0, 0.0]);
        assert_eq!(floats(u.bodies[1].pos), [0.0, 0.0, 0.0]);
    }
}

#[test]
fn advance_changes_velocity_first() {
    let mut b = body(3, [10.0, 20.0, 30.0], [1.0, 0.0, -1.0], 2.5);
    b.advance(&reals([2.0, 4.0, 0.0]), Real(0.5));
    assert_eq!(floats(b.vel), [2.0, 2.0, -1.0]);
    assert_eq!(floats(b.pos), [11.0, 21.0, 29.5]);
    assert_eq!(b.id, 3);
    assert_eq!(b.mass, Real(2.5));
}

#[test]
fn new_universe_has_the_central_body_first() {
    for n in [1_usize, 2, 3, 17, 100] {
        let u = Universe::new(&random_orbits(n));
        assert_eq!(u.bodies.len(), n);
        for (i, b) in u.bodies.iter().enumerate() {
            assert_eq!(b.id, i);
        }
        assert_eq!(floats(u.bodies[0].pos), [0.0, 0.0, 0.0]);
        assert_eq!(floats(u.bodies[0].vel), [0.0, 0.0, 0.0]);
        assert_eq!(u.bodies[0].mass, Real(1_000_000.0));
        assert_eq!(u.g_const, Real(1.0));
        assert_eq!(u.softening, Real(1e-5));
    }
}

#[test]
fn new_universe_without_orbits_is_the_central_body_alone() {
    let u: Universe<Real> = Universe::new(&Vec::new());
    assert_eq!(u.bodies.len(), 1);
    assert_eq!(u.bodies[0].id, 0);
    assert_eq!(u.bodies[0].mass, Real(f64::from(CENTRAL_MASS)));
}

#[test]
fn central_body_rests_at_the_origin() {
    let b: Body<Real> = Body::central();
    assert_eq!(b.id, 0);
    assert_eq!(floats(b.pos), [0.0, 0.0, 0.0]);
    assert_eq!(floats(b.vel), [0.0, 0.0, 0.0]);
    assert_eq!(b.mass, Real(1_000_000.0));
}

#[test]
fn orbiter_moves_along_the_tangent() {
    // At the angle 0: position (dist, 0, 0), speed sqrt(1e6 / 100) = 100 along +y.
    let b = Body::orbiter(4, &orbit(100.0, 0.0, 2.0));
    assert_eq!(b.id, 4);
    assert_eq!(floats(b.pos), [100.0, 0.0, 0.0]);
    assert_eq!(floats(b.vel), [0.0, 100.0, 0.0]);
    assert_eq!(b.mass, Real(2.0));

    let dist = 400.0_f64;
    let angle = 1.25_f64;
    let speed = (1_000_000.0_f64 / dist).sqrt();
    let b = Body::orbiter(9, &orbit(dist, angle, 7.0));
    assert_eq!(floats(b.pos), [dist * angle.cos(), dist * angle.sin(), 0.0]);
    assert_eq!(floats(b.vel), [-speed * angle.sin(), speed * angle.cos(), 0.0]);
    assert_eq!(speed, 50.0);
}

#[test]
fn new_universe_places_each_orbit_in_order() {
    let orbits = vec![
        orbit(100.0, 0.0, 2.0),
        orbit(400.0, 0.0, 3.0),
    ];
    let u = Universe::new(&orbits);
    assert_eq!(u.bodies.len(), 3);
    assert_eq!(floats(u.bodies[1].pos), [100.0, 0.0, 0.0]);
    assert_eq!(floats(u.bodies[1].vel), [0.0, 100.0, 0.0]);
    assert_eq!(u.bodies[1].mass, Real(2.0));
    assert_eq!(floats(u.bodies[2].pos), [400.0, 0.0, 0.0]);
    assert_eq!(floats(u.bodies[2].vel), [0.0, 50.0, 0.0]);
    assert_eq!(u.bodies[2].mass, Real(3.0));
}

#[test]
fn orbit_keeps_its_radius() {
    for mode in [Mode::Serial, Mode::Parallel] {
        let radius = 500.0_f64;
        let orbits = vec![orbit(radius, 0.75, 5.0)];
        let mut u = Universe::new(&orbits);
        for _ in 0..200 {
            u.run(mode, 50, Real(0.01));
            let c = floats(u.bodies[0].pos);
            let p = floats(u.bodies[1].pos);
            let r = ((p[0] - c[0]).powi(2) + (p[1] - c[1]).powi(2) + (p[2] - c[2]).powi(2)).sqrt();
            assert!((r - radius).abs() / radius < 0.01, "radius {} after drift", r);
            assert_eq!(p[2], 0.0);
        }
    }
}

#[test]
fn run_is_its_single_ticks_in_sequence() {
    for mode in [Mode::Serial, Mode::Parallel] {
        let orbits = random_orbits(12);
        let mut whole = Universe::new(&orbits);
        let mut single = Universe::new(&orbits);
        let mut split = Universe::new(&orbits);
        whole.run(mode, 7, Real(0.01));
        for _ in 0..7 {
            match mode {
                Mode::Serial => single.step_serial(Real(0.01)),
                Mode::Parallel => single.step_parallel(Real(0.01)),
            }
        }
        split.run(mode, 3, Real(0.01));
        split.run(mode, 4, Real(0.01));
        assert!(same_state(&whole, &single));
        assert!(same_state(&whole, &split));
    }
}

#[test]
fn tick_length_is_a_hundredth() {
    let dt: Real = Universe::tick_length();
    assert_eq!(dt, Real(0.01));
}

#[test]
fn run_of_no_tick_changes_nothing() {
    for mode in [Mode::Serial, Mode::Parallel] {
        let mut u = universe(three_bodies(), 1.0, 1e-5);
        u.run(mode, 0, Real(0.01));
        assert!(same_state(&u, &universe(three_bodies(), 1.0, 1e-5)));
    }
}

#[test]
fn ticks_keep_count_identity_and_mass() {
    for mode in [Mode::Serial, Mode::Parallel] {
        let orbits = random_orbits(30);
        let start = Universe::new(&orbits);
        let mut u = Universe::new(&orbits);
        u.run(mode, 5, Real(0.01));
        assert_eq!(u.bodies.len(), 30);
        assert_eq!(u.g_const, start.g_const);
        assert_eq!(u.softening, start.softening);
        for i in 0..30 {
            assert_eq!(u.bodies[i].id, i);
            assert_eq!(u.bodies[i].mass, start.bodies[i].mass);
        }
    }
}

#[test]
fn empty_universe_steps_without_effect() {
    for mode in [Mode::Serial, Mode::Parallel] {
        let mut u = universe(Vec::new(), 1.0, 1e-5);
        u.run(mode, 4, Real(0.01));
        assert_eq!(u.bodies.len(), 0);
    }
}
