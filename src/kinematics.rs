//! A point mass under a constant force: the simplest quantity to integrate.
use vstd::prelude::*;
use crate::fixed::Real;
use crate::fixed::clamp;
use crate::fixed::div_raw;
use crate::fixed::mul_raw;
use crate::integration::Integrate;
use crate::integration::euler_of;
use crate::integration::rk4_of;
use crate::fixed::in_range;
use crate::fixed::whole;

verus! {

/// What a `Location` holds, in raw units.
pub struct LocationModel {
    pub force: int,
    pub mass: int,
    pub position: int,
    pub velocity: int,
}

/// A body of `mass` pushed by a constant `force` along one axis.
#[derive(Clone, Copy, Debug)]
pub struct Location {
    pub force: Real,
    pub mass: Real,
    pub position: Real,
    pub velocity: Real,
}

/// Raw acceleration `force / mass`; a body without mass is not accelerated.
pub open spec fn acceleration_of(force: int, mass: int) -> int {
    if mass == 0 {
        0
    } else {
        clamp(div_raw(force, mass))
    }
}

impl View for Location {
    type V = LocationModel;

    open spec fn view(&self) -> LocationModel {
        LocationModel {
            force: self.force@,
            mass: self.mass@,
            position: self.position@,
            velocity: self.velocity@,
        }
    }
}

impl Location {
    /// A body at rest at the origin.
    pub fn at_rest(force: Real, mass: Real) -> (r: Location)
        ensures
            r@ == (LocationModel { force: force@, mass: mass@, position: 0, velocity: 0 }),
    {
        Location { force, mass, position: Real::zero(), velocity: Real::zero() }
    }

    /// Acceleration `force / mass`.
    pub fn acceleration(&self) -> (r: Real)
        ensures
            r@ == acceleration_of(self.force@, self.mass@),
    {
        if self.mass.raw() == 0 {
            Real::zero()
        } else {
            self.force.div(&self.mass)
        }
    }
}

impl Integrate for Location {
    /// Position changes at the velocity, velocity at the acceleration; force
    /// and mass stay.
    open spec fn derivative_of(x: LocationModel) -> LocationModel {
        LocationModel {
            force: 0,
            mass: 0,
            position: x.velocity,
            velocity: acceleration_of(x.force, x.mass),
        }
    }

    open spec fn add_of(a: LocationModel, b: LocationModel) -> LocationModel {
        LocationModel {
            force: clamp(a.force + b.force),
            mass: clamp(a.mass + b.mass),
            position: clamp(a.position + b.position),
            velocity: clamp(a.velocity + b.velocity),
        }
    }

    open spec fn mul_of(a: LocationModel, k: int) -> LocationModel {
        LocationModel {
            force: clamp(mul_raw(a.force, k)),
            mass: clamp(mul_raw(a.mass, k)),
            position: clamp(mul_raw(a.position, k)),
            velocity: clamp(mul_raw(a.velocity, k)),
        }
    }

    open spec fn div_of(a: LocationModel, k: int) -> LocationModel {
        LocationModel {
            force: clamp(div_raw(a.force, k)),
            mass: clamp(div_raw(a.mass, k)),
            position: clamp(div_raw(a.position, k)),
            velocity: clamp(div_raw(a.velocity, k)),
        }
    }

    fn get_derivative(&self) -> (r: Location) {
        Location {
            force: Real::zero(),
            mass: Real::zero(),
            position: self.velocity,
            velocity: self.acceleration(),
        }
    }

    fn add(&self, o: &Location) -> (r: Location) {
        Location {
            force: self.force.add(&o.force),
            mass: self.mass.add(&o.mass),
            position: self.position.add(&o.position),
            velocity: self.velocity.add(&o.velocity),
        }
    }

    fn mul(&self, k: Real) -> (r: Location) {
        Location {
            force: self.force.mul(&k),
            mass: self.mass.mul(&k),
            position: self.position.mul(&k),
            velocity: self.velocity.mul(&k),
        }
    }

    fn div(&self, k: Real) -> (r: Location) {
        Location {
            force: self.force.div(&k),
            mass: self.mass.div(&k),
            position: self.position.div(&k),
            velocity: self.velocity.div(&k),
        }
    }
}

/// `n` Euler steps of size `dt`.
pub open spec fn euler_steps(x: LocationModel, dt: int, n: nat) -> LocationModel
    decreases n,
{
    if n == 0 {
        x
    } else {
        euler_of::<Location>(euler_steps(x, dt, (n - 1) as nat), dt)
    }
}

/// `n` Runge-Kutta steps of size `dt`.
pub open spec fn rk4_steps(x: LocationModel, dt: int, n: nat) -> LocationModel
    decreases n,
{
    if n == 0 {
        x
    } else {
        rk4_of::<Location>(rk4_steps(x, dt, (n - 1) as nat), dt)
    }
}

/// The velocity gained in one Euler step under acceleration `a`: `a dt`.
pub open spec fn euler_dv(a: int, dt: int) -> int {
    clamp(mul_raw(a, dt))
}

/// The velocity gained in one Runge-Kutta step under acceleration `a`: the
/// four equal slopes, weighted 1, 2, 2, 1, times `dt / 6`.
pub open spec fn rk4_dv(a: int, dt: int) -> int {
    let twice = clamp(mul_raw(a, whole(2)));
    let total = clamp(clamp(clamp(a + twice) + twice) + a);
    clamp(div_raw(clamp(mul_raw(total, dt)), whole(6)))
}

proof fn lemma_zero_part(dt: int)
    ensures
        clamp(mul_raw(0, dt)) == 0,
        clamp(div_raw(0, whole(2))) == 0,
        clamp(div_raw(0, whole(6))) == 0,
        clamp(mul_raw(0, whole(2))) == 0,
{
    crate::fixed::lemma_zero_ops(dt);
    crate::fixed::lemma_zero_ops(whole(2));
    crate::fixed::lemma_zero_ops(whole(6));
}

proof fn lemma_euler_step(x: LocationModel, dt: int)
    requires
        in_range(x.force),
        in_range(x.mass),
        in_range(x.velocity + euler_dv(acceleration_of(x.force, x.mass), dt)),
    ensures
        euler_of::<Location>(x, dt).force == x.force,
        euler_of::<Location>(x, dt).mass == x.mass,
        euler_of::<Location>(x, dt).velocity == x.velocity + euler_dv(acceleration_of(x.force, x.mass), dt),
{
    lemma_zero_part(dt);
}

proof fn lemma_rk4_step(x: LocationModel, dt: int)
    requires
        in_range(x.force),
        in_range(x.mass),
        in_range(x.velocity + rk4_dv(acceleration_of(x.force, x.mass), dt)),
    ensures
        rk4_of::<Location>(x, dt).force == x.force,
        rk4_of::<Location>(x, dt).mass == x.mass,
        rk4_of::<Location>(x, dt).velocity == x.velocity + rk4_dv(acceleration_of(x.force, x.mass), dt),
{
    lemma_zero_part(dt);
}

proof fn lemma_between(v: int, dv: int, k: int, n: int)
    requires
        0 <= k <= n,
        in_range(v),
        in_range(v + n * dv),
    ensures
        in_range(v + k * dv),
{
    if dv >= 0 {
        assert(0 <= k * dv <= n * dv) by (nonlinear_arith)
            requires
                0 <= k <= n,
                dv >= 0,
        ;
    } else {
        assert(n * dv <= k * dv <= 0) by (nonlinear_arith)
            requires
                0 <= k <= n,
                dv < 0,
        ;
    }
}

/// Under a constant force, every Euler step raises the velocity by the same
/// `a dt` and keeps force and mass: after `n` steps the velocity is
/// `v0 + n a dt`, as long as it stays in the representable range.
pub proof fn lemma_euler_constant_force(x: LocationModel, dt: int, n: nat)
    requires
        in_range(x.force),
        in_range(x.mass),
        in_range(x.velocity),
        in_range(x.velocity + n * euler_dv(acceleration_of(x.force, x.mass), dt)),
    ensures
        euler_steps(x, dt, n).force == x.force,
        euler_steps(x, dt, n).mass == x.mass,
        euler_steps(x, dt, n).velocity == x.velocity + n * euler_dv(acceleration_of(x.force, x.mass), dt),
    decreases n,
{
    let dv = euler_dv(acceleration_of(x.force, x.mass), dt);
    if n > 0 {
        lemma_between(x.velocity, dv, n - 1, n as int);
        lemma_euler_constant_force(x, dt, (n - 1) as nat);
        let prev = euler_steps(x, dt, (n - 1) as nat);
        assert(prev.velocity + dv == x.velocity + n * dv) by (nonlinear_arith)
            requires
                prev.velocity == x.velocity + (n - 1) * dv,
        ;
        lemma_euler_step(prev, dt);
        assert(euler_steps(x, dt, n) == euler_of::<Location>(prev, dt));
    } else {
        assert(n * dv == 0) by (nonlinear_arith)
            requires
                n == 0,
        ;
    }
}

/// Under a constant force, every Runge-Kutta step raises the velocity by the
/// same amount and keeps force and mass: after `n` steps the velocity is
/// `v0 + n dv`, as long as it stays in the representable range.
pub proof fn lemma_rk4_constant_force(x: LocationModel, dt: int, n: nat)
    requires
        in_range(x.force),
        in_range(x.mass),
        in_range(x.velocity),
        in_range(x.velocity + n * rk4_dv(acceleration_of(x.force, x.mass), dt)),
    ensures
        rk4_steps(x, dt, n).force == x.force,
        rk4_steps(x, dt, n).mass == x.mass,
        rk4_steps(x, dt, n).velocity == x.velocity + n * rk4_dv(acceleration_of(x.force, x.mass), dt),
    decreases n,
{
    let dv = rk4_dv(acceleration_of(x.force, x.mass), dt);
    if n > 0 {
        lemma_between(x.velocity, dv, n - 1, n as int);
        lemma_rk4_constant_force(x, dt, (n - 1) as nat);
        let prev = rk4_steps(x, dt, (n - 1) as nat);
        assert(prev.velocity + dv == x.velocity + n * dv) by (nonlinear_arith)
            requires
                prev.velocity == x.velocity + (n - 1) * dv,
        ;
        lemma_rk4_step(prev, dt);
        assert(rk4_steps(x, dt, n) == rk4_of::<Location>(prev, dt));
    } else {
        assert(n * dv == 0) by (nonlinear_arith)
            requires
                n == 0,
        ;
    }
}

} // verus!
