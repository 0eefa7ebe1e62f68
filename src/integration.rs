//! Fixed-step explicit integration over any quantity that can be added,
//! scaled and differentiated.
use vstd::prelude::*;
use crate::fixed::Real;
use crate::fixed::whole;

verus! {

/// A quantity that the integrators can advance: it can be added to another,
/// multiplied or divided by a number, and knows its own rate of change.
pub trait Integrate: View + Sized {
    /// The rate of change of a quantity, as a quantity of the same kind.
    spec fn derivative_of(x: Self::V) -> Self::V;

    spec fn add_of(a: Self::V, b: Self::V) -> Self::V;

    /// Every component multiplied by the raw number `k`.
    spec fn mul_of(a: Self::V, k: int) -> Self::V;

    /// Every component divided by the raw number `k`.
    spec fn div_of(a: Self::V, k: int) -> Self::V;

    /// The rate of change; it neither reads nor changes anything but `self`.
    fn get_derivative(&self) -> (r: Self)
        ensures
            r@ == Self::derivative_of(self@),
    ;

    fn add(&self, o: &Self) -> (r: Self)
        ensures
            r@ == Self::add_of(self@, o@),
    ;

    fn mul(&self, k: Real) -> (r: Self)
        ensures
            r@ == Self::mul_of(self@, k@),
    ;

    fn div(&self, k: Real) -> (r: Self)
        requires
            k@ != 0,
        ensures
            r@ == Self::div_of(self@, k@),
    ;
}

/// The classic Runge-Kutta step: four slopes, each taken at a point reached
/// from `x` by the previous slope, combined with weights 1, 2, 2, 1.
pub open spec fn rk4_of<T: Integrate>(x: T::V, dt: int) -> T::V {
    let two = whole(2);
    let six = whole(6);
    let k1 = T::derivative_of(x);
    let k2 = T::derivative_of(T::add_of(x, T::div_of(T::mul_of(k1, dt), two)));
    let k3 = T::derivative_of(T::add_of(x, T::div_of(T::mul_of(k2, dt), two)));
    let k4 = T::derivative_of(T::add_of(x, T::mul_of(k3, dt)));
    let total = T::add_of(T::add_of(T::add_of(k1, T::mul_of(k2, two)), T::mul_of(k3, two)), k4);
    T::add_of(x, T::div_of(T::mul_of(total, dt), six))
}

/// The explicit Euler step: `x + dt * x'`.
pub open spec fn euler_of<T: Integrate>(x: T::V, dt: int) -> T::V {
    T::add_of(x, T::mul_of(T::derivative_of(x), dt))
}

/// One classic fourth-order Runge-Kutta step of size `dt`. Each stage is
/// evaluated on a fresh quantity; `x` changes only at the end.
pub fn rk4<T: Integrate>(x: &mut T, dt: Real)
    ensures
        final(x)@ == rk4_of::<T>(old(x)@, dt@),
{
    let two = Real::from_int(2);
    let six = Real::from_int(6);
    let k1 = x.get_derivative();
    let k2 = x.add(&k1.mul(dt).div(two)).get_derivative();
    let k3 = x.add(&k2.mul(dt).div(two)).get_derivative();
    let k4 = x.add(&k3.mul(dt)).get_derivative();
    let total = k1.add(&k2.mul(two)).add(&k3.mul(two)).add(&k4);
    let next = x.add(&total.mul(dt).div(six));
    *x = next;
}

/// One explicit Euler step of size `dt`.
pub fn euler<T: Integrate>(x: &mut T, dt: Real)
    ensures
        final(x)@ == euler_of::<T>(old(x)@, dt@),
{
    let next = x.add(&x.get_derivative().mul(dt));
    *x = next;
}

} // verus!
