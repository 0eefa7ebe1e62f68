//! Per-volume bookkeeping of mass and energy: running sums of what flows in
//! and out during a tick, reduced once per tick to net rates that drive the
//! integration of mass and internal energy.
use vstd::prelude::*;
use crate::fixed::Real;
use crate::fixed::clamp;
use crate::fixed::in_range;
use crate::fixed::mul_raw;
use crate::fixed::div_raw;
use crate::integration::Integrate;
use crate::integration::rk4_of;

verus! {

/// What a `ConserveME` holds, as exact numbers of raw units.
pub struct ConserveModel {
    pub mdot_in: int,
    pub mdot_out: int,
    pub energy_in: int,
    pub energy_out: int,
    pub mdot: int,
    pub udot: int,
    pub mass: int,
    pub inenergy: int,
}

impl ConserveModel {
    /// Every component lies in the representable range.
    pub open spec fn wf(self) -> bool {
        &&& in_range(self.mdot_in)
        &&& in_range(self.mdot_out)
        &&& in_range(self.energy_in)
        &&& in_range(self.energy_out)
        &&& in_range(self.mdot)
        &&& in_range(self.udot)
        &&& in_range(self.mass)
        &&& in_range(self.inenergy)
    }

    /// No flux has been deposited since the sums were last cleared.
    pub open spec fn sums_clear(self) -> bool {
        self.mdot_in == 0 && self.mdot_out == 0 && self.energy_in == 0 && self.energy_out == 0
    }

    pub open spec fn with_mdot_in(self, x: int) -> ConserveModel {
        ConserveModel { mdot_in: clamp(self.mdot_in + x), ..self }
    }

    pub open spec fn with_mdot_out(self, x: int) -> ConserveModel {
        ConserveModel { mdot_out: clamp(self.mdot_out + x), ..self }
    }

    pub open spec fn with_energy_in(self, x: int) -> ConserveModel {
        ConserveModel { energy_in: clamp(self.energy_in + x), ..self }
    }

    pub open spec fn with_energy_out(self, x: int) -> ConserveModel {
        ConserveModel { energy_out: clamp(self.energy_out + x), ..self }
    }

    /// The net rates become the current derivative and the sums are cleared.
    pub open spec fn conserved(self) -> ConserveModel {
        ConserveModel {
            mdot_in: 0,
            mdot_out: 0,
            energy_in: 0,
            energy_out: 0,
            mdot: clamp(self.mdot_in - self.mdot_out),
            udot: clamp(self.energy_in - self.energy_out),
            ..self
        }
    }

    /// The rate of change: mass changes at `mdot`, internal energy at `udot`,
    /// and nothing else changes.
    pub open spec fn derivative(self) -> ConserveModel {
        ConserveModel {
            mdot_in: 0,
            mdot_out: 0,
            energy_in: 0,
            energy_out: 0,
            mdot: 0,
            udot: 0,
            mass: self.mdot,
            inenergy: self.udot,
        }
    }

    pub open spec fn plus(self, o: ConserveModel) -> ConserveModel {
        ConserveModel {
            mdot_in: clamp(self.mdot_in + o.mdot_in),
            mdot_out: clamp(self.mdot_out + o.mdot_out),
            energy_in: clamp(self.energy_in + o.energy_in),
            energy_out: clamp(self.energy_out + o.energy_out),
            mdot: clamp(self.mdot + o.mdot),
            udot: clamp(self.udot + o.udot),
            mass: clamp(self.mass + o.mass),
            inenergy: clamp(self.inenergy + o.inenergy),
        }
    }

    pub open spec fn times(self, k: int) -> ConserveModel {
        ConserveModel {
            mdot_in: clamp(mul_raw(self.mdot_in, k)),
            mdot_out: clamp(mul_raw(self.mdot_out, k)),
            energy_in: clamp(mul_raw(self.energy_in, k)),
            energy_out: clamp(mul_raw(self.energy_out, k)),
            mdot: clamp(mul_raw(self.mdot, k)),
            udot: clamp(mul_raw(self.udot, k)),
            mass: clamp(mul_raw(self.mass, k)),
            inenergy: clamp(mul_raw(self.inenergy, k)),
        }
    }

    pub open spec fn over(self, k: int) -> ConserveModel {
        ConserveModel {
            mdot_in: clamp(div_raw(self.mdot_in, k)),
            mdot_out: clamp(div_raw(self.mdot_out, k)),
            energy_in: clamp(div_raw(self.energy_in, k)),
            energy_out: clamp(div_raw(self.energy_out, k)),
            mdot: clamp(div_raw(self.mdot, k)),
            udot: clamp(div_raw(self.udot, k)),
            mass: clamp(div_raw(self.mass, k)),
            inenergy: clamp(div_raw(self.inenergy, k)),
        }
    }
}

/// Mass and energy conservation for one control volume: running sums of the
/// flux deposited during a tick, the net rates of the last reduction, and
/// the integrated mass and internal energy.
#[derive(Clone, Copy, Debug)]
pub struct ConserveME {
    mdot_in: Real,
    mdot_out: Real,
    energy_in: Real,
    energy_out: Real,
    mdot: Real,
    udot: Real,
    mass: Real,
    inenergy: Real,
}

impl View for ConserveME {
    type V = ConserveModel;

    closed spec fn view(&self) -> ConserveModel {
        ConserveModel {
            mdot_in: self.mdot_in@,
            mdot_out: self.mdot_out@,
            energy_in: self.energy_in@,
            energy_out: self.energy_out@,
            mdot: self.mdot@,
            udot: self.udot@,
            mass: self.mass@,
            inenergy: self.inenergy@,
        }
    }
}

impl ConserveME {
    /// The model of an accumulator always lies in the representable range.
    pub fn lemma_wf(&self)
        ensures
            self@.wf(),
    {
        self.mdot_in.lemma_range();
        self.mdot_out.lemma_range();
        self.energy_in.lemma_range();
        self.energy_out.lemma_range();
        self.mdot.lemma_range();
        self.udot.lemma_range();
        self.mass.lemma_range();
        self.inenergy.lemma_range();
    }

    /// A fresh accumulator holding `mass` and internal energy `inenergy`,
    /// with no flux and no rates.
    pub fn new_from_mu(mass: Real, inenergy: Real) -> (r: ConserveME)
        ensures
            r@ == (ConserveModel {
                mdot_in: 0,
                mdot_out: 0,
                energy_in: 0,
                energy_out: 0,
                mdot: 0,
                udot: 0,
                mass: mass@,
                inenergy: inenergy@,
            }),
    {
        ConserveME {
            mdot_in: Real::zero(),
            mdot_out: Real::zero(),
            energy_in: Real::zero(),
            energy_out: Real::zero(),
            mdot: Real::zero(),
            udot: Real::zero(),
            mass,
            inenergy,
        }
    }

    /// Sets the mass and energy flux sums to zero.
    fn clear(&mut self)
        ensures
            final(self)@ == (ConserveModel {
                mdot_in: 0,
                mdot_out: 0,
                energy_in: 0,
                energy_out: 0,
                ..old(self)@
            }),
    {
        self.mdot_in = Real::zero();
        self.mdot_out = Real::zero();
        self.energy_in = Real::zero();
        self.energy_out = Real::zero();
    }

    /// Adds `mdot` to the mass flowing in during this tick.
    pub fn add_mdot_in(&mut self, mdot: Real)
        ensures
            final(self)@ == old(self)@.with_mdot_in(mdot@),
    {
        self.mdot_in = self.mdot_in.add(&mdot);
    }

    /// Adds `mdot` to the mass flowing out during this tick.
    pub fn add_mdot_out(&mut self, mdot: Real)
        ensures
            final(self)@ == old(self)@.with_mdot_out(mdot@),
    {
        self.mdot_out = self.mdot_out.add(&mdot);
    }

    /// Adds `energy` to the energy flowing in during this tick.
    pub fn add_energy_in(&mut self, energy: Real)
        ensures
            final(self)@ == old(self)@.with_energy_in(energy@),
    {
        self.energy_in = self.energy_in.add(&energy);
    }

    /// Adds `energy` to the energy flowing out during this tick.
    pub fn add_energy_out(&mut self, energy: Real)
        ensures
            final(self)@ == old(self)@.with_energy_out(energy@),
    {
        self.energy_out = self.energy_out.add(&energy);
    }

    /// Reduces the tick's flux to the net rates
    /// `mdot = mdot_in - mdot_out` and `udot = energy_in - energy_out`,
    /// which become the current derivative, and clears the four sums.
    pub fn perform_conservation(&mut self)
        ensures
            final(self)@ == old(self)@.conserved(),
    {
        self.mdot = self.mdot_in.sub(&self.mdot_out);
        self.udot = self.energy_in.sub(&self.energy_out);
        self.clear();
    }

    pub fn mdot_in(&self) -> (r: Real)
        ensures
            r@ == self@.mdot_in,
    {
        self.mdot_in
    }

    pub fn mdot_out(&self) -> (r: Real)
        ensures
            r@ == self@.mdot_out,
    {
        self.mdot_out
    }

    pub fn energy_in(&self) -> (r: Real)
        ensures
            r@ == self@.energy_in,
    {
        self.energy_in
    }

    pub fn energy_out(&self) -> (r: Real)
        ensures
            r@ == self@.energy_out,
    {
        self.energy_out
    }

    pub fn mdot(&self) -> (r: Real)
        ensures
            r@ == self@.mdot,
    {
        self.mdot
    }

    pub fn udot(&self) -> (r: Real)
        ensures
            r@ == self@.udot,
    {
        self.udot
    }

    pub fn mass(&self) -> (r: Real)
        ensures
            r@ == self@.mass,
    {
        self.mass
    }

    pub fn inenergy(&self) -> (r: Real)
        ensures
            r@ == self@.inenergy,
    {
        self.inenergy
    }
}

impl Integrate for ConserveME {
    open spec fn derivative_of(x: ConserveModel) -> ConserveModel {
        x.derivative()
    }

    open spec fn add_of(a: ConserveModel, b: ConserveModel) -> ConserveModel {
        a.plus(b)
    }

    open spec fn mul_of(a: ConserveModel, k: int) -> ConserveModel {
        a.times(k)
    }

    open spec fn div_of(a: ConserveModel, k: int) -> ConserveModel {
        a.over(k)
    }

    /// A copy whose mass and internal energy are the current rates and whose
    /// other components are zero; the flux sums of `self` are left alone.
    fn get_derivative(&self) -> (r: ConserveME) {
        ConserveME {
            mdot_in: Real::zero(),
            mdot_out: Real::zero(),
            energy_in: Real::zero(),
            energy_out: Real::zero(),
            mdot: Real::zero(),
            udot: Real::zero(),
            mass: self.mdot,
            inenergy: self.udot,
        }
    }

    fn add(&self, o: &ConserveME) -> (r: ConserveME) {
        ConserveME {
            mdot_in: self.mdot_in.add(&o.mdot_in),
            mdot_out: self.mdot_out.add(&o.mdot_out),
            energy_in: self.energy_in.add(&o.energy_in),
            energy_out: self.energy_out.add(&o.energy_out),
            mdot: self.mdot.add(&o.mdot),
            udot: self.udot.add(&o.udot),
            mass: self.mass.add(&o.mass),
            inenergy: self.inenergy.add(&o.inenergy),
        }
    }

    fn mul(&self, k: Real) -> (r: ConserveME) {
        ConserveME {
            mdot_in: self.mdot_in.mul(&k),
            mdot_out: self.mdot_out.mul(&k),
            energy_in: self.energy_in.mul(&k),
            energy_out: self.energy_out.mul(&k),
            mdot: self.mdot.mul(&k),
            udot: self.udot.mul(&k),
            mass: self.mass.mul(&k),
            inenergy: self.inenergy.mul(&k),
        }
    }

    fn div(&self, k: Real) -> (r: ConserveME) {
        ConserveME {
            mdot_in: self.mdot_in.div(&k),
            mdot_out: self.mdot_out.div(&k),
            energy_in: self.energy_in.div(&k),
            energy_out: self.energy_out.div(&k),
            mdot: self.mdot.div(&k),
            udot: self.udot.div(&k),
            mass: self.mass.div(&k),
            inenergy: self.inenergy.div(&k),
        }
    }
}

/// A deposit of mass flux made during a tick: `(true, x)` adds `x` to the
/// inflow, `(false, x)` to the outflow.
pub open spec fn deposit_all(m: ConserveModel, ops: Seq<(bool, int)>) -> ConserveModel
    decreases ops.len(),
{
    if ops.len() == 0 {
        m
    } else {
        let prev = deposit_all(m, ops.drop_last());
        let op = ops.last();
        if op.0 {
            prev.with_mdot_in(op.1)
        } else {
            prev.with_mdot_out(op.1)
        }
    }
}

/// Total of the inflow deposits (`in_side`) or of the outflow deposits.
pub open spec fn deposit_total(ops: Seq<(bool, int)>, in_side: bool) -> int
    decreases ops.len(),
{
    if ops.len() == 0 {
        0
    } else {
        let op = ops.last();
        deposit_total(ops.drop_last(), in_side) + if op.0 == in_side {
            op.1
        } else {
            0
        }
    }
}

/// No running sum leaves the representable range along the way.
pub open spec fn deposits_fit(ops: Seq<(bool, int)>) -> bool {
    forall|i: int|
        0 <= i <= ops.len() ==> {
            &&& in_range(#[trigger] deposit_total(ops.take(i), true))
            &&& in_range(deposit_total(ops.take(i), false))
        }
}

proof fn lemma_deposit_sums(m: ConserveModel, ops: Seq<(bool, int)>)
    requires
        m.sums_clear(),
        deposits_fit(ops),
    ensures
        deposit_all(m, ops) == (ConserveModel {
            mdot_in: deposit_total(ops, true),
            mdot_out: deposit_total(ops, false),
            ..m
        }),
    decreases ops.len(),
{
    assert(ops.take(ops.len() as int) =~= ops);
    if ops.len() > 0 {
        let prev = ops.drop_last();
        assert forall|i: int| 0 <= i <= prev.len() implies {
            &&& in_range(#[trigger] deposit_total(prev.take(i), true))
            &&& in_range(deposit_total(prev.take(i), false))
        } by {
            assert(prev.take(i) =~= ops.take(i));
        }
        lemma_deposit_sums(m, prev);
    }
}

/// Whatever inflow and outflow deposits a tick brings, once reduced the mass
/// rate is their difference and all four running sums are zero again.
pub proof fn lemma_reset_law(m: ConserveModel, ops: Seq<(bool, int)>)
    requires
        m.wf(),
        m.sums_clear(),
        deposits_fit(ops),
        in_range(deposit_total(ops, true) - deposit_total(ops, false)),
    ensures
        deposit_all(m, ops).conserved().mdot == deposit_total(ops, true) - deposit_total(ops, false),
        deposit_all(m, ops).conserved().sums_clear(),
{
    lemma_deposit_sums(m, ops);
}

/// `n` ticks of a volume that nothing flows through: each tick reduces the
/// (empty) flux sums and takes one Runge-Kutta step of size `dt`.
pub open spec fn closed_ticks(m: ConserveModel, dt: int, n: nat) -> ConserveModel
    decreases n,
{
    if n == 0 {
        m
    } else {
        rk4_of::<ConserveME>(closed_ticks(m, dt, (n - 1) as nat).conserved(), dt)
    }
}

proof fn lemma_still_step(x: ConserveModel, dt: int)
    requires
        x.wf(),
        x.sums_clear(),
        x.mdot == 0,
        x.udot == 0,
    ensures
        rk4_of::<ConserveME>(x, dt) == x,
{
    let zero = x.derivative();
    crate::fixed::lemma_zero_ops(dt);
    crate::fixed::lemma_zero_ops(crate::fixed::whole(2));
    crate::fixed::lemma_zero_ops(crate::fixed::whole(6));
    assert(zero.times(dt) == zero);
    assert(zero.over(crate::fixed::whole(2)) == zero);
    assert(zero.over(crate::fixed::whole(6)) == zero);
    assert(zero.times(crate::fixed::whole(2)) == zero);
    assert(zero.plus(zero) == zero);
    assert(x.plus(zero) == x);
}

/// A volume with no connected flux keeps its mass and internal energy, for
/// any number of ticks and any step size.
pub proof fn lemma_closed_system(m: ConserveModel, dt: int, n: nat)
    requires
        m.wf(),
        m.sums_clear(),
    ensures
        closed_ticks(m, dt, n).mass == m.mass,
        closed_ticks(m, dt, n).inenergy == m.inenergy,
        n > 0 ==> closed_ticks(m, dt, n) == m.conserved(),
    decreases n,
{
    if n > 0 {
        lemma_closed_system(m, dt, (n - 1) as nat);
        let prev = closed_ticks(m, dt, (n - 1) as nat);
        if n == 1 {
            assert(prev == m);
        } else {
            assert(prev == m.conserved());
            assert(prev.conserved() == m.conserved());
        }
        lemma_still_step(m.conserved(), dt);
    }
}

} // verus!
